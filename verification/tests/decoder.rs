use subtile::pgs::ods::{self, Error as OdsError};
use subtile::pgs::pds::{self, Error as PdsError};
use subtile::pgs::{
    DecodeTimeImage, DecodeTimeOnly, LastInSequenceFlag, ObjectDefinition,
    ObjectDefinitionSegment, Palette, PaletteEntry, PgsDecoder, PgsError, ReadError, ReadExt,
    SegmentBuf, SegmentProcessor, SegmentSplitter, SliceReader,
};
use subtile::time::{TimePoint, TimeSpan};

fn segment(pts: u32, code: u8, body: &[u8]) -> Vec<u8> {
    let mut bytes: Vec<u8> = vec![0x50, 0x47];
    bytes.extend_from_slice(&pts.to_be_bytes());
    bytes.extend_from_slice(&[0, 0, 0, 0]);
    bytes.push(code);
    bytes.extend_from_slice(&(body.len() as u16).to_be_bytes());
    bytes.extend_from_slice(body);
    bytes
}

fn end(pts: u32) -> Vec<u8> {
    segment(pts, 0x80, &[])
}

fn palette_body() -> Vec<u8> {
    vec![0x00, 0x01, 0x01, 0x10, 0x80, 0x80, 0xff, 0x02, 0xeb, 0x70, 0x90, 0x40]
}

fn object_body(flag: u8, width: u16, height: u16, total: usize, data: &[u8]) -> Vec<u8> {
    let mut body: Vec<u8> = vec![0x00, 0x07, 0x00, flag];
    let length: u32 = total as u32 + 4;
    body.extend_from_slice(&length.to_be_bytes()[1..]);
    body.extend_from_slice(&width.to_be_bytes());
    body.extend_from_slice(&height.to_be_bytes());
    body.extend_from_slice(data);
    body
}

fn last_body(data: &[u8]) -> Vec<u8> {
    let mut body: Vec<u8> = vec![0x00, 0x07, 0x00, 0x40];
    body.extend_from_slice(data);
    body
}

// Two lines of three pixels: 1 1 2 / 0 0 2.
const RLE: [u8; 10] = [0x01, 0x01, 0x02, 0x00, 0x00, 0x00, 0x02, 0x02, 0x00, 0x00];

fn entry(y: u8, cr: u8, cb: u8, a: u8) -> PaletteEntry {
    PaletteEntry {
        luminance: y,
        color_difference_red: cr,
        color_difference_blue: cb,
        transparency: a,
    }
}

#[test]
fn time_only_two_end_segments() {
    let mut stream = end(90 * 1000);
    stream.extend(end(90 * 2500 + 45));
    let mut reader = SliceReader::new(&stream);
    let span = DecodeTimeOnly::parse_next(&mut reader).unwrap().unwrap();
    assert_eq!(
        span,
        TimeSpan::new(TimePoint::from_msecs(1000), TimePoint::from_msecs(2500))
    );
    assert_eq!(reader.offset(), 26);
    assert_eq!(DecodeTimeOnly::parse_next(&mut reader), Ok(None));
    assert_eq!(reader.offset(), 26);
}

#[test]
fn time_only_skips_what_is_no_end() {
    let mut stream = segment(10, 0x16, &[1, 2, 3]);
    stream.extend(segment(10, 0x17, &[4]));
    stream.extend(segment(10, 0x14, &palette_body()));
    stream.extend(segment(10, 0x15, &[9, 9]));
    stream.extend(end(900));
    stream.extend(segment(20, 0x16, &[]));
    stream.extend(end(1800));
    stream.extend(end(2700));
    stream.extend(end(3600));
    let mut reader = SliceReader::new(&stream);
    assert_eq!(
        DecodeTimeOnly::parse_next(&mut reader),
        Ok(Some(TimeSpan::new(TimePoint::from_msecs(10), TimePoint::from_msecs(20))))
    );
    assert_eq!(
        DecodeTimeOnly::parse_next(&mut reader),
        Ok(Some(TimeSpan::new(TimePoint::from_msecs(30), TimePoint::from_msecs(40))))
    );
    assert_eq!(DecodeTimeOnly::parse_next(&mut reader), Ok(None));
}

#[test]
fn time_only_end_of_source() {
    let empty: Vec<u8> = Vec::new();
    assert_eq!(DecodeTimeOnly::parse_next(&mut SliceReader::new(&empty)), Ok(None));
    let one = end(90);
    assert_eq!(DecodeTimeOnly::parse_next(&mut SliceReader::new(&one)), Ok(None));
    let mut cut = segment(10, 0x16, &[1, 2, 3]);
    cut.truncate(14);
    assert_eq!(DecodeTimeOnly::parse_next(&mut SliceReader::new(&cut)), Ok(None));
}

#[test]
fn time_only_errors() {
    let mut stream = end(90);
    stream.extend_from_slice(&[0x50, 0x47, 0x00]);
    assert_eq!(
        DecodeTimeOnly::parse_next(&mut SliceReader::new(&stream)),
        Err(PgsError::SegmentFailReadHeader)
    );
    let mut stream = end(90);
    stream.extend_from_slice(&[0x51]);
    assert_eq!(
        DecodeTimeOnly::parse_next(&mut SliceReader::new(&stream)),
        Err(PgsError::SegmentPGMissing)
    );
    let mut stream = end(90);
    stream.extend(segment(90, 0x42, &[]));
    assert_eq!(
        DecodeTimeOnly::parse_next(&mut SliceReader::new(&stream)),
        Err(PgsError::SegmentInvalidTypeCode { value: 0x42 })
    );
    let stream = segment(90, 0x16, &[1]);
    let mut reader = SliceReader::new(&stream);
    reader.skip_data(usize::MAX - 13).unwrap();
    assert_eq!(DecodeTimeOnly::parse_next(&mut reader), Ok(None));
}

#[test]
fn time_image_single_segment_object() {
    let mut stream = segment(0, 0x16, &[0; 5]);
    stream.extend(segment(0, 0x17, &[0; 2]));
    stream.extend(segment(0, 0x14, &palette_body()));
    stream.extend(segment(0, 0x15, &object_body(0xc0, 3, 2, RLE.len(), &RLE)));
    stream.extend(end(9000));
    stream.extend(segment(0, 0x16, &[0; 5]));
    stream.extend(end(18000));
    stream.extend(end(27000));
    let mut reader = SliceReader::new(&stream);
    let (span, image) = DecodeTimeImage::parse_next(&mut reader).unwrap().unwrap();
    assert_eq!(span, TimeSpan::new(TimePoint::from_msecs(100), TimePoint::from_msecs(200)));
    assert_eq!(image.width(), 3);
    assert_eq!(image.height(), 2);
    assert_eq!(image.raw(), &RLE);
    assert_eq!(image.palette().get(1), entry(0x10, 0x80, 0x80, 0xff));
    assert_eq!(image.palette().get(2), entry(0xeb, 0x70, 0x90, 0x40));
    assert_eq!(image.palette().get(0), entry(0, 0, 0, 0));
    assert_eq!(image.palette().get(255), entry(0, 0, 0, 0));
    assert_eq!(image.to_indexes(), Ok(vec![1, 1, 2, 0, 0, 2]));
    assert_eq!(
        image.to_colors(),
        Ok(vec![
            entry(0x10, 0x80, 0x80, 0xff),
            entry(0x10, 0x80, 0x80, 0xff),
            entry(0xeb, 0x70, 0x90, 0x40),
            entry(0, 0, 0, 0),
            entry(0, 0, 0, 0),
            entry(0xeb, 0x70, 0x90, 0x40),
        ])
    );
    assert_eq!(reader.offset(), stream.len() - 13);
    assert_eq!(DecodeTimeImage::parse_next(&mut reader), Ok(None));
}

#[test]
fn time_image_object_in_two_segments() {
    let mut stream = segment(0, 0x14, &palette_body());
    stream.extend(segment(0, 0x15, &object_body(0x80, 3, 2, RLE.len(), &RLE[..5])));
    stream.extend(segment(0, 0x15, &last_body(&RLE[5..])));
    stream.extend(end(90));
    stream.extend(end(180));
    let mut reader = SliceReader::new(&stream);
    let (span, image) = DecodeTimeImage::parse_next(&mut reader).unwrap().unwrap();
    assert_eq!(span, TimeSpan::new(TimePoint::from_msecs(1), TimePoint::from_msecs(2)));
    assert_eq!(image.width(), 3);
    assert_eq!(image.height(), 2);
    assert_eq!(image.raw(), &RLE);
    assert_eq!(image.to_indexes(), Ok(vec![1, 1, 2, 0, 0, 2]));
}

#[test]
fn time_image_later_palette_wins() {
    let mut second = palette_body();
    second[3] = 0x77;
    let mut stream = segment(0, 0x14, &palette_body());
    stream.extend(segment(0, 0x14, &second));
    stream.extend(segment(0, 0x15, &object_body(0xc0, 3, 2, RLE.len(), &RLE)));
    stream.extend(end(90));
    stream.extend(end(180));
    let (_, image) = DecodeTimeImage::parse_next(&mut SliceReader::new(&stream))
        .unwrap()
        .unwrap();
    assert_eq!(image.palette().get(1), entry(0x77, 0x80, 0x80, 0xff));
}

#[test]
fn time_image_missing_palette() {
    let mut stream = segment(0, 0x15, &object_body(0xc0, 3, 2, RLE.len(), &RLE));
    stream.extend(end(90));
    stream.extend(end(180));
    assert_eq!(
        DecodeTimeImage::parse_next(&mut SliceReader::new(&stream)),
        Err(PgsError::MissingPalette)
    );
    // The palette of the first object is taken: the second finds none.
    let mut stream = segment(0, 0x14, &palette_body());
    stream.extend(segment(0, 0x15, &object_body(0xc0, 3, 2, RLE.len(), &RLE)));
    stream.extend(segment(0, 0x15, &object_body(0xc0, 3, 2, RLE.len(), &RLE)));
    stream.extend(end(90));
    stream.extend(end(180));
    assert_eq!(
        DecodeTimeImage::parse_next(&mut SliceReader::new(&stream)),
        Err(PgsError::MissingPalette)
    );
}

#[test]
fn time_image_missing_image() {
    let mut stream = end(90);
    stream.extend(end(180));
    assert_eq!(
        DecodeTimeImage::parse_next(&mut SliceReader::new(&stream)),
        Err(PgsError::MissingImage)
    );
    let mut stream = segment(0, 0x14, &palette_body());
    stream.extend(end(90));
    stream.extend(end(180));
    assert_eq!(
        DecodeTimeImage::parse_next(&mut SliceReader::new(&stream)),
        Err(PgsError::MissingImage)
    );
    let mut stream = segment(0, 0x14, &palette_body());
    stream.extend(segment(0, 0x15, &object_body(0x80, 3, 2, RLE.len(), &RLE[..5])));
    stream.extend(end(90));
    stream.extend(end(180));
    assert_eq!(
        DecodeTimeImage::parse_next(&mut SliceReader::new(&stream)),
        Err(PgsError::MissingImage)
    );
}

#[test]
fn time_image_drops_what_is_left_over() {
    let mut stream = segment(0, 0x14, &palette_body());
    stream.extend(segment(0, 0x15, &object_body(0xc0, 3, 2, RLE.len(), &RLE)));
    stream.extend(segment(0, 0x14, &palette_body()));
    stream.extend(end(90));
    stream.extend(end(180));
    stream.extend(segment(0, 0x15, &object_body(0xc0, 3, 2, RLE.len(), &RLE)));
    stream.extend(end(270));
    stream.extend(end(360));
    let mut reader = SliceReader::new(&stream);
    assert!(DecodeTimeImage::parse_next(&mut reader).unwrap().is_some());
    assert_eq!(DecodeTimeImage::parse_next(&mut reader), Err(PgsError::MissingPalette));
    let only_palette = segment(0, 0x14, &palette_body());
    assert_eq!(DecodeTimeImage::parse_next(&mut SliceReader::new(&only_palette)), Ok(None));
}

#[test]
fn time_image_segment_errors() {
    let mut stream = segment(0, 0x14, &[0, 1, 2]);
    stream.extend(end(90));
    assert_eq!(
        DecodeTimeImage::parse_next(&mut SliceReader::new(&stream)),
        Err(PgsError::PDSParse(PdsError::SegmentSize { segments_size: 3 }))
    );
    let mut stream = segment(0, 0x14, &palette_body());
    stream.truncate(stream.len() - 1);
    assert_eq!(
        DecodeTimeImage::parse_next(&mut SliceReader::new(&stream)),
        Err(PgsError::PDSParse(PdsError::ReadData { buff_size: 12 }))
    );
    let stream = segment(0, 0x15, &[0, 0, 0, 0x41]);
    assert_eq!(
        DecodeTimeImage::parse_next(&mut SliceReader::new(&stream)),
        Err(PgsError::ODSParse(OdsError::LastInSequenceFlagInvalidValue { value: 0x41 }))
    );
    let stream = segment(0, 0x15, &last_body(&[1, 2]));
    assert_eq!(
        DecodeTimeImage::parse_next(&mut SliceReader::new(&stream)),
        Err(PgsError::ODSParse(OdsError::LastInSequenceFlagNotManaged(
            LastInSequenceFlag::Last
        )))
    );
}

#[test]
fn object_size_has_to_match() {
    // The header says 22 bytes, the object 11 and 10.
    let mut body = object_body(0xc0, 3, 2, RLE.len(), &RLE);
    body.push(0xee);
    let mut reader = SliceReader::new(&body);
    assert_eq!(
        ods::read(&mut reader, body.len(), None),
        Err(OdsError::SegmentSizeMismatch { segments_size: 22, data_size: 10 })
    );
    let body = object_body(0xc0, 3, 2, RLE.len(), &RLE);
    assert_eq!(
        ods::read(&mut SliceReader::new(&body), 20, None),
        Err(OdsError::SegmentSizeMismatch { segments_size: 20, data_size: 10 })
    );
    let read = ods::read(&mut SliceReader::new(&body), 21, None).unwrap();
    assert_eq!(
        read,
        ObjectDefinitionSegment::Complete(ObjectDefinition {
            width: 3,
            height: 2,
            object_data: RLE.to_vec()
        })
    );
}

#[test]
fn object_read_errors() {
    let body = object_body(0xc0, 3, 2, RLE.len(), &RLE);
    let read = |len: usize, size: usize| ods::read(&mut SliceReader::new(&body[..len]), size, None);
    assert_eq!(read(0, 21), Err(OdsError::LastInSequenceFlagReadData));
    assert_eq!(read(3, 21), Err(OdsError::LastInSequenceFlagReadData));
    assert_eq!(read(4, 21), Err(OdsError::ReadObjectDataLength));
    assert_eq!(read(6, 21), Err(OdsError::ReadObjectDataLength));
    assert_eq!(read(7, 21), Err(OdsError::ReadWidth));
    assert_eq!(read(8, 21), Err(OdsError::ReadWidth));
    assert_eq!(read(9, 21), Err(OdsError::ReadHeight));
    assert_eq!(read(10, 21), Err(OdsError::ReadHeight));
    assert_eq!(read(11, 21), Err(OdsError::ObjectData { buff_size: 10 }));
    assert_eq!(read(20, 21), Err(OdsError::ObjectData { buff_size: 10 }));
    assert!(read(21, 21).is_ok());

    let short: Vec<u8> = vec![0, 0, 0, 0xc0, 0, 0, 3, 0, 1, 0, 1];
    assert_eq!(
        ods::read(&mut SliceReader::new(&short), 11, None),
        Err(OdsError::ObjectDataLengthTooShort { length: 3 })
    );
    let mut reader = SliceReader::new(&body);
    reader.skip_data(usize::MAX - 2).unwrap();
    assert_eq!(
        ods::read(&mut reader, 21, None),
        Err(OdsError::SkipObjectIdAndVerNum(ReadError::FailedSeek))
    );
}

#[test]
fn object_parts() {
    let first = object_body(0x80, 3, 2, RLE.len(), &RLE[..5]);
    let held = ods::read(&mut SliceReader::new(&first), first.len(), None).unwrap();
    assert_eq!(
        held,
        ObjectDefinitionSegment::Incomplete {
            object: ObjectDefinition { width: 3, height: 2, object_data: RLE[..5].to_vec() },
            expected: 10
        }
    );
    let last = last_body(&RLE[5..]);
    let mut reader = SliceReader::new(&last);
    let whole = ods::read(&mut reader, last.len(), Some(held.clone())).unwrap();
    assert_eq!(reader.offset(), last.len());
    assert_eq!(
        whole,
        ObjectDefinitionSegment::Complete(ObjectDefinition {
            width: 3,
            height: 2,
            object_data: RLE.to_vec()
        })
    );
    // One byte is missing from the last part.
    let last = last_body(&RLE[6..]);
    assert_eq!(
        ods::read(&mut SliceReader::new(&last), last.len(), Some(held.clone())),
        Err(OdsError::SegmentSizeMismatch { segments_size: 8, data_size: 10 })
    );
    assert_eq!(
        ods::read(&mut SliceReader::new(&last), 3, Some(held.clone())),
        Err(OdsError::SegmentSizeMismatch { segments_size: 3, data_size: 10 })
    );
    let last = last_body(&RLE[5..]);
    assert_eq!(
        ods::read(&mut SliceReader::new(&last[..8]), last.len(), Some(held.clone())),
        Err(OdsError::ObjectData { buff_size: 5 })
    );
    assert_eq!(
        ods::read(&mut SliceReader::new(&last), last.len(), Some(whole)),
        Err(OdsError::LastInSequenceFlagNotManaged(LastInSequenceFlag::Last))
    );
    // A first part that holds more than the whole object.
    let first = object_body(0x80, 3, 2, 2, &RLE[..5]);
    assert_eq!(
        ods::read(&mut SliceReader::new(&first), first.len(), None),
        Err(OdsError::SegmentSizeMismatch { segments_size: 16, data_size: 2 })
    );
    assert_eq!(
        ods::read(&mut SliceReader::new(&first), 10, None),
        Err(OdsError::SegmentSizeMismatch { segments_size: 10, data_size: 2 })
    );
    // A segment that starts an object takes the place of what is held.
    let again = object_body(0xc0, 1, 1, 3, &[0x05, 0x00, 0x00]);
    assert_eq!(
        ods::read(&mut SliceReader::new(&again), again.len(), Some(held)),
        Ok(ObjectDefinitionSegment::Complete(ObjectDefinition {
            width: 1,
            height: 1,
            object_data: vec![0x05, 0x00, 0x00]
        }))
    );
}

#[test]
fn flag_values() {
    assert_eq!(LastInSequenceFlag::try_from(0x40), Ok(LastInSequenceFlag::Last));
    assert_eq!(LastInSequenceFlag::try_from(0x80), Ok(LastInSequenceFlag::First));
    assert_eq!(LastInSequenceFlag::try_from(0xc0), Ok(LastInSequenceFlag::FirstAndLast));
    for value in 0..=255u8 {
        match LastInSequenceFlag::try_from(value) {
            Ok(flag) => assert_eq!(u8::from(flag), value),
            Err(e) => assert_eq!(e, OdsError::LastInSequenceFlagInvalidValue { value }),
        }
    }
    let name: &'static str = LastInSequenceFlag::FirstAndLast.into();
    assert_eq!(name, "First and last");
    let name: &'static str = LastInSequenceFlag::First.into();
    assert_eq!(name, "First");
    let name: &'static str = LastInSequenceFlag::Last.into();
    assert_eq!(name, "Last");
    assert_eq!(LastInSequenceFlag::Last.to_string(), "Last in sequence");
    assert_eq!(LastInSequenceFlag::First.to_string(), "First in sequence");
    assert_eq!(
        LastInSequenceFlag::FirstAndLast.to_string(),
        "First and last in sequence"
    );
    assert_eq!(
        LastInSequenceFlag::read(&mut SliceReader::new(&[0x80, 0x40])),
        Ok(LastInSequenceFlag::First)
    );
    assert_eq!(
        LastInSequenceFlag::read(&mut SliceReader::new(&[])),
        Err(OdsError::LastInSequenceFlagReadData)
    );
}

#[test]
fn palette_segment() {
    let body = palette_body();
    let segment = pds::parse(&body).unwrap();
    assert_eq!(segment.palette_id, 0);
    assert_eq!(segment.palette_version_number, 1);
    assert_eq!(segment.palette.get(1), entry(0x10, 0x80, 0x80, 0xff));
    assert_eq!(segment.palette.get(2), entry(0xeb, 0x70, 0x90, 0x40));
    assert_eq!(segment.palette.get(3), entry(0, 0, 0, 0));
    assert_eq!(segment.palette.clone(), segment.palette);

    let mut twice = palette_body();
    twice.extend_from_slice(&[0x01, 0x20, 0x21, 0x22, 0x23]);
    let mut reader = SliceReader::new(&twice);
    let segment = pds::read(&mut reader, twice.len()).unwrap();
    assert_eq!(reader.offset(), 17);
    assert_eq!(segment.palette.get(1), entry(0x20, 0x21, 0x22, 0x23));

    let empty = pds::parse(&[7, 9]).unwrap();
    assert_eq!(empty.palette_id, 7);
    assert_eq!(empty.palette_version_number, 9);
    assert_eq!(empty.palette, Palette::new());

    assert_eq!(pds::parse(&[7]), Err(PdsError::SegmentSize { segments_size: 1 }));
    assert_eq!(pds::parse(&[]), Err(PdsError::SegmentSize { segments_size: 0 }));
    assert_eq!(
        pds::parse(&[7, 9, 1, 2, 3, 4]),
        Err(PdsError::SegmentSize { segments_size: 6 })
    );
    let mut reader = SliceReader::new(&body);
    assert_eq!(
        pds::read(&mut reader, 17),
        Err(PdsError::ReadData { buff_size: 17 })
    );
    assert_eq!(reader.offset(), 0);
    assert_eq!(pds::read(&mut reader, 8), Err(PdsError::SegmentSize { segments_size: 8 }));
}

fn framed(code: u8, body: &[u8]) -> Vec<u8> {
    let mut bytes: Vec<u8> = vec![code];
    bytes.extend_from_slice(&(body.len() as u16).to_be_bytes());
    bytes.extend_from_slice(body);
    bytes
}

#[test]
fn processor_puts_the_image_together() {
    let mut buffer = framed(0x16, &[1, 2, 3]);
    buffer.extend(framed(0x17, &[4]));
    buffer.extend(framed(0x14, &palette_body()));
    buffer.extend(framed(0x15, &object_body(0xc0, 3, 2, RLE.len(), &RLE)));
    buffer.extend(framed(0x80, &[]));
    let mut processor = SegmentProcessor::new();
    assert!(!processor.complete());
    for item in SegmentSplitter::from(buffer.as_slice()).collect() {
        processor.process_segment(&item.unwrap());
    }
    assert!(processor.complete());
    let image = processor.into_image().unwrap();
    assert_eq!(image.width(), 3);
    assert_eq!(image.height(), 2);
    assert_eq!(image.to_indexes(), Ok(vec![1, 1, 2, 0, 0, 2]));
    assert_eq!(image.palette().get(2), entry(0xeb, 0x70, 0x90, 0x40));
}

#[test]
fn processor_errors() {
    assert_eq!(SegmentProcessor::default().into_image().err(), Some(PgsError::MissingPalette));

    let palette = framed(0x14, &palette_body());
    let mut processor = SegmentProcessor::new();
    processor.process_segment(&SegmentBuf::try_from(palette.as_slice()).unwrap());
    assert!(!processor.complete());
    assert_eq!(processor.into_image().err(), Some(PgsError::MissingImage));

    let bad_palette = framed(0x14, &[1, 2, 3]);
    let mut processor = SegmentProcessor::new();
    processor.process_segment(&SegmentBuf::try_from(bad_palette.as_slice()).unwrap());
    assert_eq!(
        processor.into_image().err(),
        Some(PgsError::PDSParse(PdsError::SegmentSize { segments_size: 3 }))
    );

    let part = framed(0x15, &object_body(0x80, 3, 2, RLE.len(), &RLE[..5]));
    let mut processor = SegmentProcessor::new();
    processor.process_segment(&SegmentBuf::try_from(palette.as_slice()).unwrap());
    processor.process_segment(&SegmentBuf::try_from(part.as_slice()).unwrap());
    assert_eq!(
        processor.into_image().err(),
        Some(PgsError::ODSParse(OdsError::LastInSequenceFlagNotManaged(
            LastInSequenceFlag::First
        )))
    );

    let object = framed(0x15, &[0, 0, 0, 0xc0, 0, 0]);
    let mut processor = SegmentProcessor::new();
    processor.process_segment(&SegmentBuf::try_from(palette.as_slice()).unwrap());
    processor.process_segment(&SegmentBuf::try_from(object.as_slice()).unwrap());
    assert_eq!(
        processor.into_image().err(),
        Some(PgsError::ODSParse(OdsError::ReadObjectDataLength))
    );
}

#[test]
fn processor_keeps_the_later_segment() {
    let first = framed(0x14, &palette_body());
    let mut other = palette_body();
    other[3] = 0x33;
    let second = framed(0x14, &other);
    let object = framed(0x15, &object_body(0xc0, 3, 2, RLE.len(), &RLE));
    let mut processor = SegmentProcessor::new();
    processor.process_segment(&SegmentBuf::try_from(first.as_slice()).unwrap());
    processor.process_segment(&SegmentBuf::try_from(second.as_slice()).unwrap());
    processor.process_segment(&SegmentBuf::try_from(object.as_slice()).unwrap());
    let image = processor.into_image().unwrap();
    assert_eq!(image.palette().get(1), entry(0x33, 0x80, 0x80, 0xff));
}
