use subtile::pgs::{
    parse_segment_header, read_header, skip_segment, PgsError, ReadError, ReadExt, SegmentBuf,
    SegmentBufError, SegmentHeader, SegmentSplitter, SegmentSplitterError, SegmentTypeCode,
    SliceReader,
};

#[test]
fn segment_type_code_valid() {
    assert_eq!(
        SegmentTypeCode::try_from(0x14).unwrap(),
        SegmentTypeCode::Pds
    );
    assert_eq!(
        SegmentTypeCode::try_from(0x15).unwrap(),
        SegmentTypeCode::Ods
    );
    assert_eq!(
        SegmentTypeCode::try_from(0x16).unwrap(),
        SegmentTypeCode::Pcs
    );
    assert_eq!(
        SegmentTypeCode::try_from(0x17).unwrap(),
        SegmentTypeCode::Wds
    );
    assert_eq!(
        SegmentTypeCode::try_from(0x80).unwrap(),
        SegmentTypeCode::End
    );
}

#[test]
fn segment_type_code_invalid() {
    assert!(matches!(
        SegmentTypeCode::try_from(0x00),
        Err(PgsError::SegmentInvalidTypeCode { value } ) if value == 0x00));
    assert!(matches!(
        SegmentTypeCode::try_from(0x13),
        Err(PgsError::SegmentInvalidTypeCode { value } ) if value == 0x13));
    assert!(matches!(
        SegmentTypeCode::try_from(0x18),
        Err(PgsError::SegmentInvalidTypeCode { value } ) if value == 0x18));
    assert!(matches!(
        SegmentTypeCode::try_from(0x79),
        Err(PgsError::SegmentInvalidTypeCode { value } ) if value == 0x79));
    assert!(matches!(
        SegmentTypeCode::try_from(0x81),
        Err(PgsError::SegmentInvalidTypeCode { value } ) if value == 0x81));
}

#[test]
fn segment_type_code_str() {
    let pds_str: &'static str = SegmentTypeCode::Pds.into();
    assert_eq!(pds_str, "PDS");
    let ods_str: &'static str = SegmentTypeCode::Ods.into();
    assert_eq!(ods_str, "ODS");
    let pcs_str: &'static str = SegmentTypeCode::Pcs.into();
    assert_eq!(pcs_str, "PCS");
    let wds_str: &'static str = SegmentTypeCode::Wds.into();
    assert_eq!(wds_str, "WDS");
    let end_str: &'static str = SegmentTypeCode::End.into();
    assert_eq!(end_str, "END");
}

#[test]
fn segment_buf_pds() {
    let buf: [u8; 7] = [0x14, 0x00, 0x04, 0x10, 0x25, 0x06, 0x00];
    let seg = SegmentBuf::try_from(buf.as_slice()).unwrap();
    assert_eq!(seg.code(), SegmentTypeCode::Pds);
    assert_eq!(seg.data().len(), 4);
    assert_eq!(seg.data(), buf[3..].iter().as_slice());
}

#[test]
fn segment_buf_end() {
    let buf: [u8; 3] = [0x80, 0x00, 0x00];
    let seg = SegmentBuf::try_from(buf.as_slice()).unwrap();

    assert_eq!(seg.code(), SegmentTypeCode::End);
    assert!(seg.data().is_empty());
}

#[test]
fn segment_type_code_round_trip_for_every_byte() {
    let mut valid: usize = 0;
    for value in 0..=255u8 {
        match SegmentTypeCode::try_from(value) {
            Ok(code) => {
                valid += 1;
                assert_eq!(u8::from(code), value);
                assert!([0x14, 0x15, 0x16, 0x17, 0x80].contains(&value));
            }
            Err(e) => {
                assert_eq!(e, PgsError::SegmentInvalidTypeCode { value });
                assert!(![0x14, 0x15, 0x16, 0x17, 0x80].contains(&value));
            }
        }
    }
    assert_eq!(valid, 5);
}

#[test]
fn segment_buf_keeps_the_framed_bytes() {
    let buf: [u8; 7] = [0x14, 0x00, 0x04, 0x10, 0x25, 0x06, 0x00];
    let seg = SegmentBuf::try_from(buf.as_slice()).unwrap();
    assert_eq!(seg.buffer(), buf.as_slice());
    assert_eq!(seg.data(), &[0x10, 0x25, 0x06, 0x00]);
}

#[test]
fn segment_buf_errors() {
    let empty: [u8; 0] = [];
    assert_eq!(
        SegmentBuf::try_from(empty.as_slice()).err(),
        Some(SegmentBufError::SegmentCodeRead(PgsError::SegmentFailReadHeader))
    );
    let bad_code: [u8; 3] = [0x13, 0x00, 0x00];
    assert_eq!(
        SegmentBuf::try_from(bad_code.as_slice()).err(),
        Some(SegmentBufError::SegmentCodeRead(
            PgsError::SegmentInvalidTypeCode { value: 0x13 }
        ))
    );
    let no_size: [u8; 2] = [0x14, 0x00];
    assert_eq!(
        SegmentBuf::try_from(no_size.as_slice()).err(),
        Some(SegmentBufError::SegmentSizeRead)
    );
    let too_short: [u8; 5] = [0x14, 0x00, 0x04, 0x01, 0x02];
    assert_eq!(
        SegmentBuf::try_from(too_short.as_slice()).err(),
        Some(SegmentBufError::BufferLen { seg_size: 4, buf_len: 5 })
    );
    let too_long: [u8; 5] = [0x14, 0x00, 0x01, 0x01, 0x02];
    assert_eq!(
        SegmentBuf::try_from(too_long.as_slice()).err(),
        Some(SegmentBufError::BufferLen { seg_size: 1, buf_len: 5 })
    );
    let big: [u8; 3] = [0x15, 0x01, 0x02];
    assert_eq!(
        SegmentBuf::try_from(big.as_slice()).err(),
        Some(SegmentBufError::BufferLen { seg_size: 0x0102, buf_len: 3 })
    );
}

#[test]
fn splitter_gives_the_segments_in_order() {
    let buf: Vec<u8> = vec![
        0x16, 0x00, 0x02, 0xaa, 0xbb, 0x14, 0x00, 0x00, 0x15, 0x00, 0x01, 0xcc, 0x80, 0x00, 0x00,
    ];
    let mut splitter = SegmentSplitter::from(buf.as_slice());
    let first = splitter.next().unwrap().unwrap();
    assert_eq!(first.code(), SegmentTypeCode::Pcs);
    assert_eq!(first.buffer(), &[0x16, 0x00, 0x02, 0xaa, 0xbb]);
    assert_eq!(first.data(), &[0xaa, 0xbb]);
    let second = splitter.next().unwrap().unwrap();
    assert_eq!(second.code(), SegmentTypeCode::Pds);
    assert!(second.data().is_empty());
    let third = splitter.next().unwrap().unwrap();
    assert_eq!(third.code(), SegmentTypeCode::Ods);
    assert_eq!(third.data(), &[0xcc]);
    let fourth = splitter.next().unwrap().unwrap();
    assert_eq!(fourth.code(), SegmentTypeCode::End);
    assert!(splitter.next().is_none());
    assert!(splitter.next().is_none());

    let all = SegmentSplitter::from(buf.as_slice()).collect();
    assert_eq!(all.len(), 4);
    assert!(all.iter().all(|item| item.is_ok()));
}

#[test]
fn splitter_copy_starts_again() {
    let buf: Vec<u8> = vec![0x80, 0x00, 0x00, 0x80, 0x00, 0x00];
    let splitter = SegmentSplitter::from(buf.as_slice());
    assert_eq!(splitter.collect().len(), 2);
    assert_eq!(splitter.collect().len(), 2);
}

#[test]
fn splitter_ends_with_the_first_error() {
    let bad_code: Vec<u8> = vec![0x80, 0x00, 0x00, 0x42, 0x00, 0x00, 0x80, 0x00, 0x00];
    let mut splitter = SegmentSplitter::from(bad_code.as_slice());
    assert!(splitter.next().unwrap().is_ok());
    assert_eq!(
        splitter.next().unwrap().err(),
        Some(SegmentSplitterError::TypeCode(
            PgsError::SegmentInvalidTypeCode { value: 0x42 }
        ))
    );
    assert!(splitter.next().is_none());

    let no_size: Vec<u8> = vec![0x80, 0x00];
    let items = SegmentSplitter::from(no_size.as_slice()).collect();
    assert_eq!(items.len(), 1);
    assert_eq!(items[0].as_ref().err(), Some(&SegmentSplitterError::Size));

    let short: Vec<u8> = vec![0x14, 0x00, 0x05, 0x01];
    let items = SegmentSplitter::from(short.as_slice()).collect();
    assert_eq!(items.len(), 1);
    assert_eq!(
        items[0].as_ref().err(),
        Some(&SegmentSplitterError::BufCreation(
            SegmentBufError::BufferLen { seg_size: 5, buf_len: 4 }
        ))
    );

    let empty: Vec<u8> = Vec::new();
    assert!(SegmentSplitter::from(empty.as_slice()).collect().is_empty());
}

fn header(pts: u32, code: u8, size: u16) -> Vec<u8> {
    let mut bytes: Vec<u8> = vec![0x50, 0x47];
    bytes.extend_from_slice(&pts.to_be_bytes());
    bytes.extend_from_slice(&[0xde, 0xad, 0xbe, 0xef]);
    bytes.push(code);
    bytes.extend_from_slice(&size.to_be_bytes());
    bytes
}

#[test]
fn header_fields_are_big_endian() {
    let bytes = header(0x0102_0304, 0x16, 0x0a0b);
    let mut buffer = [0u8; 13];
    buffer.copy_from_slice(&bytes);
    let parsed = parse_segment_header(buffer).unwrap().unwrap();
    assert_eq!(
        parsed,
        SegmentHeader { pts: 0x0102_0304, type_code: SegmentTypeCode::Pcs, size: 0x0a0b }
    );
    assert_eq!(parsed.presentation_time(), 0x0102_0304 / 90);
    assert_eq!(parsed.type_code(), SegmentTypeCode::Pcs);
    assert_eq!(parsed.size(), 0x0a0b);
}

#[test]
fn presentation_time_is_ticks_by_90() {
    let h = SegmentHeader { pts: 90_000, type_code: SegmentTypeCode::End, size: 0 };
    assert_eq!(h.presentation_time(), 1000);
    let h = SegmentHeader { pts: 89, type_code: SegmentTypeCode::End, size: 0 };
    assert_eq!(h.presentation_time(), 0);
    let h = SegmentHeader { pts: u32::MAX, type_code: SegmentTypeCode::End, size: 0 };
    assert_eq!(h.presentation_time(), 47_721_858);
}

#[test]
fn read_header_outcomes() {
    let empty: Vec<u8> = Vec::new();
    let mut reader = SliceReader::new(&empty);
    assert_eq!(read_header(&mut reader), Ok(None));
    assert_eq!(reader.offset(), 0);

    let bytes = header(180, 0x80, 0);
    let mut reader = SliceReader::new(&bytes);
    assert_eq!(
        read_header(&mut reader),
        Ok(Some(SegmentHeader { pts: 180, type_code: SegmentTypeCode::End, size: 0 }))
    );
    assert_eq!(reader.offset(), 13);
    assert_eq!(read_header(&mut reader), Ok(None));

    let mut no_magic = header(180, 0x80, 0);
    no_magic[1] = 0x48;
    assert_eq!(
        read_header(&mut SliceReader::new(&no_magic)),
        Err(PgsError::SegmentPGMissing)
    );
    assert_eq!(
        read_header(&mut SliceReader::new(&[0x50])),
        Err(PgsError::SegmentPGMissing)
    );
    assert_eq!(
        read_header(&mut SliceReader::new(&[0x00, 0x01, 0x02])),
        Err(PgsError::SegmentPGMissing)
    );
    assert_eq!(
        read_header(&mut SliceReader::new(&bytes[..12])),
        Err(PgsError::SegmentFailReadHeader)
    );
    assert_eq!(
        read_header(&mut SliceReader::new(&bytes[..2])),
        Err(PgsError::SegmentFailReadHeader)
    );
    let bad_code = header(180, 0x81, 0);
    assert_eq!(
        read_header(&mut SliceReader::new(&bad_code)),
        Err(PgsError::SegmentInvalidTypeCode { value: 0x81 })
    );
}

#[test]
fn skip_segment_moves_by_the_size() {
    let mut bytes = header(0, 0x16, 4);
    bytes.extend_from_slice(&[1, 2, 3, 4, 5]);
    let mut reader = SliceReader::new(&bytes);
    let h = read_header(&mut reader).unwrap().unwrap();
    assert_eq!(skip_segment(&mut reader, &h), Ok(()));
    assert_eq!(reader.offset(), 17);
    assert_eq!(reader.remaining(), &[5]);
    assert_eq!(skip_segment(&mut reader, &h), Ok(()));
    assert_eq!(reader.offset(), 21);
    assert!(reader.remaining().is_empty());
    assert_eq!(read_header(&mut reader), Ok(None));
}

#[test]
fn skip_fails_where_the_position_overflows() {
    let bytes: Vec<u8> = vec![1, 2, 3];
    let mut reader = SliceReader::new(&bytes);
    assert_eq!(reader.skip_data(usize::MAX), Ok(()));
    assert_eq!(reader.skip_data(1), Err(ReadError::FailedSeek));
    assert_eq!(reader.offset(), usize::MAX);
    let h = SegmentHeader { pts: 0, type_code: SegmentTypeCode::Wds, size: 7 };
    assert_eq!(
        skip_segment(&mut reader, &h),
        Err(PgsError::SegmentSkip {
            source: ReadError::FailedSeek,
            type_code: SegmentTypeCode::Wds
        })
    );
}

#[test]
fn read_buffer_takes_the_next_bytes() {
    let bytes: Vec<u8> = vec![1, 2, 3, 4, 5];
    let mut reader = SliceReader::new(&bytes);
    let mut two = [0u8; 2];
    assert_eq!(reader.read_buffer(&mut two), Ok(()));
    assert_eq!(two, [1, 2]);
    let mut four = [0u8; 4];
    assert_eq!(
        reader.read_buffer(&mut four),
        Err(ReadError::FailedReadBuffer { buffer_size: 4 })
    );
    assert_eq!(reader.offset(), 2);
    let mut three = [0u8; 3];
    assert_eq!(reader.read_buffer(&mut three), Ok(()));
    assert_eq!(three, [3, 4, 5]);
    let mut none = [0u8; 0];
    assert_eq!(reader.read_buffer(&mut none), Ok(()));
    assert_eq!(reader.skip_data(10), Ok(()));
    assert_eq!(reader.read_buffer(&mut none), Ok(()));
    assert_eq!(
        reader.read_buffer(&mut two),
        Err(ReadError::FailedReadBuffer { buffer_size: 2 })
    );
}

#[test]
fn segment_type_code_text() {
    assert_eq!(SegmentTypeCode::Pds.to_string(), "PDS");
    assert_eq!(SegmentTypeCode::Ods.to_string(), "ODS");
    assert_eq!(SegmentTypeCode::Pcs.to_string(), "PCS");
    assert_eq!(SegmentTypeCode::Wds.to_string(), "WDS");
    assert_eq!(SegmentTypeCode::End.to_string(), "END");
}
