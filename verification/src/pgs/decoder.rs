//! Decoding of a stream, subtitle by subtitle.
use super::ods::{self, ObjectDefinitionSegment, ObjectDefinitionSegmentView};
use super::pds::{self, Palette, PaletteEntry};
use super::pgs_image::{RleEncodedImage, RleEncodedImageView};
use super::segment::{read_header, skip_segment, spec_header, SegmentHeader, SegmentTypeCode};
use super::{unread_from, PgsError, ReadError, ReadExt, SegmentBuf, SliceReader};
use crate::time::{TimePoint, TimeSpan};
use vstd::prelude::*;

verus! {

/// Trait of `Presentation Graphic Stream` decoding.
///
/// A decoder takes the segments of one subtitle off a source: those up to the
/// second end segment. What it keeps of them is its `Output`.
pub trait PgsDecoder {
    /// Type of the Output data for the image.
    type Output: View;

    /// What [`PgsDecoder::parse_next`] returns on a source with `content`, at
    /// `pos`, and where it leaves the source if that is no error.
    spec fn spec_parse_next(content: Seq<u8>, pos: nat) -> (
        Result<Option<<Self::Output as View>::V>, PgsError>,
        nat,
    );

    /// Parse next subtitle `PGS` and return an `Output` value.
    /// The `Output` depending of the data we want to decode.
    ///
    /// Returns `None` where the source ends, cleanly, before the second end
    /// segment.
    ///
    /// # Errors
    /// Return the error happened during parsing or decoding. Where the source
    /// is left then is not said.
    fn parse_next<R: ReadExt>(reader: &mut R) -> (r: Result<Option<Self::Output>, PgsError>)
        ensures
            final(reader).content() == old(reader).content(),
            match r {
                Ok(Some(output)) => Self::spec_parse_next(
                    old(reader).content(),
                    old(reader).position(),
                ) == (
                    Ok::<Option<<Self::Output as View>::V>, PgsError>(Some(output@)),
                    final(reader).position(),
                ),
                Ok(None) => Self::spec_parse_next(old(reader).content(), old(reader).position())
                    == (
                    Ok::<Option<<Self::Output as View>::V>, PgsError>(None),
                    final(reader).position(),
                ),
                Err(e) => Self::spec_parse_next(old(reader).content(), old(reader).position()).0
                    == Err::<Option<<Self::Output as View>::V>, PgsError>(e),
            },
    ;
}

/// The time of a segment: its presentation time, in milliseconds.
pub open spec fn spec_time(header: SegmentHeader) -> TimePoint {
    TimePoint(header.spec_presentation_time() as i64)
}

/// What the decoding of times gives on a source with `content`, at `pos`,
/// when the start `start` is held, and where it leaves the source.
///
/// The time of the first end segment is the start of the subtitle and the
/// time of the second is its end. Every other segment is skipped.
pub open spec fn spec_time_only(content: Seq<u8>, pos: nat, start: Option<TimePoint>) -> (
    Result<Option<TimeSpan>, PgsError>,
    nat,
)
    decreases unread_from(content, pos).len(),
{
    match spec_header(unread_from(content, pos)) {
        Err(e) => (Err(e), pos),
        Ok(None) => (Ok(None), pos),
        Ok(Some(header)) => {
            let body = pos + 13;
            if header.type_code == SegmentTypeCode::End {
                match start {
                    Some(start) => (Ok(Some(TimeSpan { start, end: spec_time(header) })), body),
                    None => spec_time_only(content, body, Some(spec_time(header))),
                }
            } else if body + header.size > usize::MAX {
                (
                    Err(
                        PgsError::SegmentSkip {
                            source: ReadError::FailedSeek,
                            type_code: header.type_code,
                        },
                    ),
                    body,
                )
            } else {
                spec_time_only(content, body + header.size as nat, start)
            }
        },
    }
}

/// The time of a segment.
fn segment_time(header: &SegmentHeader) -> (time: TimePoint)
    ensures
        time == spec_time(*header),
{
    TimePoint::from_msecs(header.presentation_time() as i64)
}

/// Decoder for `PGS` who provide only the times of subtitles.
pub struct DecodeTimeOnly;

impl PgsDecoder for DecodeTimeOnly {
    type Output = TimeSpan;

    open spec fn spec_parse_next(content: Seq<u8>, pos: nat) -> (
        Result<Option<TimeSpan>, PgsError>,
        nat,
    ) {
        spec_time_only(content, pos, None)
    }

    fn parse_next<R: ReadExt>(reader: &mut R) -> (r: Result<Option<Self::Output>, PgsError>) {
        let ghost content = reader.content();
        let ghost first = reader.position();
        let mut start_time: Option<TimePoint> = None;
        loop
            invariant
                reader.content() == content,
                content == old(reader).content(),
                first == old(reader).position(),
                spec_time_only(content, first, None) == spec_time_only(
                    content,
                    reader.position(),
                    start_time,
                ),
            decreases unread_from(content, reader.position()).len(),
        {
            let seg_header = match read_header(reader) {
                Ok(Some(header)) => header,
                Ok(None) => {
                    return Ok(None);
                },
                Err(e) => {
                    return Err(e);
                },
            };
            match seg_header.type_code() {
                SegmentTypeCode::End => {
                    let time = segment_time(&seg_header);
                    match start_time {
                        Some(start) => {
                            return Ok(Some(TimeSpan::new(start, time)));
                        },
                        None => {
                            start_time = Some(time);
                        },
                    }
                },
                _ => {
                    // Segment content are not taken into account, skipped
                    match skip_segment(reader, &seg_header) {
                        Ok(()) => {},
                        Err(e) => {
                            return Err(e);
                        },
                    }
                },
            }
        }
    }
}

/// What the decoding of times and images holds between two segments.
pub struct DisplaySet {
    /// The time of the first end segment, once it has come.
    pub start: Option<TimePoint>,
    /// The palette of the last palette segment, until an object takes it.
    pub palette: Option<Seq<PaletteEntry>>,
    /// The image, once an object is whole.
    pub image: Option<RleEncodedImageView>,
    /// The start of an object, until its last segment comes.
    pub object: Option<ObjectDefinitionSegmentView>,
}

/// The image of the whole object `object` with the colors of `palette`.
pub open spec fn spec_image(
    object: ods::ObjectDefinitionView,
    palette: Seq<PaletteEntry>,
) -> RleEncodedImageView {
    RleEncodedImageView {
        width: object.width,
        height: object.height,
        palette,
        object_data: object.object_data,
    }
}

/// What the decoding of times and images gives on a source with `content`,
/// at `pos`, when `held` is held, and where it leaves the source.
///
/// A palette segment gives the palette, in place of one that is held. An
/// object segment adds to the object; once the object is whole it takes the
/// palette, and the two are the image, in place of one that is held. The time
/// of the first end segment is the start of the subtitle; the second end
/// segment gives the subtitle, which needs an image. Every other segment is
/// skipped. What is held at the end and is no part of the subtitle is dropped.
pub open spec fn spec_time_image(content: Seq<u8>, pos: nat, held: DisplaySet) -> (
    Result<Option<(TimeSpan, RleEncodedImageView)>, PgsError>,
    nat,
)
    decreases unread_from(content, pos).len(),
{
    match spec_header(unread_from(content, pos)) {
        Err(e) => (Err(e), pos),
        Ok(None) => (Ok(None), pos),
        Ok(Some(header)) => {
            let body = pos + 13;
            let next = body + header.size as nat;
            match header.type_code {
                SegmentTypeCode::Pds => match pds::spec_read(
                    unread_from(content, body),
                    header.size as nat,
                ) {
                    Err(e) => (Err(PgsError::PDSParse(e)), body),
                    Ok(segment) => spec_time_image(
                        content,
                        next,
                        DisplaySet { palette: Some(segment.palette), ..held },
                    ),
                },
                SegmentTypeCode::Ods => match ods::spec_read(
                    content,
                    body,
                    header.size as nat,
                    held.object,
                ) {
                    Err(e) => (Err(PgsError::ODSParse(e)), body),
                    Ok(ObjectDefinitionSegmentView::Complete(object)) => match held.palette {
                        None => (Err(PgsError::MissingPalette), next),
                        Some(palette) => spec_time_image(
                            content,
                            next,
                            DisplaySet {
                                start: held.start,
                                palette: None,
                                image: Some(spec_image(object, palette)),
                                object: None,
                            },
                        ),
                    },
                    Ok(part) => spec_time_image(
                        content,
                        next,
                        DisplaySet { object: Some(part), ..held },
                    ),
                },
                SegmentTypeCode::End => match held.start {
                    None => spec_time_image(
                        content,
                        body,
                        DisplaySet { start: Some(spec_time(header)), ..held },
                    ),
                    Some(start) => match held.image {
                        None => (Err(PgsError::MissingImage), body),
                        Some(image) => (
                            Ok(Some((TimeSpan { start, end: spec_time(header) }, image))),
                            body,
                        ),
                    },
                },
                _ => if next > usize::MAX {
                    (
                        Err(
                            PgsError::SegmentSkip {
                                source: ReadError::FailedSeek,
                                type_code: header.type_code,
                            },
                        ),
                        body,
                    )
                } else {
                    spec_time_image(content, next, held)
                },
            }
        },
    }
}

/// Nothing is held.
pub open spec fn spec_nothing_held() -> DisplaySet {
    DisplaySet { start: None, palette: None, image: None, object: None }
}

/// The palette that is held, if any.
pub open spec fn spec_palette(palette: Option<Palette>) -> Option<Seq<PaletteEntry>> {
    match palette {
        Some(palette) => Some(palette@),
        None => None,
    }
}

/// The image that is held, if any.
pub open spec fn spec_held_image(image: Option<RleEncodedImage>) -> Option<RleEncodedImageView> {
    match image {
        Some(image) => Some(image@),
        None => None,
    }
}

/// Decoder for `PGS` who provide the times and images of the subtitles.
pub struct DecodeTimeImage {}

impl PgsDecoder for DecodeTimeImage {
    type Output = (TimeSpan, RleEncodedImage);

    open spec fn spec_parse_next(content: Seq<u8>, pos: nat) -> (
        Result<Option<(TimeSpan, RleEncodedImageView)>, PgsError>,
        nat,
    ) {
        spec_time_image(content, pos, spec_nothing_held())
    }

    fn parse_next<R: ReadExt>(reader: &mut R) -> (r: Result<Option<Self::Output>, PgsError>) {
        let ghost content = reader.content();
        let ghost first = reader.position();
        let mut start_time: Option<TimePoint> = None;
        let mut palette: Option<Palette> = None;
        let mut image: Option<RleEncodedImage> = None;
        let mut prev_ods: Option<ObjectDefinitionSegment> = None;
        loop
            invariant
                reader.content() == content,
                content == old(reader).content(),
                first == old(reader).position(),
                spec_time_image(content, first, spec_nothing_held()) == spec_time_image(
                    content,
                    reader.position(),
                    DisplaySet {
                        start: start_time,
                        palette: spec_palette(palette),
                        image: spec_held_image(image),
                        object: ods::spec_held(prev_ods),
                    },
                ),
            decreases unread_from(content, reader.position()).len(),
        {
            let seg_header = match read_header(reader) {
                Ok(Some(header)) => header,
                Ok(None) => {
                    return Ok(None);
                },
                Err(e) => {
                    return Err(e);
                },
            };
            match seg_header.type_code() {
                SegmentTypeCode::Pds => {
                    let seg_size: usize = seg_header.size() as usize;
                    match pds::read(reader, seg_size) {
                        Ok(pds) => {
                            palette = Some(pds.palette);
                        },
                        Err(e) => {
                            return Err(PgsError::PDSParse(e));
                        },
                    }
                },
                SegmentTypeCode::Ods => {
                    let seg_size: usize = seg_header.size() as usize;
                    let held = prev_ods;
                    prev_ods = None;
                    // If data are complete, construct `image` from palette and image data
                    // otherwise, keep read data to complete it with data from following segment.
                    match ods::read(reader, seg_size, held) {
                        Ok(ObjectDefinitionSegment::Complete(object)) => {
                            let colors = palette;
                            palette = None;
                            match colors {
                                Some(colors) => {
                                    image = Some(
                                        RleEncodedImage::new(
                                            object.width,
                                            object.height,
                                            colors,
                                            object.object_data,
                                        ),
                                    );
                                },
                                None => {
                                    return Err(PgsError::MissingPalette);
                                },
                            }
                        },
                        Ok(part) => {
                            prev_ods = Some(part);
                        },
                        Err(e) => {
                            return Err(PgsError::ODSParse(e));
                        },
                    }
                },
                SegmentTypeCode::End => {
                    let time = segment_time(&seg_header);
                    match start_time {
                        Some(start) => {
                            let times = TimeSpan::new(start, time);
                            match image {
                                Some(image) => {
                                    return Ok(Some((times, image)));
                                },
                                None => {
                                    return Err(PgsError::MissingImage);
                                },
                            }
                        },
                        None => {
                            start_time = Some(time);
                        },
                    }
                },
                _ => {
                    // Segment not taken into account are skipped
                    match skip_segment(reader, &seg_header) {
                        Ok(()) => {},
                        Err(e) => {
                            return Err(e);
                        },
                    }
                },
            }
        }
    }
}

/// Two end segments one behind the other give one time span, from the time
/// of the first to the time of the second, and leave the source behind the
/// second.
pub proof fn lemma_two_end_segments(
    content: Seq<u8>,
    pos: nat,
    first: SegmentHeader,
    second: SegmentHeader,
)
    requires
        spec_header(unread_from(content, pos)) == Ok::<Option<SegmentHeader>, PgsError>(
            Some(first),
        ),
        spec_header(unread_from(content, pos + 13)) == Ok::<Option<SegmentHeader>, PgsError>(
            Some(second),
        ),
        first.type_code == SegmentTypeCode::End,
        second.type_code == SegmentTypeCode::End,
    ensures
        spec_time_only(content, pos, None) == (
            Ok::<Option<TimeSpan>, PgsError>(
                Some(
                    TimeSpan {
                        start: TimePoint((first.pts / 90) as i64),
                        end: TimePoint((second.pts / 90) as i64),
                    },
                ),
            ),
            pos + 26,
        ),
{
    assert(spec_time_only(content, pos, None) == spec_time_only(
        content,
        pos + 13,
        Some(spec_time(first)),
    ));
}

/// An object that is whole while no palette is held gives `MissingPalette`.
pub proof fn lemma_missing_palette(content: Seq<u8>, pos: nat, held: DisplaySet)
    requires
        spec_header(unread_from(content, pos)) matches Ok(Some(header)) && header.type_code
            == SegmentTypeCode::Ods && ods::spec_read(
            content,
            pos + 13,
            header.size as nat,
            held.object,
        ) matches Ok(ObjectDefinitionSegmentView::Complete(_)),
        held.palette is None,
    ensures
        spec_time_image(content, pos, held).0 == Err::<
            Option<(TimeSpan, RleEncodedImageView)>,
            PgsError,
        >(PgsError::MissingPalette),
{
}

/// The second end segment gives `MissingImage` where no image is held, be a
/// palette held or not.
pub proof fn lemma_missing_image(content: Seq<u8>, pos: nat, held: DisplaySet)
    requires
        spec_header(unread_from(content, pos)) matches Ok(Some(header)) && header.type_code
            == SegmentTypeCode::End,
        held.start is Some,
        held.image is None,
    ensures
        spec_time_image(content, pos, held).0 == Err::<
            Option<(TimeSpan, RleEncodedImageView)>,
            PgsError,
        >(PgsError::MissingImage),
{
}

/// A palette segment takes the place of the palette that is held: what
/// follows does not depend on the palette that was held before it.
pub proof fn lemma_later_palette_wins(
    content: Seq<u8>,
    pos: nat,
    held: DisplaySet,
    other: Option<Seq<PaletteEntry>>,
)
    requires
        spec_header(unread_from(content, pos)) matches Ok(Some(header)) && header.type_code
            == SegmentTypeCode::Pds,
    ensures
        spec_time_image(content, pos, held) == spec_time_image(
            content,
            pos,
            DisplaySet { palette: other, ..held },
        ),
{
}

/// Puts together the image of a subtitle from the segments of a buffer, as a
/// [`super::SegmentSplitter`] gives them.
#[derive(Debug)]
pub struct SegmentProcessor<'a> {
    pds_data: Option<&'a [u8]>,
    ods_data: Option<&'a [u8]>,
    complete: bool,
}

/// The bytes of a buffer that is held, if any.
pub open spec fn spec_bytes(data: Option<&[u8]>) -> Option<Seq<u8>> {
    match data {
        Some(bytes) => Some(bytes@),
        None => None,
    }
}

/// The image that the data of a palette segment and of an object segment give
/// together: the palette is read first, then the object, which has to be
/// whole in its one segment.
pub open spec fn spec_into_image(pds_data: Option<Seq<u8>>, ods_data: Option<Seq<u8>>) -> Result<
    RleEncodedImageView,
    PgsError,
> {
    match pds_data {
        None => Err(PgsError::MissingPalette),
        Some(pds_data) => match pds::spec_parse(pds_data) {
            Err(e) => Err(PgsError::PDSParse(e)),
            Ok(segment) => match ods_data {
                None => Err(PgsError::MissingImage),
                Some(ods_data) => match ods::spec_read(ods_data, 0, ods_data.len(), None) {
                    Err(e) => Err(PgsError::ODSParse(e)),
                    Ok(ObjectDefinitionSegmentView::Complete(object)) => Ok(
                        spec_image(object, segment.palette),
                    ),
                    Ok(_) => Err(
                        PgsError::ODSParse(
                            ods::Error::LastInSequenceFlagNotManaged(ods::LastInSequenceFlag::First),
                        ),
                    ),
                },
            },
        },
    }
}

impl<'a> SegmentProcessor<'a> {
    /// The data of the palette segment that is held, if any.
    pub closed spec fn pds(&self) -> Option<Seq<u8>> {
        spec_bytes(self.pds_data)
    }

    /// The data of the object segment that is held, if any.
    pub closed spec fn ods(&self) -> Option<Seq<u8>> {
        spec_bytes(self.ods_data)
    }

    /// An end segment has come.
    pub closed spec fn is_complete(&self) -> bool {
        self.complete
    }

    /// A processor that holds nothing.
    #[must_use]
    pub fn new() -> (processor: Self)
        ensures
            processor.pds() is None,
            processor.ods() is None,
            !processor.is_complete(),
    {
        Self { pds_data: None, ods_data: None, complete: false }
    }

    /// Whether an end segment has come.
    #[must_use]
    pub fn complete(&self) -> (complete: bool)
        ensures
            complete == self.is_complete(),
    {
        self.complete
    }

    /// Takes in a segment: holds the data of a palette or object segment, in
    /// place of what was held of that kind, and notes an end segment. Other
    /// segments change nothing.
    pub fn process_segment(&mut self, seg_sub: &SegmentBuf<'a>)
        ensures
            SegmentTypeCode::checked(seg_sub@[0]) matches Ok(code) && ({
                &&& final(self).pds() == if code == SegmentTypeCode::Pds {
                    Some(seg_sub@.skip(3))
                } else {
                    old(self).pds()
                }
                &&& final(self).ods() == if code == SegmentTypeCode::Ods {
                    Some(seg_sub@.skip(3))
                } else {
                    old(self).ods()
                }
                &&& final(self).is_complete() == (old(self).is_complete() || code
                    == SegmentTypeCode::End)
            }),
    {
        match seg_sub.code() {
            SegmentTypeCode::Pds => {
                self.pds_data = Some(seg_sub.data());
            },
            SegmentTypeCode::Ods => {
                self.ods_data = Some(seg_sub.data());
            },
            SegmentTypeCode::Pcs | SegmentTypeCode::Wds => {},  // nothing to keep of them
            SegmentTypeCode::End => {
                self.complete = true;
            },
        }
    }

    /// The image of what is held.
    ///
    /// # Errors
    ///
    /// `MissingPalette` where no palette segment is held, else `PDSParse`
    /// where its data is no palette; then `MissingImage` where no object
    /// segment is held, else `ODSParse` where its data is no whole object.
    pub fn into_image(self) -> (r: Result<RleEncodedImage, PgsError>)
        ensures
            match r {
                Ok(image) => spec_into_image(self.pds(), self.ods()) == Ok::<
                    RleEncodedImageView,
                    PgsError,
                >(image@),
                Err(e) => spec_into_image(self.pds(), self.ods()) == Err::<
                    RleEncodedImageView,
                    PgsError,
                >(e),
            },
    {
        let pds_data = match self.pds_data {
            Some(data) => data,
            None => {
                return Err(PgsError::MissingPalette);
            },
        };
        let pds = match pds::parse(pds_data) {
            Ok(pds) => pds,
            Err(e) => {
                return Err(PgsError::PDSParse(e));
            },
        };
        let ods_data = match self.ods_data {
            Some(data) => data,
            None => {
                return Err(PgsError::MissingImage);
            },
        };
        let mut reader = SliceReader::new(ods_data);
        match ods::read(&mut reader, ods_data.len(), None) {
            Ok(ObjectDefinitionSegment::Complete(object)) => Ok(
                RleEncodedImage::new(object.width, object.height, pds.palette, object.object_data),
            ),
            Ok(_) => Err(
                PgsError::ODSParse(
                    ods::Error::LastInSequenceFlagNotManaged(ods::LastInSequenceFlag::First),
                ),
            ),
            Err(e) => Err(PgsError::ODSParse(e)),
        }
    }
}

impl<'a> Default for SegmentProcessor<'a> {
    fn default() -> (processor: Self)
        ensures
            processor.pds() is None,
            processor.ods() is None,
            !processor.is_complete(),
    {
        Self::new()
    }
}

} // verus!
