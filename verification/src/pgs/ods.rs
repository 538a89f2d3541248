//! Object Definition Segments: the image of a subtitle, whole in one segment or
//! split over a first and a last one.
use super::reader::{be_u16, be_u24, read_vec};
use super::{be_value, unread_from, ReadError, ReadExt};
use vstd::prelude::*;
use vstd::std_specs::convert::{FromSpecImpl, TryFromSpecImpl};
use vstd::string::StringExecFns;

verus! {

/// Error `ODS` (Object Definition Segment) handling.
#[derive(Debug, Clone, Copy, PartialEq, Eq, Structural)]
pub enum Error {
    /// Error while tried reading `LastInSequence` flag: the source ended
    /// before it.
    LastInSequenceFlagReadData,
    /// Value read for `LastInSequence` flag is invalid.
    LastInSequenceFlagInvalidValue {
        /// The byte that was read.
        value: u8,
    },
    /// Value of flag `LastInSequence` is valid but cannot be handled where it
    /// stands: a last part that no first part came before.
    LastInSequenceFlagNotManaged(LastInSequenceFlag),
    /// Failed during `Object ID` and `Object Version Number` skipping.
    SkipObjectIdAndVerNum(ReadError),
    /// Failed during `Object Data Length` reading: the source ended inside it.
    ReadObjectDataLength,
    /// Failed during read `Width` of the image: the source ended inside it.
    ReadWidth,
    /// Failed during read `Height` of the image: the source ended inside it.
    ReadHeight,
    /// The read of object data failed: the source holds fewer bytes.
    ObjectData {
        /// The number of bytes that were asked for.
        buff_size: usize,
    },
    /// The `Object Data Length` is under 4: it does not even count the width
    /// and the height.
    ObjectDataLengthTooShort {
        /// The `Object Data Length` that was read.
        length: usize,
    },
    /// The size of the segment and the length of the data of the object do
    /// not go together.
    SegmentSizeMismatch {
        /// The size of the segment, as its header gives it.
        segments_size: usize,
        /// The length of the whole data of the object: its `Object Data
        /// Length` less the four bytes of width and height.
        data_size: usize,
    },
}

/// Says which part of an object a segment holds.
#[derive(Debug, Clone, Copy, PartialEq, Eq, Structural)]
pub enum LastInSequenceFlag {
    /// The last part of an object, byte `0x40`.
    Last,
    /// The first part of an object, byte `0x80`.
    First,
    /// A whole object, byte `0xC0`.
    FirstAndLast,
}

impl LastInSequenceFlag {
    /// The byte that stands for the flag.
    pub open spec fn spec_byte(self) -> u8 {
        match self {
            LastInSequenceFlag::Last => 0x40,
            LastInSequenceFlag::First => 0x80,
            LastInSequenceFlag::FirstAndLast => 0xC0,
        }
    }

    /// What reading a flag from `value` gives: the flag, or the error that
    /// carries the byte.
    pub open spec fn checked(value: u8) -> Result<Self, Error> {
        if value == 0x40 {
            Ok(LastInSequenceFlag::Last)
        } else if value == 0x80 {
            Ok(LastInSequenceFlag::First)
        } else if value == 0xC0 {
            Ok(LastInSequenceFlag::FirstAndLast)
        } else {
            Err(Error::LastInSequenceFlagInvalidValue { value })
        }
    }

    /// The name of the flag.
    pub open spec fn spec_name(self) -> &'static str {
        match self {
            LastInSequenceFlag::Last => "Last",
            LastInSequenceFlag::First => "First",
            LastInSequenceFlag::FirstAndLast => "First and last",
        }
    }

    /// The text of the flag: its name and ` in sequence`.
    #[must_use]
    pub fn to_string(&self) -> (text: String)
        ensures
            text@ == self.spec_name()@ + " in sequence"@,
    {
        let name: &'static str = (*self).into();
        let mut text = String::from_str(name);
        text.append(" in sequence");
        text
    }

    /// Reads the flag, one byte, from a source.
    ///
    /// # Errors
    ///
    /// `LastInSequenceFlagReadData` at the end of the source;
    /// `LastInSequenceFlagInvalidValue` for a byte that is no flag.
    pub fn read<Reader: ReadExt>(reader: &mut Reader) -> (r: Result<Self, Error>)
        ensures
            final(reader).content() == old(reader).content(),
            r == spec_read_flag(unread_from(old(reader).content(), old(reader).position())),
            r is Ok ==> final(reader).position() == old(reader).position() + 1,
    {
        let mut last_in_sequence_byte: [u8; 1] = [0u8; 1];
        match reader.read_buffer(&mut last_in_sequence_byte) {
            Ok(()) => {},
            Err(_) => {
                return Err(Error::LastInSequenceFlagReadData);
            },
        }
        Self::try_from(last_in_sequence_byte[0])
    }
}

impl TryFrom<u8> for LastInSequenceFlag {
    type Error = Error;

    /// The flag that `value` stands for.
    ///
    /// # Errors
    ///
    /// `LastInSequenceFlagInvalidValue`, with `value`, for every byte but
    /// `0x40`, `0x80` and `0xC0`.
    fn try_from(value: u8) -> (r: Result<Self, Self::Error>)
        ensures
            r == LastInSequenceFlag::checked(value),
    {
        match value {
            0x40 => Ok(Self::Last),
            0x80 => Ok(Self::First),
            0xC0 => Ok(Self::FirstAndLast),
            value => Err(Error::LastInSequenceFlagInvalidValue { value }),
        }
    }
}

impl TryFromSpecImpl<u8> for LastInSequenceFlag {
    open spec fn obeys_try_from_spec() -> bool {
        true
    }

    open spec fn try_from_spec(value: u8) -> Result<Self, Self::Error> {
        LastInSequenceFlag::checked(value)
    }
}

impl From<LastInSequenceFlag> for u8 {
    /// The byte that stands for the flag.
    fn from(val: LastInSequenceFlag) -> (r: Self)
        ensures
            r == val.spec_byte(),
    {
        match val {
            LastInSequenceFlag::Last => 0x40,
            LastInSequenceFlag::First => 0x80,
            LastInSequenceFlag::FirstAndLast => 0xC0,
        }
    }
}

impl FromSpecImpl<LastInSequenceFlag> for u8 {
    open spec fn obeys_from_spec() -> bool {
        true
    }

    open spec fn from_spec(val: LastInSequenceFlag) -> Self {
        val.spec_byte()
    }
}

impl From<LastInSequenceFlag> for &'static str {
    /// The name of the flag.
    fn from(val: LastInSequenceFlag) -> (r: Self)
        ensures
            r@ == val.spec_name()@,
    {
        match val {
            LastInSequenceFlag::Last => "Last",
            LastInSequenceFlag::First => "First",
            LastInSequenceFlag::FirstAndLast => "First and last",
        }
    }
}

impl FromSpecImpl<LastInSequenceFlag> for &'static str {
    open spec fn obeys_from_spec() -> bool {
        true
    }

    open spec fn from_spec(val: LastInSequenceFlag) -> Self {
        val.spec_name()
    }
}

/// What reading a flag gives on a source with the bytes `unread` ahead.
pub open spec fn spec_read_flag(unread: Seq<u8>) -> Result<LastInSequenceFlag, Error> {
    if unread.len() < 1 {
        Err(Error::LastInSequenceFlagReadData)
    } else {
        LastInSequenceFlag::checked(unread[0])
    }
}

/// The byte of a flag reads back as that flag, and a byte that reads as a flag
/// is the byte of that flag.
pub proof fn lemma_flag_round_trip(value: u8, flag: LastInSequenceFlag)
    ensures
        LastInSequenceFlag::checked(flag.spec_byte()) == Ok::<LastInSequenceFlag, Error>(flag),
        LastInSequenceFlag::checked(value) matches Ok(f) ==> f.spec_byte() == value,
        LastInSequenceFlag::checked(value) is Err ==> value != 0x40 && value != 0x80 && value
            != 0xC0,
{
}

/// Number of bytes of a segment that holds the start of an object, before the
/// data: object id, version, flag, data length, width and height.
pub const FIRST_FIELDS_LEN: usize = 11;

/// Number of bytes of a segment that goes on with an object, before the data:
/// object id, version and flag.
pub const LAST_FIELDS_LEN: usize = 4;

/// The graphics object of a subtitle: its size and its image data, compressed
/// using Run-length Encoding (RLE).
#[derive(Debug, Clone, PartialEq, Eq)]
pub struct ObjectDefinition {
    /// Width of the image, in pixels.
    pub width: u16,
    /// Height of the image, in pixels.
    pub height: u16,
    /// The compressed image data, as far as it has been read.
    pub object_data: Vec<u8>,
}

/// What an [`ObjectDefinition`] holds.
pub struct ObjectDefinitionView {
    /// Width of the image, in pixels.
    pub width: u16,
    /// Height of the image, in pixels.
    pub height: u16,
    /// The compressed image data, as far as it has been read.
    pub object_data: Seq<u8>,
}

impl View for ObjectDefinition {
    type V = ObjectDefinitionView;

    open spec fn view(&self) -> ObjectDefinitionView {
        ObjectDefinitionView {
            width: self.width,
            height: self.height,
            object_data: self.object_data@,
        }
    }
}

/// This segment defines the graphics object : it contain the image.
///
/// An object is whole after a segment flagged first and last, or after a
/// segment flagged first and one flagged last.
#[derive(Debug, Clone, PartialEq, Eq)]
pub enum ObjectDefinitionSegment {
    /// A whole object.
    Complete(ObjectDefinition),
    /// The start of an object: the data read so far, and the length that the
    /// data has when whole.
    Incomplete {
        /// The object, with the data of the first segment.
        object: ObjectDefinition,
        /// Length of the whole data.
        expected: usize,
    },
}

/// What an [`ObjectDefinitionSegment`] holds.
pub enum ObjectDefinitionSegmentView {
    /// A whole object.
    Complete(ObjectDefinitionView),
    /// The start of an object.
    Incomplete {
        /// The object, with the data of the first segment.
        object: ObjectDefinitionView,
        /// Length of the whole data.
        expected: nat,
    },
}

impl View for ObjectDefinitionSegment {
    type V = ObjectDefinitionSegmentView;

    open spec fn view(&self) -> ObjectDefinitionSegmentView {
        match self {
            ObjectDefinitionSegment::Complete(object) => ObjectDefinitionSegmentView::Complete(
                object@,
            ),
            ObjectDefinitionSegment::Incomplete { object, expected } => {
                ObjectDefinitionSegmentView::Incomplete { object: object@, expected: *expected as nat }
            },
        }
    }
}

/// What is held of an object that is under way, if anything.
pub open spec fn spec_held(prev: Option<ObjectDefinitionSegment>) -> Option<
    ObjectDefinitionSegmentView,
> {
    match prev {
        Some(segment) => Some(segment@),
        None => None,
    }
}

/// What a segment that starts an object gives, from the bytes `fields` behind
/// its flag: three bytes of data length, which counts the four bytes of width
/// and height too, the width, the height, and the data. A segment flagged
/// first and last holds all the data, and its size is 11 and the length of the
/// data; one flagged first holds the rest of the segment, which is no more
/// than all the data.
pub open spec fn spec_read_first(fields: Seq<u8>, segments_size: nat, whole: bool) -> Result<
    ObjectDefinitionSegmentView,
    Error,
> {
    let length = be_value(fields.take(3));
    let payload = (length - 4) as nat;
    let in_segment = if whole {
        payload
    } else {
        (segments_size - FIRST_FIELDS_LEN) as nat
    };
    let object = ObjectDefinitionView {
        width: be_value(fields.subrange(3, 5)) as u16,
        height: be_value(fields.subrange(5, 7)) as u16,
        object_data: fields.subrange(7, 7 + in_segment as int),
    };
    if fields.len() < 3 {
        Err(Error::ReadObjectDataLength)
    } else if length < 4 {
        Err(Error::ObjectDataLengthTooShort { length: length as usize })
    } else if fields.len() < 5 {
        Err(Error::ReadWidth)
    } else if fields.len() < 7 {
        Err(Error::ReadHeight)
    } else if (whole && segments_size != FIRST_FIELDS_LEN + payload) || (!whole && (segments_size
        < FIRST_FIELDS_LEN || segments_size - FIRST_FIELDS_LEN > payload)) {
        Err(
            Error::SegmentSizeMismatch {
                segments_size: segments_size as usize,
                data_size: payload as usize,
            },
        )
    } else if fields.len() < 7 + in_segment {
        Err(Error::ObjectData { buff_size: in_segment as usize })
    } else if whole {
        Ok(ObjectDefinitionSegmentView::Complete(object))
    } else {
        Ok(ObjectDefinitionSegmentView::Incomplete { object, expected: payload })
    }
}

/// What a segment that ends an object gives, from the bytes `data` behind its
/// flag and the start `prev` of the object: the whole object, if the data held
/// and the data of the segment have together the length that was expected.
pub open spec fn spec_read_last(
    data: Seq<u8>,
    segments_size: nat,
    prev: Option<ObjectDefinitionSegmentView>,
) -> Result<ObjectDefinitionSegmentView, Error> {
    match prev {
        Some(ObjectDefinitionSegmentView::Incomplete { object, expected }) => {
            let in_segment = (segments_size - LAST_FIELDS_LEN) as nat;
            if segments_size < LAST_FIELDS_LEN || object.object_data.len() + in_segment
                != expected {
                Err(
                    Error::SegmentSizeMismatch {
                        segments_size: segments_size as usize,
                        data_size: expected as usize,
                    },
                )
            } else if data.len() < in_segment {
                Err(Error::ObjectData { buff_size: in_segment as usize })
            } else {
                Ok(
                    ObjectDefinitionSegmentView::Complete(
                        ObjectDefinitionView {
                            width: object.width,
                            height: object.height,
                            object_data: object.object_data + data.take(in_segment as int),
                        },
                    ),
                )
            }
        },
        _ => Err(Error::LastInSequenceFlagNotManaged(LastInSequenceFlag::Last)),
    }
}

/// What reading an Object Definition Segment of `segments_size` bytes gives on
/// a source with `content`, at `pos`, while `prev` is held: object id and
/// version are skipped, the flag is read, and the rest goes by the flag.
pub open spec fn spec_read(
    content: Seq<u8>,
    pos: nat,
    segments_size: nat,
    prev: Option<ObjectDefinitionSegmentView>,
) -> Result<ObjectDefinitionSegmentView, Error> {
    if pos + 3 > usize::MAX {
        Err(Error::SkipObjectIdAndVerNum(ReadError::FailedSeek))
    } else {
        match spec_read_flag(unread_from(content, pos + 3)) {
            Err(e) => Err(e),
            Ok(LastInSequenceFlag::Last) => spec_read_last(
                unread_from(content, pos + 4),
                segments_size,
                prev,
            ),
            Ok(flag) => spec_read_first(
                unread_from(content, pos + 4),
                segments_size,
                flag == LastInSequenceFlag::FirstAndLast,
            ),
        }
    }
}

/// Reads an Object Definition Segment of `segments_size` bytes and adds it to
/// what is held of the object under way.
///
/// A segment that starts an object takes the place of what was held. On
/// success the source stands behind the segment.
///
/// # Errors
///
/// Each error on the inputs that [`spec_read`] names. Where the source is left
/// then is not said.
pub fn read<Reader: ReadExt>(
    reader: &mut Reader,
    segments_size: usize,
    prev: Option<ObjectDefinitionSegment>,
) -> (r: Result<ObjectDefinitionSegment, Error>)
    ensures
        final(reader).content() == old(reader).content(),
        match r {
            Ok(segment) => spec_read(
                old(reader).content(),
                old(reader).position(),
                segments_size as nat,
                spec_held(prev),
            ) == Ok::<ObjectDefinitionSegmentView, Error>(segment@) && final(reader).position()
                == old(reader).position() + segments_size,
            Err(e) => spec_read(
                old(reader).content(),
                old(reader).position(),
                segments_size as nat,
                spec_held(prev),
            ) == Err::<ObjectDefinitionSegmentView, Error>(e),
        },
{
    match handle_object_fields(reader) {
        Ok(()) => {},
        Err(e) => {
            return Err(e);
        },
    }
    let last_in_sequence_flag = match LastInSequenceFlag::read(reader) {
        Ok(flag) => flag,
        Err(e) => {
            return Err(e);
        },
    };
    let ghost fields = unread_from(reader.content(), reader.position());
    match last_in_sequence_flag {
        LastInSequenceFlag::Last => {
            let (mut object, expected) = match prev {
                Some(ObjectDefinitionSegment::Incomplete { object, expected }) => (
                    object,
                    expected,
                ),
                _ => {
                    return Err(Error::LastInSequenceFlagNotManaged(last_in_sequence_flag));
                },
            };
            let held: usize = object.object_data.len();
            if segments_size < LAST_FIELDS_LEN || held > expected || segments_size
                - LAST_FIELDS_LEN != expected - held {
                return Err(Error::SegmentSizeMismatch { segments_size, data_size: expected });
            }
            let mut data = match read_object_data(reader, segments_size - LAST_FIELDS_LEN) {
                Ok(data) => data,
                Err(e) => {
                    return Err(e);
                },
            };
            object.object_data.append(&mut data);
            Ok(ObjectDefinitionSegment::Complete(object))
        },
        _ => {
            let whole: bool = match last_in_sequence_flag {
                LastInSequenceFlag::FirstAndLast => true,
                _ => false,
            };
            let length: usize = match read_obj_data_length(reader) {
                Ok(length) => length,
                Err(e) => {
                    return Err(e);
                },
            };
            if length < 4 {
                return Err(Error::ObjectDataLengthTooShort { length });
            }
            let data_size: usize = length - 4;
            assert(unread_from(reader.content(), reader.position()) =~= fields.skip(3));
            let (width, height) = match read_img_size(reader) {
                Ok(size) => size,
                Err(e) => {
                    return Err(e);
                },
            };
            assert(fields.skip(3).subrange(0, 2) =~= fields.subrange(3, 5));
            assert(fields.skip(3).subrange(2, 4) =~= fields.subrange(5, 7));
            assert(unread_from(reader.content(), reader.position()) =~= fields.skip(7));
            let in_segment: usize = if whole {
                if segments_size != FIRST_FIELDS_LEN + data_size {
                    return Err(Error::SegmentSizeMismatch { segments_size, data_size });
                }
                data_size
            } else {
                if segments_size < FIRST_FIELDS_LEN || segments_size - FIRST_FIELDS_LEN
                    > data_size {
                    return Err(Error::SegmentSizeMismatch { segments_size, data_size });
                }
                segments_size - FIRST_FIELDS_LEN
            };
            let object_data = match read_object_data(reader, in_segment) {
                Ok(data) => data,
                Err(e) => {
                    return Err(e);
                },
            };
            assert(object_data@ =~= fields.subrange(7, 7 + in_segment));
            let object = ObjectDefinition { width, height, object_data };
            if whole {
                Ok(ObjectDefinitionSegment::Complete(object))
            } else {
                Ok(ObjectDefinitionSegment::Incomplete { object, expected: data_size })
            }
        },
    }
}

/// Handle `Object ID` and `Object Version Number` fields by skip it.
/// They are not useful for current subtitle management.
fn handle_object_fields<Reader: ReadExt>(reader: &mut Reader) -> (r: Result<(), Error>)
    ensures
        final(reader).content() == old(reader).content(),
        old(reader).position() + 3 <= usize::MAX ==> r is Ok && final(reader).position() == old(
            reader,
        ).position() + 3,
        old(reader).position() + 3 > usize::MAX ==> r == Err::<(), Error>(
            Error::SkipObjectIdAndVerNum(ReadError::FailedSeek),
        ),
{
    match reader.skip_data(2 + 1) {
        Ok(()) => Ok(()),
        Err(e) => Err(Error::SkipObjectIdAndVerNum(e)),
    }
}

/// Read the `Object Data Length` field and return value in `usize`.
fn read_obj_data_length<Reader: ReadExt>(reader: &mut Reader) -> (r: Result<usize, Error>)
    ensures
        final(reader).content() == old(reader).content(),
        match r {
            Ok(length) => unread_from(old(reader).content(), old(reader).position()).len() >= 3
                && length < 0x100_0000 && length == be_value(
                unread_from(old(reader).content(), old(reader).position()).take(3),
            ) && final(reader).position() == old(reader).position() + 3,
            Err(e) => unread_from(old(reader).content(), old(reader).position()).len() < 3 && e
                == Error::ReadObjectDataLength,
        },
{
    let mut buffer: [u8; 3] = [0u8; 3];
    match reader.read_buffer(&mut buffer) {
        Ok(()) => {},
        Err(_) => {
            return Err(Error::ReadObjectDataLength);
        },
    }
    let object_data_length: u32 = be_u24(buffer[0], buffer[1], buffer[2]);
    assert(buffer@ =~= seq![buffer[0], buffer[1], buffer[2]]);
    Ok(object_data_length as usize)
}

/// Read the image size (width and height) fields.
fn read_img_size<Reader: ReadExt>(reader: &mut Reader) -> (r: Result<(u16, u16), Error>)
    ensures
        final(reader).content() == old(reader).content(),
        match r {
            Ok((width, height)) => unread_from(old(reader).content(), old(reader).position()).len()
                >= 4 && width == be_value(
                unread_from(old(reader).content(), old(reader).position()).subrange(0, 2),
            ) && height == be_value(
                unread_from(old(reader).content(), old(reader).position()).subrange(2, 4),
            ) && final(reader).position() == old(reader).position() + 4,
            Err(e) => if unread_from(old(reader).content(), old(reader).position()).len() < 2 {
                e == Error::ReadWidth
            } else {
                unread_from(old(reader).content(), old(reader).position()).len() < 4 && e
                    == Error::ReadHeight
            },
        },
{
    let ghost unread = unread_from(reader.content(), reader.position());
    let mut buffer: [u8; 2] = [0u8; 2];
    match reader.read_buffer(&mut buffer) {
        Ok(()) => {},
        Err(_) => {
            return Err(Error::ReadWidth);
        },
    }
    let width: u16 = be_u16(buffer[0], buffer[1]);
    assert(unread.subrange(0, 2) =~= seq![buffer[0], buffer[1]]);
    assert(unread_from(reader.content(), reader.position()) =~= unread.skip(2));
    match reader.read_buffer(&mut buffer) {
        Ok(()) => {},
        Err(_) => {
            return Err(Error::ReadHeight);
        },
    }
    let height: u16 = be_u16(buffer[0], buffer[1]);
    assert(unread.subrange(2, 4) =~= seq![buffer[0], buffer[1]]);
    Ok((width, height))
}

/// Read the `Object data` field.
fn read_object_data<Reader: ReadExt>(reader: &mut Reader, len: usize) -> (r: Result<
    Vec<u8>,
    Error,
>)
    ensures
        final(reader).content() == old(reader).content(),
        match r {
            Ok(data) => len <= unread_from(old(reader).content(), old(reader).position()).len()
                && data@ == unread_from(old(reader).content(), old(reader).position()).take(
                len as int,
            ) && final(reader).position() == old(reader).position() + len,
            Err(e) => len > unread_from(old(reader).content(), old(reader).position()).len() && e
                == (Error::ObjectData { buff_size: len }),
        },
{
    match read_vec(reader, len) {
        Ok(data) => Ok(data),
        Err(_) => Err(Error::ObjectData { buff_size: len }),
    }
}

/// A segment flagged first and last gives an object only if its size is 11 and
/// the length of the data of the object. Where the fields can be read and the
/// data length counts the width and the height, any other size gives
/// `SegmentSizeMismatch`, whatever data follows.
pub proof fn lemma_single_segment_size(fields: Seq<u8>, segments_size: nat)
    ensures
        spec_read_first(fields, segments_size, true) matches Ok(segment) ==> segment matches ObjectDefinitionSegmentView::Complete(
            object,
        ) && segments_size == FIRST_FIELDS_LEN + object.object_data.len()
            && object.object_data.len() + 4 == be_value(fields.take(3)),
        fields.len() >= 7 && be_value(fields.take(3)) >= 4 && segments_size != FIRST_FIELDS_LEN
            + (be_value(fields.take(3)) - 4) ==> spec_read_first(fields, segments_size, true)
            == Err::<ObjectDefinitionSegmentView, Error>(
            Error::SegmentSizeMismatch {
                segments_size: segments_size as usize,
                data_size: (be_value(fields.take(3)) - 4) as usize,
            },
        ),
{
}

/// An object is whole only after a segment flagged first and last or one
/// flagged last; a segment flagged first gives the start of one; and a segment
/// flagged last gives an object only where the start of one is held: its data
/// is then the data held and the data of the segment, as long as expected.
pub proof fn lemma_object_parts(
    fields: Seq<u8>,
    segments_size: nat,
    prev: Option<ObjectDefinitionSegmentView>,
)
    ensures
        spec_read_first(fields, segments_size, false) matches Ok(segment)
            ==> segment is Incomplete,
        spec_read_last(fields, segments_size, prev) matches Ok(segment) ==> prev matches Some(
            ObjectDefinitionSegmentView::Incomplete { object, expected },
        ) && segment matches ObjectDefinitionSegmentView::Complete(whole) && whole.object_data
            == object.object_data + fields.take(segments_size - LAST_FIELDS_LEN)
            && whole.object_data.len() == expected && whole.width == object.width && whole.height
            == object.height,
{
}

} // verus!
