//! Segments: their type codes, the header of each in a stream, and the split
//! of a buffer that holds several.
use super::{be_value, unread_from, PgsError, ReadError, ReadExt};
use vstd::prelude::*;
use vstd::std_specs::convert::{FromSpecImpl, TryFromSpecImpl};
use vstd::string::StringExecFns;

verus! {

/// Segment start Magic Number: `PG`.
pub const MAGIC_NUMBER: [u8; 2] = [0x50, 0x47];

/// Length of the segment Header
pub const HEADER_LEN: usize = 13;

/// Represent a valid `SegmentType`.
#[derive(Debug, Clone, Copy, PartialEq, Eq, Structural)]
pub enum SegmentTypeCode {
    /// Palette Definition Segment, code `0x14`.
    ///
    /// Used to define a palette for color conversion.
    Pds,
    /// Object Definition Segment, code `0x15`.
    ///
    /// This segment defines the graphics object (image).
    Ods,
    /// Presentation Composition Segment, code `0x16`.
    ///
    /// Used for composing a sub picture.
    Pcs,
    /// Window Definition Segment, code `0x17`.
    ///
    /// Used to define the rectangular area on the screen where the sub picture will be shown.
    Wds,
    /// End Segment, code `0x80`.
    ///
    /// The end segment always has a segment size of zero and indicates the end of a Display Set (DS) definition.
    End,
}

/// The segment type that the byte `value` stands for, if any.
pub open spec fn spec_type_code(value: u8) -> Option<SegmentTypeCode> {
    if value == 0x14 {
        Some(SegmentTypeCode::Pds)
    } else if value == 0x15 {
        Some(SegmentTypeCode::Ods)
    } else if value == 0x16 {
        Some(SegmentTypeCode::Pcs)
    } else if value == 0x17 {
        Some(SegmentTypeCode::Wds)
    } else if value == 0x80 {
        Some(SegmentTypeCode::End)
    } else {
        None
    }
}

impl SegmentTypeCode {
    /// The byte that stands for the segment type.
    pub open spec fn spec_byte(self) -> u8 {
        match self {
            SegmentTypeCode::Pds => 0x14,
            SegmentTypeCode::Ods => 0x15,
            SegmentTypeCode::Pcs => 0x16,
            SegmentTypeCode::Wds => 0x17,
            SegmentTypeCode::End => 0x80,
        }
    }

    /// What reading a type code from `value` gives: the type, or the error
    /// that carries the byte.
    pub open spec fn checked(value: u8) -> Result<Self, PgsError> {
        match spec_type_code(value) {
            Some(code) => Ok(code),
            None => Err(PgsError::SegmentInvalidTypeCode { value }),
        }
    }

    /// The three-letter name of the segment type.
    pub open spec fn spec_name(self) -> &'static str {
        match self {
            SegmentTypeCode::Pds => "PDS",
            SegmentTypeCode::Ods => "ODS",
            SegmentTypeCode::Pcs => "PCS",
            SegmentTypeCode::Wds => "WDS",
            SegmentTypeCode::End => "END",
        }
    }

    /// The text of the segment type: its three-letter name.
    #[must_use]
    pub fn to_string(&self) -> (text: String)
        ensures
            text@ == self.spec_name()@,
    {
        let name: &'static str = (*self).into();
        String::from_str(name)
    }
}

impl TryFrom<u8> for SegmentTypeCode {
    type Error = PgsError;

    /// The segment type that `value` stands for.
    ///
    /// # Errors
    ///
    /// `SegmentInvalidTypeCode`, with `value`, for every byte but `0x14`,
    /// `0x15`, `0x16`, `0x17` and `0x80`.
    fn try_from(value: u8) -> (r: Result<Self, Self::Error>)
        ensures
            r == SegmentTypeCode::checked(value),
    {
        match value {
            0x14 => Ok(Self::Pds),
            0x15 => Ok(Self::Ods),
            0x16 => Ok(Self::Pcs),
            0x17 => Ok(Self::Wds),
            0x80 => Ok(Self::End),
            _ => Err(PgsError::SegmentInvalidTypeCode { value }),
        }
    }
}

impl TryFromSpecImpl<u8> for SegmentTypeCode {
    open spec fn obeys_try_from_spec() -> bool {
        true
    }

    open spec fn try_from_spec(value: u8) -> Result<Self, Self::Error> {
        SegmentTypeCode::checked(value)
    }
}

impl From<SegmentTypeCode> for u8 {
    /// The byte that stands for the segment type.
    fn from(val: SegmentTypeCode) -> (r: Self)
        ensures
            r == val.spec_byte(),
    {
        match val {
            SegmentTypeCode::Pds => 0x14,
            SegmentTypeCode::Ods => 0x15,
            SegmentTypeCode::Pcs => 0x16,
            SegmentTypeCode::Wds => 0x17,
            SegmentTypeCode::End => 0x80,
        }
    }
}

impl FromSpecImpl<SegmentTypeCode> for u8 {
    open spec fn obeys_from_spec() -> bool {
        true
    }

    open spec fn from_spec(val: SegmentTypeCode) -> Self {
        val.spec_byte()
    }
}

impl From<SegmentTypeCode> for &'static str {
    /// The three-letter name of the segment type.
    fn from(val: SegmentTypeCode) -> (r: Self)
        ensures
            r@ == val.spec_name()@,
    {
        match val {
            SegmentTypeCode::Pds => "PDS",
            SegmentTypeCode::Ods => "ODS",
            SegmentTypeCode::Pcs => "PCS",
            SegmentTypeCode::Wds => "WDS",
            SegmentTypeCode::End => "END",
        }
    }
}

impl FromSpecImpl<SegmentTypeCode> for &'static str {
    open spec fn obeys_from_spec() -> bool {
        true
    }

    open spec fn from_spec(val: SegmentTypeCode) -> Self {
        val.spec_name()
    }
}

/// A byte that stands for a segment type gives that type and the type gives
/// the byte back; every other byte gives the error that carries it.
pub proof fn lemma_type_code_round_trip(value: u8)
    ensures
        match SegmentTypeCode::checked(value) {
            Ok(code) => code.spec_byte() == value && (value == 0x14 || value == 0x15 || value
                == 0x16 || value == 0x17 || value == 0x80),
            Err(e) => e == (PgsError::SegmentInvalidTypeCode { value }) && value != 0x14 && value
                != 0x15 && value != 0x16 && value != 0x17 && value != 0x80,
        },
{
}

/// The byte of a segment type reads back as that type.
pub proof fn lemma_type_code_byte_reads_back(code: SegmentTypeCode)
    ensures
        SegmentTypeCode::checked(code.spec_byte()) == Ok::<SegmentTypeCode, PgsError>(code),
{
}

/// Struct of segment header.
#[derive(Debug, Clone, Copy, PartialEq, Eq, Structural)]
pub struct SegmentHeader {
    /// Presentation Timestamp, in ticks of 90 kHz.
    pub pts: u32,
    /// Code of the Segment Type
    pub type_code: SegmentTypeCode,
    /// Size of the segment: the number of bytes that follow the header.
    pub size: u16,
}

impl SegmentHeader {
    /// The presentation time in milliseconds: the timestamp divided by 90.
    pub open spec fn spec_presentation_time(self) -> int {
        self.pts as int / 90
    }

    /// The presentation time, in milliseconds.
    pub fn presentation_time(&self) -> (ms: u32)
        ensures
            ms == self.spec_presentation_time(),
    {
        self.pts / 90
    }

    /// The type of the segment.
    pub fn type_code(&self) -> (code: SegmentTypeCode)
        ensures
            code == self.type_code,
    {
        self.type_code
    }

    /// The size of the segment: the number of bytes that follow the header.
    pub fn size(&self) -> (size: u16)
        ensures
            size == self.size,
    {
        self.size
    }
}

/// `bytes` start with the two bytes of the magic number.
pub open spec fn begins_with_magic(bytes: Seq<u8>) -> bool {
    bytes.len() >= 2 && bytes[0] == 0x50 && bytes[1] == 0x47
}

/// What the 13 bytes of a whole header spell: the magic number, four bytes of
/// presentation timestamp, four bytes of decode timestamp, which nothing
/// reads, the type code and two bytes of size.
pub open spec fn spec_parse_header(bytes: Seq<u8>) -> Result<Option<SegmentHeader>, PgsError>
    recommends
        bytes.len() == HEADER_LEN,
{
    if !begins_with_magic(bytes) {
        Err(PgsError::SegmentPGMissing)
    } else {
        match SegmentTypeCode::checked(bytes[10]) {
            Err(e) => Err(e),
            Ok(type_code) => Ok(
                Some(
                    SegmentHeader {
                        pts: be_value(bytes.subrange(2, 6)) as u32,
                        type_code,
                        size: be_value(bytes.subrange(11, 13)) as u16,
                    },
                ),
            ),
        }
    }
}

/// What reading a header gives on a source with the bytes `unread` ahead:
/// nothing at a clean end; the missing magic number where bytes are there and
/// do not start with it; a failed read where the source ends inside the
/// header; else what the header spells.
pub open spec fn spec_header(unread: Seq<u8>) -> Result<Option<SegmentHeader>, PgsError> {
    if unread.len() == 0 {
        Ok(None)
    } else if !begins_with_magic(unread) {
        Err(PgsError::SegmentPGMissing)
    } else if unread.len() < HEADER_LEN {
        Err(PgsError::SegmentFailReadHeader)
    } else {
        spec_parse_header(unread.take(HEADER_LEN as int))
    }
}

/// Read the segment header
///
/// On a header the source is left behind it, at a clean end where it was.
///
/// # Errors
///
/// `SegmentPGMissing`, `SegmentFailReadHeader` and `SegmentInvalidTypeCode`,
/// each as [`spec_header`] says. Where the source is left then is not said.
pub fn read_header<R: ReadExt>(reader: &mut R) -> (r: Result<Option<SegmentHeader>, PgsError>)
    ensures
        final(reader).content() == old(reader).content(),
        r == spec_header(unread_from(old(reader).content(), old(reader).position())),
        r matches Ok(Some(_)) ==> final(reader).position() == old(reader).position() + HEADER_LEN,
        r matches Ok(None) ==> final(reader).position() == old(reader).position(),
{
    let ghost unread = unread_from(reader.content(), reader.position());
    let mut buffer: [u8; 13] = [0u8; 13];
    match reader.read_buffer(&mut buffer) {
        Ok(()) => {
            assert(unread.take(13) =~= buffer@);
            parse_segment_header(buffer)
        },
        Err(_) => {
            let mut magic: [u8; 2] = [0u8; 2];
            match reader.read_buffer(&mut magic) {
                Ok(()) => {
                    if magic[0] == 0x50 && magic[1] == 0x47 {
                        Err(PgsError::SegmentFailReadHeader)
                    } else {
                        Err(PgsError::SegmentPGMissing)
                    }
                },
                Err(_) => {
                    let mut first: [u8; 1] = [0u8; 1];
                    match reader.read_buffer(&mut first) {
                        Ok(()) => Err(PgsError::SegmentPGMissing),
                        Err(_) => Ok(None),
                    }
                },
            }
        },
    }
}

/// Reads the fields of a whole header.
///
/// # Errors
///
/// `SegmentPGMissing` where the header does not start with the magic number,
/// else `SegmentInvalidTypeCode` where its type code stands for no segment
/// type.
pub fn parse_segment_header(buffer: [u8; 13]) -> (r: Result<Option<SegmentHeader>, PgsError>)
    ensures
        r == spec_parse_header(buffer@),
        r !is Err ==> r matches Ok(Some(_)),
{
    if buffer[0] != 0x50 || buffer[1] != 0x47 {
        return Err(PgsError::SegmentPGMissing);
    }
    let pts: u32 = super::reader::be_u32(buffer[2], buffer[3], buffer[4], buffer[5]);
    let type_code = match SegmentTypeCode::try_from(buffer[10]) {
        Ok(code) => code,
        Err(e) => {
            return Err(e);
        },
    };
    let size: u16 = super::reader::be_u16(buffer[11], buffer[12]);
    proof {
        assert(buffer@.subrange(2, 6) =~= seq![buffer[2], buffer[3], buffer[4], buffer[5]]);
        assert(buffer@.subrange(11, 13) =~= seq![buffer[11], buffer[12]]);
    }
    Ok(Some(SegmentHeader { pts, type_code, size }))
}

/// skip segment
///
/// Moves the source past the `size` bytes of the segment of `header`, read or
/// not, without looking at them.
///
/// # Errors
///
/// `SegmentSkip`, with the type code of the segment, where the source cannot
/// represent the new position; the source then stays where it was.
pub fn skip_segment<R: ReadExt>(reader: &mut R, header: &SegmentHeader) -> (r: Result<
    (),
    PgsError,
>)
    ensures
        final(reader).content() == old(reader).content(),
        old(reader).position() + header.size <= usize::MAX ==> r is Ok
            && final(reader).position() == old(reader).position() + header.size,
        old(reader).position() + header.size > usize::MAX ==> r == Err::<(), PgsError>(
            PgsError::SegmentSkip { source: ReadError::FailedSeek, type_code: header.type_code },
        ) && final(reader).position() == old(reader).position(),
{
    let data_size: usize = header.size() as usize;
    match reader.skip_data(data_size) {
        Ok(()) => Ok(()),
        Err(source) => Err(PgsError::SegmentSkip { source, type_code: header.type_code() }),
    }
}

/// Length of the header of a segment in a buffer: the type code and the size.
pub const BUF_HEADER_LEN: usize = 3;

/// Define the errors of Segment Buffer creation.
#[derive(Debug, Clone, Copy, PartialEq, Eq, Structural)]
pub enum SegmentBufError {
    /// Failed to read valid `SegmentCode` from buffer: its first byte stands
    /// for no segment type (`SegmentInvalidTypeCode`), or the buffer is empty
    /// (`SegmentFailReadHeader`).
    SegmentCodeRead(PgsError),
    /// Failed to read valid `segment size` from buffer: it ends before the
    /// second byte of the size.
    SegmentSizeRead,
    /// Buffer len and segment size doesn't match: the buffer is not the
    /// header and `seg_size` bytes.
    BufferLen {
        /// The size that the header gives.
        seg_size: u16,
        /// The length of the buffer, header included.
        buf_len: usize,
    },
}

/// Whether `bytes` frame one segment: a valid type code, two bytes of size,
/// and as many bytes of data as the size says. If not, the error says why.
pub open spec fn spec_frame(bytes: Seq<u8>) -> Result<(), SegmentBufError> {
    if bytes.len() == 0 {
        Err(SegmentBufError::SegmentCodeRead(PgsError::SegmentFailReadHeader))
    } else {
        match SegmentTypeCode::checked(bytes[0]) {
            Err(e) => Err(SegmentBufError::SegmentCodeRead(e)),
            Ok(_) => if bytes.len() < BUF_HEADER_LEN {
                Err(SegmentBufError::SegmentSizeRead)
            } else if be_value(bytes.subrange(1, 3)) + BUF_HEADER_LEN != bytes.len() {
                Err(
                    SegmentBufError::BufferLen {
                        seg_size: be_value(bytes.subrange(1, 3)) as u16,
                        buf_len: bytes.len() as usize,
                    },
                )
            } else {
                Ok(())
            },
        }
    }
}

/// Wrap Bytes of a segment buffer (as read from matroska by example).
///
/// It's used by [`SegmentSplitter`] to return data. The bytes of a
/// `SegmentBuf` always frame one segment, as [`spec_frame`] says: there is no
/// way to make one from other bytes.
#[derive(Debug, Clone, Copy)]
pub struct SegmentBuf<'a> {
    buffer: &'a [u8],
}

impl<'a> View for SegmentBuf<'a> {
    type V = Seq<u8>;

    /// The bytes of the segment, header included.
    closed spec fn view(&self) -> Seq<u8> {
        self.buffer@
    }
}

impl<'a> SegmentBuf<'a> {
    #[verifier::type_invariant]
    spec fn well_framed(self) -> bool {
        spec_frame(self.buffer@) is Ok
    }

    /// Get code of the segment: the type that its first byte stands for.
    #[must_use]
    pub fn code(&self) -> (code: SegmentTypeCode)
        ensures
            spec_frame(self@) is Ok,
            SegmentTypeCode::checked(self@[0]) == Ok::<SegmentTypeCode, PgsError>(code),
    {
        proof {
            use_type_invariant(self);
        }
        match SegmentTypeCode::try_from(self.buffer[0]) {
            Ok(code) => code,
            Err(_) => {
                assert(false);
                SegmentTypeCode::End
            },
        }
    }

    /// Get the buffer of the segment. This include segment code and size as header.
    #[must_use]
    pub fn buffer(&self) -> (bytes: &'a [u8])
        ensures
            spec_frame(self@) is Ok,
            bytes@ == self@,
    {
        proof {
            use_type_invariant(self);
        }
        self.buffer
    }

    /// Get the data of the segment. Doesn't include segment code and size.
    #[must_use]
    pub fn data(&self) -> (bytes: &'a [u8])
        ensures
            spec_frame(self@) is Ok,
            bytes@ == self@.skip(BUF_HEADER_LEN as int),
            bytes@.len() == be_value(self@.subrange(1, 3)),
    {
        proof {
            use_type_invariant(self);
        }
        let len: usize = self.buffer.len();
        let data = vstd::slice::slice_subrange(self.buffer, 3, len);
        assert(data@ =~= self.buffer@.skip(3));
        data
    }
}

impl<'a> TryFrom<&'a [u8]> for SegmentBuf<'a> {
    type Error = SegmentBufError;

    /// Wraps `buffer` if it frames one segment.
    ///
    /// # Errors
    ///
    /// The error that [`spec_frame`] gives for the bytes of `buffer`.
    fn try_from(buffer: &'a [u8]) -> (r: Result<Self, Self::Error>)
        ensures
            match r {
                Ok(seg) => spec_frame(buffer@) is Ok && seg@ == buffer@,
                Err(e) => spec_frame(buffer@) == Err::<(), SegmentBufError>(e),
            },
    {
        let buf_len: usize = buffer.len();
        if buf_len == 0 {
            return Err(SegmentBufError::SegmentCodeRead(PgsError::SegmentFailReadHeader));
        }
        match SegmentTypeCode::try_from(buffer[0]) {
            Ok(_) => {},
            Err(e) => {
                return Err(SegmentBufError::SegmentCodeRead(e));
            },
        }
        if buf_len < 3 {
            return Err(SegmentBufError::SegmentSizeRead);
        }
        let seg_size: u16 = super::reader::be_u16(buffer[1], buffer[2]);
        assert(buffer@.subrange(1, 3) =~= seq![buffer[1], buffer[2]]);
        if buf_len - 3 != seg_size as usize {
            Err(SegmentBufError::BufferLen { seg_size, buf_len })
        } else {
            Ok(Self { buffer })
        }
    }
}

impl<'a> TryFromSpecImpl<&'a [u8]> for SegmentBuf<'a> {
    open spec fn obeys_try_from_spec() -> bool {
        true
    }

    closed spec fn try_from_spec(buffer: &'a [u8]) -> Result<Self, Self::Error> {
        match spec_frame(buffer@) {
            Ok(()) => Ok(SegmentBuf { buffer }),
            Err(e) => Err(e),
        }
    }
}

/// Define the errors of the split of a buffer into segments.
#[derive(Debug, Clone, Copy, PartialEq, Eq, Structural)]
pub enum SegmentSplitterError {
    /// The first byte of what is left stands for no segment type.
    TypeCode(PgsError),
    /// Invalid segment size found: what is left ends before the second byte
    /// of the size.
    Size,
    /// Segment Buffer creation Failed: what is left holds fewer bytes than the
    /// header and the size it gives.
    BufCreation(SegmentBufError),
}

/// How many bytes the first segment of `content` takes, header included; or
/// why `content`, which is not empty, does not start with a whole segment.
pub open spec fn spec_first_segment(content: Seq<u8>) -> Result<nat, SegmentSplitterError>
    recommends
        content.len() > 0,
{
    match SegmentTypeCode::checked(content[0]) {
        Err(e) => Err(SegmentSplitterError::TypeCode(e)),
        Ok(_) => if content.len() < BUF_HEADER_LEN {
            Err(SegmentSplitterError::Size)
        } else if be_value(content.subrange(1, 3)) + BUF_HEADER_LEN > content.len() {
            Err(
                SegmentSplitterError::BufCreation(
                    SegmentBufError::BufferLen {
                        seg_size: be_value(content.subrange(1, 3)) as u16,
                        buf_len: content.len() as usize,
                    },
                ),
            )
        } else {
            Ok(be_value(content.subrange(1, 3)) + BUF_HEADER_LEN as nat)
        },
    }
}

/// The items that the split of `content` gives, in order: the bytes of each
/// segment, up to the end of `content` or to the first error, which is the
/// last item.
pub open spec fn spec_segments(content: Seq<u8>) -> Seq<Result<Seq<u8>, SegmentSplitterError>>
    decreases content.len(),
{
    if content.len() == 0 {
        Seq::empty()
    } else {
        match spec_first_segment(content) {
            Err(e) => seq![Err(e)],
            Ok(len) => seq![Ok(content.take(len as int))] + spec_segments(content.skip(len as int)),
        }
    }
}

/// This split a buffer of segment into [`SegmentBuf`].
///
/// It gives the segments of a buffer one by one, by [`SegmentSplitter::next`].
/// This can be used with data `PGS` in matroska files. A copy of a splitter
/// starts again from where the splitter stood.
#[derive(Debug, Clone, Copy)]
pub struct SegmentSplitter<'a> {
    content: &'a [u8],
}

impl<'a> View for SegmentSplitter<'a> {
    type V = Seq<u8>;

    /// The bytes that are left to split.
    closed spec fn view(&self) -> Seq<u8> {
        self.content@
    }
}

impl<'a> SegmentSplitter<'a> {
    /// Takes the first segment off what is left. After an error nothing is
    /// left.
    fn split_next(&mut self) -> (r: Result<SegmentBuf<'a>, SegmentSplitterError>)
        requires
            old(self)@.len() > 0,
        ensures
            match r {
                Ok(seg) => spec_first_segment(old(self)@) is Ok && seg@ == old(self)@.take(
                    spec_first_segment(old(self)@)->Ok_0 as int,
                ) && final(self)@ == old(self)@.skip(spec_first_segment(old(self)@)->Ok_0 as int),
                Err(e) => spec_first_segment(old(self)@) == Err::<nat, SegmentSplitterError>(e)
                    && final(self)@.len() == 0,
            },
    {
        let content: &'a [u8] = self.content;
        let len: usize = content.len();
        self.content = vstd::slice::slice_subrange(content, len, len);
        match SegmentTypeCode::try_from(content[0]) {
            Ok(_) => {},
            Err(e) => {
                return Err(SegmentSplitterError::TypeCode(e));
            },
        }
        if len < 3 {
            return Err(SegmentSplitterError::Size);
        }
        let seg_size: u16 = super::reader::be_u16(content[1], content[2]);
        assert(content@.subrange(1, 3) =~= seq![content[1], content[2]]);
        // + 3 to take the header size into account
        if len - 3 < seg_size as usize {
            return Err(
                SegmentSplitterError::BufCreation(
                    SegmentBufError::BufferLen { seg_size, buf_len: len },
                ),
            );
        }
        let (seg_data, remain) = content.split_at(seg_size as usize + 3);
        assert(seg_data@ =~= content@.take(seg_size + 3));
        assert(remain@ =~= content@.skip(seg_size + 3));
        assert(seg_data@.subrange(1, 3) =~= content@.subrange(1, 3));
        match SegmentBuf::try_from(seg_data) {
            Ok(seg) => {
                self.content = remain;
                Ok(seg)
            },
            Err(e) => {
                assert(false);
                Err(SegmentSplitterError::BufCreation(e))
            },
        }
    }

    /// The next segment of the buffer, or why there is none; `None` when
    /// nothing is left. An error is the last item: after it nothing is left.
    pub fn next(&mut self) -> (r: Option<Result<SegmentBuf<'a>, SegmentSplitterError>>)
        ensures
            old(self)@.len() == 0 ==> r is None && final(self)@ == old(self)@,
            old(self)@.len() > 0 ==> final(self)@.len() < old(self)@.len() && match r {
                Some(Ok(seg)) => spec_first_segment(old(self)@) is Ok && seg@ == old(self)@.take(
                    spec_first_segment(old(self)@)->Ok_0 as int,
                ) && final(self)@ == old(self)@.skip(spec_first_segment(old(self)@)->Ok_0 as int),
                Some(Err(e)) => spec_first_segment(old(self)@) == Err::<
                    nat,
                    SegmentSplitterError,
                >(e) && final(self)@.len() == 0,
                None => false,
            },
    {
        if self.content.is_empty() {
            None
        } else {
            Some(self.split_next())
        }
    }

    /// All the items that are left, in order, as repeated calls of
    /// [`SegmentSplitter::next`] give them.
    pub fn collect(self) -> (items: Vec<Result<SegmentBuf<'a>, SegmentSplitterError>>)
        ensures
            items@.len() == spec_segments(self@).len(),
            forall|i: int|
                0 <= i < items@.len() ==> match #[trigger] items@[i] {
                    Ok(seg) => spec_segments(self@)[i] == Ok::<Seq<u8>, SegmentSplitterError>(
                        seg@,
                    ),
                    Err(e) => spec_segments(self@)[i] == Err::<Seq<u8>, SegmentSplitterError>(e),
                },
    {
        let mut splitter = self;
        let mut items: Vec<Result<SegmentBuf<'a>, SegmentSplitterError>> = Vec::new();
        loop
            invariant
                spec_segments(self@).len() == items@.len() + spec_segments(splitter@).len(),
                forall|i: int|
                    0 <= i < items@.len() ==> match #[trigger] items@[i] {
                        Ok(seg) => spec_segments(self@)[i] == Ok::<Seq<u8>, SegmentSplitterError>(
                            seg@,
                        ),
                        Err(e) => spec_segments(self@)[i] == Err::<Seq<u8>, SegmentSplitterError>(
                            e,
                        ),
                    },
                forall|i: int|
                    0 <= i < spec_segments(splitter@).len() ==> spec_segments(self@)[items@.len()
                        + i] == #[trigger] spec_segments(splitter@)[i],
            ensures
                items@.len() == spec_segments(self@).len(),
                forall|i: int|
                    0 <= i < items@.len() ==> match #[trigger] items@[i] {
                        Ok(seg) => spec_segments(self@)[i] == Ok::<Seq<u8>, SegmentSplitterError>(
                            seg@,
                        ),
                        Err(e) => spec_segments(self@)[i] == Err::<Seq<u8>, SegmentSplitterError>(
                            e,
                        ),
                    },
            decreases splitter@.len(),
        {
            let ghost before = splitter@;
            let ghost done: int = items@.len() as int;
            match splitter.next() {
                None => {
                    break ;
                },
                Some(item) => {
                    proof {
                        assert(spec_segments(before)[0] == match item {
                            Ok(seg) => Ok::<Seq<u8>, SegmentSplitterError>(seg@),
                            Err(e) => Err::<Seq<u8>, SegmentSplitterError>(e),
                        });
                        assert(spec_segments(self@)[done + 0] == spec_segments(before)[0]);
                        assert forall|i: int| 0 <= i < spec_segments(splitter@).len() implies spec_segments(
                            self@,
                        )[done + 1 + i] == #[trigger] spec_segments(splitter@)[i] by {
                            assert(spec_segments(before)[i + 1] == spec_segments(splitter@)[i]);
                            assert(spec_segments(self@)[done + (i + 1)] == spec_segments(before)[i
                                + 1]);
                        }
                    }
                    items.push(item);
                },
            }
        }
        items
    }
}

impl<'a> From<&'a [u8]> for SegmentSplitter<'a> {
    /// A splitter of the whole of `content`.
    fn from(content: &'a [u8]) -> (splitter: Self)
        ensures
            splitter@ == content@,
    {
        Self { content }
    }
}

impl<'a> FromSpecImpl<&'a [u8]> for SegmentSplitter<'a> {
    open spec fn obeys_from_spec() -> bool {
        true
    }

    closed spec fn from_spec(content: &'a [u8]) -> Self {
        SegmentSplitter { content }
    }
}

} // verus!
