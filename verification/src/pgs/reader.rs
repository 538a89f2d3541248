//! Byte sources: what the parsers read from.
use super::ReadError;
use vstd::prelude::*;

verus! {

/// The bytes of `content` from the offset `pos` on; none where `pos` lies
/// beyond the end.
pub open spec fn unread_from(content: Seq<u8>, pos: nat) -> Seq<u8> {
    if pos <= content.len() {
        content.skip(pos as int)
    } else {
        Seq::empty()
    }
}

/// The number that `bytes` spell in base 256, most significant byte first.
pub open spec fn be_value(bytes: Seq<u8>) -> nat
    decreases bytes.len(),
{
    if bytes.len() == 0 {
        0
    } else {
        be_value(bytes.drop_last()) * 256 + bytes.last() as nat
    }
}

/// A byte source for parsing: sequential reads, and skips that need not stop
/// at the end of the data.
///
/// A source is a fixed content and a position in it. Reading and skipping move
/// the position and never change the content.
pub trait ReadExt {
    /// All the bytes of the source, read or not.
    spec fn content(&self) -> Seq<u8>;

    /// The offset of the next byte to read. It may lie beyond the end.
    spec fn position(&self) -> nat;

    /// Read a buffer from a reader with error management.
    ///
    /// Fills `to_read` with the next bytes and moves past them.
    ///
    /// # Errors
    ///
    /// Will return `FailedReadBuffer` if the source holds fewer unread bytes
    /// than `to_read` takes; the position then stays.
    fn read_buffer(&mut self, to_read: &mut [u8]) -> (r: Result<(), ReadError>)
        ensures
            final(self).content() == old(self).content(),
            final(to_read)@.len() == old(to_read)@.len(),
            old(to_read)@.len() <= unread_from(old(self).content(), old(self).position()).len()
                ==> r is Ok && final(to_read)@ == unread_from(
                old(self).content(),
                old(self).position(),
            ).take(old(to_read)@.len() as int) && final(self).position() == old(self).position()
                + old(to_read)@.len(),
            old(to_read)@.len() > unread_from(old(self).content(), old(self).position()).len()
                ==> r == Err::<(), ReadError>(
                ReadError::FailedReadBuffer { buffer_size: old(to_read)@.len() as usize },
            ) && final(self).position() == old(self).position(),
    ;

    /// Skip data from a reader with error management.
    ///
    /// Moves the position `to_skip` bytes on, be it beyond the end.
    ///
    /// # Errors
    ///
    /// Will return `FailedSeek` if the new position does not fit `usize`; the
    /// position then stays.
    fn skip_data(&mut self, to_skip: usize) -> (r: Result<(), ReadError>)
        ensures
            final(self).content() == old(self).content(),
            old(self).position() + to_skip <= usize::MAX ==> r is Ok && final(self).position()
                == old(self).position() + to_skip,
            old(self).position() + to_skip > usize::MAX ==> r == Err::<(), ReadError>(
                ReadError::FailedSeek,
            ) && final(self).position() == old(self).position(),
    ;
}

/// A byte source over a slice in memory.
#[derive(Debug, Clone, Copy)]
pub struct SliceReader<'a> {
    data: &'a [u8],
    pos: usize,
}

impl<'a> SliceReader<'a> {
    /// A source over `data`, at its first byte.
    #[must_use]
    pub fn new(data: &'a [u8]) -> (reader: Self)
        ensures
            reader.content() == data@,
            reader.position() == 0,
    {
        Self { data, pos: 0 }
    }

    /// The offset of the next byte to read.
    #[must_use]
    pub fn offset(&self) -> (pos: usize)
        ensures
            pos == self.position(),
    {
        self.pos
    }

    /// The bytes that are left to read.
    #[must_use]
    pub fn remaining(&self) -> (rest: &'a [u8])
        ensures
            rest@ == unread_from(self.content(), self.position()),
    {
        let len: usize = self.data.len();
        if self.pos <= len {
            let rest = vstd::slice::slice_subrange(self.data, self.pos, len);
            assert(rest@ =~= self.data@.skip(self.pos as int));
            rest
        } else {
            let rest = vstd::slice::slice_subrange(self.data, len, len);
            assert(rest@ =~= Seq::<u8>::empty());
            rest
        }
    }
}

impl<'a> ReadExt for SliceReader<'a> {
    closed spec fn content(&self) -> Seq<u8> {
        self.data@
    }

    closed spec fn position(&self) -> nat {
        self.pos as nat
    }

    fn read_buffer(&mut self, to_read: &mut [u8]) -> (r: Result<(), ReadError>) {
        let len: usize = self.data.len();
        let wanted: usize = to_read.len();
        let start: usize = self.pos;
        let available: usize = if start <= len {
            len - start
        } else {
            0
        };
        if wanted > available {
            return Err(ReadError::FailedReadBuffer { buffer_size: wanted });
        }
        let mut i: usize = 0;
        while i < wanted
            invariant
                wanted == to_read@.len(),
                len == self.data@.len(),
                wanted == 0 || start + wanted <= len,
                i <= wanted,
                self.data == old(self).data,
                forall|j: int| 0 <= j < i ==> to_read@[j] == self.data@[start + j],
            decreases wanted - i,
        {
            to_read[i] = self.data[start + i];
            i = i + 1;
        }
        assert(to_read@ =~= unread_from(self.data@, start as nat).take(wanted as int));
        if wanted > 0 {
            self.pos = start + wanted;
        }
        Ok(())
    }

    fn skip_data(&mut self, to_skip: usize) -> (r: Result<(), ReadError>) {
        match self.pos.checked_add(to_skip) {
            Some(pos) => {
                self.pos = pos;
                Ok(())
            },
            None => Err(ReadError::FailedSeek),
        }
    }
}

/// The number that two bytes spell, most significant byte first.
pub fn be_u16(b0: u8, b1: u8) -> (value: u16)
    ensures
        value == be_value(seq![b0, b1]),
        value == b0 * 256 + b1,
{
    proof {
        lemma_be_value_push(seq![b0], b1);
        lemma_be_value_push(Seq::empty(), b0);
        assert(Seq::<u8>::empty().push(b0) =~= seq![b0]);
        assert(seq![b0].push(b1) =~= seq![b0, b1]);
    }
    (b0 as u16) * 256 + (b1 as u16)
}

/// The number that three bytes spell, most significant byte first.
pub fn be_u24(b0: u8, b1: u8, b2: u8) -> (value: u32)
    ensures
        value == be_value(seq![b0, b1, b2]),
        value == b0 * 65536 + b1 * 256 + b2,
        value < 0x100_0000,
{
    let high: u16 = be_u16(b0, b1);
    proof {
        lemma_be_value_push(seq![b0, b1], b2);
        assert(seq![b0, b1].push(b2) =~= seq![b0, b1, b2]);
    }
    (high as u32) * 256 + (b2 as u32)
}

/// The number that four bytes spell, most significant byte first.
pub fn be_u32(b0: u8, b1: u8, b2: u8, b3: u8) -> (value: u32)
    ensures
        value == be_value(seq![b0, b1, b2, b3]),
        value == b0 * 16777216 + b1 * 65536 + b2 * 256 + b3,
{
    let high: u32 = be_u24(b0, b1, b2);
    proof {
        lemma_be_value_push(seq![b0, b1, b2], b3);
        assert(seq![b0, b1, b2].push(b3) =~= seq![b0, b1, b2, b3]);
    }
    high * 256 + (b3 as u32)
}

/// One more byte at the end multiplies the number by 256 and adds the byte.
pub proof fn lemma_be_value_push(bytes: Seq<u8>, last: u8)
    ensures
        be_value(bytes.push(last)) == be_value(bytes) * 256 + last,
{
    assert(bytes.push(last).drop_last() =~= bytes);
}

/// Reads the next `len` bytes of a source into a new vector.
///
/// # Errors
///
/// Will return `FailedReadBuffer` if the source holds fewer unread bytes; the
/// position then stays.
pub fn read_vec<R: ReadExt>(reader: &mut R, len: usize) -> (r: Result<Vec<u8>, ReadError>)
    ensures
        final(reader).content() == old(reader).content(),
        match r {
            Ok(bytes) => len <= unread_from(old(reader).content(), old(reader).position()).len()
                && bytes@ == unread_from(old(reader).content(), old(reader).position()).take(
                len as int,
            ) && final(reader).position() == old(reader).position() + len,
            Err(e) => len > unread_from(old(reader).content(), old(reader).position()).len() && e
                == (ReadError::FailedReadBuffer { buffer_size: len }) && final(reader).position()
                == old(reader).position(),
        },
{
    let mut bytes: Vec<u8> = vec![0u8; len];
    match reader.read_buffer(bytes.as_mut_slice()) {
        Ok(()) => Ok(bytes),
        Err(e) => Err(e),
    }
}

} // verus!
