//! Try to guess the types of files from their first bytes.
use vstd::prelude::*;

verus! {

/// The first bytes of an `*.idx` file: `# VobSub index file`.
pub const IDX_MAGIC: [u8; 19] = [
    0x23,
    0x20,
    0x56,
    0x6f,
    0x62,
    0x53,
    0x75,
    0x62,
    0x20,
    0x69,
    0x6e,
    0x64,
    0x65,
    0x78,
    0x20,
    0x66,
    0x69,
    0x6c,
    0x65,
];

/// The first bytes of a `*.sub` file: the start code of an MPEG-2 pack.
pub const SUB_MAGIC: [u8; 4] = [0x00, 0x00, 0x01, 0xba];

/// `content` starts with the bytes `magic`.
pub open spec fn starts_with(content: Seq<u8>, magic: Seq<u8>) -> bool {
    content.len() >= magic.len() && content.take(magic.len() as int) == magic
}

/// Looks for "magic" bytes at the start of the content of a file.
pub fn has_magic(content: &[u8], magic: &[u8]) -> (found: bool)
    ensures
        found == starts_with(content@, magic@),
{
    let len: usize = magic.len();
    if content.len() < len {
        return false;
    }
    let mut i: usize = 0;
    while i < len
        invariant
            i <= len,
            len == magic@.len(),
            len <= content@.len(),
            forall|j: int| 0 <= j < i ==> content@[j] == magic@[j],
        decreases len - i,
    {
        if content[i] != magic[i] {
            assert(content@.take(len as int)[i as int] != magic@[i as int]);
            return false;
        }
        i = i + 1;
    }
    assert(content@.take(len as int) =~= magic@);
    true
}

/// Does the content of a file appear to be that of an `*.idx` file?
pub fn is_idx_file(content: &[u8]) -> (found: bool)
    ensures
        found == starts_with(content@, IDX_MAGIC@),
{
    let magic: [u8; 19] = IDX_MAGIC;
    has_magic(content, &magic)
}

/// Does the content of a file appear to be that of a `*.sub` file?
///
/// Note that this may (or may not) return false positives for certain
/// MPEG-2 related formats.
pub fn is_sub_file(content: &[u8]) -> (found: bool)
    ensures
        found == starts_with(content@, SUB_MAGIC@),
{
    let magic: [u8; 4] = SUB_MAGIC;
    has_magic(content, &magic)
}

} // verus!
