//! Palette Definition Segments: the colors that the indexes of an image stand
//! for.
use super::reader::read_vec;
use super::{unread_from, ReadExt};
use vstd::prelude::*;

verus! {

/// Number of entries of a palette: one for each value of an index.
pub const PALETTE_LEN: usize = 256;

/// Number of bytes of a segment before its entries: palette id and version.
pub const PALETTE_FIELDS_LEN: usize = 2;

/// Number of bytes of an entry: its index and the four parts of its color.
pub const ENTRY_LEN: usize = 5;

/// Error `PDS` (Palette Definition Segment) handling.
#[derive(Debug, Clone, Copy, PartialEq, Eq, Structural)]
pub enum Error {
    /// The size of the segment is not that of palette id, version and whole
    /// entries of five bytes.
    SegmentSize {
        /// The size of the segment, as its header gives it.
        segments_size: usize,
    },
    /// The read of the segment failed: the source holds fewer bytes.
    ReadData {
        /// The number of bytes that were asked for.
        buff_size: usize,
    },
}

/// A color of a palette, in the form that the stream holds.
#[derive(Debug, Clone, Copy, PartialEq, Eq, Structural)]
pub struct PaletteEntry {
    /// Luminance (Y).
    pub luminance: u8,
    /// Color difference red (Cr).
    pub color_difference_red: u8,
    /// Color difference blue (Cb).
    pub color_difference_blue: u8,
    /// Transparency (alpha): 0 is fully transparent.
    pub transparency: u8,
}

/// The color of an index that no entry defines: black, fully transparent.
pub open spec fn blank_entry() -> PaletteEntry {
    PaletteEntry {
        luminance: 0,
        color_difference_red: 0,
        color_difference_blue: 0,
        transparency: 0,
    }
}

/// The palette that no entry defines.
pub open spec fn blank_palette() -> Seq<PaletteEntry> {
    Seq::new(PALETTE_LEN as nat, |i: int| blank_entry())
}

/// The palette that the entries `bytes` define, five bytes each: the index,
/// then luminance, color difference red, color difference blue and
/// transparency. Of two entries for one index the later one counts.
pub open spec fn spec_entries(bytes: Seq<u8>) -> Seq<PaletteEntry>
    decreases bytes.len(),
{
    if bytes.len() < ENTRY_LEN {
        blank_palette()
    } else {
        let last = bytes.skip(bytes.len() - ENTRY_LEN);
        spec_entries(bytes.take(bytes.len() - ENTRY_LEN)).update(
            last[0] as int,
            PaletteEntry {
                luminance: last[1],
                color_difference_red: last[2],
                color_difference_blue: last[3],
                transparency: last[4],
            },
        )
    }
}

/// From an index of a pixel to its color: 256 colors.
#[derive(Debug, PartialEq, Eq)]
pub struct Palette {
    entries: Vec<PaletteEntry>,
}

impl View for Palette {
    type V = Seq<PaletteEntry>;

    /// The colors, by index.
    closed spec fn view(&self) -> Seq<PaletteEntry> {
        self.entries@
    }
}

impl Palette {
    #[verifier::type_invariant]
    spec fn full(self) -> bool {
        self.entries@.len() == PALETTE_LEN
    }

    /// The palette that no entry defines: every color is black and fully
    /// transparent.
    #[must_use]
    pub fn new() -> (palette: Self)
        ensures
            palette@ == blank_palette(),
    {
        Self { entries: blank_entries() }
    }

    /// The color of the index `index`.
    #[must_use]
    pub fn get(&self, index: u8) -> (entry: PaletteEntry)
        ensures
            self@.len() == PALETTE_LEN,
            entry == self@[index as int],
    {
        proof {
            use_type_invariant(self);
        }
        self.entries[index as usize]
    }
}

impl Clone for Palette {
    fn clone(&self) -> (palette: Self)
        ensures
            palette@ == self@,
    {
        proof {
            use_type_invariant(self);
        }
        let mut entries: Vec<PaletteEntry> = Vec::new();
        let mut i: usize = 0;
        while i < PALETTE_LEN
            invariant
                i <= PALETTE_LEN,
                self.entries@.len() == PALETTE_LEN,
                entries@ == self.entries@.take(i as int),
            decreases PALETTE_LEN - i,
        {
            entries.push(self.entries[i]);
            assert(self.entries@.take(i as int).push(self.entries@[i as int])
                =~= self.entries@.take(i + 1));
            i = i + 1;
        }
        assert(self.entries@.take(PALETTE_LEN as int) =~= self.entries@);
        Self { entries }
    }
}

/// The colors of the palette that no entry defines.
fn blank_entries() -> (entries: Vec<PaletteEntry>)
    ensures
        entries@ == blank_palette(),
{
    let blank = PaletteEntry {
        luminance: 0,
        color_difference_red: 0,
        color_difference_blue: 0,
        transparency: 0,
    };
    let mut entries: Vec<PaletteEntry> = Vec::new();
    let mut i: usize = 0;
    while i < PALETTE_LEN
        invariant
            i <= PALETTE_LEN,
            entries@.len() == i,
            forall|j: int| 0 <= j < i ==> entries@[j] == blank_entry(),
            blank == blank_entry(),
        decreases PALETTE_LEN - i,
    {
        entries.push(blank);
        i = i + 1;
    }
    assert(entries@ =~= blank_palette());
    entries
}

/// A Palette Definition Segment.
#[derive(Debug, Clone, PartialEq, Eq)]
pub struct PaletteDefinitionSegment {
    /// Id of the palette.
    pub palette_id: u8,
    /// Version of this palette within the epoch.
    pub palette_version_number: u8,
    /// The colors.
    pub palette: Palette,
}

/// What a [`PaletteDefinitionSegment`] holds.
pub struct PaletteDefinitionSegmentView {
    /// Id of the palette.
    pub palette_id: u8,
    /// Version of this palette within the epoch.
    pub palette_version_number: u8,
    /// The colors, by index.
    pub palette: Seq<PaletteEntry>,
}

impl View for PaletteDefinitionSegment {
    type V = PaletteDefinitionSegmentView;

    open spec fn view(&self) -> PaletteDefinitionSegmentView {
        PaletteDefinitionSegmentView {
            palette_id: self.palette_id,
            palette_version_number: self.palette_version_number,
            palette: self.palette@,
        }
    }
}

/// A segment of `size` bytes holds palette id, version and whole entries.
pub open spec fn valid_size(size: nat) -> bool {
    size >= PALETTE_FIELDS_LEN && (size - PALETTE_FIELDS_LEN) % (ENTRY_LEN as int) == 0
}

/// What the bytes `payload` of a whole segment give: palette id, version, and
/// the palette that the entries behind them define.
pub open spec fn spec_parse(payload: Seq<u8>) -> Result<PaletteDefinitionSegmentView, Error> {
    if !valid_size(payload.len()) {
        Err(Error::SegmentSize { segments_size: payload.len() as usize })
    } else {
        Ok(
            PaletteDefinitionSegmentView {
                palette_id: payload[0],
                palette_version_number: payload[1],
                palette: spec_entries(payload.skip(PALETTE_FIELDS_LEN as int)),
            },
        )
    }
}

/// What reading a Palette Definition Segment of `segments_size` bytes gives
/// on a source with the bytes `unread` ahead.
pub open spec fn spec_read(unread: Seq<u8>, segments_size: nat) -> Result<
    PaletteDefinitionSegmentView,
    Error,
> {
    if !valid_size(segments_size) {
        Err(Error::SegmentSize { segments_size: segments_size as usize })
    } else if unread.len() < segments_size {
        Err(Error::ReadData { buff_size: segments_size as usize })
    } else {
        spec_parse(unread.take(segments_size as int))
    }
}

/// Reads the palette of the bytes of a whole segment.
///
/// # Errors
///
/// `SegmentSize` where `payload` is not palette id, version and whole entries.
pub fn parse(payload: &[u8]) -> (r: Result<PaletteDefinitionSegment, Error>)
    ensures
        match r {
            Ok(segment) => spec_parse(payload@) == Ok::<PaletteDefinitionSegmentView, Error>(
                segment@,
            ),
            Err(e) => spec_parse(payload@) == Err::<PaletteDefinitionSegmentView, Error>(e),
        },
{
    let len: usize = payload.len();
    if len < PALETTE_FIELDS_LEN || (len - PALETTE_FIELDS_LEN) % ENTRY_LEN != 0 {
        return Err(Error::SegmentSize { segments_size: len });
    }
    let count: usize = (len - PALETTE_FIELDS_LEN) / ENTRY_LEN;
    let ghost entries = payload@.skip(2);
    let mut colors: Vec<PaletteEntry> = blank_entries();
    let mut i: usize = 0;
    assert(entries.take(0).len() == 0);
    while i < count
        invariant
            i <= count,
            len == payload@.len(),
            len == 2 + 5 * count,
            entries == payload@.skip(2),
            colors@.len() == PALETTE_LEN,
            colors@ == spec_entries(entries.take(5 * i)),
        decreases count - i,
    {
        let at: usize = 2 + 5 * i;
        let entry = PaletteEntry {
            luminance: payload[at + 1],
            color_difference_red: payload[at + 2],
            color_difference_blue: payload[at + 3],
            transparency: payload[at + 4],
        };
        proof {
            lemma_entries_step(entries, i as int);
        }
        colors.set(payload[at] as usize, entry);
        i = i + 1;
    }
    assert(entries.take(5 * count) =~= entries);
    Ok(
        PaletteDefinitionSegment {
            palette_id: payload[0],
            palette_version_number: payload[1],
            palette: Palette { entries: colors },
        },
    )
}

/// One more entry gives its index its color and leaves the others.
proof fn lemma_entries_step(entries: Seq<u8>, i: int)
    requires
        0 <= i,
        5 * (i + 1) <= entries.len(),
    ensures
        spec_entries(entries.take(5 * (i + 1))) == spec_entries(entries.take(5 * i)).update(
            entry_index(entries, i) as int,
            entry_color(entries, i),
        ),
{
    let upto = entries.take(5 * (i + 1));
    assert(upto.take(upto.len() - 5) =~= entries.take(5 * i));
    let last = upto.skip(upto.len() - 5);
    assert(last[0] == entries[5 * i]);
    assert(last[1] == entries[5 * i + 1]);
    assert(last[2] == entries[5 * i + 2]);
    assert(last[3] == entries[5 * i + 3]);
    assert(last[4] == entries[5 * i + 4]);
}

/// Reads a Palette Definition Segment of `segments_size` bytes.
///
/// On success the source stands behind the segment.
///
/// # Errors
///
/// `SegmentSize` where the size is not that of palette id, version and whole
/// entries; else `ReadData` where the source holds fewer bytes. The source
/// then stays where it was.
pub fn read<Reader: ReadExt>(reader: &mut Reader, segments_size: usize) -> (r: Result<
    PaletteDefinitionSegment,
    Error,
>)
    ensures
        final(reader).content() == old(reader).content(),
        match r {
            Ok(segment) => spec_read(
                unread_from(old(reader).content(), old(reader).position()),
                segments_size as nat,
            ) == Ok::<PaletteDefinitionSegmentView, Error>(segment@) && final(reader).position()
                == old(reader).position() + segments_size,
            Err(e) => spec_read(
                unread_from(old(reader).content(), old(reader).position()),
                segments_size as nat,
            ) == Err::<PaletteDefinitionSegmentView, Error>(e) && final(reader).position() == old(
                reader,
            ).position(),
        },
{
    if segments_size < PALETTE_FIELDS_LEN || (segments_size - PALETTE_FIELDS_LEN) % ENTRY_LEN
        != 0 {
        return Err(Error::SegmentSize { segments_size });
    }
    match read_vec(reader, segments_size) {
        Ok(payload) => parse(payload.as_slice()),
        Err(_) => Err(Error::ReadData { buff_size: segments_size }),
    }
}

/// The index that the entry `k` of `bytes` defines.
pub open spec fn entry_index(bytes: Seq<u8>, k: int) -> u8 {
    bytes[5 * k]
}

/// The color that the entry `k` of `bytes` gives its index.
pub open spec fn entry_color(bytes: Seq<u8>, k: int) -> PaletteEntry {
    PaletteEntry {
        luminance: bytes[5 * k + 1],
        color_difference_red: bytes[5 * k + 2],
        color_difference_blue: bytes[5 * k + 3],
        transparency: bytes[5 * k + 4],
    }
}

/// The color of an index is that of the last entry for it, and the blank
/// color where there is none. `count` is the number of entries in `bytes`.
pub proof fn lemma_last_entry_counts(bytes: Seq<u8>, count: int, index: u8)
    requires
        0 <= count,
        bytes.len() == 5 * count,
    ensures
        spec_entries(bytes).len() == PALETTE_LEN,
        (forall|k: int| 0 <= k < count ==> #[trigger] entry_index(bytes, k) != index)
            ==> spec_entries(bytes)[index as int] == blank_entry(),
        forall|k: int|
            0 <= k < count && #[trigger] entry_index(bytes, k) == index && (forall|j: int|
                k < j < count ==> #[trigger] entry_index(bytes, j) != index) ==> spec_entries(
                bytes,
            )[index as int] == entry_color(bytes, k),
    decreases count,
{
    if count > 0 {
        let head = bytes.take(bytes.len() - 5);
        let last = bytes.skip(bytes.len() - 5);
        lemma_last_entry_counts(head, count - 1, index);
        assert(last[0] == entry_index(bytes, count - 1));
        assert forall|k: int| 0 <= k < count - 1 implies #[trigger] entry_index(head, k)
            == entry_index(bytes, k) && entry_color(head, k) == entry_color(bytes, k) by {}
        if forall|k: int| 0 <= k < count ==> #[trigger] entry_index(bytes, k) != index {
            assert(entry_index(bytes, count - 1) != index);
        }
        assert forall|k: int|
            0 <= k < count && #[trigger] entry_index(bytes, k) == index && (forall|j: int|
                k < j < count ==> #[trigger] entry_index(bytes, j) != index) implies spec_entries(
            bytes,
        )[index as int] == entry_color(bytes, k) by {
            if k < count - 1 {
                assert(entry_index(bytes, count - 1) != index);
                assert(entry_index(head, k) == index);
                assert forall|j: int| k < j < count - 1 implies #[trigger] entry_index(head, j)
                    != index by {
                    assert(entry_index(bytes, j) != index);
                }
            }
        }
    }
}

} // verus!
