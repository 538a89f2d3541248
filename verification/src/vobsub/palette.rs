//! The palette of an `*.idx` file: 16 colors, each of 6 hexadecimal digits.
use crate::errors::SubError;
use vstd::prelude::*;
use vstd::string::StringExecFns;

verus! {

/// A color: red, green and blue.
#[derive(Debug, Clone, Copy, PartialEq, Eq)]
pub struct Rgb(pub [u8; 3]);

/// The 16-color palette used by the subtitles.
pub type Palette = [Rgb; 16];

/// The length of the text of a palette: 16 colors of 6 digits, and `, `
/// between them.
pub const PALETTE_TEXT_LEN: usize = 126;

/// Why a text is no palette.
#[derive(Debug, Clone, Copy, PartialEq, Eq, Structural)]
pub enum PaletteFault {
    /// The text ends before the last of the 16 colors does.
    Incomplete,
    /// A byte is no hexadecimal digit where a color stands, or the two bytes
    /// between two colors are not `, `.
    Invalid,
    /// The text goes on behind the last color.
    Extra,
}

/// The value of the hexadecimal digit `digit`, in either case, if it is one.
pub open spec fn spec_hex_value(digit: u8) -> Option<u8> {
    if 0x30 <= digit <= 0x39 {
        Some((digit - 0x30) as u8)
    } else if 0x41 <= digit <= 0x46 {
        Some((digit - 0x41 + 10) as u8)
    } else if 0x61 <= digit <= 0x66 {
        Some((digit - 0x61 + 10) as u8)
    } else {
        None
    }
}

/// The offset of the color `k` in the text of a palette.
pub open spec fn color_offset(k: int) -> int {
    8 * k
}

/// The byte of the text of a palette at `at` is of the right kind: a
/// hexadecimal digit within a color, `,` and a space between two.
pub open spec fn byte_fits(text: Seq<u8>, at: int) -> bool {
    if at % 8 == 6 {
        text[at] == 0x2c
    } else if at % 8 == 7 {
        text[at] == 0x20
    } else {
        spec_hex_value(text[at]) is Some
    }
}

/// The part `part` of the color `k` that the text of a palette gives: two
/// digits.
pub open spec fn spec_part(text: Seq<u8>, k: int, part: int) -> u8 {
    (spec_hex_value(text[8 * k + 2 * part])->Some_0 * 16 + spec_hex_value(
        text[8 * k + 2 * part + 1],
    )->Some_0) as u8
}

/// The color `k` that the text of a palette gives.
pub open spec fn spec_rgb(text: Seq<u8>, k: int) -> Seq<u8> {
    seq![spec_part(text, k, 0), spec_part(text, k, 1), spec_part(text, k, 2)]
}

/// The offset of the first byte of `text` that is of the wrong kind, or the
/// least of the length of `text` and of a palette where there is none.
pub open spec fn first_misfit(text: Seq<u8>, from: int) -> int
    decreases PALETTE_TEXT_LEN - from,
{
    if from >= PALETTE_TEXT_LEN || from >= text.len() || from < 0 {
        from
    } else if !byte_fits(text, from) {
        from
    } else {
        first_misfit(text, from + 1)
    }
}

/// The palette that `text` gives: 16 colors of 6 hexadecimal digits, red,
/// green and blue, with `, ` between two colors, and nothing else. The first
/// byte that does not fit decides the fault: a byte of the wrong kind is
/// `Invalid`, the end of the text `Incomplete`, a byte behind the palette
/// `Extra`.
pub open spec fn spec_palette(text: Seq<u8>) -> Result<Seq<Seq<u8>>, PaletteFault> {
    let stop = first_misfit(text, 0);
    if stop < PALETTE_TEXT_LEN && stop < text.len() {
        Err(PaletteFault::Invalid)
    } else if stop < PALETTE_TEXT_LEN {
        Err(PaletteFault::Incomplete)
    } else if text.len() > PALETTE_TEXT_LEN {
        Err(PaletteFault::Extra)
    } else {
        Ok(Seq::new(16, |k: int| spec_rgb(text, k)))
    }
}

/// The colors of `palette`, each as its three parts.
pub open spec fn spec_colors(palette: Palette) -> Seq<Seq<u8>> {
    Seq::new(16, |k: int| palette@[k].0@)
}

/// The value of a hexadecimal digit, in either case.
pub fn hex_value(digit: u8) -> (value: Option<u8>)
    ensures
        value == spec_hex_value(digit),
        value matches Some(v) ==> v < 16,
{
    if 0x30 <= digit && digit <= 0x39 {
        Some(digit - 0x30)
    } else if 0x41 <= digit && digit <= 0x46 {
        Some(digit - 0x41 + 10)
    } else if 0x61 <= digit && digit <= 0x66 {
        Some(digit - 0x61 + 10)
    } else {
        None
    }
}

/// The text that a `Parse` error carries for a palette with a wrong byte.
pub open spec fn invalid_palette_text() -> Seq<char> {
    "Palettes must have 16 entries of 6 hexadecimal digits"@
}

/// The error `e` stands for the fault `fault`.
pub open spec fn stands_for(e: SubError, fault: PaletteFault) -> bool {
    match fault {
        PaletteFault::Incomplete => e is IncompleteInput,
        PaletteFault::Invalid => e matches SubError::Parse(text) && text@
            == invalid_palette_text(),
        PaletteFault::Extra => e is UnexpectedInput,
    }
}

/// Parse a text as Palette
///
/// # Errors
///
/// `Parse` for a byte of the wrong kind, `IncompleteInput` where the text
/// ends too soon, `UnexpectedInput` where it goes on: as [`spec_palette`]
/// says.
pub fn palette(input: &[u8]) -> (r: Result<Palette, SubError>)
    ensures
        match r {
            Ok(colors) => spec_palette(input@) == Ok::<Seq<Seq<u8>>, PaletteFault>(
                spec_colors(colors),
            ),
            Err(e) => spec_palette(input@) matches Err(fault) && stands_for(e, fault),
        },
{
    let len: usize = input.len();
    let mut at: usize = 0;
    while at < PALETTE_TEXT_LEN
        invariant
            at <= PALETTE_TEXT_LEN,
            len == input@.len(),
            at <= len,
            first_misfit(input@, 0) == first_misfit(input@, at as int),
            forall|j: int| 0 <= j < at ==> byte_fits(input@, j),
        decreases PALETTE_TEXT_LEN - at,
    {
        if at >= len {
            return Err(SubError::IncompleteInput);
        }
        let byte: u8 = input[at];
        let place: usize = at % 8;
        let fits: bool = if place == 6 {
            byte == 0x2c
        } else if place == 7 {
            byte == 0x20
        } else {
            hex_value(byte).is_some()
        };
        if !fits {
            return Err(invalid_palette());
        }
        at = at + 1;
    }
    if len > PALETTE_TEXT_LEN {
        return Err(SubError::UnexpectedInput);
    }
    let mut colors: [Rgb; 16] = [Rgb([0u8, 0u8, 0u8]); 16];
    let mut k: usize = 0;
    while k < 16
        invariant
            k <= 16,
            len == input@.len(),
            len == PALETTE_TEXT_LEN,
            forall|j: int| 0 <= j < PALETTE_TEXT_LEN ==> byte_fits(input@, j),
            forall|c: int| 0 <= c < k ==> (#[trigger] colors@[c]).0@ == spec_rgb(input@, c),
        decreases 16 - k,
    {
        let red: u8 = color_part(input, k, 0);
        let green: u8 = color_part(input, k, 1);
        let blue: u8 = color_part(input, k, 2);
        let ghost before = colors@;
        colors[k] = Rgb([red, green, blue]);
        assert(colors@[k as int].0@ =~= spec_rgb(input@, k as int));
        assert forall|c: int| 0 <= c < k + 1 implies (#[trigger] colors@[c]).0@ == spec_rgb(
            input@,
            c,
        ) by {
            if c < k {
                assert(colors@[c] == before[c]);
            }
        }
        k = k + 1;
    }
    assert(spec_colors(colors) =~= Seq::new(16, |c: int| spec_rgb(input@, c)));
    Ok(colors)
}

/// The part `p` of the color `k` of the text of a palette whose bytes are
/// all of the right kind.
fn color_part(input: &[u8], k: usize, p: usize) -> (value: u8)
    requires
        k < 16,
        p < 3,
        input@.len() == PALETTE_TEXT_LEN,
        forall|j: int| 0 <= j < PALETTE_TEXT_LEN ==> byte_fits(input@, j),
    ensures
        value == spec_part(input@, k as int, p as int),
{
    let at: usize = 8 * k + 2 * p;
    assert(byte_fits(input@, at as int));
    assert(byte_fits(input@, at + 1));
    assert(at % 8 == 2 * p);
    assert((at + 1) % 8 == 2 * p + 1);
    let high: u8 = match hex_value(input[at]) {
        Some(value) => value,
        None => 0,
    };
    let low: u8 = match hex_value(input[at + 1]) {
        Some(value) => value,
        None => 0,
    };
    high * 16 + low
}

/// The error for a palette with a byte of the wrong kind.
fn invalid_palette() -> (e: SubError)
    ensures
        stands_for(e, PaletteFault::Invalid),
{
    SubError::Parse(String::from_str("Palettes must have 16 entries of 6 hexadecimal digits"))
}

} // verus!
