//! The image of a subtitle as the stream holds it, run-length encoded, and its
//! pixels.
use super::pds::{Palette, PaletteEntry};
use crate::image::ImageSize;
use vstd::prelude::*;

verus! {

/// Why run-length encoded data gives no image of the size asked for.
#[derive(Debug, Clone, Copy, PartialEq, Eq, Structural)]
pub enum RleError {
    /// The data ends inside a code.
    TruncatedCode,
    /// A run goes on beyond the end of its line.
    LineOverflow,
    /// A line ends before it has as many pixels as the image is wide.
    ShortLine,
    /// The data goes on behind the last line of the image.
    TooManyLines,
    /// The data ends before the last line of the image.
    MissingLines,
}

/// One code of run-length encoded data.
#[derive(Debug, Clone, Copy, PartialEq, Eq, Structural)]
pub enum RleCode {
    /// `len` pixels of the color index `color`.
    Run {
        /// Number of pixels, under 16384.
        len: u16,
        /// Index of the color.
        color: u8,
    },
    /// The end of a line.
    EndOfLine,
}

/// The code at the start of `bytes` and the number of bytes that it takes, or
/// `None` where `bytes` end before the code does.
///
/// A byte that is not zero is one pixel of that color. A zero byte starts a
/// longer code: the two high bits of the next byte say whether a second byte
/// of length follows (`0x40`) and whether a byte of color follows (`0x80`);
/// its six low bits are the length, or its high part. Without a byte of color
/// the color is 0. A length of zero without either bit ends the line.
pub open spec fn spec_code(bytes: Seq<u8>) -> Option<(RleCode, nat)> {
    if bytes.len() == 0 {
        None
    } else if bytes[0] != 0 {
        Some((RleCode::Run { len: 1, color: bytes[0] }, 1))
    } else if bytes.len() < 2 {
        None
    } else {
        let low = bytes[1] % 64;
        let long = (bytes[1] / 64) % 2 == 1;
        let colored = bytes[1] / 128 == 1;
        let size: nat = 2 + if long {
            1nat
        } else {
            0nat
        } + if colored {
            1nat
        } else {
            0nat
        };
        if bytes.len() < size {
            None
        } else {
            let len = if long {
                low * 256 + bytes[2]
            } else {
                low as int
            };
            let color = if colored {
                bytes[size - 1]
            } else {
                0u8
            };
            if !long && !colored && low == 0 {
                Some((RleCode::EndOfLine, size))
            } else {
                Some((RleCode::Run { len: len as u16, color }, size))
            }
        }
    }
}

/// The pixels that `data` gives after the pixels `done`, with `x` pixels on
/// line `y`, for an image of `width` by `height`: the color indexes, line by
/// line. Every line has `width` pixels and ends with an end of line, and the
/// data ends with the end of line `height - 1`.
pub open spec fn spec_decode_from(
    data: Seq<u8>,
    width: nat,
    height: nat,
    done: Seq<u8>,
    x: nat,
    y: nat,
) -> Result<Seq<u8>, RleError>
    decreases data.len(),
{
    if data.len() == 0 {
        if y == height && x == 0 {
            Ok(done)
        } else {
            Err(RleError::MissingLines)
        }
    } else {
        match spec_code(data) {
            None => Err(RleError::TruncatedCode),
            Some((code, size)) => if y >= height {
                Err(RleError::TooManyLines)
            } else {
                match code {
                    RleCode::EndOfLine => if x != width {
                        Err(RleError::ShortLine)
                    } else {
                        spec_decode_from(data.skip(size as int), width, height, done, 0, y + 1)
                    },
                    RleCode::Run { len, color } => if x + len > width {
                        Err(RleError::LineOverflow)
                    } else {
                        spec_decode_from(
                            data.skip(size as int),
                            width,
                            height,
                            done + Seq::new(len as nat, |i: int| color),
                            x + len as nat,
                            y,
                        )
                    },
                }
            },
        }
    }
}

/// The color indexes of the pixels of an image of `width` by `height` that
/// `data` encodes, line by line, or why `data` encodes no such image.
pub open spec fn spec_decode(data: Seq<u8>, width: nat, height: nat) -> Result<
    Seq<u8>,
    RleError,
> {
    spec_decode_from(data, width, height, Seq::empty(), 0, 0)
}

/// The colors that `palette` gives the `indexes`.
pub open spec fn spec_colors(indexes: Seq<u8>, palette: Seq<PaletteEntry>) -> Seq<PaletteEntry> {
    Seq::new(indexes.len(), |i: int| palette[indexes[i] as int])
}

/// Reads the code at the offset `at` of `data`.
fn read_code(data: &[u8], at: usize) -> (r: Option<(RleCode, usize)>)
    requires
        at < data@.len(),
    ensures
        match r {
            Some((code, size)) => spec_code(data@.skip(at as int)) == Some((code, size as nat))
                && 1 <= size <= 4 && at + size <= data@.len(),
            None => spec_code(data@.skip(at as int)) is None,
        },
{
    let len: usize = data.len();
    let ghost bytes = data@.skip(at as int);
    assert(bytes[0] == data@[at as int]);
    let first: u8 = data[at];
    if first != 0 {
        return Some((RleCode::Run { len: 1, color: first }, 1));
    }
    if len - at < 2 {
        return None;
    }
    assert(bytes[1] == data@[at + 1]);
    let second: u8 = data[at + 1];
    let low: u16 = (second % 64) as u16;
    let long: bool = (second / 64) % 2 == 1;
    let colored: bool = second / 128 == 1;
    let mut size: usize = 2;
    if long {
        size = size + 1;
    }
    if colored {
        size = size + 1;
    }
    if len - at < size {
        return None;
    }
    let run: u16 = if long {
        assert(bytes[2] == data@[at + 2]);
        low * 256 + data[at + 2] as u16
    } else {
        low
    };
    let color: u8 = if colored {
        assert(bytes[size - 1] == data@[at + size - 1]);
        data[at + size - 1]
    } else {
        0
    };
    if !long && !colored && low == 0 {
        Some((RleCode::EndOfLine, size))
    } else {
        Some((RleCode::Run { len: run, color }, size))
    }
}

/// Decodes run-length encoded data into the color indexes of the pixels of an
/// image of `width` by `height`, line by line.
///
/// # Errors
///
/// The error that [`spec_decode`] gives for `data`: no data reads or writes
/// out of bounds.
pub fn decode_rle(data: &[u8], width: u16, height: u16) -> (r: Result<Vec<u8>, RleError>)
    ensures
        match r {
            Ok(pixels) => spec_decode(data@, width as nat, height as nat) == Ok::<
                Seq<u8>,
                RleError,
            >(pixels@) && pixels@.len() == width * height,
            Err(e) => spec_decode(data@, width as nat, height as nat) == Err::<Seq<u8>, RleError>(
                e,
            ),
        },
{
    let len: usize = data.len();
    let mut pixels: Vec<u8> = Vec::new();
    let mut at: usize = 0;
    let mut x: u16 = 0;
    let mut y: u16 = 0;
    assert(data@.skip(0) =~= data@);
    while at < len
        invariant
            len == data@.len(),
            at <= len,
            x <= width,
            y <= height,
            y == height ==> x == 0,
            pixels@.len() == y * width + x,
            spec_decode(data@, width as nat, height as nat) == spec_decode_from(
                data@.skip(at as int),
                width as nat,
                height as nat,
                pixels@,
                x as nat,
                y as nat,
            ),
        decreases len - at,
    {
        let ghost rest = data@.skip(at as int);
        let (code, size) = match read_code(data, at) {
            Some(found) => found,
            None => {
                return Err(RleError::TruncatedCode);
            },
        };
        assert(rest.skip(size as int) =~= data@.skip(at + size));
        if y >= height {
            return Err(RleError::TooManyLines);
        }
        match code {
            RleCode::EndOfLine => {
                if x != width {
                    return Err(RleError::ShortLine);
                }
                assert(pixels@.len() == (y + 1) * width) by (nonlinear_arith)
                    requires
                        pixels@.len() == y * width + x,
                        x == width,
                ;
                x = 0;
                y = y + 1;
            },
            RleCode::Run { len: run, color } => {
                if run > width - x {
                    return Err(RleError::LineOverflow);
                }
                let ghost before = pixels@;
                let mut i: u16 = 0;
                while i < run
                    invariant
                        i <= run,
                        pixels@ == before + Seq::new(i as nat, |k: int| color),
                    decreases run - i,
                {
                    pixels.push(color);
                    assert(pixels@ =~= before + Seq::new((i + 1) as nat, |k: int| color));
                    i = i + 1;
                }
                x = x + run;
            },
        }
        at = at + size;
    }
    assert(data@.skip(at as int).len() == 0);
    if y == height && x == 0 {
        assert(pixels@.len() == width * height) by (nonlinear_arith)
            requires
                pixels@.len() == y * width + x,
                y == height,
                x == 0,
        ;
        Ok(pixels)
    } else {
        Err(RleError::MissingLines)
    }
}

/// The identity on color indexes: a pixel shown by its index, as a shade of
/// gray.
pub fn pixel_pass_through(index: u8) -> (gray: u8)
    ensures
        gray == index,
{
    index
}

/// An image as a `PGS` stream holds it: its size, its palette and its pixels,
/// run-length encoded.
#[derive(Debug, Clone, PartialEq, Eq)]
pub struct RleEncodedImage {
    width: u16,
    height: u16,
    palette: Palette,
    raw: Vec<u8>,
}

/// What an [`RleEncodedImage`] holds.
pub struct RleEncodedImageView {
    /// Width of the image, in pixels.
    pub width: u16,
    /// Height of the image, in pixels.
    pub height: u16,
    /// The colors, by index.
    pub palette: Seq<PaletteEntry>,
    /// The pixels, run-length encoded.
    pub object_data: Seq<u8>,
}

impl View for RleEncodedImage {
    type V = RleEncodedImageView;

    closed spec fn view(&self) -> RleEncodedImageView {
        RleEncodedImageView {
            width: self.width,
            height: self.height,
            palette: self.palette@,
            object_data: self.raw@,
        }
    }
}

impl RleEncodedImage {
    /// An image of `width` by `height` with the colors of `palette` and the
    /// encoded pixels `raw`.
    #[must_use]
    pub fn new(width: u16, height: u16, palette: Palette, raw: Vec<u8>) -> (image: Self)
        ensures
            image@ == (RleEncodedImageView {
                width,
                height,
                palette: palette@,
                object_data: raw@,
            }),
    {
        Self { width, height, palette, raw }
    }

    /// Width of the image, in pixels.
    #[must_use]
    pub fn width(&self) -> (width: u16)
        ensures
            width == self@.width,
    {
        self.width
    }

    /// Height of the image, in pixels.
    #[must_use]
    pub fn height(&self) -> (height: u16)
        ensures
            height == self@.height,
    {
        self.height
    }

    /// The colors of the image.
    #[must_use]
    pub fn palette(&self) -> (palette: &Palette)
        ensures
            palette@ == self@.palette,
    {
        &self.palette
    }

    /// The pixels of the image, run-length encoded.
    #[must_use]
    pub fn raw(&self) -> (raw: &[u8])
        ensures
            raw@ == self@.object_data,
    {
        self.raw.as_slice()
    }

    /// The pixels of the image, line by line, each shown by its color index,
    /// as a shade of gray.
    ///
    /// # Errors
    ///
    /// The error that [`spec_decode`] gives for the encoded pixels.
    pub fn to_indexes(&self) -> (r: Result<Vec<u8>, RleError>)
        ensures
            match r {
                Ok(pixels) => spec_decode(
                    self@.object_data,
                    self@.width as nat,
                    self@.height as nat,
                ) == Ok::<Seq<u8>, RleError>(pixels@) && pixels@.len() == self@.width
                    * self@.height,
                Err(e) => spec_decode(
                    self@.object_data,
                    self@.width as nat,
                    self@.height as nat,
                ) == Err::<Seq<u8>, RleError>(e),
            },
    {
        decode_rle(self.raw.as_slice(), self.width, self.height)
    }

    /// The pixels of the image, line by line, each shown by the color that
    /// the palette gives its index.
    ///
    /// # Errors
    ///
    /// The error that [`spec_decode`] gives for the encoded pixels.
    pub fn to_colors(&self) -> (r: Result<Vec<PaletteEntry>, RleError>)
        ensures
            match r {
                Ok(pixels) => spec_decode(
                    self@.object_data,
                    self@.width as nat,
                    self@.height as nat,
                ) matches Ok(indexes) && pixels@ == spec_colors(indexes, self@.palette)
                    && pixels@.len() == self@.width * self@.height,
                Err(e) => spec_decode(
                    self@.object_data,
                    self@.width as nat,
                    self@.height as nat,
                ) == Err::<Seq<u8>, RleError>(e),
            },
    {
        let indexes = match decode_rle(self.raw.as_slice(), self.width, self.height) {
            Ok(indexes) => indexes,
            Err(e) => {
                return Err(e);
            },
        };
        let count: usize = indexes.len();
        let mut pixels: Vec<PaletteEntry> = Vec::new();
        let mut i: usize = 0;
        while i < count
            invariant
                i <= count,
                count == indexes@.len(),
                pixels@.len() == i,
                forall|k: int|
                    0 <= k < i ==> pixels@[k] == self.palette@[#[trigger] indexes@[k] as int],
            decreases count - i,
        {
            let color = self.palette.get(indexes[i]);
            pixels.push(color);
            i = i + 1;
        }
        assert(pixels@ =~= spec_colors(indexes@, self@.palette));
        Ok(pixels)
    }
}

impl ImageSize for RleEncodedImage {
    /// The width that the image was made with.
    open spec fn spec_width(&self) -> u32 {
        self@.width as u32
    }

    /// The height that the image was made with.
    open spec fn spec_height(&self) -> u32 {
        self@.height as u32
    }

    /// The width that the image was made with, in pixels: the contract of
    /// the trait says that it is [`ImageSize::spec_width`].
    fn width(&self) -> u32 {
        self.width as u32
    }

    /// The height that the image was made with, in pixels: the contract of
    /// the trait says that it is [`ImageSize::spec_height`].
    fn height(&self) -> u32 {
        self.height as u32
    }
}

} // verus!
