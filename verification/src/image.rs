//! Module for `Image` manipulation.
use crate::content::Area;
use vstd::prelude::*;

verus! {

/// Define access to Size of an Image. Used for Subtitle content.
///
/// An image has one size: what [`ImageSize::width`] and
/// [`ImageSize::height`] return is a function of the value, which
/// [`ImageSize::spec_width`] and [`ImageSize::spec_height`] name.
pub trait ImageSize {
    /// The width of the image, in pixels.
    spec fn spec_width(&self) -> u32;

    /// The height of the image, in pixels.
    spec fn spec_height(&self) -> u32;

    /// access to width of the image
    fn width(&self) -> (width: u32)
        ensures
            width == self.spec_width(),
    ;

    /// access to height of the image
    fn height(&self) -> (height: u32)
        ensures
            height == self.spec_height(),
    ;
}

/// define access to Area of an Image. Used for Subtitle content.
///
/// An image has one area: what [`ImageArea::area`] returns is a function of
/// the value, which [`ImageArea::spec_area`] names.
pub trait ImageArea {
    /// The area of the image.
    spec fn spec_area(&self) -> Area;

    /// access to area of the image
    fn area(&self) -> (area: Area)
        ensures
            area == self.spec_area(),
    ;
}

/// The number of columns of `area`: `x2 + 1 - x1`, and 0 where its bounds are
/// the wrong way round.
pub open spec fn spec_area_width(area: Area) -> u32 {
    if area.0.x2 >= area.0.x1 {
        (area.0.x2 + 1 - area.0.x1) as u32
    } else {
        0
    }
}

/// The number of rows of `area`: `y2 + 1 - y1`, and 0 where its bounds are
/// the wrong way round.
pub open spec fn spec_area_height(area: Area) -> u32 {
    if area.0.y2 >= area.0.y1 {
        (area.0.y2 + 1 - area.0.y1) as u32
    } else {
        0
    }
}

/// The number of columns of `area`, counted without overflow; 0 where its
/// bounds are the wrong way round.
pub fn area_width(area: Area) -> (width: u32)
    ensures
        width == spec_area_width(area),
        area.0.x2 >= area.0.x1 ==> width == area.spec_width(),
        area.0.x2 < area.0.x1 ==> width == 0,
{
    if area.0.x2 >= area.0.x1 {
        (area.0.x2 - area.0.x1) as u32 + 1
    } else {
        0
    }
}

/// The number of rows of `area`, counted without overflow; 0 where its bounds
/// are the wrong way round.
pub fn area_height(area: Area) -> (height: u32)
    ensures
        height == spec_area_height(area),
        area.0.y2 >= area.0.y1 ==> height == area.spec_height(),
        area.0.y2 < area.0.y1 ==> height == 0,
{
    if area.0.y2 >= area.0.y1 {
        (area.0.y2 - area.0.y1) as u32 + 1
    } else {
        0
    }
}

// Implement ImageSize for all type than implement ImageArea
impl<U> ImageSize for U where U: ImageArea {
    /// The number of columns of the area of the image.
    open spec fn spec_width(&self) -> u32 {
        spec_area_width(self.spec_area())
    }

    /// The number of rows of the area of the image.
    open spec fn spec_height(&self) -> u32 {
        spec_area_height(self.spec_area())
    }

    /// The width of the area of the image: `x2 + 1 - x1`.
    fn width(&self) -> (width: u32)
        ensures
            width == spec_area_width(self.spec_area()),
            self.spec_area().wf() ==> width == self.spec_area().spec_width(),
    {
        area_width(self.area())
    }

    /// The height of the area of the image: `y2 + 1 - y1`.
    fn height(&self) -> (height: u32)
        ensures
            height == spec_area_height(self.spec_area()),
            self.spec_area().wf() ==> height == self.spec_area().spec_height(),
    {
        area_height(self.area())
    }
}

/// A shade of gray: 0 is black, 255 is white.
#[derive(Debug, Clone, Copy, PartialEq, Eq, Structural)]
pub struct Luma(pub u8);

/// The pixels of an image, line by line.
///
/// A buffer is well formed ([`PixelBuffer::wf`]) where it holds as many
/// pixels as its width by its height; [`PixelBuffer::from_raw`] makes no
/// other.
#[derive(Debug, Clone, PartialEq, Eq)]
pub struct PixelBuffer<P> {
    /// The width of the image, in pixels.
    pub width: u32,
    /// The height of the image, in pixels.
    pub height: u32,
    /// The pixels, line by line.
    pub pixels: Vec<P>,
}

impl<P> PixelBuffer<P> {
    /// The number of pixels is the width by the height.
    pub open spec fn wf(&self) -> bool {
        self.pixels@.len() == self.width * self.height
    }

    /// An image of `width` by `height` of the pixels `pixels`, given line by
    /// line; `None` where `pixels` are not as many as the width by the
    /// height.
    pub fn from_raw(width: u32, height: u32, pixels: Vec<P>) -> (image: Option<Self>)
        ensures
            image is Some <==> pixels@.len() == width * height,
            image matches Some(image) ==> image.wf() && image.width == width && image.height
                == height && image.pixels@ == pixels@,
    {
        assert(width * height <= 0xFFFF_FFFE_0000_0001) by (nonlinear_arith)
            requires
                width <= 0xFFFF_FFFF,
                height <= 0xFFFF_FFFF,
        ;
        let count: u64 = width as u64 * height as u64;
        if pixels.len() as u64 == count {
            Some(Self { width, height, pixels })
        } else {
            None
        }
    }

    /// The pixel of column `x` and line `y`, or `None` outside the image.
    pub fn get_pixel(&self, x: u32, y: u32) -> (pixel: Option<&P>)
        requires
            self.wf(),
        ensures
            x < self.width && y < self.height ==> pixel == Some(
                &self.pixels@[y * self.width + x],
            ),
            !(x < self.width && y < self.height) ==> pixel is None,
    {
        if x < self.width && y < self.height {
            assert(y * self.width + x < self.width * self.height) by (nonlinear_arith)
                requires
                    x < self.width,
                    y < self.height,
            ;
            assert(0 <= y * self.width <= y * self.width + x) by (nonlinear_arith);
            let count: usize = self.pixels.len();
            assert(self.width * self.height == count);
            let at: usize = y as usize * self.width as usize + x as usize;
            Some(&self.pixels[at])
        } else {
            None
        }
    }
}

/// define the behavior of generate a [`PixelBuffer`] from a `self`
pub trait ToImage {
    /// Define the format of pixels of the output
    type Pixel;

    /// define the method to generate the image
    fn to_image(&self) -> PixelBuffer<Self::Pixel>;
}

/// define an operation to generate a [`PixelBuffer`] of the pixels that the
/// value holds
pub trait ToImage2 {
    /// Define the format of pixels of output image.
    type Pixel;

    /// define the method to generate the image
    fn to_image(&self) -> PixelBuffer<Self::Pixel>;
}

/// Options for image generation.
#[derive(Debug, Clone, Copy, PartialEq, Eq, Structural)]
pub struct ToOcrImageOpt {
    /// Number of border pixels to add on the input image
    pub border: u32,
    /// Color of the text
    pub text_color: Luma,
    /// Color of the background
    pub background_color: Luma,
}

// Implement [`Default`] for [`ToOcrImageOpt`] with a border of 5 pixel
// and colors black for text and white for background.
impl Default for ToOcrImageOpt {
    fn default() -> (opt: Self)
        ensures
            opt == (ToOcrImageOpt {
                border: 5,
                text_color: Luma(0),
                background_color: Luma(255),
            }),
    {
        Self { border: 5, text_color: Luma(0), background_color: Luma(255) }
    }
}

/// An image in shades of gray.
pub type GrayImage = PixelBuffer<Luma>;

/// Generate a `GrayImage` adapted for `OCR` from self.
pub trait ToOcrImage {
    /// Generate the image for `OCR` in `GrayImage` format.
    fn image(&self, opt: &ToOcrImageOpt) -> GrayImage;
}

} // verus!
