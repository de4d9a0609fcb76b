use vstd::prelude::*;

verus! {

/// An 8-bit color without alpha.
#[derive(Clone, Copy, Debug, PartialEq, Eq, Structural)]
pub struct MdrRgb {
    pub r: u8,
    pub g: u8,
    pub b: u8,
}

/// An 8-bit color with alpha.
#[derive(Clone, Copy, Debug, PartialEq, Eq, Structural)]
pub struct MdrRgba {
    pub r: u8,
    pub g: u8,
    pub b: u8,
    pub a: u8,
}

/// A solid color, with or without alpha.
#[derive(Clone, Copy, Debug, PartialEq, Eq, Structural)]
pub enum MdrColor {
    RGB(MdrRgb),
    RGBA(MdrRgba),
}

/// How the values of an image are to be read: as display color (gamma corrected),
/// with or without alpha, or as linear shading data.
#[derive(Clone, Copy, Debug, PartialEq, Eq, Structural)]
pub enum MdrColorType {
    SRGB,
    SRGBA,
    NonColorData,
}

/// The color tag of a solid color: display color, with alpha where the color has it.
pub open spec fn color_type_of(color: MdrColor) -> MdrColorType {
    match color {
        MdrColor::RGB(_) => MdrColorType::SRGB,
        MdrColor::RGBA(_) => MdrColorType::SRGBA,
    }
}

impl From<MdrColor> for MdrColorType {
    fn from(color: MdrColor) -> (r: MdrColorType)
        ensures
            r == color_type_of(color),
    {
        match color {
            MdrColor::RGB(_) => MdrColorType::SRGB,
            MdrColor::RGBA(_) => MdrColorType::SRGBA,
        }
    }
}

impl vstd::std_specs::convert::FromSpecImpl<MdrColor> for MdrColorType {
    open spec fn obeys_from_spec() -> bool {
        true
    }

    open spec fn from_spec(color: MdrColor) -> MdrColorType {
        color_type_of(color)
    }
}

/// The byte layout of decoded pixels.
#[derive(Clone, Copy, Debug, PartialEq, Eq, Structural)]
pub enum MdrPixelLayout {
    Rgb8,
    Rgba8,
}

pub open spec fn channels(layout: MdrPixelLayout) -> nat {
    match layout {
        MdrPixelLayout::Rgb8 => 3,
        MdrPixelLayout::Rgba8 => 4,
    }
}

/// The pixel format of an image on the device.
#[allow(non_camel_case_types)]
#[derive(Clone, Copy, Debug, PartialEq, Eq, Structural)]
pub enum MdrFormat {
    R8G8B8A8_SRGB,
    R8G8B8_SRGB,
    R8G8B8A8_UNORM,
}

/// Display color with alpha keeps alpha, display color without alpha has three
/// channels, and shading data is always stored linear with four channels.
pub open spec fn format_for(color_type: MdrColorType) -> MdrFormat {
    match color_type {
        MdrColorType::SRGBA => MdrFormat::R8G8B8A8_SRGB,
        MdrColorType::SRGB => MdrFormat::R8G8B8_SRGB,
        MdrColorType::NonColorData => MdrFormat::R8G8B8A8_UNORM,
    }
}

pub open spec fn layout_of(format: MdrFormat) -> MdrPixelLayout {
    match format {
        MdrFormat::R8G8B8_SRGB => MdrPixelLayout::Rgb8,
        _ => MdrPixelLayout::Rgba8,
    }
}

/// The pixel layout of a device format.
pub fn layout_for_format(format: MdrFormat) -> (r: MdrPixelLayout)
    ensures
        r == layout_of(format),
{
    match format {
        MdrFormat::R8G8B8_SRGB => MdrPixelLayout::Rgb8,
        _ => MdrPixelLayout::Rgba8,
    }
}

/// The device format used for an image with the given color tag.
pub fn select_format(color_type: MdrColorType) -> (r: MdrFormat)
    ensures
        r == format_for(color_type),
{
    match color_type {
        MdrColorType::SRGBA => MdrFormat::R8G8B8A8_SRGB,
        MdrColorType::SRGB => MdrFormat::R8G8B8_SRGB,
        MdrColorType::NonColorData => MdrFormat::R8G8B8A8_UNORM,
    }
}

/// Decoded pixels, row by row, `channels(layout)` bytes each.
#[derive(Clone, Debug)]
pub struct MdrImageData {
    pub width: u32,
    pub height: u32,
    pub layout: MdrPixelLayout,
    pub pixels: Vec<u8>,
}

impl MdrImageData {
    pub open spec fn wf(&self) -> bool {
        self.pixels@.len() == channels(self.layout) * self.width * self.height
    }

    /// A one-pixel image of the given color.
    pub fn solid(color: MdrColor) -> (r: MdrImageData)
        ensures
            r.wf(),
            r.width == 1 && r.height == 1,
            r.pixels@ == solid_pixels(color),
            r.layout == solid_layout(color),
    {
        match color {
            MdrColor::RGB(c) => MdrImageData {
                width: 1,
                height: 1,
                layout: MdrPixelLayout::Rgb8,
                pixels: vec![c.r, c.g, c.b],
            },
            MdrColor::RGBA(c) => MdrImageData {
                width: 1,
                height: 1,
                layout: MdrPixelLayout::Rgba8,
                pixels: vec![c.r, c.g, c.b, c.a],
            },
        }
    }
}

/// Whether the pixel buffer of `image` matches its size and layout.
pub fn image_is_well_formed(image: &MdrImageData) -> (r: bool)
    ensures
        r == image.wf(),
{
    let len: usize = image.pixels.len();
    let c: usize = match image.layout {
        MdrPixelLayout::Rgb8 => 3,
        MdrPixelLayout::Rgba8 => 4,
    };
    if image.width == 0 || image.height == 0 {
        proof {
            assert(channels(image.layout) * image.width * image.height == 0) by (nonlinear_arith)
                requires image.width == 0 || image.height == 0;
        }
        return len == 0;
    }
    let row = match c.checked_mul(image.width as usize) {
        Some(n) => n,
        None => {
            proof {
                assert(c * image.width * image.height >= c * image.width) by (nonlinear_arith)
                    requires image.height >= 1, c >= 0, image.width >= 0;
            }
            return false;
        },
    };
    match row.checked_mul(image.height as usize) {
        Some(n) => len == n,
        None => false,
    }
}

/// The layout of the one-pixel image of `color`.
pub open spec fn solid_layout(color: MdrColor) -> MdrPixelLayout {
    match color {
        MdrColor::RGB(_) => MdrPixelLayout::Rgb8,
        MdrColor::RGBA(_) => MdrPixelLayout::Rgba8,
    }
}

/// The bytes of a single pixel of `color`.
pub open spec fn solid_pixels(color: MdrColor) -> Seq<u8> {
    match color {
        MdrColor::RGB(c) => seq![c.r, c.g, c.b],
        MdrColor::RGBA(c) => seq![c.r, c.g, c.b, c.a],
    }
}

/// Three-channel pixels widened to four, each pixel gaining an opaque alpha.
pub open spec fn rgba_from_rgb(s: Seq<u8>) -> Seq<u8> {
    Seq::new(
        (s.len() / 3 * 4) as nat,
        |i: int|
            if i % 4 == 3 {
                255u8
            } else {
                s[(i / 4) * 3 + i % 4]
            },
    )
}

/// Four-channel pixels narrowed to three, each pixel losing its alpha.
pub open spec fn rgb_from_rgba(s: Seq<u8>) -> Seq<u8> {
    Seq::new((s.len() / 4 * 3) as nat, |i: int| s[(i / 3) * 4 + i % 3])
}

/// Pixels in the layout `to`, from pixels in the layout `from`.
pub open spec fn converted(s: Seq<u8>, from: MdrPixelLayout, to: MdrPixelLayout) -> Seq<u8> {
    match (from, to) {
        (MdrPixelLayout::Rgb8, MdrPixelLayout::Rgba8) => rgba_from_rgb(s),
        (MdrPixelLayout::Rgba8, MdrPixelLayout::Rgb8) => rgb_from_rgba(s),
        _ => s,
    }
}

/// The color held by pixel `i` of bytes in `format`; three-channel pixels read as opaque.
pub open spec fn texel(format: MdrFormat, bytes: Seq<u8>, i: int) -> MdrRgba {
    match layout_of(format) {
        MdrPixelLayout::Rgb8 => MdrRgba {
            r: bytes[3 * i],
            g: bytes[3 * i + 1],
            b: bytes[3 * i + 2],
            a: 255,
        },
        MdrPixelLayout::Rgba8 => MdrRgba {
            r: bytes[4 * i],
            g: bytes[4 * i + 1],
            b: bytes[4 * i + 2],
            a: bytes[4 * i + 3],
        },
    }
}

/// `color` read as a four-channel color; a color without alpha is opaque.
pub open spec fn as_rgba(color: MdrColor) -> MdrRgba {
    match color {
        MdrColor::RGB(c) => MdrRgba { r: c.r, g: c.g, b: c.b, a: 255 },
        MdrColor::RGBA(c) => c,
    }
}

/// Relies on image's `ImageBuffer::from_raw` and `DynamicImage::to_rgba8`: the RGB
/// to RGBA conversion copies the three channels and sets alpha to the maximum.
#[verifier::external_body]
fn rgb8_to_rgba8(width: u32, height: u32, raw: Vec<u8>) -> (r: Vec<u8>)
    requires
        raw@.len() == 3 * width * height,
    ensures
        r@ == rgba_from_rgb(raw@),
{
    let buffer: image::RgbImage = image::ImageBuffer::from_raw(width, height, raw).unwrap();
    image::DynamicImage::ImageRgb8(buffer).to_rgba8().into_raw()
}

/// Relies on image's `ImageBuffer::from_raw` and `DynamicImage::to_rgb8`: the RGBA
/// to RGB conversion copies the three color channels and drops alpha.
#[verifier::external_body]
fn rgba8_to_rgb8(width: u32, height: u32, raw: Vec<u8>) -> (r: Vec<u8>)
    requires
        raw@.len() == 4 * width * height,
    ensures
        r@ == rgb_from_rgba(raw@),
{
    let buffer: image::RgbaImage = image::ImageBuffer::from_raw(width, height, raw).unwrap();
    image::DynamicImage::ImageRgba8(buffer).to_rgb8().into_raw()
}

/// The pixels of `image` in the layout `to`.
pub fn convert_pixels(image: MdrImageData, to: MdrPixelLayout) -> (r: Vec<u8>)
    requires
        image.wf(),
    ensures
        r@ == converted(image.pixels@, image.layout, to),
        r@.len() == channels(to) * image.width * image.height,
{
    proof {
        lemma_converted_len(image.pixels@, image.layout, to, image.width as nat, image.height as nat);
    }
    match (image.layout, to) {
        (MdrPixelLayout::Rgb8, MdrPixelLayout::Rgba8) => rgb8_to_rgba8(image.width, image.height, image.pixels),
        (MdrPixelLayout::Rgba8, MdrPixelLayout::Rgb8) => rgba8_to_rgb8(image.width, image.height, image.pixels),
        _ => image.pixels,
    }
}

proof fn lemma_converted_len(s: Seq<u8>, from: MdrPixelLayout, to: MdrPixelLayout, w: nat, h: nat)
    requires
        s.len() == channels(from) * w * h,
    ensures
        converted(s, from, to).len() == channels(to) * w * h,
{
    let n = w * h;
    assert(3 * w * h == 3 * n) by (nonlinear_arith) requires n == w * h;
    assert(4 * w * h == 4 * n) by (nonlinear_arith) requires n == w * h;
    assert(3 * n / 3 == n) by (nonlinear_arith);
    assert(4 * n / 4 == n) by (nonlinear_arith);
}

} // verus!
