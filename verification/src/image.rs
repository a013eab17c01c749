//! Raw images handed to the encoder, and the engine's codes for their pixel
//! format and colour space.

use vstd::prelude::*;
use vstd::std_specs::convert::FromSpecImpl;

verus! {

/// Engine code of the pixel format `RGB24`.
pub const VPX_IMG_FMT_RGB24: u32 = 1;

/// Engine code of the pixel format `RGB32`.
pub const VPX_IMG_FMT_RGB32: u32 = 2;

/// Engine code of the pixel format `RGB565`.
pub const VPX_IMG_FMT_RGB565: u32 = 3;

/// Engine code of the pixel format `RGB555`.
pub const VPX_IMG_FMT_RGB555: u32 = 4;

/// Engine code of the pixel format `UYVY`.
pub const VPX_IMG_FMT_UYVY: u32 = 5;

/// Engine code of the pixel format `YUY2`.
pub const VPX_IMG_FMT_YUY2: u32 = 6;

/// Engine code of the pixel format `YVYU`.
pub const VPX_IMG_FMT_YVYU: u32 = 7;

/// Engine code of the pixel format `BGR24`.
pub const VPX_IMG_FMT_BGR24: u32 = 8;

/// Engine code of the little-endian form of `RGB32`.
pub const VPX_IMG_FMT_RGB32_LE: u32 = 9;

/// Engine code of the pixel format `ARGB`.
pub const VPX_IMG_FMT_ARGB: u32 = 10;

/// Engine code of the little-endian form of `ARGB`.
pub const VPX_IMG_FMT_ARGB_LE: u32 = 11;

/// Engine code of the little-endian form of `RGB565`.
pub const VPX_IMG_FMT_RGB565_LE: u32 = 12;

/// Engine code of the little-endian form of `RGB555`.
pub const VPX_IMG_FMT_RGB555_LE: u32 = 13;

/// Engine code of planar `YV12`.
pub const VPX_IMG_FMT_YV12: u32 = 0x301;

/// Engine code of planar `I420`.
pub const VPX_IMG_FMT_I420: u32 = 0x102;

/// Engine code of the engine's own `YV12` layout.
pub const VPX_IMG_FMT_VPXYV12: u32 = 0x303;

/// Engine code of the engine's own `I420` layout.
pub const VPX_IMG_FMT_VPXI420: u32 = 0x104;

/// Engine code of planar `I422`.
pub const VPX_IMG_FMT_I422: u32 = 0x105;

/// Engine code of planar `I444`.
pub const VPX_IMG_FMT_I444: u32 = 0x106;

/// Engine code of planar `I440`.
pub const VPX_IMG_FMT_I440: u32 = 0x107;

/// Engine code of planar 4:4:4 with an alpha plane.
pub const VPX_IMG_FMT_444A: u32 = 0x506;

/// Engine code of `I420` with more than eight bits per sample.
pub const VPX_IMG_FMT_I42016: u32 = 0x902;

/// Engine code of `I422` with more than eight bits per sample.
pub const VPX_IMG_FMT_I42216: u32 = 0x905;

/// Engine code of `I444` with more than eight bits per sample.
pub const VPX_IMG_FMT_I44416: u32 = 0x906;

/// Engine code of `I440` with more than eight bits per sample.
pub const VPX_IMG_FMT_I44016: u32 = 0x907;

/// Engine code of the colour space BT.601.
pub const VPX_CS_BT_601: u32 = 1;

/// Engine code of the colour space BT.709.
pub const VPX_CS_BT_709: u32 = 2;

/// Engine code of the colour space SMPTE 170.
pub const VPX_CS_SMPTE_170: u32 = 3;

/// Engine code of the colour space SMPTE 240.
pub const VPX_CS_SMPTE_240: u32 = 4;

/// Engine code of the colour space BT.2020.
pub const VPX_CS_BT_2020: u32 = 5;

/// Engine code of the colour space sRGB.
pub const VPX_CS_SRGB: u32 = 7;

/// Pixel layout of a raw image.
#[derive(Clone, Copy, Eq, PartialEq, Hash, Debug, Structural)]
#[allow(non_camel_case_types)]
pub enum Format {
    RGB24,
    RGB32 { le: bool },
    RGB565 { le: bool },
    RGB555 { le: bool },
    UYVY,
    YUY2,
    YVYU,
    BGR24,
    ARGB,
    BGRA,
    YV12_VPX,
    I420_VPX,
    YV12,
    I420 { hi_bit_depth: bool },
    I422 { hi_bit_depth: bool },
    I440 { hi_bit_depth: bool },
    I444 { hi_bit_depth: bool },
    /// Should be named `444A`.
    I444A,
}

impl Format {
    /// The engine code under which this layout is handed over.
    pub open spec fn code(self) -> u32 {
        match self {
            Format::RGB24 => VPX_IMG_FMT_RGB24,
            Format::RGB32 { le } => if le { VPX_IMG_FMT_RGB32_LE } else { VPX_IMG_FMT_RGB32 },
            Format::RGB565 { le } => if le { VPX_IMG_FMT_RGB565_LE } else { VPX_IMG_FMT_RGB565 },
            Format::RGB555 { le } => if le { VPX_IMG_FMT_RGB555_LE } else { VPX_IMG_FMT_RGB555 },
            Format::UYVY => VPX_IMG_FMT_UYVY,
            Format::YUY2 => VPX_IMG_FMT_YUY2,
            Format::YVYU => VPX_IMG_FMT_YVYU,
            Format::BGR24 => VPX_IMG_FMT_BGR24,
            Format::ARGB => VPX_IMG_FMT_ARGB,
            Format::BGRA => VPX_IMG_FMT_ARGB_LE,
            Format::YV12_VPX => VPX_IMG_FMT_VPXYV12,
            Format::I420_VPX => VPX_IMG_FMT_VPXI420,
            Format::YV12 => VPX_IMG_FMT_YV12,
            Format::I420 { hi_bit_depth } => if hi_bit_depth { VPX_IMG_FMT_I42016 } else { VPX_IMG_FMT_I420 },
            Format::I422 { hi_bit_depth } => if hi_bit_depth { VPX_IMG_FMT_I42216 } else { VPX_IMG_FMT_I422 },
            Format::I440 { hi_bit_depth } => if hi_bit_depth { VPX_IMG_FMT_I44016 } else { VPX_IMG_FMT_I440 },
            Format::I444 { hi_bit_depth } => if hi_bit_depth { VPX_IMG_FMT_I44416 } else { VPX_IMG_FMT_I444 },
            Format::I444A => VPX_IMG_FMT_444A,
        }
    }
}

impl From<Format> for u32 {
    /// The engine code of a pixel layout.
    fn from(fmt: Format) -> (code: u32) {
        match fmt {
            Format::RGB24 => VPX_IMG_FMT_RGB24,
            Format::RGB32 { le: false } => VPX_IMG_FMT_RGB32,
            Format::RGB32 { le: true } => VPX_IMG_FMT_RGB32_LE,
            Format::RGB565 { le: false } => VPX_IMG_FMT_RGB565,
            Format::RGB565 { le: true } => VPX_IMG_FMT_RGB565_LE,
            Format::RGB555 { le: false } => VPX_IMG_FMT_RGB555,
            Format::RGB555 { le: true } => VPX_IMG_FMT_RGB555_LE,
            Format::UYVY => VPX_IMG_FMT_UYVY,
            Format::YUY2 => VPX_IMG_FMT_YUY2,
            Format::YVYU => VPX_IMG_FMT_YVYU,
            Format::BGR24 => VPX_IMG_FMT_BGR24,
            Format::ARGB => VPX_IMG_FMT_ARGB,
            Format::BGRA => VPX_IMG_FMT_ARGB_LE,
            Format::YV12_VPX => VPX_IMG_FMT_VPXYV12,
            Format::I420_VPX => VPX_IMG_FMT_VPXI420,
            Format::YV12 => VPX_IMG_FMT_YV12,
            Format::I420 { hi_bit_depth: false } => VPX_IMG_FMT_I420,
            Format::I422 { hi_bit_depth: false } => VPX_IMG_FMT_I422,
            Format::I440 { hi_bit_depth: false } => VPX_IMG_FMT_I440,
            Format::I444 { hi_bit_depth: false } => VPX_IMG_FMT_I444,
            Format::I420 { hi_bit_depth: true } => VPX_IMG_FMT_I42016,
            Format::I422 { hi_bit_depth: true } => VPX_IMG_FMT_I42216,
            Format::I440 { hi_bit_depth: true } => VPX_IMG_FMT_I44016,
            Format::I444 { hi_bit_depth: true } => VPX_IMG_FMT_I44416,
            Format::I444A => VPX_IMG_FMT_444A,
        }
    }
}

impl FromSpecImpl<Format> for u32 {
    open spec fn obeys_from_spec() -> bool {
        true
    }

    open spec fn from_spec(fmt: Format) -> u32 {
        fmt.code()
    }
}

/// Colour space of a raw image.
#[derive(Clone, Copy, Eq, PartialEq, Hash, Debug, Structural)]
#[allow(non_camel_case_types)]
pub enum ColorSpace {
    BT601,
    BT709,
    SMPTE170,
    SMPTE240,
    BT2020,
    SRGB,
}

impl ColorSpace {
    /// The engine code of this colour space.
    pub open spec fn code(self) -> u32 {
        match self {
            ColorSpace::BT601 => VPX_CS_BT_601,
            ColorSpace::BT709 => VPX_CS_BT_709,
            ColorSpace::SMPTE170 => VPX_CS_SMPTE_170,
            ColorSpace::SMPTE240 => VPX_CS_SMPTE_240,
            ColorSpace::BT2020 => VPX_CS_BT_2020,
            ColorSpace::SRGB => VPX_CS_SRGB,
        }
    }
}

impl From<ColorSpace> for u32 {
    /// The engine code of a colour space.
    fn from(color_space: ColorSpace) -> (code: u32) {
        match color_space {
            ColorSpace::BT601 => VPX_CS_BT_601,
            ColorSpace::BT709 => VPX_CS_BT_709,
            ColorSpace::SMPTE170 => VPX_CS_SMPTE_170,
            ColorSpace::SMPTE240 => VPX_CS_SMPTE_240,
            ColorSpace::BT2020 => VPX_CS_BT_2020,
            ColorSpace::SRGB => VPX_CS_SRGB,
        }
    }
}

impl FromSpecImpl<ColorSpace> for u32 {
    open spec fn obeys_from_spec() -> bool {
        true
    }

    open spec fn from_spec(color_space: ColorSpace) -> u32 {
        color_space.code()
    }
}

/// Two pixel layouts with the same engine code are the same layout.
pub proof fn lemma_format_code_injective(a: Format, b: Format)
    requires
        a.code() == b.code(),
    ensures
        a == b,
{
}

/// Two colour spaces with the same engine code are the same colour space.
pub proof fn lemma_color_space_code_injective(a: ColorSpace, b: ColorSpace)
    requires
        a.code() == b.code(),
    ensures
        a == b,
{
}

/// What an [`Image`] stands for: the bytes it borrows and how the engine is
/// to read them.
pub struct ImageView {
    pub data: Seq<u8>,
    pub format: Format,
    pub color_space: ColorSpace,
    pub width: u32,
    pub height: u32,
    pub stride: u32,
}

/// A raw image: a borrowed pixel buffer together with its layout, colour
/// space and geometry. The buffer is neither copied nor measured.
pub struct Image<'data> {
    data: &'data [u8],
    format: Format,
    color_space: ColorSpace,
    width: u32,
    height: u32,
    stride: u32,
}

impl<'data> View for Image<'data> {
    type V = ImageView;

    closed spec fn view(&self) -> ImageView {
        ImageView {
            data: self.data@,
            format: self.format,
            color_space: self.color_space,
            width: self.width,
            height: self.height,
            stride: self.stride,
        }
    }
}

impl<'data> Image<'data> {
    /// Creates a wrapper around an image data of the given format. **Does not check that the
    /// container is big enough.**
    pub fn new(
        data: &'data [u8],
        fmt: Format,
        color_space: ColorSpace,
        width: u32,
        height: u32,
        stride: u32,
    ) -> (img: Self)
        ensures
            img@ == (ImageView { data: data@, format: fmt, color_space, width, height, stride }),
    {
        Image { data, format: fmt, color_space, width, height, stride }
    }

    /// The pixel layout of the image.
    pub fn get_format(&self) -> (fmt: &Format)
        ensures
            *fmt == self@.format,
    {
        &self.format
    }

    /// The colour space of the image.
    pub fn color_space(&self) -> (color_space: ColorSpace)
        ensures
            color_space == self@.color_space,
    {
        self.color_space
    }

    /// The borrowed pixel buffer.
    pub fn data(&self) -> (data: &'data [u8])
        ensures
            data@ == self@.data,
    {
        self.data
    }

    /// Width of the image in pixels.
    pub fn width(&self) -> (width: u32)
        ensures
            width == self@.width,
    {
        self.width
    }

    /// Height of the image in pixels.
    pub fn height(&self) -> (height: u32)
        ensures
            height == self@.height,
    {
        self.height
    }

    /// Distance in bytes between the starts of two rows.
    pub fn stride(&self) -> (stride: u32)
        ensures
            stride == self@.stride,
    {
        self.stride
    }
}

} // verus!
