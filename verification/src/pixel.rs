//! Pixel formats and the per-format color encoding of an intensity value.

use vstd::prelude::*;

verus! {

/// The pixel formats the blitter understands.  Anything the hardware might
/// report beyond these three is `Unsupported`: the driver refuses to guess a
/// byte layout for it.
#[derive(Clone, Copy, PartialEq, Eq, Structural, Debug)]
pub enum PixelFormat {
    /// One byte each of red, green, blue, then a padding byte.
    Rgb,
    /// One byte each of blue, green, red, then a padding byte.
    Bgr,
    /// A single luminance byte per pixel.
    Grayscale,
    /// A layout the driver does not know; blitting to it is refused.
    Unsupported,
}

impl PixelFormat {
    /// Whether the blitter can derive a byte layout for this format.
    pub open spec fn is_supported(self) -> bool {
        self != PixelFormat::Unsupported
    }
}

/// Intensity above which a grayscale pixel is driven full-on.
pub const GRAY_THRESHOLD: u8 = 200;

/// The luminance byte written for a grayscale pixel that is switched on.
pub const GRAY_FULL_ON: u8 = 0xff;

/// The `i`-th byte (0 <= i < 4) of the color derived from `intensity` under
/// `fmt`:
/// - RGB: `[intensity, intensity, intensity / 2, 0]`
/// - BGR: `[intensity / 2, intensity, intensity, 0]`
/// - grayscale: `[full-on if intensity > 200 else 0, 0, 0, 0]`
pub open spec fn color_byte(fmt: PixelFormat, intensity: u8, i: int) -> u8 {
    match fmt {
        PixelFormat::Rgb => {
            if i == 0 || i == 1 {
                intensity
            } else if i == 2 {
                intensity / 2
            } else {
                0
            }
        },
        PixelFormat::Bgr => {
            if i == 0 {
                intensity / 2
            } else if i == 1 || i == 2 {
                intensity
            } else {
                0
            }
        },
        PixelFormat::Grayscale => {
            if i == 0 && intensity > GRAY_THRESHOLD {
                GRAY_FULL_ON
            } else {
                0
            }
        },
        PixelFormat::Unsupported => 0,
    }
}

/// Geometry of the framebuffer, as handed over at boot: pixel dimensions,
/// scanline stride, pixel size in bytes, and the pixel format.
#[derive(Clone, Copy, PartialEq, Eq, Structural, Debug)]
pub struct FbInfo {
    /// Visible width in pixels.
    pub width: usize,
    /// Visible height in pixels.
    pub height: usize,
    /// Distance between the starts of two scanlines, in pixels.
    pub stride: usize,
    /// Size of one pixel in bytes (at most four are ever derived).
    pub bytes_per_pixel: usize,
    /// Layout of one pixel's bytes.
    pub pixel_format: PixelFormat,
}

} // verus!
