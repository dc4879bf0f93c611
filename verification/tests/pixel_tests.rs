//! Pixel-format byte encoding, checked against the per-format formulas.

use fb_console::pixel::{FbInfo, PixelFormat};
use fb_console::writer::FrameBufferWriter;

fn make_writer(fmt: PixelFormat, bpp: usize) -> FrameBufferWriter {
    let info = FbInfo {
        width: 640,
        height: 480,
        stride: 640,
        bytes_per_pixel: bpp,
        pixel_format: fmt,
    };
    FrameBufferWriter::new_(vec![0u8; 640 * 480 * bpp], info)
}

#[test]
fn rgb_full_intensity_at_origin() {
    let mut w = make_writer(PixelFormat::Rgb, 4);
    w.write_pixel(0, 0, 255);
    assert_eq!(w.read_byte(0), 255);
    assert_eq!(w.read_byte(1), 255);
    assert_eq!(w.read_byte(2), 127);
    assert_eq!(w.read_byte(3), 0);
}

#[test]
fn bgr_full_intensity_at_origin() {
    let mut w = make_writer(PixelFormat::Bgr, 4);
    w.write_pixel(0, 0, 255);
    assert_eq!(w.read_byte(0), 127);
    assert_eq!(w.read_byte(1), 255);
    assert_eq!(w.read_byte(2), 255);
    assert_eq!(w.read_byte(3), 0);
}

#[test]
fn grayscale_thresholds() {
    let mut w = make_writer(PixelFormat::Grayscale, 4);
    w.write_pixel(0, 0, 201);
    assert_eq!(w.read_byte(0), 0xff);
    assert_eq!(w.read_byte(1), 0);
    assert_eq!(w.read_byte(2), 0);
    assert_eq!(w.read_byte(3), 0);
    w.write_pixel(0, 0, 200);
    assert_eq!(w.read_byte(0), 0);
    assert_eq!(w.read_byte(1), 0);
    assert_eq!(w.read_byte(2), 0);
    assert_eq!(w.read_byte(3), 0);
}

#[test]
fn every_intensity_matches_the_formulas() {
    for i in 0..=255u8 {
        let mut w = make_writer(PixelFormat::Rgb, 4);
        w.write_pixel(3, 2, i);
        let off = (2 * 640 + 3) * 4;
        assert_eq!(w.read_byte(off), i);
        assert_eq!(w.read_byte(off + 1), i);
        assert_eq!(w.read_byte(off + 2), i / 2);
        assert_eq!(w.read_byte(off + 3), 0);

        let mut w = make_writer(PixelFormat::Bgr, 4);
        w.write_pixel(3, 2, i);
        assert_eq!(w.read_byte(off), i / 2);
        assert_eq!(w.read_byte(off + 1), i);
        assert_eq!(w.read_byte(off + 2), i);
        assert_eq!(w.read_byte(off + 3), 0);

        let mut w = make_writer(PixelFormat::Grayscale, 4);
        w.write_pixel(3, 2, i);
        let expected = if i > 200 { 0xff } else { 0 };
        assert_eq!(w.read_byte(off), expected);
        assert_eq!(w.read_byte(off + 1), 0);
        assert_eq!(w.read_byte(off + 2), 0);
        assert_eq!(w.read_byte(off + 3), 0);
    }
}

#[test]
fn only_the_first_bytes_per_pixel_bytes_are_copied() {
    let mut w = make_writer(PixelFormat::Rgb, 3);
    w.write_pixel(0, 0, 255);
    assert_eq!(w.read_byte(0), 255);
    assert_eq!(w.read_byte(1), 255);
    assert_eq!(w.read_byte(2), 127);
    // the fourth byte belongs to the next pixel and stays untouched
    assert_eq!(w.read_byte(3), 0);
    let mut w = make_writer(PixelFormat::Bgr, 1);
    w.write_pixel(1, 0, 255);
    assert_eq!(w.read_byte(1), 127);
    assert_eq!(w.read_byte(2), 0);
}

#[test]
fn neighbouring_bytes_stay_untouched() {
    let mut w = make_writer(PixelFormat::Rgb, 4);
    w.write_pixel(5, 7, 9);
    let off = (7 * 640 + 5) * 4;
    for i in 0..w.buffer_len() {
        if i < off || i >= off + 4 {
            assert_eq!(w.read_byte(i), 0);
        }
    }
}
