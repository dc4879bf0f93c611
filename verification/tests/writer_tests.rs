//! Cursor layout: advancing, wrapping, clearing, backspace and the cursor
//! moves.

use fb_console::font::{get_char_raster, CHAR_RASTER_HEIGHT, CHAR_RASTER_WIDTH};
use fb_console::pixel::{FbInfo, PixelFormat};
use fb_console::writer::FrameBufferWriter;
use fb_console::{BORDER_PADDING, LETTER_SPACING, LINE_SPACING, TAB_SPACING};

const W: usize = 640;
const H: usize = 480;

fn make_writer() -> FrameBufferWriter {
    let info = FbInfo {
        width: W,
        height: H,
        stride: W,
        bytes_per_pixel: 4,
        pixel_format: PixelFormat::Rgb,
    };
    FrameBufferWriter::new_(vec![0u8; W * H * 4], info)
}

fn buffers_equal(a: &FrameBufferWriter, b: &FrameBufferWriter) -> bool {
    if a.buffer_len() != b.buffer_len() {
        return false;
    }
    for i in 0..a.buffer_len() {
        if a.read_byte(i) != b.read_byte(i) {
            return false;
        }
    }
    true
}

#[test]
fn new_clears_and_homes_the_cursor() {
    let w = make_writer();
    assert_eq!(w.x_pos(), BORDER_PADDING);
    assert_eq!(w.y_pos(), BORDER_PADDING);
    for i in 0..w.buffer_len() {
        assert_eq!(w.read_byte(i), 0);
    }
}

#[test]
fn glyphs_advance_x_by_width_plus_letter_spacing() {
    let mut w = make_writer();
    let step = CHAR_RASTER_WIDTH + LETTER_SPACING;
    let mut expected = BORDER_PADDING;
    for c in ['H', 'e', 'l', 'l', 'o'] {
        let before = w.x_pos();
        w.write_char(c);
        expected += step;
        assert_eq!(w.x_pos(), expected);
        assert!(w.x_pos() > before);
        assert_eq!(w.y_pos(), BORDER_PADDING);
    }
}

#[test]
fn glyph_pixels_follow_the_bitmap() {
    let mut w = make_writer();
    w.write_char('A');
    let g = get_char_raster('A');
    let mut saw_ink = false;
    for dy in 0..CHAR_RASTER_HEIGHT {
        for dx in 0..CHAR_RASTER_WIDTH {
            let intensity = g.rows[dy][dx];
            if intensity != 0 {
                saw_ink = true;
            }
            let off = ((BORDER_PADDING + dy) * W + BORDER_PADDING + dx) * 4;
            assert_eq!(w.read_byte(off), intensity);
            assert_eq!(w.read_byte(off + 1), intensity);
            assert_eq!(w.read_byte(off + 2), intensity / 2);
            assert_eq!(w.read_byte(off + 3), 0);
        }
    }
    assert!(saw_ink);
}

#[test]
fn tab_newline_and_carriage_return() {
    let mut w = make_writer();
    w.write_char('\t');
    assert_eq!(w.x_pos(), BORDER_PADDING + TAB_SPACING);
    w.write_char('\n');
    assert_eq!(w.x_pos(), BORDER_PADDING);
    assert_eq!(w.y_pos(), BORDER_PADDING + CHAR_RASTER_HEIGHT + LINE_SPACING);
    w.write_char('X');
    w.write_char('\r');
    assert_eq!(w.x_pos(), BORDER_PADDING);
}

#[test]
fn wrap_renders_at_the_post_wrap_position() {
    let mut wrapped = make_writer();
    wrapped.set_x_pos(W - CHAR_RASTER_WIDTH + 1);
    wrapped.write_char('A');

    let mut direct = make_writer();
    direct.set_x_pos(BORDER_PADDING);
    direct.set_y_pos(BORDER_PADDING + CHAR_RASTER_HEIGHT + LINE_SPACING);
    direct.write_char('A');

    assert_eq!(wrapped.x_pos(), BORDER_PADDING + CHAR_RASTER_WIDTH + LETTER_SPACING);
    assert_eq!(wrapped.y_pos(), BORDER_PADDING + CHAR_RASTER_HEIGHT + LINE_SPACING);
    assert_eq!(wrapped.x_pos(), direct.x_pos());
    assert_eq!(wrapped.y_pos(), direct.y_pos());
    assert!(buffers_equal(&wrapped, &direct));
}

#[test]
fn bottom_margin_clears_everything_and_homes() {
    let mut bottom = make_writer();
    bottom.write_char('Z');  // leave some ink that the clear must erase
    bottom.set_x_pos(BORDER_PADDING);
    bottom.set_y_pos(H - CHAR_RASTER_HEIGHT - BORDER_PADDING);
    bottom.write_char('A');

    let mut fresh = make_writer();
    fresh.write_char('A');

    assert_eq!(bottom.x_pos(), BORDER_PADDING + CHAR_RASTER_WIDTH + LETTER_SPACING);
    assert_eq!(bottom.y_pos(), BORDER_PADDING);
    assert!(buffers_equal(&bottom, &fresh));
}

#[test]
fn backspace_undoes_a_print() {
    let mut w = make_writer();
    w.write_char('A');
    w.backspace();
    assert_eq!(w.x_pos(), BORDER_PADDING);
    assert_eq!(w.y_pos(), BORDER_PADDING);
    for i in 0..w.buffer_len() {
        assert_eq!(w.read_byte(i), 0);
    }
}

#[test]
fn backspace_at_the_top_left_border_is_a_no_op() {
    let mut w = make_writer();
    w.backspace();
    assert_eq!(w.x_pos(), BORDER_PADDING);
    assert_eq!(w.y_pos(), BORDER_PADDING);
    for i in 0..w.buffer_len() {
        assert_eq!(w.read_byte(i), 0);
    }
}

#[test]
fn backspace_wraps_to_the_previous_line_end() {
    let mut w = make_writer();
    w.set_y_pos(BORDER_PADDING + CHAR_RASTER_HEIGHT + LINE_SPACING);
    w.backspace();
    assert_eq!(w.x_pos(), W - (CHAR_RASTER_WIDTH + LETTER_SPACING));
    assert_eq!(w.y_pos(), BORDER_PADDING);
}

#[test]
fn cursor_moves_clamp_at_the_edges() {
    let mut w = make_writer();
    let line = CHAR_RASTER_HEIGHT + LINE_SPACING;
    w.cursor_up();
    assert_eq!((w.x_pos(), w.y_pos()), (BORDER_PADDING, BORDER_PADDING));
    w.cursor_left();
    assert_eq!((w.x_pos(), w.y_pos()), (BORDER_PADDING, BORDER_PADDING));
    w.cursor_down();
    assert_eq!((w.x_pos(), w.y_pos()), (BORDER_PADDING, BORDER_PADDING + line));
    w.cursor_up();
    assert_eq!((w.x_pos(), w.y_pos()), (BORDER_PADDING, BORDER_PADDING));
    w.cursor_right();
    assert_eq!(
        (w.x_pos(), w.y_pos()),
        (BORDER_PADDING + CHAR_RASTER_WIDTH + LETTER_SPACING, BORDER_PADDING),
    );
    w.cursor_left();
    assert_eq!((w.x_pos(), w.y_pos()), (BORDER_PADDING, BORDER_PADDING));
    // rightward movement at the line end wraps like printing does
    w.set_x_pos(W - CHAR_RASTER_WIDTH);
    w.cursor_right();
    assert_eq!((w.x_pos(), w.y_pos()), (BORDER_PADDING, BORDER_PADDING + line));
    // leftward movement at the left margin wraps to the previous line's end
    w.cursor_left();
    assert_eq!(
        (w.x_pos(), w.y_pos()),
        (W - (CHAR_RASTER_WIDTH + LETTER_SPACING), BORDER_PADDING),
    );
    // downward movement clamps at the bottom
    w.set_y_pos(H - CHAR_RASTER_HEIGHT - LINE_SPACING);
    let y = w.y_pos();
    w.cursor_down();
    assert_eq!(w.y_pos(), y);
}

#[test]
fn write_str_handles_mixed_text() {
    let mut w = make_writer();
    w.write_str("Hi\nOk");
    let step = CHAR_RASTER_WIDTH + LETTER_SPACING;
    assert_eq!(w.x_pos(), BORDER_PADDING + 2 * step);
    assert_eq!(w.y_pos(), BORDER_PADDING + CHAR_RASTER_HEIGHT + LINE_SPACING);

    let mut manual = make_writer();
    for c in "Hi\nOk".chars() {
        manual.write_char(c);
    }
    assert!(buffers_equal(&w, &manual));
}

#[test]
fn set_cursor_positions() {
    let mut w = make_writer();
    w.set_x_pos(40);
    w.set_y_pos(30);
    assert_eq!(w.x_pos(), 40);
    assert_eq!(w.y_pos(), 30);
}

#[test]
fn clear_erases_printed_text() {
    let mut w = make_writer();
    w.write_str("junk");
    w.clear();
    assert_eq!(w.x_pos(), BORDER_PADDING);
    assert_eq!(w.y_pos(), BORDER_PADDING);
    for i in 0..w.buffer_len() {
        assert_eq!(w.read_byte(i), 0);
    }
}
