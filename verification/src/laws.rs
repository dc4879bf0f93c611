//! Laws of the cursor and layout engine, proved over the screen model.

use vstd::prelude::*;

use crate::font::{glyph_seq, CHAR_RASTER_HEIGHT, CHAR_RASTER_WIDTH};
use crate::pixel::{color_byte, PixelFormat};
use crate::writer::{
    blank_glyph_rows, lemma_blit_row_frame, lemma_blit_rows_frame, lemma_pixel_off_in_bounds,
    pixel_byte, wf_info, ScreenModel,
};
use crate::{BORDER_PADDING, LETTER_SPACING, LINE_SPACING, TAB_SPACING};

verus! {

/// The color derived from intensity zero is zero in every byte, under every
/// format.
pub proof fn lemma_zero_intensity_is_black(fmt: PixelFormat, k: int)
    ensures
        color_byte(fmt, 0u8, k) == 0u8,
{
}

/// Blitting a row of zero intensities turns every byte of the row's
/// footprint to zero and leaves every other byte, or zeroes it.
proof fn lemma_blank_row_zeroes(m: ScreenModel, x0: int, y: int, row: Seq<u8>, n: int)
    requires
        wf_info(m.info, m.fb.len()),
        forall|i: int| 0 <= i < row.len() ==> row[i] == 0u8,
        0 <= x0,
        0 <= y < m.info.height,
        n <= row.len(),
        x0 + n <= m.info.width,
    ensures
        forall|i: int|
            0 <= i < m.fb.len() ==> m.blit_row(x0, y, row, n).fb[i] == m.fb[i] || m.blit_row(
                x0,
                y,
                row,
                n,
            ).fb[i] == 0u8,
        forall|dx: int, k: int|
            0 <= dx < n && 0 <= k < m.info.bytes_per_pixel ==> m.blit_row(x0, y, row, n).fb[
                #[trigger] pixel_byte(m.info, x0 + dx, y, k)] == 0u8,
    decreases n,
{
    if n > 0 {
        lemma_blank_row_zeroes(m, x0, y, row, n - 1);
        lemma_blit_row_frame(m, x0, y, row, n - 1);
        assert forall|dx: int, k: int|
            0 <= dx < n && 0 <= k < m.info.bytes_per_pixel implies m.blit_row(x0, y, row, n).fb[
            #[trigger] pixel_byte(m.info, x0 + dx, y, k)] == 0u8 by {
            lemma_pixel_off_in_bounds(
                x0 + dx,
                y,
                m.info.width as int,
                m.info.height as int,
                m.info.stride as int,
                m.info.bytes_per_pixel as int,
            );
            lemma_pixel_off_in_bounds(
                x0 + (n - 1),
                y,
                m.info.width as int,
                m.info.height as int,
                m.info.stride as int,
                m.info.bytes_per_pixel as int,
            );
        }
    }
}

/// Blitting a glyph-sized grid of zero intensities turns every byte of the
/// glyph cell's footprint to zero and leaves every other byte, or zeroes it.
pub proof fn lemma_blank_rows_zero(m: ScreenModel, x0: int, y0: int, rows: Seq<Seq<u8>>, n: int)
    requires
        wf_info(m.info, m.fb.len()),
        forall|i: int, j: int|
            0 <= i < rows.len() && 0 <= j < rows[i].len() ==> rows[i][j] == 0u8,
        forall|i: int| 0 <= i < rows.len() ==> (#[trigger] rows[i]).len() == CHAR_RASTER_WIDTH,
        0 <= x0,
        x0 + CHAR_RASTER_WIDTH <= m.info.width,
        0 <= y0,
        n <= rows.len(),
        y0 + n <= m.info.height,
    ensures
        forall|i: int|
            0 <= i < m.fb.len() ==> m.blit_rows(x0, y0, rows, n).fb[i] == m.fb[i] || m.blit_rows(
                x0,
                y0,
                rows,
                n,
            ).fb[i] == 0u8,
        forall|dy: int, dx: int, k: int|
            0 <= dy < n && 0 <= dx < CHAR_RASTER_WIDTH && 0 <= k < m.info.bytes_per_pixel
                ==> m.blit_rows(x0, y0, rows, n).fb[#[trigger] pixel_byte(
                m.info,
                x0 + dx,
                y0 + dy,
                k,
            )] == 0u8,
    decreases n,
{
    if n > 0 {
        lemma_blank_rows_zero(m, x0, y0, rows, n - 1);
        let prev = m.blit_rows(x0, y0, rows, n - 1);
        lemma_blit_rows_frame(m, x0, y0, rows, n - 1);
        lemma_blank_row_zeroes(prev, x0, y0 + (n - 1), rows[n - 1], rows[n - 1].len() as int);
        assert forall|dy: int, dx: int, k: int|
            0 <= dy < n && 0 <= dx < CHAR_RASTER_WIDTH && 0 <= k < m.info.bytes_per_pixel
            implies m.blit_rows(x0, y0, rows, n).fb[#[trigger] pixel_byte(
            m.info,
            x0 + dx,
            y0 + dy,
            k,
        )] == 0u8 by {
            lemma_pixel_off_in_bounds(
                x0 + dx,
                y0 + dy,
                m.info.width as int,
                m.info.height as int,
                m.info.stride as int,
                m.info.bytes_per_pixel as int,
            );
        }
    }
}

/// On one line, every printed glyph advances the cursor x by exactly the
/// glyph width plus the letter spacing — a strictly positive step — and the
/// cursor y does not move, as long as no wrap is triggered.  Applying the
/// law to each prefix of `cs` gives the per-glyph step.
pub proof fn lemma_glyph_run_advances(m: ScreenModel, cs: Seq<char>)
    requires
        m.wf(),
        forall|i: int| 0 <= i < cs.len() ==> !(cs[i] == '\t' || cs[i] == '\n' || cs[i] == '\r'),
        m.x + (CHAR_RASTER_WIDTH + LETTER_SPACING) * cs.len() < m.info.width + LETTER_SPACING,
        m.y + CHAR_RASTER_HEIGHT + BORDER_PADDING < m.info.height,
    ensures
        m.write_str_model(cs).x == m.x + (CHAR_RASTER_WIDTH + LETTER_SPACING) * cs.len(),
        m.write_str_model(cs).y == m.y,
        m.write_str_model(cs).info == m.info,
    decreases cs.len(),
{
    if cs.len() > 0 {
        let head = cs.drop_last();
        assert((CHAR_RASTER_WIDTH + LETTER_SPACING) * head.len() + (CHAR_RASTER_WIDTH
            + LETTER_SPACING) == (CHAR_RASTER_WIDTH + LETTER_SPACING) * cs.len())
            by (nonlinear_arith)
            requires head.len() + 1 == cs.len(),
        ;
        lemma_glyph_run_advances(m, head);
        let p = m.write_str_model(head);
        let rows = glyph_seq(cs.last());
        lemma_blit_rows_frame(p, p.x, p.y, rows, rows.len() as int);
    }
}

/// A glyph whose right edge would reach the screen edge triggers exactly one
/// newline transition before it is rendered: the glyph lands at the
/// post-wrap cursor position — the left margin of the next line — not at the
/// pre-wrap one.
pub proof fn lemma_wrap_then_render(m: ScreenModel, c: char)
    requires
        m.wf(),
        !(c == '\t' || c == '\n' || c == '\r'),
        m.x + CHAR_RASTER_WIDTH >= m.info.width,
        m.y + 2 * CHAR_RASTER_HEIGHT + LINE_SPACING + BORDER_PADDING < m.info.height,
    ensures
        m.write_char_model(c) == m.after_newline().blit_glyph(
            glyph_seq(c),
            CHAR_RASTER_WIDTH as int,
        ),
        m.write_char_model(c).y == m.y + CHAR_RASTER_HEIGHT + LINE_SPACING,
        m.write_char_model(c).x == BORDER_PADDING + CHAR_RASTER_WIDTH + LETTER_SPACING,
{
    let rows = glyph_seq(c);
    let m1 = m.after_newline();
    lemma_blit_rows_frame(m1, m1.x, m1.y, rows, rows.len() as int);
}

/// Backspace directly after printing a glyph restores the cursor to the
/// position the glyph was printed at and zeroes every byte of that glyph
/// cell's footprint.
pub proof fn lemma_backspace_undoes_print(m: ScreenModel, c: char)
    requires
        m.wf(),
        !(c == '\t' || c == '\n' || c == '\r'),
        m.x + CHAR_RASTER_WIDTH < m.info.width,
        m.y + CHAR_RASTER_HEIGHT + BORDER_PADDING < m.info.height,
    ensures
        m.write_char_model(c).backspace_model().x == m.x,
        m.write_char_model(c).backspace_model().y == m.y,
        forall|dy: int, dx: int, k: int|
            0 <= dy < CHAR_RASTER_HEIGHT && 0 <= dx < CHAR_RASTER_WIDTH && 0 <= k
                < m.info.bytes_per_pixel ==> m.write_char_model(c).backspace_model().fb[
                #[trigger] pixel_byte(m.info, m.x + dx, m.y + dy, k)] == 0u8,
{
    let rows = glyph_seq(c);
    let p = m.write_char_model(c);
    lemma_blit_rows_frame(m, m.x, m.y, rows, rows.len() as int);
    assert(p.x == m.x + CHAR_RASTER_WIDTH + LETTER_SPACING && p.y == m.y && p.info == m.info
        && p.fb.len() == m.fb.len());
    let moved = p.cursor_left_model();
    assert(moved.x == m.x && moved.y == m.y);
    lemma_blank_rows_zero(moved, m.x, m.y, blank_glyph_rows(), CHAR_RASTER_HEIGHT as int);
    lemma_blit_rows_frame(moved, m.x, m.y, blank_glyph_rows(), CHAR_RASTER_HEIGHT as int);
}

/// Backspace at the padded top-left corner — and anywhere on the first line
/// at or left of the margin — changes nothing: the cursor never moves up or
/// left of the border.
pub proof fn lemma_backspace_at_origin_is_noop(m: ScreenModel)
    requires
        m.x <= BORDER_PADDING,
        m.y < CHAR_RASTER_HEIGHT + LINE_SPACING + BORDER_PADDING,
    ensures
        m.backspace_model() == m,
{
}

/// Printing a glyph when the cursor has reached the bottom margin first
/// zeroes the entire framebuffer and resets the cursor to the padded
/// top-left corner; only then is the glyph rendered, at that corner.
pub proof fn lemma_bottom_clear(m: ScreenModel, c: char)
    requires
        m.wf(),
        !(c == '\t' || c == '\n' || c == '\r'),
        (if m.x + CHAR_RASTER_WIDTH >= m.info.width {
            m.y + CHAR_RASTER_HEIGHT + LINE_SPACING
        } else {
            m.y
        }) + CHAR_RASTER_HEIGHT + BORDER_PADDING >= m.info.height,
    ensures
        m.write_char_model(c) == (if m.x + CHAR_RASTER_WIDTH >= m.info.width {
            m.after_newline()
        } else {
            m
        }).cleared().blit_glyph(glyph_seq(c), CHAR_RASTER_WIDTH as int),
        (if m.x + CHAR_RASTER_WIDTH >= m.info.width {
            m.after_newline()
        } else {
            m
        }).cleared().fb == Seq::new(m.fb.len(), |i: int| 0u8),
        m.write_char_model(c).y == BORDER_PADDING as int,
        m.write_char_model(c).x == BORDER_PADDING + CHAR_RASTER_WIDTH + LETTER_SPACING,
{
    let m1 = if m.x + CHAR_RASTER_WIDTH >= m.info.width {
        m.after_newline()
    } else {
        m
    };
    let m2 = m1.cleared();
    let rows = glyph_seq(c);
    lemma_blit_rows_frame(m2, m2.x, m2.y, rows, rows.len() as int);
}

/// On one line, the cursor x strictly increases, glyph by glyph: after any
/// prefix of the run it stands exactly `glyph_width + letter_spacing` per
/// printed glyph further right, so each glyph moves it by that positive
/// step.
pub proof fn lemma_glyph_run_strictly_increases(m: ScreenModel, cs: Seq<char>)
    requires
        m.wf(),
        forall|i: int| 0 <= i < cs.len() ==> !(cs[i] == '\t' || cs[i] == '\n' || cs[i] == '\r'),
        m.x + (CHAR_RASTER_WIDTH + LETTER_SPACING) * cs.len() < m.info.width + LETTER_SPACING,
        m.y + CHAR_RASTER_HEIGHT + BORDER_PADDING < m.info.height,
    ensures
        forall|i: int|
            0 <= i <= cs.len() ==> (#[trigger] m.write_str_model(cs.subrange(0, i))).x == m.x
                + (CHAR_RASTER_WIDTH + LETTER_SPACING) * i,
        CHAR_RASTER_WIDTH + LETTER_SPACING > 0,
{
    assert forall|i: int|
        0 <= i <= cs.len() implies (#[trigger] m.write_str_model(cs.subrange(0, i))).x == m.x
        + (CHAR_RASTER_WIDTH + LETTER_SPACING) * i by {
        let prefix = cs.subrange(0, i);
        assert((CHAR_RASTER_WIDTH + LETTER_SPACING) * i <= (CHAR_RASTER_WIDTH + LETTER_SPACING)
            * cs.len()) by (nonlinear_arith)
            requires 0 <= i <= cs.len(),
        ;
        lemma_glyph_run_advances(m, prefix);
    }
}

} // verus!
