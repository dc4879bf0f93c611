//! The framebuffer writer: cursor layout, pixel blitting and screen
//! clearing, specified against a mathematical model of the screen.

use vstd::prelude::*;

use crate::font::{
    covered, glyph_seq, get_char_raster, Glyph, BACKUP_CHAR, CHAR_RASTER_HEIGHT,
    CHAR_RASTER_WIDTH,
};
use crate::pixel::{color_byte, FbInfo, PixelFormat};
use crate::{BORDER_PADDING, LETTER_SPACING, LINE_SPACING, TAB_SPACING};

verus! {

/// The mathematical model of the console: the framebuffer bytes, the
/// geometry, and the cursor position in pixels.
pub struct ScreenModel {
    /// The framebuffer contents.
    pub fb: Seq<u8>,
    /// The boot-supplied geometry.
    pub info: FbInfo,
    /// Cursor x in pixels.
    pub x: int,
    /// Cursor y in pixels.
    pub y: int,
}

/// The geometry invariant: every addressed byte lies inside the buffer, a
/// pixel takes between one and four bytes, and the screen has room for at
/// least one padded glyph.
pub open spec fn wf_info(info: FbInfo, fb_len: nat) -> bool {
    &&& 1 <= info.bytes_per_pixel <= 4
    &&& info.width <= info.stride
    &&& info.height * info.stride * info.bytes_per_pixel <= fb_len
    &&& BORDER_PADDING + CHAR_RASTER_WIDTH <= info.width
    &&& BORDER_PADDING + CHAR_RASTER_HEIGHT <= info.height
}

/// First byte of the pixel at `(x, y)`.
pub open spec fn pixel_off(info: FbInfo, x: int, y: int) -> int {
    (y * info.stride + x) * info.bytes_per_pixel
}

/// The `k`-th byte of the pixel at `(x, y)`.
pub open spec fn pixel_byte(info: FbInfo, x: int, y: int, k: int) -> int {
    pixel_off(info, x, y) + k
}

impl ScreenModel {
    /// Well-formedness of a reachable console state.
    pub open spec fn wf(self) -> bool {
        &&& wf_info(self.info, self.fb.len())
        &&& 0 <= self.x
        &&& 0 <= self.y
    }

    /// The bytes of the pixel at `(x, y)` replaced by the color derived from
    /// `intensity` under the pixel format; everything else untouched.
    pub open spec fn write_pixel(self, x: int, y: int, intensity: u8) -> ScreenModel {
        let off = pixel_off(self.info, x, y);
        ScreenModel {
            fb: Seq::new(
                self.fb.len(),
                |i: int|
                    if off <= i < off + self.info.bytes_per_pixel {
                        color_byte(self.info.pixel_format, intensity, i - off)
                    } else {
                        self.fb[i]
                    },
            ),
            ..self
        }
    }

    /// The first `n` bytes of `row` blitted at `(x0 + 0 .. x0 + n, y)`, in
    /// increasing column order.
    pub open spec fn blit_row(self, x0: int, y: int, row: Seq<u8>, n: int) -> ScreenModel
        decreases n,
    {
        if n <= 0 {
            self
        } else {
            self.blit_row(x0, y, row, n - 1).write_pixel(x0 + (n - 1), y, row[n - 1])
        }
    }

    /// The first `n` rows of `rows` blitted with their top-left pixel at
    /// `(x0, y0)`, in increasing row order.
    pub open spec fn blit_rows(self, x0: int, y0: int, rows: Seq<Seq<u8>>, n: int) -> ScreenModel
        decreases n,
    {
        if n <= 0 {
            self
        } else {
            self.blit_rows(x0, y0, rows, n - 1).blit_row(
                x0,
                y0 + (n - 1),
                rows[n - 1],
                rows[n - 1].len() as int,
            )
        }
    }

    /// A glyph bitmap blitted at the cursor, then the cursor advanced by the
    /// glyph width plus the letter spacing.
    pub open spec fn blit_glyph(self, rows: Seq<Seq<u8>>, glyph_width: int) -> ScreenModel {
        let m = self.blit_rows(self.x, self.y, rows, rows.len() as int);
        ScreenModel { x: m.x + glyph_width + LETTER_SPACING, ..m }
    }

    /// Every byte zeroed and the cursor reset to the padded top-left corner.
    pub open spec fn cleared(self) -> ScreenModel {
        ScreenModel {
            fb: Seq::new(self.fb.len(), |i: int| 0u8),
            x: BORDER_PADDING as int,
            y: BORDER_PADDING as int,
            ..self
        }
    }

    /// The newline transition: one line height down, back to the left margin.
    pub open spec fn after_newline(self) -> ScreenModel {
        ScreenModel {
            x: BORDER_PADDING as int,
            y: self.y + CHAR_RASTER_HEIGHT + LINE_SPACING,
            ..self
        }
    }

    /// Printing one glyph: wrap first if its right edge would reach the
    /// screen edge, clear the whole screen if the bottom margin is reached,
    /// then blit and advance.
    pub open spec fn print_glyph(self, rows: Seq<Seq<u8>>, glyph_width: int) -> ScreenModel {
        let m1 = if self.x + CHAR_RASTER_WIDTH >= self.info.width {
            self.after_newline()
        } else {
            self
        };
        let m2 = if m1.y + CHAR_RASTER_HEIGHT + BORDER_PADDING >= m1.info.height {
            m1.cleared()
        } else {
            m1
        };
        m2.blit_glyph(rows, glyph_width)
    }

    /// One character: tab, newline and carriage return move the cursor; any
    /// other character prints its glyph (or the fallback glyph).
    pub open spec fn write_char_model(self, c: char) -> ScreenModel {
        if c == '\t' {
            ScreenModel { x: self.x + TAB_SPACING, ..self }
        } else if c == '\n' {
            self.after_newline()
        } else if c == '\r' {
            ScreenModel { x: BORDER_PADDING as int, ..self }
        } else {
            self.print_glyph(glyph_seq(c), CHAR_RASTER_WIDTH as int)
        }
    }

    /// A whole string, character by character.
    pub open spec fn write_str_model(self, s: Seq<char>) -> ScreenModel
        decreases s.len(),
    {
        if s.len() == 0 {
            self
        } else {
            self.write_str_model(s.drop_last()).write_char_model(s.last())
        }
    }

    /// The cursor-right transition: one cell forward, or the newline
    /// transition at the end of the line.
    pub open spec fn cursor_right_model(self) -> ScreenModel {
        if self.x + CHAR_RASTER_WIDTH + LETTER_SPACING < self.info.width {
            ScreenModel { x: self.x + CHAR_RASTER_WIDTH + LETTER_SPACING, ..self }
        } else {
            self.after_newline()
        }
    }

    /// The cursor-up transition: one line height up, or nothing at the top.
    pub open spec fn cursor_up_model(self) -> ScreenModel {
        if self.y >= CHAR_RASTER_HEIGHT + LINE_SPACING + BORDER_PADDING {
            ScreenModel { y: self.y - (CHAR_RASTER_HEIGHT + LINE_SPACING), ..self }
        } else {
            self
        }
    }

    /// The cursor-down transition: one line height down, or nothing at the
    /// bottom.
    pub open spec fn cursor_down_model(self) -> ScreenModel {
        if self.y + CHAR_RASTER_HEIGHT + LINE_SPACING < self.info.height {
            ScreenModel { y: self.y + CHAR_RASTER_HEIGHT + LINE_SPACING, ..self }
        } else {
            self
        }
    }

    /// The cursor-left transition: one cell back, or up to the previous
    /// line's right edge, or nothing at the padded top-left corner.
    pub open spec fn cursor_left_model(self) -> ScreenModel {
        if self.x > BORDER_PADDING {
            ScreenModel { x: self.x - CHAR_RASTER_WIDTH, ..self }
        } else if self.y >= CHAR_RASTER_HEIGHT + LINE_SPACING + BORDER_PADDING {
            ScreenModel {
                x: self.info.width - (CHAR_RASTER_WIDTH + LETTER_SPACING),
                y: self.y - (CHAR_RASTER_HEIGHT + LINE_SPACING),
                ..self
            }
        } else {
            self
        }
    }

    /// The backspace transition: move as cursor-left does, then blank the
    /// glyph cell at the new position; nothing at the padded top-left corner.
    pub open spec fn backspace_model(self) -> ScreenModel {
        if self.x <= BORDER_PADDING && self.y < CHAR_RASTER_HEIGHT + LINE_SPACING
            + BORDER_PADDING {
            self
        } else {
            let m = self.cursor_left_model();
            m.blit_rows(m.x, m.y, blank_glyph_rows(), CHAR_RASTER_HEIGHT as int)
        }
    }
}

/// A glyph-sized grid of zero intensities, as backspace paints it.
pub open spec fn blank_glyph_rows() -> Seq<Seq<u8>> {
    Seq::new(
        CHAR_RASTER_HEIGHT as nat,
        |i: int| Seq::new(CHAR_RASTER_WIDTH as nat, |j: int| 0u8),
    )
}

/// Renders text onto a pixel framebuffer and keeps the cursor.
pub struct FrameBufferWriter {
    framebuffer: Vec<u8>,
    info: FbInfo,
    x_pos: usize,
    y_pos: usize,
}

impl View for FrameBufferWriter {
    type V = ScreenModel;

    closed spec fn view(&self) -> ScreenModel {
        ScreenModel {
            fb: self.framebuffer@,
            info: self.info,
            x: self.x_pos as int,
            y: self.y_pos as int,
        }
    }
}

impl FrameBufferWriter {
    /// A writer over the given buffer and geometry, with the screen cleared
    /// and the cursor at the padded top-left corner.
    pub fn new_(framebuffer: Vec<u8>, info: FbInfo) -> (w: FrameBufferWriter)
        requires
            wf_info(info, framebuffer@.len()),
        ensures
            w@ == (ScreenModel { fb: framebuffer@, info, x: 0, y: 0 }).cleared(),
            w@.wf(),
    {
        let mut w = FrameBufferWriter { framebuffer, info, x_pos: 0, y_pos: 0 };
        w.clear();
        w
    }

    /// The cursor x position in pixels.
    pub fn x_pos(&self) -> (x: usize)
        ensures
            x == self@.x,
    {
        self.x_pos
    }

    /// The cursor y position in pixels.
    pub fn y_pos(&self) -> (y: usize)
        ensures
            y == self@.y,
    {
        self.y_pos
    }

    /// The geometry the writer was created over.
    pub fn info(&self) -> (info: FbInfo)
        ensures
            info == self@.info,
    {
        self.info
    }

    /// The byte of framebuffer memory at `index`.
    pub fn read_byte(&self, index: usize) -> (b: u8)
        requires
            index < self@.fb.len(),
        ensures
            b == self@.fb[index as int],
    {
        self.framebuffer[index]
    }

    /// The length of the framebuffer memory in bytes.
    pub fn buffer_len(&self) -> (n: usize)
        ensures
            n == self@.fb.len(),
    {
        self.framebuffer.len()
    }

    /// Moves the cursor to the pixel row `y`.
    pub fn set_y_pos(&mut self, y: usize)
        ensures
            final(self)@ == (ScreenModel { y: y as int, ..old(self)@ }),
    {
        self.y_pos = y;
    }

    /// Moves the cursor to the pixel column `x`.
    pub fn set_x_pos(&mut self, x: usize)
        ensures
            final(self)@ == (ScreenModel { x: x as int, ..old(self)@ }),
    {
        self.x_pos = x;
    }

    /// Erases all text: zeroes every byte of the framebuffer and resets the
    /// cursor to the padded top-left corner.
    pub fn clear(&mut self)
        ensures
            final(self)@ == old(self)@.cleared(),
    {
        self.x_pos = BORDER_PADDING;
        self.y_pos = BORDER_PADDING;
        let n = self.framebuffer.len();
        let mut i: usize = 0;
        while i < n
            invariant
                n == self.framebuffer.len(),
                i <= n,
                self.info == old(self).info,
                self.x_pos == BORDER_PADDING,
                self.y_pos == BORDER_PADDING,
                forall|j: int| 0 <= j < i ==> self.framebuffer@[j] == 0u8,
            decreases n - i,
        {
            self.framebuffer.set(i, 0);
            i = i + 1;
        }
        proof {
            assert(self@.fb =~= old(self)@.cleared().fb);
            assert(self@ =~= old(self)@.cleared());
        }
    }

    /// Writes one pixel: the color derived from `intensity` under the pixel
    /// format lands at the byte offset `(y * stride + x) * bytes_per_pixel`;
    /// no other byte changes.
    pub fn write_pixel(&mut self, x: usize, y: usize, intensity: u8)
        requires
            old(self)@.wf(),
            old(self)@.info.pixel_format.is_supported(),
            x < old(self)@.info.width,
            y < old(self)@.info.height,
        ensures
            final(self)@ == old(self)@.write_pixel(x as int, y as int, intensity),
    {
        let buffer_len = self.framebuffer.len();
        proof {
            lemma_pixel_off_in_bounds(
                x as int,
                y as int,
                self.info.width as int,
                self.info.height as int,
                self.info.stride as int,
                self.info.bytes_per_pixel as int,
            );
            assert((y * self.info.stride + x) * self.info.bytes_per_pixel
                + self.info.bytes_per_pixel <= buffer_len);
        }
        let pixel_offset = y * self.info.stride + x;
        let bytes_per_pixel = self.info.bytes_per_pixel;
        let byte_offset = pixel_offset * bytes_per_pixel;
        let (b0, b1, b2, b3): (u8, u8, u8, u8) = match self.info.pixel_format {
            PixelFormat::Rgb => (intensity, intensity, intensity / 2, 0),
            PixelFormat::Bgr => (intensity / 2, intensity, intensity, 0),
            PixelFormat::Grayscale => (
                if intensity > crate::pixel::GRAY_THRESHOLD {
                    crate::pixel::GRAY_FULL_ON
                } else {
                    0
                },
                0,
                0,
                0,
            ),
            PixelFormat::Unsupported => (0, 0, 0, 0),
        };
        self.framebuffer.set(byte_offset, b0);
        if bytes_per_pixel >= 2 {
            self.framebuffer.set(byte_offset + 1, b1);
        }
        if bytes_per_pixel >= 3 {
            self.framebuffer.set(byte_offset + 2, b2);
        }
        if bytes_per_pixel >= 4 {
            self.framebuffer.set(byte_offset + 3, b3);
        }
        proof {
            let m = old(self)@.write_pixel(x as int, y as int, intensity);
            assert(self@.fb =~= m.fb);
            assert(self@ =~= m);
        }
    }
}

impl FrameBufferWriter {
    /// The newline transition.
    fn newline(&mut self)
        requires
            old(self)@.y + CHAR_RASTER_HEIGHT + LINE_SPACING <= usize::MAX,
        ensures
            final(self)@ == old(self)@.after_newline(),
    {
        self.y_pos = self.y_pos + (CHAR_RASTER_HEIGHT + LINE_SPACING);
        self.carriage_return();
    }

    /// Back to the left margin.
    fn carriage_return(&mut self)
        ensures
            final(self)@ == (ScreenModel { x: BORDER_PADDING as int, ..old(self)@ }),
    {
        self.x_pos = BORDER_PADDING;
    }

    /// A tab: a fixed horizontal advance, without any bounds check.
    fn tab(&mut self)
        requires
            old(self)@.x + TAB_SPACING <= usize::MAX,
        ensures
            final(self)@ == (ScreenModel { x: old(self)@.x + TAB_SPACING, ..old(self)@ }),
    {
        self.x_pos = self.x_pos + TAB_SPACING;
    }

    /// Moves the cursor one glyph cell to the left; at the left margin it
    /// wraps to the previous line's right edge, and at the padded top-left
    /// corner it does nothing.
    pub fn cursor_left(&mut self)
        requires
            old(self)@.wf(),
            old(self)@.x > BORDER_PADDING ==> old(self)@.x >= CHAR_RASTER_WIDTH,
        ensures
            final(self)@ == old(self)@.cursor_left_model(),
    {
        if self.x_pos > BORDER_PADDING {
            self.x_pos = self.x_pos - CHAR_RASTER_WIDTH;
        } else {
            if self.y_pos >= CHAR_RASTER_HEIGHT + LINE_SPACING + BORDER_PADDING {
                self.x_pos = self.info.width - (CHAR_RASTER_WIDTH + LETTER_SPACING);
                self.y_pos = self.y_pos - (CHAR_RASTER_HEIGHT + LINE_SPACING);
            } else {
                return ;
            }
        }
    }

    /// Moves the cursor one glyph cell to the right; at the end of the line
    /// it performs the newline transition.
    pub fn cursor_right(&mut self)
        requires
            old(self)@.wf(),
            old(self)@.x + CHAR_RASTER_WIDTH + LETTER_SPACING <= usize::MAX,
            old(self)@.y + CHAR_RASTER_HEIGHT + LINE_SPACING <= usize::MAX,
        ensures
            final(self)@ == old(self)@.cursor_right_model(),
    {
        if self.x_pos + CHAR_RASTER_WIDTH + LETTER_SPACING < self.info.width {
            self.x_pos = self.x_pos + (CHAR_RASTER_WIDTH + LETTER_SPACING);
        } else {
            self.newline();
        }
    }

    /// Moves the cursor one line height up; at the top it does nothing.
    pub fn cursor_up(&mut self)
        ensures
            final(self)@ == old(self)@.cursor_up_model(),
    {
        if self.y_pos >= CHAR_RASTER_HEIGHT + LINE_SPACING + BORDER_PADDING {
            self.y_pos = self.y_pos - (CHAR_RASTER_HEIGHT + LINE_SPACING);
        }
    }

    /// Moves the cursor one line height down; at the bottom it does nothing.
    pub fn cursor_down(&mut self)
        requires
            old(self)@.y + CHAR_RASTER_HEIGHT + LINE_SPACING <= usize::MAX,
        ensures
            final(self)@ == old(self)@.cursor_down_model(),
    {
        if self.y_pos + (CHAR_RASTER_HEIGHT + LINE_SPACING) < self.info.height {
            self.y_pos = self.y_pos + (CHAR_RASTER_HEIGHT + LINE_SPACING);
        }
    }

    /// Blits `rows` with its top-left pixel at the cursor; the cursor does
    /// not move.
    fn blit_at_cursor(&mut self, rows: &Vec<Vec<u8>>)
        requires
            old(self)@.wf(),
            old(self)@.info.pixel_format.is_supported(),
            rows@.len() == CHAR_RASTER_HEIGHT,
            forall|i: int|
                0 <= i < rows@.len() ==> (#[trigger] rows@[i])@.len() == CHAR_RASTER_WIDTH,
            old(self)@.x + CHAR_RASTER_WIDTH <= old(self)@.info.width,
            old(self)@.y + CHAR_RASTER_HEIGHT <= old(self)@.info.height,
        ensures
            final(self)@ == old(self)@.blit_rows(
                old(self)@.x,
                old(self)@.y,
                rows@.map_values(|r: Vec<u8>| r@),
                CHAR_RASTER_HEIGHT as int,
            ),
    {
        let ghost m0 = self@;
        let ghost rv = rows@.map_values(|r: Vec<u8>| r@);
        let mut dy: usize = 0;
        while dy < CHAR_RASTER_HEIGHT
            invariant
                m0.wf(),
                m0.info.pixel_format.is_supported(),
                rows@.len() == CHAR_RASTER_HEIGHT,
                forall|i: int|
                    0 <= i < rows@.len() ==> (#[trigger] rows@[i])@.len() == CHAR_RASTER_WIDTH,
                rv == rows@.map_values(|r: Vec<u8>| r@),
                m0.x + CHAR_RASTER_WIDTH <= m0.info.width,
                m0.y + CHAR_RASTER_HEIGHT <= m0.info.height,
                dy <= CHAR_RASTER_HEIGHT,
                self@ == m0.blit_rows(m0.x, m0.y, rv, dy as int),
                self@.x == m0.x,
                self@.y == m0.y,
                self@.info == m0.info,
                self@.fb.len() == m0.fb.len(),
            decreases CHAR_RASTER_HEIGHT - dy,
        {
            let ghost mrow = self@;
            let row = &rows[dy];
            let mut dx: usize = 0;
            while dx < CHAR_RASTER_WIDTH
                invariant
                    m0.wf(),
                    m0.info.pixel_format.is_supported(),
                    row@.len() == CHAR_RASTER_WIDTH,
                    m0.x + CHAR_RASTER_WIDTH <= m0.info.width,
                    m0.y + CHAR_RASTER_HEIGHT <= m0.info.height,
                    dy < CHAR_RASTER_HEIGHT,
                    dx <= CHAR_RASTER_WIDTH,
                    self@ == mrow.blit_row(m0.x, m0.y + dy, row@, dx as int),
                    self@.x == m0.x,
                    self@.y == m0.y,
                    self@.info == m0.info,
                    self@.fb.len() == m0.fb.len(),
                decreases CHAR_RASTER_WIDTH - dx,
            {
                let b = row[dx];
                let px = self.x_pos + dx;
                let py = self.y_pos + dy;
                self.write_pixel(px, py, b);
                dx = dx + 1;
            }
            proof {
                assert(row@ == rv[dy as int]);
                assert(row@.len() as int == CHAR_RASTER_WIDTH as int);
                assert(self@ == m0.blit_rows(m0.x, m0.y, rv, dy as int + 1));
            }
            dy = dy + 1;
        }
    }

    /// Prints an already rasterized glyph at the cursor and advances the
    /// cursor by the glyph width plus the letter spacing.  The glyph cell
    /// must lie on the screen.
    pub fn write_rendered_char(&mut self, rendered_char: Glyph)
        requires
            old(self)@.wf(),
            old(self)@.info.pixel_format.is_supported(),
            rendered_char.wf(),
            old(self)@.x + CHAR_RASTER_WIDTH <= old(self)@.info.width,
            old(self)@.y + CHAR_RASTER_HEIGHT <= old(self)@.info.height,
        ensures
            final(self)@ == old(self)@.blit_glyph(rendered_char@, rendered_char.width as int),
    {
        self.blit_at_cursor(&rendered_char.rows);
        proof {
            lemma_blit_rows_frame(
                old(self)@,
                old(self)@.x,
                old(self)@.y,
                rendered_char.rows@.map_values(|r: Vec<u8>| r@),
                CHAR_RASTER_HEIGHT as int,
            );
        }
        self.x_pos = self.x_pos + (rendered_char.width + LETTER_SPACING);
    }
}

/// A freshly built glyph-sized grid of zero intensities.
fn blank_cell_rows() -> (rows: Vec<Vec<u8>>)
    ensures
        rows@.len() == CHAR_RASTER_HEIGHT,
        forall|i: int| 0 <= i < rows@.len() ==> (#[trigger] rows@[i])@.len() == CHAR_RASTER_WIDTH,
        rows@.map_values(|r: Vec<u8>| r@) == blank_glyph_rows(),
{
    let mut rows: Vec<Vec<u8>> = Vec::new();
    let mut i: usize = 0;
    while i < CHAR_RASTER_HEIGHT
        invariant
            i <= CHAR_RASTER_HEIGHT,
            rows@.len() == i,
            forall|k: int| 0 <= k < i ==> (#[trigger] rows@[k])@ == blank_glyph_rows()[k],
        decreases CHAR_RASTER_HEIGHT - i,
    {
        let mut row: Vec<u8> = Vec::new();
        let mut j: usize = 0;
        while j < CHAR_RASTER_WIDTH
            invariant
                j <= CHAR_RASTER_WIDTH,
                row@.len() == j,
                forall|k: int| 0 <= k < j ==> row@[k] == 0u8,
            decreases CHAR_RASTER_WIDTH - j,
        {
            row.push(0);
            j = j + 1;
        }
        proof {
            assert(row@ =~= Seq::new(CHAR_RASTER_WIDTH as nat, |k: int| 0u8));
        }
        rows.push(row);
        i = i + 1;
    }
    proof {
        assert(rows@.map_values(|r: Vec<u8>| r@) =~= blank_glyph_rows());
    }
    rows
}

impl FrameBufferWriter {
    /// Moves the cursor one glyph cell back — wrapping to the previous
    /// line's right edge at the left margin — and blanks the glyph cell at
    /// the new position; at the padded top-left corner it does nothing.
    pub fn backspace(&mut self)
        requires
            old(self)@.wf(),
            old(self)@.x > BORDER_PADDING || old(self)@.y >= CHAR_RASTER_HEIGHT + LINE_SPACING
                + BORDER_PADDING ==> old(self)@.info.pixel_format.is_supported(),
            old(self)@.x > BORDER_PADDING ==> CHAR_RASTER_WIDTH <= old(self)@.x
                && old(self)@.x <= old(self)@.info.width
                && old(self)@.y + CHAR_RASTER_HEIGHT <= old(self)@.info.height,
            old(self)@.x <= BORDER_PADDING && old(self)@.y >= CHAR_RASTER_HEIGHT + LINE_SPACING
                + BORDER_PADDING ==> old(self)@.y <= old(self)@.info.height + LINE_SPACING,
        ensures
            final(self)@ == old(self)@.backspace_model(),
    {
        if self.x_pos > BORDER_PADDING {
            self.x_pos = self.x_pos - CHAR_RASTER_WIDTH;
        } else {
            if self.y_pos >= CHAR_RASTER_HEIGHT + LINE_SPACING + BORDER_PADDING {
                self.x_pos = self.info.width - (CHAR_RASTER_WIDTH + LETTER_SPACING);
                self.y_pos = self.y_pos - (CHAR_RASTER_HEIGHT + LINE_SPACING);
            } else {
                return ;
            }
        }
        let rows = blank_cell_rows();
        self.blit_at_cursor(&rows);
    }

    /// Writes one character: tab, newline and carriage return move the
    /// cursor; anything else prints a glyph, wrapping at the line end and
    /// clearing the whole screen when the bottom margin is reached.
    pub fn write_char(&mut self, c: char)
        requires
            old(self)@.wf(),
            old(self)@.info.pixel_format.is_supported(),
            !(c == '\t' || c == '\n' || c == '\r') ==> covered(c) || covered(BACKUP_CHAR),
            old(self)@.x + TAB_SPACING <= usize::MAX,
            old(self)@.y + 2 * CHAR_RASTER_HEIGHT + LINE_SPACING + BORDER_PADDING <= usize::MAX,
        ensures
            final(self)@ == old(self)@.write_char_model(c),
    {
        if c == '\t' {
            self.tab();
        } else if c == '\n' {
            self.newline();
        } else if c == '\r' {
            self.carriage_return();
        } else {
            let new_xpos = self.x_pos + CHAR_RASTER_WIDTH;
            if new_xpos >= self.info.width {
                self.newline();
            }
            let new_ypos = self.y_pos + (CHAR_RASTER_HEIGHT + BORDER_PADDING);
            if new_ypos >= self.info.height {
                self.clear();
            }
            let g = get_char_raster(c);
            self.write_rendered_char(g);
        }
    }

    /// Writes a string character by character.
    pub fn write_str(&mut self, s: &str)
        requires
            old(self)@.wf(),
            old(self)@.info.pixel_format.is_supported(),
            forall|i: int|
                0 <= i < s@.len() ==> !(s@[i] == '\t' || s@[i] == '\n' || s@[i] == '\r')
                    ==> covered(#[trigger] s@[i]) || covered(BACKUP_CHAR),
            old(self)@.x + old(self)@.info.width + TAB_SPACING * s@.len() + TAB_SPACING
                <= usize::MAX,
            old(self)@.y + old(self)@.info.height + (CHAR_RASTER_HEIGHT + LINE_SPACING) * s@.len()
                + 2 * CHAR_RASTER_HEIGHT + LINE_SPACING + BORDER_PADDING <= usize::MAX,
        ensures
            final(self)@ == old(self)@.write_str_model(s@),
            final(self)@.wf(),
    {
        let n = s.unicode_len();
        let mut i: usize = 0;
        while i < n
            invariant
                old(self)@.wf(),
                old(self)@.info.pixel_format.is_supported(),
                forall|k: int|
                    0 <= k < s@.len() ==> !(s@[k] == '\t' || s@[k] == '\n' || s@[k] == '\r')
                        ==> covered(#[trigger] s@[k]) || covered(BACKUP_CHAR),
                old(self)@.x + old(self)@.info.width + TAB_SPACING * s@.len() + TAB_SPACING
                    <= usize::MAX,
                old(self)@.y + old(self)@.info.height + (CHAR_RASTER_HEIGHT + LINE_SPACING)
                    * s@.len() + 2 * CHAR_RASTER_HEIGHT + LINE_SPACING + BORDER_PADDING
                    <= usize::MAX,
                n == s@.len(),
                i <= n,
                self@ == old(self)@.write_str_model(s@.subrange(0, i as int)),
            decreases n - i,
        {
            let ghost prefix = s@.subrange(0, i as int);
            proof {
                lemma_write_str_props(old(self)@, prefix);
                assert((CHAR_RASTER_HEIGHT + LINE_SPACING) * (i as int) + (CHAR_RASTER_HEIGHT
                    + LINE_SPACING) <= (CHAR_RASTER_HEIGHT + LINE_SPACING) * (n as int))
                    by (nonlinear_arith)
                    requires 0 <= i as int, i as int + 1 <= n as int,
                ;
                assert(TAB_SPACING * (i as int) + TAB_SPACING <= TAB_SPACING * (n as int))
                    by (nonlinear_arith)
                    requires 0 <= i as int, i as int + 1 <= n as int,
                ;
                assert(s@.subrange(0, i as int + 1).drop_last() =~= prefix);
                assert(s@.subrange(0, i as int + 1).last() == s@[i as int]);
            }
            let c = s.get_char(i);
            self.write_char(c);
            i = i + 1;
        }
        proof {
            assert(s@.subrange(0, n as int) =~= s@);
            lemma_write_str_props(old(self)@, s@);
        }
    }
}

/// One character keeps the geometry and the buffer length, keeps the state
/// well formed, and moves the cursor by bounded amounts.
pub proof fn lemma_write_char_props(m: ScreenModel, c: char)
    requires
        m.wf(),
    ensures
        m.write_char_model(c).wf(),
        m.write_char_model(c).info == m.info,
        m.write_char_model(c).fb.len() == m.fb.len(),
        m.write_char_model(c).x <= m.x + TAB_SPACING || m.write_char_model(c).x <= m.info.width
            + TAB_SPACING,
        m.write_char_model(c).y <= m.y + CHAR_RASTER_HEIGHT + LINE_SPACING
            || m.write_char_model(c).y <= m.info.height,
{
    if !(c == '\t' || c == '\n' || c == '\r') {
        let m1 = if m.x + CHAR_RASTER_WIDTH >= m.info.width {
            m.after_newline()
        } else {
            m
        };
        let m2 = if m1.y + CHAR_RASTER_HEIGHT + BORDER_PADDING >= m1.info.height {
            m1.cleared()
        } else {
            m1
        };
        let rows = glyph_seq(c);
        lemma_blit_rows_frame(m2, m2.x, m2.y, rows, rows.len() as int);
    }
}

/// A string keeps the geometry and the buffer length, keeps the state well
/// formed, and moves the cursor by amounts bounded in the string length.
pub proof fn lemma_write_str_props(m: ScreenModel, s: Seq<char>)
    requires
        m.wf(),
    ensures
        m.write_str_model(s).wf(),
        m.write_str_model(s).info == m.info,
        m.write_str_model(s).fb.len() == m.fb.len(),
        m.write_str_model(s).x <= m.x + m.info.width + TAB_SPACING * s.len(),
        m.write_str_model(s).y <= m.y + m.info.height + (CHAR_RASTER_HEIGHT + LINE_SPACING)
            * s.len(),
    decreases s.len(),
{
    if s.len() > 0 {
        lemma_write_str_props(m, s.drop_last());
        lemma_write_char_props(m.write_str_model(s.drop_last()), s.last());
    }
}

/// Blitting a row changes neither the cursor, nor the geometry, nor the
/// buffer length.
pub proof fn lemma_blit_row_frame(m: ScreenModel, x0: int, y: int, row: Seq<u8>, n: int)
    ensures
        m.blit_row(x0, y, row, n).x == m.x,
        m.blit_row(x0, y, row, n).y == m.y,
        m.blit_row(x0, y, row, n).info == m.info,
        m.blit_row(x0, y, row, n).fb.len() == m.fb.len(),
    decreases n,
{
    if n > 0 {
        lemma_blit_row_frame(m, x0, y, row, n - 1);
    }
}

/// Blitting rows changes neither the cursor, nor the geometry, nor the
/// buffer length.
pub proof fn lemma_blit_rows_frame(m: ScreenModel, x0: int, y0: int, rows: Seq<Seq<u8>>, n: int)
    ensures
        m.blit_rows(x0, y0, rows, n).x == m.x,
        m.blit_rows(x0, y0, rows, n).y == m.y,
        m.blit_rows(x0, y0, rows, n).info == m.info,
        m.blit_rows(x0, y0, rows, n).fb.len() == m.fb.len(),
    decreases n,
{
    if n > 0 {
        lemma_blit_rows_frame(m, x0, y0, rows, n - 1);
        lemma_blit_row_frame(
            m.blit_rows(x0, y0, rows, n - 1),
            x0,
            y0 + (n - 1),
            rows[n - 1],
            rows[n - 1].len() as int,
        );
    }
}

/// The byte range of an on-screen pixel lies inside the addressable region.
pub proof fn lemma_pixel_off_in_bounds(x: int, y: int, w: int, h: int, s: int, b: int)
    requires
        0 <= x < w,
        0 <= y < h,
        w <= s,
        1 <= b,
    ensures
        0 <= y * s,
        y * s <= y * s + x,
        y * s + x <= (y * s + x) * b,
        (y * s + x) * b + b <= h * s * b,
{
    assert(0 <= y * s && (y * s + x) * b + b <= h * s * b && y * s + x <= (y * s + x) * b)
        by (nonlinear_arith)
        requires
            0 <= x < w,
            0 <= y < h,
            w <= s,
            1 <= b,
    ;
}

} // verus!
