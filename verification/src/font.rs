//! Glyph rasterization: resolving a character to a fixed-size monochrome
//! bitmap, with a fallback glyph for characters the font does not cover.

use vstd::prelude::*;

verus! {

/// Height in pixel rows of every rasterized glyph.
pub const CHAR_RASTER_HEIGHT: usize = 16;

/// Width in pixel columns of every rasterized glyph (the font is monospace).
pub const CHAR_RASTER_WIDTH: usize = 7;

/// The glyph substituted for characters the font does not cover.
pub const BACKUP_CHAR: char = '\u{FFFD}';

/// A rasterized glyph: a grid of intensity bytes, one row per pixel line,
/// plus the declared pixel width of the glyph.
pub struct Glyph {
    /// Horizontal advance of the glyph in pixels; every row has this length.
    pub width: usize,
    /// `CHAR_RASTER_HEIGHT` rows of `width` intensity bytes each.
    pub rows: Vec<Vec<u8>>,
}

impl View for Glyph {
    type V = Seq<Seq<u8>>;

    open spec fn view(&self) -> Seq<Seq<u8>> {
        self.rows@.map_values(|r: Vec<u8>| r@)
    }
}

impl Glyph {
    /// A well-formed glyph has the fixed raster height, the fixed monospace
    /// width, and one intensity byte per pixel of each row.
    pub open spec fn wf(self) -> bool {
        &&& self.rows@.len() == CHAR_RASTER_HEIGHT
        &&& self.width == CHAR_RASTER_WIDTH
        &&& forall|i: int|
            0 <= i < self.rows@.len() ==> (#[trigger] self.rows@[i])@.len() == self.width
    }
}

/// The bitmap the font supplies for `c`: its rows of intensity bytes when the
/// font covers `c`, and the empty sequence when it does not.
pub uninterp spec fn noto_raster(c: char) -> Seq<Seq<u8>>;

/// Whether the font has a glyph for `c`.
pub open spec fn covered(c: char) -> bool {
    noto_raster(c).len() == CHAR_RASTER_HEIGHT
}

/// The rows actually rendered for `c`: its own bitmap when covered, the
/// fallback glyph's bitmap otherwise.
pub open spec fn glyph_seq(c: char) -> Seq<Seq<u8>> {
    if covered(c) {
        noto_raster(c)
    } else {
        noto_raster(BACKUP_CHAR)
    }
}

/// Relies on noto_sans_mono_bitmap::get_raster at regular weight and
/// 16-pixel raster height: for a covered code point it returns that code
/// point's fixed bitmap with exactly `CHAR_RASTER_HEIGHT` rows, every row
/// `CHAR_RASTER_WIDTH` bytes wide (the font is monospace), and for an
/// uncovered code point it returns nothing.
#[verifier::external_body]
fn raster_lookup(c: char) -> (r: Option<Glyph>)
    ensures
        match r {
            Some(g) => g.wf() && g@ == noto_raster(c),
            None => noto_raster(c).len() == 0,
        },
{
    noto_sans_mono_bitmap::get_raster(
        c,
        noto_sans_mono_bitmap::FontWeight::Regular,
        noto_sans_mono_bitmap::RasterHeight::Size16,
    ).map(|rc| Glyph {
        width: rc.width(),
        rows: rc.raster().iter().map(|row| row.to_vec()).collect(),
    })
}

/// Whether the fallback glyph itself is available, as every print path
/// assumes; a font configuration without it cannot render arbitrary text.
pub fn fallback_ready() -> (b: bool)
    ensures
        b == covered(BACKUP_CHAR),
{
    raster_lookup(BACKUP_CHAR).is_some()
}

/// The raster of `c`, or of [`BACKUP_CHAR`] when the font does not cover
/// `c`; `None` only when even the fallback glyph is missing.
pub fn try_get_char_raster(c: char) -> (r: Option<Glyph>)
    ensures
        match r {
            Some(g) => g.wf() && g@ == glyph_seq(c),
            None => !covered(c) && !covered(BACKUP_CHAR),
        },
{
    match raster_lookup(c) {
        Some(g) => Some(g),
        None => raster_lookup(BACKUP_CHAR),
    }
}

/// The raster of `c`, substituting the fallback glyph when the font does not
/// cover `c`.  The fallback itself must be present.
pub fn get_char_raster(c: char) -> (g: Glyph)
    requires
        covered(c) || covered(BACKUP_CHAR),
    ensures
        g.wf(),
        g@ == glyph_seq(c),
{
    match raster_lookup(c) {
        Some(g) => g,
        None => match raster_lookup(BACKUP_CHAR) {
            Some(g) => g,
            None => vstd::pervasive::unreached(),
        },
    }
}

} // verus!
