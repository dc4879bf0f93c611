//! A text console for a raw, memory-mapped pixel framebuffer.
//!
//! The library rasterizes characters through a bitmap font, converts glyph
//! intensities into pixel bytes according to the framebuffer's pixel format,
//! and keeps a cursor that wraps at the right edge and clears the screen when
//! the bottom margin is reached.  A small guarded layer models the
//! interrupt-safe singleton discipline: the one console instance sits behind a
//! non-reentrant lock, and every critical section runs with interrupt
//! delivery suppressed so that an interrupt handler can never spin on a lock
//! its own arrival keeps held.

use vstd::prelude::*;

pub mod pixel;
pub mod console;
pub mod font;
pub mod laws;
pub mod writer;

verus! {

/// Extra vertical space between lines of text, in pixels.
pub const LINE_SPACING: usize = 2;

/// Extra horizontal space between glyphs, in pixels.
pub const LETTER_SPACING: usize = 0;

/// Horizontal advance of a tab character, in pixels.
pub const TAB_SPACING: usize = 30;

/// Padding kept between the text and every screen border, in pixels.
pub const BORDER_PADDING: usize = 5;

} // verus!