//! Glyph addressing within a font atlas.
//!
//! A font atlas is a texture holding a grid of glyph images; decoding the
//! atlas description and measuring glyphs is the embedding application's
//! business. This module holds the address of one glyph within the grid.

use vstd::prelude::*;

verus! {

/// The row and column of one glyph's cell in the atlas grid.
#[derive(Clone, Copy, Debug, PartialEq, Eq, Structural)]
pub struct Address {
    pub row: usize,
    pub column: usize,
}

} // verus!
