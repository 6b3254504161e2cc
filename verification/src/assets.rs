//! The sprite sheets the display draws from.

use vstd::prelude::*;

verus! {

/// Number of sprite sheets.
pub const ASSET_COUNT: u8 = 3;

/// Glyph that selects a blank cell of a font.
pub const GLYPH_SPACE: u8 = 0x20;

/// Glyph of the digit zero; the other digits follow it.
pub const GLYPH_ZERO: u8 = 0x30;

/// The glyphs of a font sheet, in the order of its cells.
pub const FONT_GLYPHS: [u8; 11] = [0x20, 0x30, 0x31, 0x32, 0x33, 0x34, 0x35, 0x36, 0x37, 0x38, 0x39];

/// A sprite sheet: the full-screen background or one of the two digit fonts.
#[derive(Clone, Copy, PartialEq, Eq, Debug)]
pub enum Asset {
    Background,
    FontSmall,
    FontLarge,
}

impl Asset {
    /// Identifier under which the display knows the sheet.
    pub open spec fn id(self) -> int {
        match self {
            Asset::Background => 0,
            Asset::FontSmall => 1,
            Asset::FontLarge => 2,
        }
    }

    /// Width in pixels of one cell of the sheet.
    pub open spec fn cell_width(self) -> int {
        match self {
            Asset::Background => 128,
            Asset::FontSmall => 10,
            Asset::FontLarge => 36,
        }
    }

    /// Height in pixels of one cell of the sheet.
    pub open spec fn cell_height(self) -> int {
        match self {
            Asset::Background => 64,
            Asset::FontSmall => 16,
            Asset::FontLarge => 32,
        }
    }

    /// Number of cells of the sheet.
    pub open spec fn cells(self) -> int {
        match self {
            Asset::Background => 2,
            Asset::FontSmall => 11,
            Asset::FontLarge => 11,
        }
    }

    /// Whether the sheet holds a cell for `glyph`: the background is indexed
    /// by position, a font by space and the ten digits.
    pub open spec fn holds(self, glyph: u8) -> bool {
        match self {
            Asset::Background => glyph < 2,
            Asset::FontSmall | Asset::FontLarge => glyph == GLYPH_SPACE || (GLYPH_ZERO <= glyph
                <= GLYPH_ZERO + 9),
        }
    }

    /// Identifier under which the display knows the sheet.
    pub fn sprite_id(self) -> (id: u8)
        ensures
            id == self.id(),
            id < ASSET_COUNT,
    {
        match self {
            Asset::Background => 0,
            Asset::FontSmall => 1,
            Asset::FontLarge => 2,
        }
    }

    /// The sheet known under `id`, if there is one.
    pub fn from_sprite_id(id: u8) -> (asset: Option<Asset>)
        ensures
            match asset {
                Some(found) => found.id() == id,
                None => id >= ASSET_COUNT,
            },
    {
        match id {
            0 => Some(Asset::Background),
            1 => Some(Asset::FontSmall),
            2 => Some(Asset::FontLarge),
            _ => None,
        }
    }

    /// Width in pixels of one cell of the sheet.
    pub fn width(self) -> (width: u8)
        ensures
            width == self.cell_width(),
    {
        match self {
            Asset::Background => 128,
            Asset::FontSmall => 10,
            Asset::FontLarge => 36,
        }
    }

    /// Height in pixels of one cell of the sheet.
    pub fn height(self) -> (height: u8)
        ensures
            height == self.cell_height(),
    {
        match self {
            Asset::Background => 64,
            Asset::FontSmall => 16,
            Asset::FontLarge => 32,
        }
    }

    /// Number of cells of the sheet.
    pub fn glyph_count(self) -> (count: usize)
        ensures
            count == self.cells(),
    {
        match self {
            Asset::Background => 2,
            Asset::FontSmall => 11,
            Asset::FontLarge => 11,
        }
    }

    /// Whether the sheet holds a cell for `glyph`.
    pub fn has_glyph(self, glyph: u8) -> (held: bool)
        ensures
            held == self.holds(glyph),
    {
        match self {
            Asset::Background => glyph < 2,
            _ => glyph == GLYPH_SPACE || (GLYPH_ZERO <= glyph && glyph <= GLYPH_ZERO + 9),
        }
    }
}

impl From<Asset> for u8 {
    fn from(asset: Asset) -> (id: u8) {
        asset.sprite_id()
    }
}

impl vstd::std_specs::convert::FromSpecImpl<Asset> for u8 {
    open spec fn obeys_from_spec() -> bool {
        true
    }

    open spec fn from_spec(asset: Asset) -> u8 {
        asset.id() as u8
    }
}

/// Distinct sheets have distinct identifiers, and looking a sheet up by its
/// identifier finds it again.
pub proof fn lemma_sprite_ids_distinct(first: Asset, second: Asset)
    ensures
        first.id() == second.id() <==> first == second,
        0 <= first.id() < ASSET_COUNT,
{
}

/// A font holds exactly the glyphs listed in [`FONT_GLYPHS`], one cell each.
pub proof fn lemma_font_glyphs(glyph: u8)
    ensures
        Asset::FontSmall.holds(glyph) <==> FONT_GLYPHS@.contains(glyph),
        Asset::FontLarge.holds(glyph) <==> FONT_GLYPHS@.contains(glyph),
        FONT_GLYPHS@.len() == Asset::FontSmall.cells(),
        FONT_GLYPHS@.len() == Asset::FontLarge.cells(),
{
    let glyphs = FONT_GLYPHS@;
    if Asset::FontSmall.holds(glyph) {
        let index: int = if glyph == GLYPH_SPACE { 0 } else { glyph - GLYPH_ZERO + 1 };
        assert(glyphs[index] == glyph);
    }
}

} // verus!
