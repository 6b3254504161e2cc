use klaptik::Glyphs;
use thermostat::assets::{Asset, ASSET_COUNT, FONT_GLYPHS, GLYPH_SPACE, GLYPH_ZERO};

const ALL: [Asset; 3] = [Asset::Background, Asset::FontSmall, Asset::FontLarge];

#[test]
fn sprite_ids_are_fixed() {
    assert_eq!(Asset::Background.sprite_id(), 0);
    assert_eq!(Asset::FontSmall.sprite_id(), 1);
    assert_eq!(Asset::FontLarge.sprite_id(), 2);
    assert_eq!(ASSET_COUNT, 3);
}

#[test]
fn asset_converts_to_its_sprite_id() {
    assert_eq!(u8::from(Asset::Background), 0);
    assert_eq!(u8::from(Asset::FontSmall), 1);
    assert_eq!(u8::from(Asset::FontLarge), 2);
    let id: klaptik::SpriteId = Asset::FontLarge.into();
    assert_eq!(id, 2);
}

#[test]
fn sprite_id_finds_its_asset_again() {
    for asset in ALL {
        assert_eq!(Asset::from_sprite_id(asset.sprite_id()), Some(asset));
    }
}

#[test]
fn unknown_sprite_id_names_no_asset() {
    for id in 3..=u8::MAX {
        assert_eq!(Asset::from_sprite_id(id), None);
    }
}

#[test]
fn sheet_geometry() {
    assert_eq!((Asset::Background.width(), Asset::Background.height()), (128, 64));
    assert_eq!((Asset::FontSmall.width(), Asset::FontSmall.height()), (10, 16));
    assert_eq!((Asset::FontLarge.width(), Asset::FontLarge.height()), (36, 32));
    assert_eq!(Asset::Background.glyph_count(), 2);
    assert_eq!(Asset::FontSmall.glyph_count(), 11);
    assert_eq!(Asset::FontLarge.glyph_count(), 11);
}

#[test]
fn font_glyphs_are_space_and_digits() {
    assert_eq!(FONT_GLYPHS, *b" 0123456789");
    assert_eq!(GLYPH_SPACE, b' ');
    assert_eq!(GLYPH_ZERO, b'0');
}

#[test]
fn fonts_hold_exactly_the_listed_glyphs() {
    for glyph in 0..=u8::MAX {
        let listed = FONT_GLYPHS.contains(&glyph);
        assert_eq!(Asset::FontSmall.has_glyph(glyph), listed);
        assert_eq!(Asset::FontLarge.has_glyph(glyph), listed);
    }
}

#[test]
fn background_is_indexed_by_position() {
    assert!(Asset::Background.has_glyph(0));
    assert!(Asset::Background.has_glyph(1));
    assert!(!Asset::Background.has_glyph(2));
    assert!(!Asset::Background.has_glyph(b'0'));
}

#[test]
fn held_glyphs_are_those_the_sprite_map_can_index() {
    let font = Glyphs::Alphabet(&FONT_GLYPHS);
    let background = Glyphs::Sequential(Asset::Background.glyph_count() as u8);
    assert_eq!(font.len(), Asset::FontSmall.glyph_count());
    assert_eq!(font.len(), Asset::FontLarge.glyph_count());
    assert_eq!(background.len(), Asset::Background.glyph_count());
    for glyph in 0..=u8::MAX {
        assert_eq!(Asset::FontSmall.has_glyph(glyph), font.index(glyph).is_some());
        assert_eq!(Asset::FontLarge.has_glyph(glyph), font.index(glyph).is_some());
        assert_eq!(Asset::Background.has_glyph(glyph), background.index(glyph).is_some());
    }
}
