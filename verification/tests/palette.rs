use raptor::palette::{
    neon_material, unlit_material, LIGHTCYCLE_CITY_CYAN, LIGHTCYCLE_CITY_AMBER,
    city_palette, city_theme_index, CityTheme, CITY_TRIM_ACCENT, DOCUMENT_FLOOR_COLOR,
    DOCUMENT_FOLIO_COLOR, DOCUMENT_INK_COLOR, FILE_COLOR, LIGHTCYCLE_CITY_FLOOR_COLOR,
    LIGHTCYCLE_PORTAL_COLOR, MARKDOWN_TOWER_COLOR,
};

#[test]
fn directory_and_document_palettes_and_portals_differ() {
    assert_ne!(DOCUMENT_FLOOR_COLOR, LIGHTCYCLE_CITY_FLOOR_COLOR);
    assert_ne!(DOCUMENT_FOLIO_COLOR, LIGHTCYCLE_PORTAL_COLOR);
    assert_ne!(MARKDOWN_TOWER_COLOR, FILE_COLOR);
    assert_ne!(DOCUMENT_INK_COLOR, LIGHTCYCLE_CITY_FLOOR_COLOR);
}

/// Ground seams must never be drawn in the same color as a lane marking.
#[test]
fn ground_seams_contrast_with_lane_markings_in_every_theme() {
    let palette = city_palette();
    for theme in palette {
        assert_ne!(theme[CITY_TRIM_ACCENT].0, theme[0].0);
    }
}

#[test]
fn every_theme_maps_to_a_two_color_neon_palette() {
    let palette = city_palette();
    for (index, theme) in [
        CityTheme::Cyan,
        CityTheme::Magenta,
        CityTheme::Violet,
        CityTheme::Amber,
    ]
    .into_iter()
    .enumerate()
    {
        assert_eq!(city_theme_index(theme), index);
        assert_ne!(palette[index][0].0, palette[index][1].0);
    }
}

#[test]
fn unlit_material_glows_with_nothing() {
    let m = unlit_material(FILE_COLOR);
    assert_eq!(m.base_color, FILE_COLOR);
    assert_eq!(m.emissive, (0, 0, 0));
    assert!(m.unlit);
}

#[test]
fn neon_material_keeps_colour_and_glow() {
    let m = neon_material(LIGHTCYCLE_CITY_AMBER, (340, 110, 3));
    assert_eq!(m.base_color, LIGHTCYCLE_CITY_AMBER);
    assert_eq!(m.emissive, (340, 110, 3));
    assert!(m.unlit);
}

#[test]
fn cyan_glows_brighter_as_a_primary_accent() {
    let palette = city_palette();
    assert_eq!(palette[0][0], (LIGHTCYCLE_CITY_CYAN, (0, 260, 340)));
    assert_eq!(palette[1][1], (LIGHTCYCLE_CITY_CYAN, (0, 240, 320)));
    assert_eq!(palette[3][0].1, (340, 110, 3));
}
