//! The colours the arenas are painted in, as packed 8-bit sRGB, and the neon accents
//! each city district wears.

use vstd::prelude::*;

verus! {

/// An opaque colour in 8-bit sRGB, packed as `0xRRGGBB`.
pub type Srgb8 = u32;

/// Floor of a directory district.
pub const LIGHTCYCLE_CITY_FLOOR_COLOR: Srgb8 = 0x040812;

/// The parent gate of a directory district.
pub const LIGHTCYCLE_PORTAL_COLOR: Srgb8 = 0x00E6FF;

/// A directory tower.
pub const DIR_COLOR: Srgb8 = 0x00FFC8;

/// A plain file tower.
pub const FILE_COLOR: Srgb8 = 0x3C78FF;

/// A markdown document tower.
pub const MARKDOWN_TOWER_COLOR: Srgb8 = 0xFFBE3C;

/// The paper floor of a document arena.
pub const DOCUMENT_FLOOR_COLOR: Srgb8 = 0xECE6D6;

/// The folio gate that closes a document.
pub const DOCUMENT_FOLIO_COLOR: Srgb8 = 0xFF961E;

/// The ink walls of a document's paragraphs.
pub const DOCUMENT_INK_COLOR: Srgb8 = 0x182860;

/// The district accents.
pub const LIGHTCYCLE_CITY_CYAN: Srgb8 = 0x00F2FF;
pub const LIGHTCYCLE_CITY_BLUE: Srgb8 = 0x286EFF;
pub const LIGHTCYCLE_CITY_MAGENTA: Srgb8 = 0xFF14A6;
pub const LIGHTCYCLE_CITY_VIOLET: Srgb8 = 0x963CFF;
pub const LIGHTCYCLE_CITY_PINK: Srgb8 = 0xFF50B4;
pub const LIGHTCYCLE_CITY_AMBER: Srgb8 = 0xFFA000;

/// Which accent a district's ground seams wear: lane markings take the primary
/// accent, so seams take the secondary one.
pub const CITY_TRIM_ACCENT: usize = 1;

/// The neon theme of a city district.
#[derive(Debug, Clone, Copy, PartialEq, Eq, Structural)]
pub enum CityTheme {
    Cyan,
    Magenta,
    Violet,
    Amber,
}

/// Position of a theme in the palette.
pub open spec fn theme_index(theme: CityTheme) -> int {
    match theme {
        CityTheme::Cyan => 0,
        CityTheme::Magenta => 1,
        CityTheme::Violet => 2,
        CityTheme::Amber => 3,
    }
}

/// Position of a theme in the palette.
pub fn city_theme_index(theme: CityTheme) -> (index: usize)
    ensures
        index == theme_index(theme),
        index < 4,
{
    match theme {
        CityTheme::Cyan => 0,
        CityTheme::Magenta => 1,
        CityTheme::Violet => 2,
        CityTheme::Amber => 3,
    }
}

/// Emitted light in linear RGB, each channel in hundredths of full intensity;
/// neon channels run past 100 so that bloom picks them up.
pub type Glow = (u16, u16, u16);

/// No emitted light.
pub const NO_GLOW: Glow = (0, 0, 0);

/// How a surface is shaded: its base colour, the light it emits, and whether
/// scene lighting is ignored.
#[derive(Debug, Clone, Copy)]
pub struct SurfaceMaterial {
    pub base_color: Srgb8,
    pub emissive: Glow,
    pub unlit: bool,
}

/// A flat surface that ignores scene lighting and emits nothing.
pub fn unlit_material(color: Srgb8) -> (material: SurfaceMaterial)
    ensures
        material == (SurfaceMaterial { base_color: color, emissive: NO_GLOW, unlit: true }),
{
    SurfaceMaterial { base_color: color, emissive: NO_GLOW, unlit: true }
}

/// A neon surface: unlit, in `color`, glowing with `emissive`.
pub fn neon_material(color: Srgb8, emissive: Glow) -> (material: SurfaceMaterial)
    ensures
        material == (SurfaceMaterial { base_color: color, emissive: emissive, unlit: true }),
{
    SurfaceMaterial { base_color: color, emissive, unlit: true }
}

/// Accent `accent` (primary 0, secondary 1) of palette entry `theme`: its colour.
pub open spec fn spec_city_accent(theme: int, accent: int) -> Srgb8 {
    if theme == 0 {
        if accent == 0 { LIGHTCYCLE_CITY_CYAN } else { LIGHTCYCLE_CITY_BLUE }
    } else if theme == 1 {
        if accent == 0 { LIGHTCYCLE_CITY_MAGENTA } else { LIGHTCYCLE_CITY_CYAN }
    } else if theme == 2 {
        if accent == 0 { LIGHTCYCLE_CITY_VIOLET } else { LIGHTCYCLE_CITY_PINK }
    } else {
        if accent == 0 { LIGHTCYCLE_CITY_AMBER } else { LIGHTCYCLE_CITY_CYAN }
    }
}

/// Accent `accent` of palette entry `theme`: the light it emits.
pub open spec fn spec_city_glow(theme: int, accent: int) -> Glow {
    if theme == 0 {
        if accent == 0 { (0, 260, 340) } else { (15, 100, 300) }
    } else if theme == 1 {
        if accent == 0 { (340, 3, 200) } else { (0, 240, 320) }
    } else if theme == 2 {
        if accent == 0 { (180, 18, 340) } else { (340, 20, 120) }
    } else {
        if accent == 0 { (340, 110, 3) } else { (0, 240, 320) }
    }
}

/// The two accents of every district theme, primary first, in theme order:
/// each a colour and the light it emits.
pub fn city_palette() -> (palette: [[(Srgb8, Glow); 2]; 4])
    ensures
        forall|t: int, a: int|
            0 <= t < 4 && 0 <= a < 2 ==> #[trigger] palette@[t]@[a] == (
            spec_city_accent(t, a),
            spec_city_glow(t, a),
        ),
{
    let palette = [
        [(LIGHTCYCLE_CITY_CYAN, (0, 260, 340)), (LIGHTCYCLE_CITY_BLUE, (15, 100, 300))],
        [(LIGHTCYCLE_CITY_MAGENTA, (340, 3, 200)), (LIGHTCYCLE_CITY_CYAN, (0, 240, 320))],
        [(LIGHTCYCLE_CITY_VIOLET, (180, 18, 340)), (LIGHTCYCLE_CITY_PINK, (340, 20, 120))],
        [(LIGHTCYCLE_CITY_AMBER, (340, 110, 3)), (LIGHTCYCLE_CITY_CYAN, (0, 240, 320))],
    ];
    assert(palette@[0]@[0] == (spec_city_accent(0, 0), spec_city_glow(0, 0)));
    assert(palette@[0]@[1] == (spec_city_accent(0, 1), spec_city_glow(0, 1)));
    assert(palette@[1]@[0] == (spec_city_accent(1, 0), spec_city_glow(1, 0)));
    assert(palette@[1]@[1] == (spec_city_accent(1, 1), spec_city_glow(1, 1)));
    assert(palette@[2]@[0] == (spec_city_accent(2, 0), spec_city_glow(2, 0)));
    assert(palette@[2]@[1] == (spec_city_accent(2, 1), spec_city_glow(2, 1)));
    assert(palette@[3]@[0] == (spec_city_accent(3, 0), spec_city_glow(3, 0)));
    assert(palette@[3]@[1] == (spec_city_accent(3, 1), spec_city_glow(3, 1)));
    palette
}

/// A document arena never looks like a directory district: its floor, its
/// gate, its towers and its ink all differ from their directory counterparts.
pub proof fn law_directory_and_document_palettes_differ()
    ensures
        DOCUMENT_FLOOR_COLOR != LIGHTCYCLE_CITY_FLOOR_COLOR,
        DOCUMENT_FOLIO_COLOR != LIGHTCYCLE_PORTAL_COLOR,
        MARKDOWN_TOWER_COLOR != FILE_COLOR,
        DOCUMENT_INK_COLOR != LIGHTCYCLE_CITY_FLOOR_COLOR,
{
}

/// Every theme has two distinct accents, so ground seams (the trim accent)
/// never share a colour with lane markings (the primary accent).
pub proof fn law_every_theme_has_two_distinct_accents(theme: CityTheme)
    ensures
        spec_city_accent(theme_index(theme), 0) != spec_city_accent(theme_index(theme), CITY_TRIM_ACCENT as int),
        0 <= theme_index(theme) < 4,
{
}

} // verus!
