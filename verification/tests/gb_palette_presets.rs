use emucore::mimesys::gameboy::gb_palette::{mario_land_palette, preset_palette, PaletteTheme, Preset};

#[test]
fn auto_theme_matches_known_titles() {
    let mario = PaletteTheme::Auto.to_palette_set("SUPER MARIOLAND");
    assert_eq!(mario, preset_palette(Preset::MarioLand));
    let metroid = PaletteTheme::Auto.to_palette_set("METROID2\0\0\0\0\0\0\0");
    assert_eq!(metroid, preset_palette(Preset::MetroidII));
    let kirby = PaletteTheme::Auto.to_palette_set("KIRBY DREAM LAN");
    assert_eq!(kirby, preset_palette(Preset::KirbysDreamland));
    let ml2 = PaletteTheme::Auto.to_palette_set("MARIOLAND2\0");
    assert_eq!(ml2, preset_palette(Preset::MarioLand2));
}

#[test]
fn auto_theme_falls_back_to_dmg_green() {
    let other = PaletteTheme::Auto.to_palette_set("TETRIS");
    assert_eq!(other, preset_palette(Preset::DmgGreen));
    assert_eq!(other.bg, [0x9BBC0F, 0x8BAC0F, 0x306230, 0x0F380F]);
    let prefix_only = PaletteTheme::Auto.to_palette_set("SUPER MARIOLAND X");
    assert_eq!(prefix_only, preset_palette(Preset::DmgGreen));
    let inner_nul = PaletteTheme::Auto.to_palette_set("METROID2\0X");
    assert_eq!(inner_nul, preset_palette(Preset::DmgGreen));
}

#[test]
fn explicit_themes_ignore_title() {
    assert_eq!(PaletteTheme::PocketGray.to_palette_set("SUPER MARIOLAND"), preset_palette(Preset::PocketGray));
    assert_eq!(PaletteTheme::Metroid2.to_palette_set(""), preset_palette(Preset::MetroidII));
    assert_eq!(PaletteTheme::MarioLand.to_palette_set("").obp0, [0xFFFFFF, 0xFF7B00, 0x0000FF, 0x000000]);
}

#[test]
fn mario_land_cgb_colors() {
    let p = mario_land_palette();
    assert_eq!(p.bg, [0x7FFF, 0x3FE0, 0x0200, 0x0000]);
    assert_eq!(p.obp1, [0x7FFF, 0x7C00, 0x03E0, 0x0000]);
}
