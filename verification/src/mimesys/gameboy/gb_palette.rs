use vstd::prelude::*;
use vstd::string::StrSliceExecFns;

verus! {

/// A CGB colorization of a monochrome game: four 15-bit colors for each of
/// the background and the two sprite palettes.
pub struct CgbDmgPalette {
    pub bg: [u16; 4],
    pub obp0: [u16; 4],
    pub obp1: [u16; 4],
}

/// The built-in CGB palette of Super Mario Land (yellow-green world,
/// blue and red sprites).
pub fn mario_land_palette() -> (r: CgbDmgPalette)
    ensures
        r.bg@ == seq![0x7FFFu16, 0x3FE0, 0x0200, 0x0000],
        r.obp0@ == seq![0x7FFFu16, 0x7C00, 0x001F, 0x0000],
        r.obp1@ == seq![0x7FFFu16, 0x7C00, 0x03E0, 0x0000],
{
    CgbDmgPalette {
        bg: [0x7FFF, 0x3FE0, 0x0200, 0x0000],
        obp0: [0x7FFF, 0x7C00, 0x001F, 0x0000],
        obp1: [0x7FFF, 0x7C00, 0x03E0, 0x0000],
    }
}

/// Four 24-bit RGB colors for each of the background and the two sprite
/// palettes.
#[derive(Clone, Copy, Debug, PartialEq)]
pub struct DmgPaletteSet {
    pub bg: [u32; 4],
    pub obp0: [u32; 4],
    pub obp1: [u32; 4],
}

#[derive(Clone, Copy, Debug, PartialEq, Eq, Structural)]
pub enum PaletteTheme {
    /// Chosen from the title in the ROM header.
    Auto,
    /// The original Game Boy LCD ("pea soup").
    DmgGreen,
    /// Game Boy Pocket grayscale.
    PocketGray,
    /// Super Mario Land CGB colorization.
    MarioLand,
    /// Metroid II CGB colorization.
    Metroid2,
}

/// The palette sets the library ships.
#[derive(Clone, Copy, PartialEq, Eq, Structural)]
pub enum Preset {
    DmgGreen,
    PocketGray,
    MarioLand,
    MarioLand2,
    KirbysDreamland,
    MetroidII,
}

/// The colors of a preset: background, sprite palette 0, sprite palette 1.
pub open spec fn preset_colors(p: Preset) -> (Seq<u32>, Seq<u32>, Seq<u32>) {
    match p {
        Preset::DmgGreen => (
            seq![0x9BBC0Fu32, 0x8BAC0F, 0x306230, 0x0F380F],
            seq![0x9BBC0Fu32, 0x8BAC0F, 0x306230, 0x0F380F],
            seq![0x9BBC0Fu32, 0x8BAC0F, 0x306230, 0x0F380F],
        ),
        Preset::PocketGray => (
            seq![0xFFFFFFu32, 0xAAAAAA, 0x555555, 0x000000],
            seq![0xFFFFFFu32, 0xAAAAAA, 0x555555, 0x000000],
            seq![0xFFFFFFu32, 0xAAAAAA, 0x555555, 0x000000],
        ),
        Preset::MarioLand => (
            seq![0xFFFFFFu32, 0x7BFF00, 0x008400, 0x000000],
            seq![0xFFFFFFu32, 0xFF7B00, 0x0000FF, 0x000000],
            seq![0xFFFFFFu32, 0xFF0000, 0x00FF00, 0x000000],
        ),
        Preset::MarioLand2 => (
            seq![0xFFFFFFu32, 0x7BFF00, 0x11C600, 0x000000],
            seq![0xFFFFFFu32, 0xDFA677, 0x0000FF, 0x000000],
            seq![0xFFFFFFu32, 0xFF0000, 0xDFA677, 0x000000],
        ),
        Preset::KirbysDreamland => (
            seq![0xFFFFFFu32, 0x7733E7, 0x2C2C96, 0x000000],
            seq![0xF7BEF7u32, 0xFF0000, 0x0000FF, 0x000000],
            seq![0xFFFFFFu32, 0xFF0000, 0xE78686, 0x000000],
        ),
        Preset::MetroidII => (
            seq![0xFFFFFFu32, 0x63A5FF, 0x0000FF, 0x000000],
            seq![0xFFFF00u32, 0xFF0000, 0x630000, 0x7BFF31],
            seq![0xFFFFFFu32, 0x630000, 0x00FF00, 0x000000],
        ),
    }
}

pub open spec fn colors_of(p: DmgPaletteSet) -> (Seq<u32>, Seq<u32>, Seq<u32>) {
    (p.bg@, p.obp0@, p.obp1@)
}

/// A title with its trailing NUL characters removed.
pub open spec fn trim_nul(s: Seq<char>) -> Seq<char>
    decreases s.len(),
{
    if s.len() > 0 && s.last() == '\0' {
        trim_nul(s.drop_last())
    } else {
        s
    }
}

/// Which preset a theme picks for a ROM whose header title is `title`.
pub open spec fn preset_for(theme: PaletteTheme, title: Seq<char>) -> Preset {
    match theme {
        PaletteTheme::Auto => {
            let t = trim_nul(title);
            if t == "SUPER MARIOLAND"@ {
                Preset::MarioLand
            } else if t == "MARIOLAND2"@ {
                Preset::MarioLand2
            } else if t == "KIRBY DREAM LAN"@ {
                Preset::KirbysDreamland
            } else if t == "METROID2"@ {
                Preset::MetroidII
            } else {
                Preset::DmgGreen
            }
        },
        PaletteTheme::DmgGreen => Preset::DmgGreen,
        PaletteTheme::PocketGray => Preset::PocketGray,
        PaletteTheme::MarioLand => Preset::MarioLand,
        PaletteTheme::Metroid2 => Preset::MetroidII,
    }
}

/// The colors of preset `p`.
pub fn preset_palette(p: Preset) -> (r: DmgPaletteSet)
    ensures
        colors_of(r) == preset_colors(p),
{
    let r = match p {
        Preset::DmgGreen => DmgPaletteSet {
            bg: [0x9BBC0F, 0x8BAC0F, 0x306230, 0x0F380F],
            obp0: [0x9BBC0F, 0x8BAC0F, 0x306230, 0x0F380F],
            obp1: [0x9BBC0F, 0x8BAC0F, 0x306230, 0x0F380F],
        },
        Preset::PocketGray => DmgPaletteSet {
            bg: [0xFFFFFF, 0xAAAAAA, 0x555555, 0x000000],
            obp0: [0xFFFFFF, 0xAAAAAA, 0x555555, 0x000000],
            obp1: [0xFFFFFF, 0xAAAAAA, 0x555555, 0x000000],
        },
        Preset::MarioLand => DmgPaletteSet {
            bg: [0xFFFFFF, 0x7BFF00, 0x008400, 0x000000],
            obp0: [0xFFFFFF, 0xFF7B00, 0x0000FF, 0x000000],
            obp1: [0xFFFFFF, 0xFF0000, 0x00FF00, 0x000000],
        },
        Preset::MarioLand2 => DmgPaletteSet {
            bg: [0xFFFFFF, 0x7BFF00, 0x11C600, 0x000000],
            obp0: [0xFFFFFF, 0xDFA677, 0x0000FF, 0x000000],
            obp1: [0xFFFFFF, 0xFF0000, 0xDFA677, 0x000000],
        },
        Preset::KirbysDreamland => DmgPaletteSet {
            bg: [0xFFFFFF, 0x7733E7, 0x2C2C96, 0x000000],
            obp0: [0xF7BEF7, 0xFF0000, 0x0000FF, 0x000000],
            obp1: [0xFFFFFF, 0xFF0000, 0xE78686, 0x000000],
        },
        Preset::MetroidII => DmgPaletteSet {
            bg: [0xFFFFFF, 0x63A5FF, 0x0000FF, 0x000000],
            obp0: [0xFFFF00, 0xFF0000, 0x630000, 0x7BFF31],
            obp1: [0xFFFFFF, 0x630000, 0x00FF00, 0x000000],
        },
    };
    assert(colors_of(r) =~~= preset_colors(p));
    r
}

/// The length of `s` once its trailing NUL characters are dropped.
fn trimmed_len(s: &str) -> (n: usize)
    ensures
        n <= s@.len(),
        trim_nul(s@) == s@.subrange(0, n as int),
{
    let mut n = s.unicode_len();
    assert(s@.subrange(0, n as int) =~= s@);
    while n > 0 && s.get_char(n - 1) == '\0'
        invariant
            n <= s@.len(),
            trim_nul(s@) == trim_nul(s@.subrange(0, n as int)),
        decreases n,
    {
        assert(s@.subrange(0, n as int).drop_last() =~= s@.subrange(0, n - 1));
        n = n - 1;
    }
    n
}

/// Whether the first `n` characters of `s` are exactly `lit`.
fn prefix_is(s: &str, n: usize, lit: &str) -> (r: bool)
    requires
        n <= s@.len(),
    ensures
        r == (s@.subrange(0, n as int) == lit@),
{
    let m = lit.unicode_len();
    if m != n {
        return false;
    }
    let mut i: usize = 0;
    while i < n
        invariant
            i <= n,
            n == m,
            m == lit@.len(),
            n <= s@.len(),
            forall|j: int| 0 <= j < i ==> s@[j] == lit@[j],
        decreases n - i,
    {
        if s.get_char(i) != lit.get_char(i) {
            assert(s@.subrange(0, n as int)[i as int] != lit@[i as int]);
            return false;
        }
        i = i + 1;
    }
    assert(s@.subrange(0, n as int) =~= lit@);
    true
}

impl PaletteTheme {
    /// The colors of the theme; `Auto` picks a preset from the ROM header
    /// title (trailing NULs ignored), falling back to the DMG green.
    pub fn to_palette_set(self, rom_title: &str) -> (r: DmgPaletteSet)
        ensures
            colors_of(r) == preset_colors(preset_for(self, rom_title@)),
    {
        match self {
            PaletteTheme::Auto => {
                let n = trimmed_len(rom_title);
                let p = if prefix_is(rom_title, n, "SUPER MARIOLAND") {
                    Preset::MarioLand
                } else if prefix_is(rom_title, n, "MARIOLAND2") {
                    Preset::MarioLand2
                } else if prefix_is(rom_title, n, "KIRBY DREAM LAN") {
                    Preset::KirbysDreamland
                } else if prefix_is(rom_title, n, "METROID2") {
                    Preset::MetroidII
                } else {
                    Preset::DmgGreen
                };
                preset_palette(p)
            },
            PaletteTheme::DmgGreen => preset_palette(Preset::DmgGreen),
            PaletteTheme::PocketGray => preset_palette(Preset::PocketGray),
            PaletteTheme::MarioLand => preset_palette(Preset::MarioLand),
            PaletteTheme::Metroid2 => preset_palette(Preset::MetroidII),
        }
    }
}

} // verus!
