use vstd::prelude::*;

verus! {

#[derive(Clone, Copy, PartialEq, Eq, Structural)]
pub enum GbVariant {
    Dmg,
    Mgb,
    Cgb,
    Sgb,
    Sgb2,
    Agb,
}

/// The register values the CPU starts with when the boot ROM is skipped.
#[derive(Clone, Copy)]
pub struct GbCpuConfig {
    pub variant: GbVariant,
    pub initial_a: u8,
    pub initial_f: u8,
    pub initial_bc: u16,
    pub initial_de: u16,
    pub initial_hl: u16,
    pub initial_sp: u16,
    pub initial_pc: u16,
    pub supports_double_speed: bool,
}

/// Post-boot register values of each model.
pub open spec fn config_for(variant: GbVariant) -> GbCpuConfig {
    match variant {
        GbVariant::Dmg => GbCpuConfig {
            variant, initial_a: 0x01, initial_f: 0xB0,
            initial_bc: 0x0013, initial_de: 0x00D8, initial_hl: 0x014D,
            initial_sp: 0xFFFE, supports_double_speed: false, initial_pc: 0x0100,
        },
        GbVariant::Mgb => GbCpuConfig {
            variant, initial_a: 0xFF, initial_f: 0xB0,
            initial_bc: 0x0013, initial_de: 0x00D8, initial_hl: 0x014D,
            initial_sp: 0xFFFE, supports_double_speed: false, initial_pc: 0x0100,
        },
        GbVariant::Cgb => GbCpuConfig {
            variant, initial_a: 0x11, initial_f: 0x80,
            initial_bc: 0x0000, initial_de: 0xFF56, initial_hl: 0x000D,
            initial_sp: 0xFFFE, supports_double_speed: true, initial_pc: 0x0100,
        },
        GbVariant::Agb => GbCpuConfig {
            variant, initial_a: 0x11, initial_f: 0x80,
            initial_bc: 0x0100, initial_de: 0xFF56, initial_hl: 0x000D,
            initial_sp: 0xFFFE, supports_double_speed: true, initial_pc: 0x0100,
        },
        GbVariant::Sgb | GbVariant::Sgb2 => GbCpuConfig {
            variant, initial_a: 0x01, initial_f: 0xB0,
            initial_bc: 0x0013, initial_de: 0x00D8, initial_hl: 0x014D,
            initial_sp: 0xFFFE, supports_double_speed: false, initial_pc: 0x0100,
        },
    }
}

impl GbCpuConfig {
    /// Starting values assume the boot ROM is skipped (PC at 0x0100).
    pub fn for_variant(variant: GbVariant) -> (r: Self)
        ensures
            r == config_for(variant),
    {
        match variant {
            GbVariant::Dmg => Self {
                variant, initial_a: 0x01, initial_f: 0xB0,
                initial_bc: 0x0013, initial_de: 0x00D8, initial_hl: 0x014D,
                initial_sp: 0xFFFE, supports_double_speed: false, initial_pc: 0x0100,
            },
            GbVariant::Mgb => Self {
                variant, initial_a: 0xFF, initial_f: 0xB0,
                initial_bc: 0x0013, initial_de: 0x00D8, initial_hl: 0x014D,
                initial_sp: 0xFFFE, supports_double_speed: false, initial_pc: 0x0100,
            },
            GbVariant::Cgb => Self {
                variant, initial_a: 0x11, initial_f: 0x80,
                initial_bc: 0x0000, initial_de: 0xFF56, initial_hl: 0x000D,
                initial_sp: 0xFFFE, supports_double_speed: true, initial_pc: 0x0100,
            },
            GbVariant::Agb => Self {
                variant, initial_a: 0x11, initial_f: 0x80,
                initial_bc: 0x0100, initial_de: 0xFF56, initial_hl: 0x000D,
                initial_sp: 0xFFFE, supports_double_speed: true, initial_pc: 0x0100,
            },
            GbVariant::Sgb | GbVariant::Sgb2 => Self {
                variant, initial_a: 0x01, initial_f: 0xB0,
                initial_bc: 0x0013, initial_de: 0x00D8, initial_hl: 0x014D,
                initial_sp: 0xFFFE, supports_double_speed: false, initial_pc: 0x0100,
            },
        }
    }
}

} // verus!
