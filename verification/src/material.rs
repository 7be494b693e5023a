//! Materials and the shader-variant selection rule.
//!
//! A material either samples an albedo texture or falls back to a flat base
//! color; which of the two is present decides the shader program it renders
//! with.  Indices refer into the asset storage's texture and program tables.

use vstd::prelude::*;

use crate::mat::Vec3Bits;
use crate::shader::Program;

verus! {

/// Index of the flat-color shader program in the program table.
pub const COLOR_PROGRAM: usize = 0;

/// Index of the textured shader program in the program table.
pub const TEXTURE_PROGRAM: usize = 1;

/// A material: a resolved shader selector, an optional albedo texture index
/// into the texture table, and an optional flat base color (the fallback
/// when no texture is present).
#[derive(Debug, Clone, Copy, PartialEq)]
pub struct Material {
    pub shader: Option<usize>,
    pub albedo: Option<usize>,
    pub base_color: Option<Vec3Bits>,
}

/// The shader-selection rule: a material with an albedo texture renders
/// with the textured program, any other with the flat-color program.
pub open spec fn spec_choose_shader(m: Material) -> usize {
    if m.albedo is Some {
        TEXTURE_PROGRAM
    } else {
        COLOR_PROGRAM
    }
}

impl Material {
    /// Selects the shader variant this material renders with: the textured
    /// program exactly when an albedo texture is set, the flat-color program
    /// otherwise.
    pub fn choose_shader(&self, _programs: &[Program]) -> (r: usize)
        ensures
            r == spec_choose_shader(*self),
            r == TEXTURE_PROGRAM <==> self.albedo is Some,
            r == COLOR_PROGRAM <==> self.albedo is None,
    {
        if self.albedo.is_some() {
            TEXTURE_PROGRAM
        } else {
            COLOR_PROGRAM
        }
    }
}

/// Bit pattern of the default base color's red channel (one half).
pub const DEFAULT_BASE_R: u32 = 0x3F00_0000;

/// Bit pattern of the default base color's green channel (zero).
pub const DEFAULT_BASE_G: u32 = 0x0000_0000;

/// Bit pattern of the default base color's blue channel (one fifth).
pub const DEFAULT_BASE_B: u32 = 0x3E4C_CCCD;

/// The fresh material every import starts from: no shader resolved yet, no
/// albedo texture, and the fixed fallback base color, so that every material
/// drives exactly one color source at render time.
pub open spec fn spec_default_material() -> Material {
    Material {
        shader: None,
        albedo: None,
        base_color: Some(Vec3Bits { x: DEFAULT_BASE_R, y: DEFAULT_BASE_G, z: DEFAULT_BASE_B }),
    }
}

impl Default for Material {
    /// A fresh material, as `spec_default_material` describes.
    fn default() -> (r: Self)
        ensures
            r == spec_default_material(),
    {
        Material {
            shader: None,
            albedo: None,
            base_color: Some(Vec3Bits {
                x: DEFAULT_BASE_R,
                y: DEFAULT_BASE_G,
                z: DEFAULT_BASE_B,
            }),
        }
    }
}

} // verus!
