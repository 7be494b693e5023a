//! Shader and program handles, and the fixed binding locations the two
//! shader variants agree on with the vertex data and the render loop.
//!
//! Compiling and linking happen at the device boundary outside the library;
//! the library stores the resulting numeric handles and plans which program
//! each draw uses.

use vstd::prelude::*;

verus! {

/// A compiled shader stage, identified by its device handle.
#[derive(Debug, Clone, Copy, PartialEq, Eq, Structural)]
pub struct Shader(pub u32);

/// A linked shader program, identified by its device handle.
#[derive(Debug, Clone, Copy, PartialEq, Eq, Structural)]
pub struct Program(pub u32);

/// Vertex attribute location of positions in both shader variants.
pub const POSITION_LOCATION: u32 = 0;

/// Vertex attribute location of normals in both shader variants.
pub const NORMAL_LOCATION: u32 = 1;

/// Vertex attribute location of texture coordinates in both shader variants.
pub const TEXTURE_LOCATION: u32 = 2;

/// Texture unit the textured variant samples its albedo texture from.
pub const ALBEDO_TEX: u32 = 0;

/// Texture unit reserved for a normal map.
pub const NORMAL_MAP_TEX: u32 = 1;

} // verus!
