//! Meshes: ordered sequences of drawable primitives.
//!
//! A primitive owns a vertex position array, a normal array, a texture
//! coordinate array (all equal length, index-aligned) and a triangle index
//! array whose length is a multiple of three and whose values index the
//! vertex arrays.  The arrays are filled once at import and are immutable
//! afterwards; the application layer mirrors them 1:1 into device buffers.

use vstd::prelude::*;

use crate::mat::Vec2Bits;
use crate::mat::Vec3Bits;

verus! {

/// One drawable triangle list within a mesh.
#[derive(Debug)]
pub struct Primitive {
    pub positions: Vec<Vec3Bits>,
    pub normals: Vec<Vec3Bits>,
    pub tex_coords: Vec<Vec2Bits>,
    pub indices: Vec<u32>,
}

/// The mathematical contents of a `Primitive`.
pub struct PrimitiveView {
    pub positions: Seq<Vec3Bits>,
    pub normals: Seq<Vec3Bits>,
    pub tex_coords: Seq<Vec2Bits>,
    pub indices: Seq<u32>,
}

impl View for Primitive {
    type V = PrimitiveView;

    open spec fn view(&self) -> PrimitiveView {
        PrimitiveView {
            positions: self.positions@,
            normals: self.normals@,
            tex_coords: self.tex_coords@,
            indices: self.indices@,
        }
    }
}

impl PrimitiveView {
    /// The vertex arrays are index-aligned, the index array describes whole
    /// triangles, and every index refers to an existing vertex.
    pub open spec fn wf(self) -> bool {
        &&& self.normals.len() == self.positions.len()
        &&& self.tex_coords.len() == self.positions.len()
        &&& self.indices.len() % 3 == 0
        &&& forall|i: int|
            0 <= i < self.indices.len() ==> self.indices[i] < self.positions.len()
    }
}

impl Primitive {
    /// Assembles a primitive from decoded accessor data.
    pub fn new(
        positions: Vec<Vec3Bits>,
        normals: Vec<Vec3Bits>,
        tex_coords: Vec<Vec2Bits>,
        indices: Vec<u32>,
    ) -> (r: Primitive)
        requires
            normals@.len() == positions@.len(),
            tex_coords@.len() == positions@.len(),
            indices@.len() % 3 == 0,
            forall|i: int| 0 <= i < indices@.len() ==> indices@[i] < positions@.len(),
        ensures
            r@.positions == positions@,
            r@.normals == normals@,
            r@.tex_coords == tex_coords@,
            r@.indices == indices@,
            r@.wf(),
    {
        Primitive { positions, normals, tex_coords, indices }
    }

    /// How many indices one draw of this primitive consumes.
    pub fn index_count(&self) -> (r: usize)
        ensures
            r == self@.indices.len(),
    {
        self.indices.len()
    }

    /// How many vertices the primitive owns.
    pub fn vertex_count(&self) -> (r: usize)
        ensures
            r == self@.positions.len(),
    {
        self.positions.len()
    }
}

/// An ordered sequence of primitives sharing one set of materials per node.
#[derive(Debug)]
pub struct Mesh {
    pub primitives: Vec<Primitive>,
}

/// The mathematical contents of a `Mesh`.
pub struct MeshView {
    pub primitives: Seq<PrimitiveView>,
}

impl View for Mesh {
    type V = MeshView;

    open spec fn view(&self) -> MeshView {
        MeshView { primitives: Seq::new(self.primitives@.len(), |i: int| self.primitives@[i]@) }
    }
}

impl MeshView {
    /// Every primitive of the mesh is well formed.
    pub open spec fn wf(self) -> bool {
        forall|i: int| 0 <= i < self.primitives.len() ==> (#[trigger] self.primitives[i]).wf()
    }
}

/// Bit pattern of the scalar one half.
pub const HALF_BITS: u32 = 0x3F00_0000;

/// Bit pattern of the scalar minus one half.
pub const NEG_HALF_BITS: u32 = 0xBF00_0000;

/// Bit pattern of the scalar one.
pub const UNIT_BITS: u32 = 0x3F80_0000;

/// The default cube's eight corner positions, at half a unit from the origin.
pub open spec fn cube_positions() -> Seq<Vec3Bits> {
    seq![
        Vec3Bits { x: HALF_BITS, y: HALF_BITS, z: HALF_BITS },
        Vec3Bits { x: HALF_BITS, y: HALF_BITS, z: NEG_HALF_BITS },
        Vec3Bits { x: NEG_HALF_BITS, y: HALF_BITS, z: NEG_HALF_BITS },
        Vec3Bits { x: NEG_HALF_BITS, y: HALF_BITS, z: HALF_BITS },
        Vec3Bits { x: HALF_BITS, y: NEG_HALF_BITS, z: HALF_BITS },
        Vec3Bits { x: HALF_BITS, y: NEG_HALF_BITS, z: NEG_HALF_BITS },
        Vec3Bits { x: NEG_HALF_BITS, y: NEG_HALF_BITS, z: NEG_HALF_BITS },
        Vec3Bits { x: NEG_HALF_BITS, y: NEG_HALF_BITS, z: HALF_BITS },
    ]
}

/// The default cube's per-corner colors, carried in the normal channel.
pub open spec fn cube_normals() -> Seq<Vec3Bits> {
    seq![
        Vec3Bits { x: UNIT_BITS, y: 0, z: 0 },
        Vec3Bits { x: 0, y: UNIT_BITS, z: 0 },
        Vec3Bits { x: 0, y: 0, z: UNIT_BITS },
        Vec3Bits { x: HALF_BITS, y: HALF_BITS, z: HALF_BITS },
        Vec3Bits { x: UNIT_BITS, y: 0, z: 0 },
        Vec3Bits { x: 0, y: UNIT_BITS, z: 0 },
        Vec3Bits { x: 0, y: 0, z: UNIT_BITS },
        Vec3Bits { x: HALF_BITS, y: HALF_BITS, z: HALF_BITS },
    ]
}

/// The default cube's texture coordinates: all at the origin.
pub open spec fn cube_tex_coords() -> Seq<Vec2Bits> {
    Seq::new(8, |i: int| Vec2Bits { x: 0, y: 0 })
}

/// The default cube's twelve triangles.
pub open spec fn cube_indices() -> Seq<u32> {
    seq![
        0, 2, 1, 0, 2, 3, 0, 5, 4, 0, 5, 1, 0, 7, 3, 0, 7, 4,
        6, 3, 2, 6, 3, 7, 6, 1, 2, 6, 1, 5, 6, 4, 7, 6, 4, 5,
    ]
}

impl Default for Mesh {
    /// A unit cube of one primitive: eight corners, per-corner colors in the
    /// normal channel, texture coordinates at the origin, twelve triangles.
    fn default() -> (r: Self)
        ensures
            r@.primitives.len() == 1,
            r@.primitives[0].positions == cube_positions(),
            r@.primitives[0].normals == cube_normals(),
            r@.primitives[0].tex_coords == cube_tex_coords(),
            r@.primitives[0].indices == cube_indices(),
            r@.wf(),
    {
        let positions: Vec<Vec3Bits> = vec![
            Vec3Bits { x: HALF_BITS, y: HALF_BITS, z: HALF_BITS },
            Vec3Bits { x: HALF_BITS, y: HALF_BITS, z: NEG_HALF_BITS },
            Vec3Bits { x: NEG_HALF_BITS, y: HALF_BITS, z: NEG_HALF_BITS },
            Vec3Bits { x: NEG_HALF_BITS, y: HALF_BITS, z: HALF_BITS },
            Vec3Bits { x: HALF_BITS, y: NEG_HALF_BITS, z: HALF_BITS },
            Vec3Bits { x: HALF_BITS, y: NEG_HALF_BITS, z: NEG_HALF_BITS },
            Vec3Bits { x: NEG_HALF_BITS, y: NEG_HALF_BITS, z: NEG_HALF_BITS },
            Vec3Bits { x: NEG_HALF_BITS, y: NEG_HALF_BITS, z: HALF_BITS },
        ];
        let normals: Vec<Vec3Bits> = vec![
            Vec3Bits { x: UNIT_BITS, y: 0, z: 0 },
            Vec3Bits { x: 0, y: UNIT_BITS, z: 0 },
            Vec3Bits { x: 0, y: 0, z: UNIT_BITS },
            Vec3Bits { x: HALF_BITS, y: HALF_BITS, z: HALF_BITS },
            Vec3Bits { x: UNIT_BITS, y: 0, z: 0 },
            Vec3Bits { x: 0, y: UNIT_BITS, z: 0 },
            Vec3Bits { x: 0, y: 0, z: UNIT_BITS },
            Vec3Bits { x: HALF_BITS, y: HALF_BITS, z: HALF_BITS },
        ];
        let tex_coords: Vec<Vec2Bits> = vec![
            Vec2Bits { x: 0, y: 0 },
            Vec2Bits { x: 0, y: 0 },
            Vec2Bits { x: 0, y: 0 },
            Vec2Bits { x: 0, y: 0 },
            Vec2Bits { x: 0, y: 0 },
            Vec2Bits { x: 0, y: 0 },
            Vec2Bits { x: 0, y: 0 },
            Vec2Bits { x: 0, y: 0 },
        ];
        let indices: Vec<u32> = vec![
            0, 2, 1, 0, 2, 3, 0, 5, 4, 0, 5, 1, 0, 7, 3, 0, 7, 4,
            6, 3, 2, 6, 3, 7, 6, 1, 2, 6, 1, 5, 6, 4, 7, 6, 4, 5,
        ];
        proof {
            assert(positions@ =~= cube_positions());
            assert(normals@ =~= cube_normals());
            assert(tex_coords@ =~= cube_tex_coords());
            assert(indices@ =~= cube_indices());
        }
        let prim = Primitive::new(positions, normals, tex_coords, indices);
        let r = Mesh { primitives: vec![prim] };
        proof {
            assert(r@.primitives =~= seq![prim@]);
        }
        r
    }
}

} // verus!
