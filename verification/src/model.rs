//! A standalone model: meshes and materials drawn with one program,
//! optionally placed in the world by an instance transform.

use vstd::prelude::*;

use crate::mat::Mat4;
use crate::material::Material;
use crate::mesh::Mesh;
use crate::shader::Program;

verus! {

/// A self-contained drawable: its meshes, their materials, and the program
/// every draw binds.
#[derive(Debug)]
pub struct Model {
    pub meshes: Vec<Mesh>,
    pub materials: Vec<Material>,
    pub program: Program,
}

/// A model placed in the world.
#[derive(Debug)]
pub struct Instance {
    pub model: Model,
    pub transform: Mat4,
}

/// The index counts of one mesh's primitives, in order.
pub open spec fn spec_mesh_counts(mesh: Mesh) -> Seq<usize> {
    Seq::new(mesh.primitives@.len(), |p: int| mesh.primitives@[p].indices.len())
}

/// The index counts of the first `n` meshes' primitives, mesh by mesh.
pub open spec fn spec_model_counts(meshes: Seq<Mesh>, n: int) -> Seq<usize>
    decreases n,
{
    if n <= 0 {
        Seq::empty()
    } else {
        spec_model_counts(meshes, n - 1) + spec_mesh_counts(meshes[n - 1])
    }
}

impl Model {
    /// Plans the model's draws: one indexed draw per primitive of every
    /// mesh, in order, each consuming that primitive's index count.  The
    /// application layer binds the model's program and issues them.
    pub fn render(&self) -> (r: Vec<usize>)
        ensures
            r@ == spec_model_counts(self.meshes@, self.meshes@.len() as int),
    {
        let mut counts: Vec<usize> = Vec::new();
        proof {
            assert(counts@ =~= spec_model_counts(self.meshes@, 0));
        }
        let mut m: usize = 0;
        while m < self.meshes.len()
            invariant
                m <= self.meshes@.len(),
                counts@ == spec_model_counts(self.meshes@, m as int),
            decreases self.meshes@.len() - m,
        {
            let mesh = &self.meshes[m];
            let ghost base = counts@;
            let mut p: usize = 0;
            proof {
                assert(spec_mesh_counts(self.meshes@[m as int]).subrange(0, 0) =~= Seq::<
                    usize,
                >::empty());
            }
            while p < mesh.primitives.len()
                invariant
                    m < self.meshes@.len(),
                    mesh == &self.meshes@[m as int],
                    p <= mesh.primitives@.len(),
                    counts@ == base + spec_mesh_counts(self.meshes@[m as int]).subrange(
                        0,
                        p as int,
                    ),
                decreases mesh.primitives@.len() - p,
            {
                counts.push(mesh.primitives[p].index_count());
                proof {
                    assert(counts@ =~= base + spec_mesh_counts(self.meshes@[m as int]).subrange(
                        0,
                        p as int + 1,
                    ));
                }
                p = p + 1;
            }
            proof {
                assert(spec_mesh_counts(self.meshes@[m as int]).subrange(
                    0,
                    spec_mesh_counts(self.meshes@[m as int]).len() as int,
                ) =~= spec_mesh_counts(self.meshes@[m as int]));
                assert(counts@ == spec_model_counts(self.meshes@, m as int + 1));
            }
            m = m + 1;
        }
        counts
    }
}

} // verus!
