//! The world: flat asset storage, the flattened node list, the camera and
//! the display viewport, with the per-frame update and render planning.

use vstd::prelude::*;

use crate::InputState;
use crate::camera::Camera;
use crate::camera::CameraMove;
use crate::camera::MOUSE_DELTA_MAX;
use crate::camera::MOUSE_SENSITIVITY;
use crate::camera::MOVEMENT_SPEED;
use crate::camera::spec_clamp_pitch;
use crate::camera::spec_wrap_yaw;
use crate::gltf::ImportError;
use crate::gltf::SceneDoc;
use crate::gltf::import_spec;
use crate::gltf::lemma_import_materials_len;
use crate::gltf::lemma_import_materials_ok;
use crate::gltf::lemma_import_meshes_ok;
use crate::gltf::lemma_node_material_counts;
use crate::gltf::lemma_node_material_refs;
use crate::gltf::mesh_views;
use crate::gltf::read_from_document;
use crate::gltf::texture_views;
use crate::mat::Mat4;
use crate::mat::Vec3Bits;
use crate::material::Material;
use crate::material::spec_choose_shader;
use crate::mesh::Mesh;
use crate::mesh::MeshView;
use crate::mesh::Primitive;
use crate::shader::Program;
use crate::texture::Texture2D;
use crate::texture::Texture2DView;

verus! {

/// The flat, de-duplicated table of every asset a scene references.  Nodes
/// and materials refer to entries by index only.
#[derive(Debug)]
pub struct AssetStorage {
    pub meshes: Vec<Mesh>,
    pub materials: Vec<Material>,
    pub textures2d: Vec<Texture2D>,
    pub programs: Vec<Program>,
}

/// The mathematical contents of an `AssetStorage`.
pub struct AssetStorageView {
    pub meshes: Seq<MeshView>,
    pub materials: Seq<Material>,
    pub textures2d: Seq<Texture2DView>,
    pub programs: Seq<Program>,
}

impl View for AssetStorage {
    type V = AssetStorageView;

    open spec fn view(&self) -> AssetStorageView {
        AssetStorageView {
            meshes: mesh_views(self.meshes@),
            materials: self.materials@,
            textures2d: texture_views(self.textures2d@),
            programs: self.programs@,
        }
    }
}

/// A flattened scene-graph entry: a mesh index, one material index per
/// primitive of that mesh, and the node's world transform.  The transform is
/// carried as the ordered chain of local transforms from the root to the
/// node; multiplying the chain left to right yields the world matrix, which
/// the application layer computes once after import.
#[derive(Debug)]
pub struct Node {
    pub mesh: usize,
    pub materials: Vec<usize>,
    pub transform: Vec<Mat4>,
}

/// The mathematical contents of a `Node`.
pub struct NodeView {
    pub mesh: int,
    pub materials: Seq<usize>,
    pub transform: Seq<Mat4>,
}

impl View for Node {
    type V = NodeView;

    open spec fn view(&self) -> NodeView {
        NodeView { mesh: self.mesh as int, materials: self.materials@, transform: self.transform@ }
    }
}

/// The contents of a node list.
pub open spec fn node_views(s: Seq<Node>) -> Seq<NodeView> {
    Seq::new(s.len(), |i: int| s[i]@)
}

// ---------------------------------------------------------------------------
// The internal render resolution
// ---------------------------------------------------------------------------

/// The base internal render width.
pub const BASE_RENDER_WIDTH: u32 = 320;

/// The base internal render height.
pub const BASE_RENDER_HEIGHT: u32 = 240;

/// The fixed pixel budget every internal resolution preserves.
pub const BASE_PIXEL_COUNT: u32 = BASE_RENDER_WIDTH * BASE_RENDER_HEIGHT;

/// The integer square root: the largest `r` with `r * r <= n`.
pub open spec fn spec_isqrt(n: int) -> int
    decreases n,
{
    if n <= 0 {
        0
    } else {
        let r = spec_isqrt(n - 1);
        if (r + 1) * (r + 1) <= n {
            r + 1
        } else {
            r
        }
    }
}

/// The defining property of the integer square root.
pub proof fn lemma_isqrt_props(n: int)
    requires
        n >= 0,
    ensures
        spec_isqrt(n) >= 0,
        spec_isqrt(n) * spec_isqrt(n) <= n,
        n < (spec_isqrt(n) + 1) * (spec_isqrt(n) + 1),
    decreases n,
{
    if n > 0 {
        lemma_isqrt_props(n - 1);
        let r = spec_isqrt(n - 1);
        if (r + 1) * (r + 1) <= n {
            assert(n < (r + 2) * (r + 2)) by (nonlinear_arith)
                requires
                    n - 1 < (r + 1) * (r + 1),
                    r >= 0,
            ;
        }
    }
}

/// Two values with the square-root property are the same value.
pub proof fn lemma_isqrt_unique(n: int, a: int, b: int)
    requires
        0 <= a,
        0 <= b,
        a * a <= n,
        n < (a + 1) * (a + 1),
        b * b <= n,
        n < (b + 1) * (b + 1),
    ensures
        a == b,
{
    assert(a == b) by (nonlinear_arith)
        requires
            0 <= a,
            0 <= b,
            a * a <= n,
            n < (a + 1) * (a + 1),
            b * b <= n,
            n < (b + 1) * (b + 1),
    ;
}

/// Computes the integer square root by bisection.
fn isqrt(n: u64) -> (r: u64)
    ensures
        r == spec_isqrt(n as int),
        r * r <= n,
        (r as int + 1) * (r as int + 1) > n,
        r < 0x1_0000_0000,
{
    let mut lo: u64 = 0;
    let mut hi: u64 = 0x1_0000_0000;
    proof {
        assert((hi as int) * (hi as int) > n) by (nonlinear_arith)
            requires
                hi == 0x1_0000_0000,
                n <= u64::MAX,
        ;
    }
    while lo + 1 < hi
        invariant
            lo < hi,
            hi <= 0x1_0000_0000,
            lo * lo <= n,
            (hi as int) * (hi as int) > n,
        decreases hi - lo,
    {
        let mid = lo + (hi - lo) / 2;
        proof {
            assert(mid < hi);
            assert((mid as int) * (mid as int) < 0x1_0000_0000_0000_0000) by (nonlinear_arith)
                requires
                    mid < 0x1_0000_0000,
            ;
        }
        if mid * mid <= n {
            lo = mid;
        } else {
            hi = mid;
        }
    }
    proof {
        lemma_isqrt_props(n as int);
        lemma_isqrt_unique(n as int, lo as int, spec_isqrt(n as int));
    }
    lo
}

/// The integer square root rounded to the nearest integer: `r + 1` exactly
/// when the remainder `n - r * r` exceeds `r`.
pub open spec fn spec_isqrt_rounded(n: int) -> int {
    let s = spec_isqrt(n);
    if n - s * s > s {
        s + 1
    } else {
        s
    }
}

/// The rounded square root stays within its own value of the target:
/// `|n - r * r| <= r`.
pub proof fn lemma_isqrt_rounded_props(n: int)
    requires
        n >= 0,
    ensures
        spec_isqrt_rounded(n) >= 0,
        spec_isqrt_rounded(n) * spec_isqrt_rounded(n) <= n + spec_isqrt_rounded(n),
        n <= spec_isqrt_rounded(n) * spec_isqrt_rounded(n) + spec_isqrt_rounded(n),
        n >= 1 ==> spec_isqrt_rounded(n) >= 1,
{
    lemma_isqrt_props(n);
    let s = spec_isqrt(n);
    if n - s * s > s {
        assert((s + 1) * (s + 1) <= n + (s + 1) && n <= (s + 1) * (s + 1) + (s + 1))
            by (nonlinear_arith)
            requires
                s >= 0,
                s * s <= n,
                n < (s + 1) * (s + 1),
                n - s * s > s,
        ;
    } else {
        assert(n >= 1 ==> s >= 1) by (nonlinear_arith)
            requires
                s >= 0,
                n - s * s <= s,
        ;
    }
}

/// Computes the rounded integer square root.
fn isqrt_rounded(n: u64) -> (r: u64)
    ensures
        r == spec_isqrt_rounded(n as int),
        r <= 0x1_0000_0000,
{
    let s = isqrt(n);
    if n - s * s > s {
        s + 1
    } else {
        s
    }
}

/// The internal render height for a display of aspect ratio `aw / ah`: the
/// rounded square root of the pixel budget divided by the aspect ratio, and
/// at least one.
pub open spec fn spec_internal_height(aw: int, ah: int) -> int {
    let n = (BASE_PIXEL_COUNT as int) * ah / aw;
    let h = spec_isqrt_rounded(n);
    if h < 1 {
        1
    } else {
        h
    }
}

/// The internal render width for an internal height `h`: the pixel budget
/// divided by `h`, rounded to nearest, and at least one.
pub open spec fn spec_internal_width(h: int) -> int {
    let w = ((BASE_PIXEL_COUNT as int) + h / 2) / h;
    if w < 1 {
        1
    } else {
        w
    }
}

/// Law: viewport resize preserves the pixel budget.  For any display area
/// whose aspect ratio is not extreme (the height target stays within the
/// budget), the internal resolution `(w, h)` keeps `w * h` within one `h` of
/// the pixel budget, and keeps the internal aspect ratio within rounding of
/// the display's: `|aw * h * h - B * ah| <= aw * (h + 1)`.
pub proof fn lemma_viewport_pixel_budget(aw: int, ah: int)
    requires
        1 <= aw,
        1 <= ah,
        1 <= (BASE_PIXEL_COUNT as int) * ah / aw,
        (BASE_PIXEL_COUNT as int) * ah / aw <= (BASE_PIXEL_COUNT as int) * (
        BASE_PIXEL_COUNT as int),
    ensures
        ({
            let b = BASE_PIXEL_COUNT as int;
            let n = b * ah / aw;
            let h = spec_internal_height(aw, ah);
            let w = spec_internal_width(h);
            &&& 1 <= h
            &&& 1 <= w
            &&& w * h <= b + h
            &&& b <= w * h + h
            &&& aw * (h * h) <= b * ah + aw * (h + 1)
            &&& b * ah <= aw * (h * h) + aw * (h + 1)
        }),
{
    let b = BASE_PIXEL_COUNT as int;
    let n = b * ah / aw;
    lemma_isqrt_rounded_props(n);
    let h = spec_internal_height(aw, ah);
    assert(h == spec_isqrt_rounded(n));
    assert(h * h <= n + h && n <= h * h + h);

    // the height target stays within the budget, so h <= b
    assert(h <= b) by (nonlinear_arith)
        requires
            h >= 1,
            h * h <= n + h,
            n <= b * b,
            b >= 1,
    ;

    // the rounded division defining the width
    let w0 = (b + h / 2) / h;
    vstd::arithmetic::div_mod::lemma_fundamental_div_mod(b + h / 2, h);
    assert(w0 * h <= b + h / 2 && b + h / 2 < w0 * h + h) by (nonlinear_arith)
        requires
            h >= 1,
            b + h / 2 == h * w0 + (b + h / 2) % h,
            0 <= (b + h / 2) % h < h,
    ;
    assert(w0 >= 1) by (nonlinear_arith)
        requires
            b + h / 2 < w0 * h + h,
            1 <= h <= b,
    ;
    let w = spec_internal_width(h);
    assert(w == w0);
    assert(w * h <= b + h && b <= w * h + h);

    // the aspect ratio, against the floor division defining n
    vstd::arithmetic::div_mod::lemma_fundamental_div_mod(b * ah, aw);
    assert(n * aw <= b * ah && b * ah < n * aw + aw) by (nonlinear_arith)
        requires
            aw >= 1,
            b * ah == aw * n + (b * ah) % aw,
            0 <= (b * ah) % aw < aw,
    ;
    assert(aw * (h * h) <= b * ah + aw * (h + 1) && b * ah <= aw * (h * h) + aw * (h + 1))
        by (nonlinear_arith)
        requires
            aw >= 1,
            h * h <= n + h,
            n <= h * h + h,
            n * aw <= b * ah,
            b * ah < n * aw + aw,
    ;
}

// ---------------------------------------------------------------------------
// Well-formedness
// ---------------------------------------------------------------------------

/// A material references only assets its storage holds, and always drives
/// one color source: a base color is present whether or not a texture is.
pub open spec fn material_wf(m: Material, s: AssetStorageView) -> bool {
    &&& m.base_color is Some
    &&& (m.albedo is Some ==> m.albedo.unwrap() < s.textures2d.len())
    &&& (m.shader is Some ==> m.shader.unwrap() < s.programs.len())
}

/// A node references an existing mesh, carries one material index per
/// primitive of that mesh, and every index names an existing material.
pub open spec fn node_wf(n: NodeView, s: AssetStorageView) -> bool {
    &&& 0 <= n.mesh < s.meshes.len()
    &&& n.materials.len() == s.meshes[n.mesh].primitives.len()
    &&& forall|j: int|
        0 <= j < n.materials.len() ==> (#[trigger] n.materials[j]) < s.materials.len()
}

/// Every mesh and material of the storage is well formed.
pub open spec fn storage_wf(s: AssetStorageView) -> bool {
    &&& forall|m: int| 0 <= m < s.meshes.len() ==> (#[trigger] s.meshes[m]).wf()
    &&& forall|k: int| 0 <= k < s.materials.len() ==> material_wf(#[trigger] s.materials[k], s)
}

// ---------------------------------------------------------------------------
// The world
// ---------------------------------------------------------------------------

/// The render/update state machine: the asset storage, the flattened node
/// list, the camera and the display viewport rectangle.
#[derive(Debug)]
pub struct World {
    pub assets: AssetStorage,
    pub nodes: Vec<Node>,
    pub camera: Camera,
    pub screen: (i32, i32, i32, i32),
}

impl World {
    /// The storage, every node, the camera and the viewport are well
    /// formed, and the two shader variants are installed.
    pub open spec fn wf(self) -> bool {
        &&& storage_wf(self.assets@)
        &&& self.assets@.programs.len() >= 1
        &&& forall|k: int|
            0 <= k < self.nodes@.len() ==> node_wf((#[trigger] self.nodes@[k])@, self.assets@)
        &&& self.camera.wf()
        &&& self.screen.2 >= 1
        &&& self.screen.3 >= 1
    }
}

/// Whether every value of `v` is below `bound`.
fn indices_below(v: &Vec<usize>, bound: usize) -> (r: bool)
    ensures
        r == forall|j: int| 0 <= j < v@.len() ==> (#[trigger] v@[j]) < bound,
{
    let mut k: usize = 0;
    let mut ok = true;
    while k < v.len()
        invariant
            k <= v.len(),
            ok == forall|j: int| 0 <= j < k ==> (#[trigger] v@[j]) < bound,
        decreases v.len() - k,
    {
        let below = v[k] < bound;
        ok = ok && below;
        k = k + 1;
    }
    ok
}

/// Whether a primitive is well formed.
fn prim_wf_check(p: &Primitive) -> (r: bool)
    ensures
        r == p@.wf(),
{
    if p.normals.len() != p.positions.len() || p.tex_coords.len() != p.positions.len()
        || p.indices.len() % 3 != 0 {
        return false;
    }
    let bound = p.positions.len();
    let mut k: usize = 0;
    let mut ok = true;
    while k < p.indices.len()
        invariant
            k <= p.indices@.len(),
            bound == p.positions@.len(),
            ok == forall|j: int| 0 <= j < k ==> p.indices@[j] < bound,
        decreases p.indices@.len() - k,
    {
        let below = (p.indices[k] as usize) < bound;
        ok = ok && below;
        k = k + 1;
    }
    ok
}

/// Whether a mesh is well formed.
fn mesh_wf_check(mesh: &Mesh) -> (r: bool)
    ensures
        r == mesh@.wf(),
{
    let mut k: usize = 0;
    let mut ok = true;
    while k < mesh.primitives.len()
        invariant
            k <= mesh.primitives@.len(),
            ok == forall|j: int| 0 <= j < k ==> (#[trigger] mesh@.primitives[j]).wf(),
        decreases mesh.primitives@.len() - k,
    {
        let good = prim_wf_check(&mesh.primitives[k]);
        proof {
            assert(mesh@.primitives[k as int] == mesh.primitives@[k as int]@);
        }
        ok = ok && good;
        k = k + 1;
    }
    ok
}

impl World {
    /// Tests the world's well-formedness at run time, so that a caller with
    /// a world of unknown provenance can reject it before updating or
    /// rendering.  Worlds built by `from_scene` satisfy it by construction.
    pub fn check_wf(&self) -> (r: bool)
        ensures
            r == self.wf(),
    {
        let mut ok = true;

        let mut m: usize = 0;
        while m < self.assets.meshes.len()
            invariant
                m <= self.assets.meshes@.len(),
                ok == forall|j: int| 0 <= j < m ==> (#[trigger] self.assets@.meshes[j]).wf(),
            decreases self.assets.meshes@.len() - m,
        {
            let good = mesh_wf_check(&self.assets.meshes[m]);
            proof {
                assert(self.assets@.meshes[m as int] == self.assets.meshes@[m as int]@);
            }
            ok = ok && good;
            m = m + 1;
        }
        if !ok {
            return false;
        }

        let mut k: usize = 0;
        while k < self.assets.materials.len()
            invariant
                k <= self.assets.materials@.len(),
                ok == forall|j: int|
                    0 <= j < k ==> material_wf(#[trigger] self.assets@.materials[j], self.assets@),
            decreases self.assets.materials@.len() - k,
        {
            let mat = &self.assets.materials[k];
            let good = mat.base_color.is_some() && (match mat.albedo {
                Some(t) => t < self.assets.textures2d.len(),
                None => true,
            }) && (match mat.shader {
                Some(s) => s < self.assets.programs.len(),
                None => true,
            });
            proof {
                assert(good == material_wf(self.assets@.materials[k as int], self.assets@));
            }
            ok = ok && good;
            k = k + 1;
        }
        if !ok {
            return false;
        }

        let mut n: usize = 0;
        while n < self.nodes.len()
            invariant
                n <= self.nodes@.len(),
                ok == forall|j: int|
                    0 <= j < n ==> node_wf((#[trigger] self.nodes@[j])@, self.assets@),
            decreases self.nodes@.len() - n,
        {
            let node = &self.nodes[n];
            let good = node.mesh < self.assets.meshes.len()
                && node.materials.len() == self.assets.meshes[node.mesh].primitives.len()
                && indices_below(&node.materials, self.assets.materials.len());
            ok = ok && good;
            n = n + 1;
        }
        if !ok {
            return false;
        }

        self.assets.programs.len() >= 1 && self.camera.yaw >= -crate::camera::TWO_PI_URAD
            && self.camera.yaw <= crate::camera::TWO_PI_URAD && self.camera.pitch
            >= -crate::camera::PITCH_BOUND_URAD && self.camera.pitch
            <= crate::camera::PITCH_BOUND_URAD && self.camera.dimensions.0 >= 1
            && self.camera.dimensions.1 >= 1 && self.screen.2 >= 1 && self.screen.3 >= 1
    }
}

/// Initial yaw, in microradians: a quarter turn, the heading of the default
/// eye at five units along the depth axis looking at the origin.
pub const DEFAULT_YAW_URAD: i64 = 1_570_796;

/// Initial pitch, in microradians: level.
pub const DEFAULT_PITCH_URAD: i64 = 0;

/// The default vertical field of view, in degrees.
pub const DEFAULT_FOVY_DEG: u32 = 45;

/// The camera every world starts with: the default orientation, field of
/// view and base internal resolution.
pub open spec fn spec_default_camera() -> Camera {
    Camera {
        yaw: DEFAULT_YAW_URAD,
        pitch: DEFAULT_PITCH_URAD,
        fovy_deg: DEFAULT_FOVY_DEG,
        dimensions: (BASE_RENDER_WIDTH, BASE_RENDER_HEIGHT),
    }
}

impl World {
    /// Builds the world from a decoded scene document and the two linked
    /// shader programs: runs the importer, installs the flat-color and
    /// textured programs, resolves every material's shader selector by the
    /// albedo rule, and places the camera at its fixed start.  Fails exactly
    /// when the import fails; no partial world is returned.
    pub fn from_scene(doc: &SceneDoc, shader_color: Program, shader_texture: Program) -> (r:
        Result<World, ImportError>)
        ensures
            match r {
                Ok(w) => ({
                    &&& import_spec(*doc) is Ok
                    &&& ({
                        let (s, nv) = import_spec(*doc).unwrap();
                        &&& w.assets@.meshes == s.meshes
                        &&& w.assets@.textures2d == s.textures2d
                        &&& w.assets@.programs == seq![shader_color, shader_texture]
                        &&& w.assets@.materials.len() == s.materials.len()
                        &&& (forall|i: int|
                            0 <= i < s.materials.len() ==> w.assets@.materials[i] == (Material {
                                shader: Some(spec_choose_shader(s.materials[i])),
                                ..s.materials[i]
                            }))
                        &&& node_views(w.nodes@) == nv
                    })
                    &&& w.camera == spec_default_camera()
                    &&& w.screen == (0i32, 0i32, 800i32, 600i32)
                    &&& w.wf()
                }),
                Err(e) => import_spec(*doc) == Err::<(AssetStorageView, Seq<NodeView>), _>(e),
            },
    {
        let (mut storage, nodes) = match read_from_document(doc) {
            Ok(x) => x,
            Err(e) => {
                return Err(e);
            },
        };
        let ghost s0 = storage@;
        let ghost nv = node_views(nodes@);
        storage.programs = vec![shader_color, shader_texture];
        proof {
            assert(storage@.programs =~= seq![shader_color, shader_texture]);
        }
        let ghost s1 = storage@;
        let ghost mats0 = storage.materials@;
        let n = storage.materials.len();
        let mut i: usize = 0;
        while i < n
            invariant
                i <= n,
                n == storage.materials@.len(),
                mats0.len() == n,
                storage@.meshes == s1.meshes,
                storage@.textures2d == s1.textures2d,
                storage@.programs == s1.programs,
                forall|k: int|
                    0 <= k < i ==> storage.materials@[k] == (Material {
                        shader: Some(spec_choose_shader(mats0[k])),
                        ..mats0[k]
                    }),
                forall|k: int| i <= k < n ==> storage.materials@[k] == mats0[k],
            decreases n - i,
        {
            let shader = storage.materials[i].choose_shader(storage.programs.as_slice());
            let mut m = storage.materials[i];
            m.shader = Some(shader);
            storage.materials[i] = m;
            i = i + 1;
        }
        let camera = Camera::new(
            DEFAULT_YAW_URAD,
            DEFAULT_PITCH_URAD,
            DEFAULT_FOVY_DEG,
            (BASE_RENDER_WIDTH, BASE_RENDER_HEIGHT),
        );
        let w = World { assets: storage, nodes, camera, screen: (0, 0, 800, 600) };
        proof {
            let nmat = doc.materials@.len() as int;
            lemma_node_material_counts(*doc, s0, nv);
            lemma_node_material_refs(*doc, s0, nv);
            lemma_import_meshes_ok(doc.buffers@, nmat, doc.meshes@, doc.meshes@.len() as int);
            lemma_import_materials_ok(doc.images@, doc.materials@, nmat);
            lemma_import_materials_len(doc.images@, doc.materials@, nmat);
            assert(w.camera == spec_default_camera());
            assert forall|k: int| 0 <= k < w.nodes@.len() implies node_wf(
                (#[trigger] w.nodes@[k])@,
                w.assets@,
            ) by {
                assert(nv[k] == w.nodes@[k]@);
            }
            assert(w.wf());
        }
        Ok(w)
    }
}

// ---------------------------------------------------------------------------
// Per-frame update
// ---------------------------------------------------------------------------

/// The longest frame the update accepts, in microseconds.
pub const FRAME_DELTA_MAX_MICROS: u64 = 10_000_000;

/// A held horizontal movement key contributes the elapsed time, multiplied
/// by seven halves while the speed modifier is held; a released key
/// contributes nothing.
pub open spec fn spec_axis(held: bool, shifted: bool, delta: int) -> int {
    if held {
        if shifted {
            delta * 7 / 2
        } else {
            delta
        }
    } else {
        0
    }
}

/// A held vertical movement key contributes the elapsed time unmodified.
pub open spec fn spec_vert_axis(held: bool, delta: int) -> int {
    if held {
        delta
    } else {
        0
    }
}

/// The mouse motion normalized by the viewport span and scaled by elapsed
/// time, in micro-units, rounding toward zero.
pub open spec fn spec_mouse_scaled(rel: int, delta: int, span: int) -> int {
    if rel >= 0 {
        rel * delta / span
    } else {
        -((-rel) * delta / span)
    }
}

/// One horizontal movement axis, as `spec_axis` describes.
fn axis(held: bool, shifted: bool, delta: i64) -> (r: i64)
    requires
        0 <= delta <= FRAME_DELTA_MAX_MICROS,
    ensures
        r == spec_axis(held, shifted, delta as int),
        0 <= r <= delta * 7 / 2,
{
    if held {
        if shifted {
            delta * 7 / 2
        } else {
            delta
        }
    } else {
        0
    }
}

/// One vertical movement axis, as `spec_vert_axis` describes.
fn vert_axis(held: bool, delta: i64) -> (r: i64)
    requires
        0 <= delta <= FRAME_DELTA_MAX_MICROS,
    ensures
        r == spec_vert_axis(held, delta as int),
        0 <= r <= delta,
{
    if held {
        delta
    } else {
        0
    }
}

/// The normalized, time-scaled mouse motion, as `spec_mouse_scaled`
/// describes.
fn mouse_scaled(rel: i32, delta: i64, span: i32) -> (r: i64)
    requires
        span >= 1,
        0 <= delta <= FRAME_DELTA_MAX_MICROS,
    ensures
        r == spec_mouse_scaled(rel as int, delta as int, span as int),
{
    proof {
        assert(-0x8000_0000 * 0xA0_0000 <= (rel as int) * (delta as int) <= 0x8000_0000
            * 0xA0_0000) by (nonlinear_arith)
            requires
                -0x8000_0000 <= rel <= 0x8000_0000,
                0 <= delta <= 0xA0_0000,
        ;
    }
    if rel >= 0 {
        (rel as i64) * delta / (span as i64)
    } else {
        let mag = -(rel as i64);
        proof {
            assert(0 <= (mag as int) * (delta as int) <= 0x8000_0000 * 0xA0_0000)
                by (nonlinear_arith)
                requires
                    0 <= mag <= 0x8000_0000,
                    0 <= delta <= 0xA0_0000,
            ;
        }
        -(mag * delta / (span as i64))
    }
}

impl World {
    /// One frame's update, called once before each render: turns the input
    /// snapshot's key states into six movement magnitudes (the speed
    /// modifier applies to horizontal movement only), normalizes the mouse
    /// motion by the current display viewport, updates the camera's
    /// orientation, and returns the move the application layer applies to
    /// its position.
    pub fn update(&mut self, input: &InputState, delta_micros: u64) -> (mv: CameraMove)
        requires
            old(self).wf(),
            delta_micros <= FRAME_DELTA_MAX_MICROS,
            -MOUSE_DELTA_MAX <= spec_mouse_scaled(
                input.mouse_rel.0 as int,
                delta_micros as int,
                old(self).screen.2 as int,
            ) <= MOUSE_DELTA_MAX,
            -MOUSE_DELTA_MAX <= spec_mouse_scaled(
                input.mouse_rel.1 as int,
                delta_micros as int,
                old(self).screen.3 as int,
            ) <= MOUSE_DELTA_MAX,
        ensures
            final(self).wf(),
            final(self).assets == old(self).assets,
            final(self).nodes == old(self).nodes,
            final(self).screen == old(self).screen,
            final(self).camera.fovy_deg == old(self).camera.fovy_deg,
            final(self).camera.dimensions == old(self).camera.dimensions,
            final(self).camera.yaw == spec_wrap_yaw(
                old(self).camera.yaw + spec_mouse_scaled(
                    input.mouse_rel.0 as int,
                    delta_micros as int,
                    old(self).screen.2 as int,
                ) * MOUSE_SENSITIVITY,
            ),
            final(self).camera.pitch == spec_clamp_pitch(
                old(self).camera.pitch + spec_mouse_scaled(
                    input.mouse_rel.1 as int,
                    delta_micros as int,
                    old(self).screen.3 as int,
                ) * MOUSE_SENSITIVITY,
            ),
            mv.forward == MOVEMENT_SPEED * (spec_axis(input.w, input.shift, delta_micros as int)
                - spec_axis(input.s, input.shift, delta_micros as int)),
            mv.strafe == MOVEMENT_SPEED * (spec_axis(input.d, input.shift, delta_micros as int)
                - spec_axis(input.a, input.shift, delta_micros as int)),
            mv.vertical == MOVEMENT_SPEED * (spec_vert_axis(input.e, delta_micros as int)
                - spec_vert_axis(input.q, delta_micros as int)),
    {
        let delta = delta_micros as i64;
        let front = axis(input.w, input.shift, delta);
        let right = axis(input.d, input.shift, delta);
        let back = axis(input.s, input.shift, delta);
        let left = axis(input.a, input.shift, delta);
        let up = vert_axis(input.e, delta);
        let down = vert_axis(input.q, delta);
        let m0 = mouse_scaled(input.mouse_rel.0, delta, self.screen.2);
        let m1 = mouse_scaled(input.mouse_rel.1, delta, self.screen.3);
        self.camera.update(front, right, back, left, up, down, (m0, m1))
    }

    /// Records the new display rectangle and recomputes the internal render
    /// resolution: the same pixel budget at the new aspect ratio, both
    /// dimensions rounded to nearest and at least one.  The camera's render
    /// target is resized; the application layer recreates its attachments.
    pub fn update_viewport(&mut self, x: i32, y: i32, width: i32, height: i32)
        requires
            old(self).wf(),
            width != x,
            height != y,
            width >= 1,
            height >= 1,
        ensures
            final(self).wf(),
            final(self).assets == old(self).assets,
            final(self).nodes == old(self).nodes,
            final(self).screen == (x, y, width, height),
            final(self).camera.yaw == old(self).camera.yaw,
            final(self).camera.pitch == old(self).camera.pitch,
            final(self).camera.fovy_deg == old(self).camera.fovy_deg,
            ({
                let aw = spec_abs(width as int - x as int);
                let ah = spec_abs(height as int - y as int);
                let h = spec_internal_height(aw, ah);
                &&& final(self).camera.dimensions.1 == h
                &&& final(self).camera.dimensions.0 == spec_internal_width(h)
            }),
    {
        self.screen = (x, y, width, height);
        let dw = (width as i64) - (x as i64);
        let dh = (height as i64) - (y as i64);
        let aw: u64 = if dw >= 0 {
            dw as u64
        } else {
            (-dw) as u64
        };
        let ah: u64 = if dh >= 0 {
            dh as u64
        } else {
            (-dh) as u64
        };
        proof {
            assert(ah <= 0x1_0000_0000);
            assert((BASE_PIXEL_COUNT as int) * (ah as int) <= 0x1_2C00_0000_0000)
                by (nonlinear_arith)
                requires
                    ah <= 0x1_0000_0000,
            ;
        }
        let n = (BASE_PIXEL_COUNT as u64) * ah / aw;
        proof {
            assert((n as int) <= (BASE_PIXEL_COUNT as int) * (ah as int)) by (nonlinear_arith)
                requires
                    1 <= aw,
                    n as int == (BASE_PIXEL_COUNT as int) * (ah as int) / (aw as int),
                    0 <= (BASE_PIXEL_COUNT as int) * (ah as int),
            ;
        }
        let h0 = isqrt_rounded(n);
        proof {
            lemma_isqrt_rounded_props(n as int);
            assert(h0 < 0x8000_0000) by (nonlinear_arith)
                requires
                    0 <= h0,
                    (h0 as int) * (h0 as int) <= n + h0,
                    n <= 0x1_2C00_0000_0000,
            ;
        }
        let h: u64 = if h0 < 1 {
            1
        } else {
            h0
        };
        let w0 = ((BASE_PIXEL_COUNT as u64) + h / 2) / h;
        let w: u64 = if w0 < 1 {
            1
        } else {
            w0
        };
        self.camera.set_dimensions((w as u32, h as u32));
    }
}

/// The absolute value.
pub open spec fn spec_abs(v: int) -> int {
    if v < 0 {
        -v
    } else {
        v
    }
}

// ---------------------------------------------------------------------------
// The frame plan
// ---------------------------------------------------------------------------

/// What drives a draw's fragment color: an albedo texture bound to the
/// fixed texture unit, or a flat base color uploaded as a uniform.  Exactly
/// one applies to every draw.
#[derive(Debug, Clone, Copy, PartialEq, Eq)]
pub enum ColorSource {
    Texture(usize),
    Flat(Vec3Bits),
}

/// One indexed draw of the frame: which node and primitive it renders,
/// through which program, with which color source, and how many indices the
/// draw consumes.
#[derive(Debug, Clone, Copy, PartialEq, Eq)]
pub struct DrawCmd {
    pub node: usize,
    pub mesh: usize,
    pub primitive: usize,
    pub program: usize,
    pub color: ColorSource,
    pub index_count: usize,
}

/// Bit pattern of the clear color's red channel.
pub const CLEAR_R_BITS: u32 = 0x3F19_999A;

/// Bit pattern of the clear color's green channel.
pub const CLEAR_G_BITS: u32 = 0x0000_0000;

/// Bit pattern of the clear color's blue channel.
pub const CLEAR_B_BITS: u32 = 0x3F4C_CCCD;

/// Bit pattern of the clear color's alpha channel.
pub const CLEAR_A_BITS: u32 = 0x3F80_0000;

/// One frame's whole draw plan: the off-screen target's dimensions, the
/// clear color, the ordered draw list, and the display rectangle the target
/// is blitted into (nearest-neighbour, color and depth) after the draws.
#[derive(Debug)]
pub struct FramePlan {
    pub target: (u32, u32),
    pub clear_color: [u32; 4],
    pub draws: Vec<DrawCmd>,
    pub blit: (i32, i32, i32, i32),
}

/// The draw one node's primitive issues: the material comes from the node's
/// per-primitive list, the program from the material's resolved selector
/// (program zero when unresolved), and the color source from the albedo
/// rule.
pub open spec fn spec_draw_cmd(w: World, n: int, p: int) -> DrawCmd {
    let node = w.nodes@[n];
    let mat = w.assets.materials@[node.materials@[p] as int];
    DrawCmd {
        node: n as usize,
        mesh: node.mesh,
        primitive: p as usize,
        program: match mat.shader {
            Some(s) => s,
            None => 0usize,
        },
        color: match mat.albedo {
            Some(t) => ColorSource::Texture(t),
            None => ColorSource::Flat(mat.base_color.unwrap()),
        },
        index_count: w.assets.meshes@[node.mesh as int].primitives@[p].indices.len(),
    }
}

/// The draws of one node: one per primitive of its mesh, in order.
pub open spec fn spec_node_draws(w: World, n: int) -> Seq<DrawCmd> {
    Seq::new(
        w.assets.meshes@[w.nodes@[n].mesh as int].primitives@.len(),
        |p: int| spec_draw_cmd(w, n, p),
    )
}

/// The draws of the first `n` nodes, in node order.
pub open spec fn spec_draws_prefix(w: World, n: int) -> Seq<DrawCmd>
    decreases n,
{
    if n <= 0 {
        Seq::empty()
    } else {
        spec_draws_prefix(w, n - 1) + spec_node_draws(w, n - 1)
    }
}

/// The frame's whole draw list: every node's primitives, nodes in list
/// order.
pub open spec fn spec_draws(w: World) -> Seq<DrawCmd> {
    spec_draws_prefix(w, w.nodes@.len() as int)
}

impl World {
    /// Plans one frame: the off-screen target is cleared and, for every
    /// node and every primitive of its mesh, one indexed draw is issued
    /// with the material's program and color source; the target is then
    /// blitted into the display rectangle.  The application layer executes
    /// the plan against the device.
    pub fn render(&self) -> (plan: FramePlan)
        requires
            self.wf(),
        ensures
            plan.target == self.camera.dimensions,
            plan.clear_color@ == seq![CLEAR_R_BITS, CLEAR_G_BITS, CLEAR_B_BITS, CLEAR_A_BITS],
            plan.blit == self.screen,
            plan.draws@ == spec_draws(*self),
    {
        let clear_color: [u32; 4] = [CLEAR_R_BITS, CLEAR_G_BITS, CLEAR_B_BITS, CLEAR_A_BITS];
        proof {
            assert(clear_color@ =~= seq![CLEAR_R_BITS, CLEAR_G_BITS, CLEAR_B_BITS, CLEAR_A_BITS]);
        }
        let mut draws: Vec<DrawCmd> = Vec::new();
        proof {
            assert(draws@ =~= spec_draws_prefix(*self, 0));
        }
        let mut n: usize = 0;
        while n < self.nodes.len()
            invariant
                self.wf(),
                n <= self.nodes@.len(),
                draws@ == spec_draws_prefix(*self, n as int),
            decreases self.nodes@.len() - n,
        {
            let node = &self.nodes[n];
            let ghost base = draws@;
            let np = self.assets.meshes[node.mesh].primitives.len();
            let mut p: usize = 0;
            proof {
                assert(spec_node_draws(*self, n as int).subrange(0, 0) =~= Seq::<
                    DrawCmd,
                >::empty());
            }
            while p < np
                invariant
                    self.wf(),
                    n < self.nodes@.len(),
                    node == &self.nodes@[n as int],
                    np == spec_node_draws(*self, n as int).len(),
                    np == self.assets.meshes@[self.nodes@[n as int].mesh as int].primitives@.len(),
                    p <= np,
                    draws@ == base + spec_node_draws(*self, n as int).subrange(0, p as int),
                decreases np - p,
            {
                let mi = node.materials[p];
                let mat = &self.assets.materials[mi];
                let program = match mat.shader {
                    Some(s) => s,
                    None => 0usize,
                };
                let color = match mat.albedo {
                    Some(t) => ColorSource::Texture(t),
                    None => ColorSource::Flat(mat.base_color.unwrap()),
                };
                let index_count = self.assets.meshes[node.mesh].primitives[p].index_count();
                let cmd = DrawCmd { node: n, mesh: node.mesh, primitive: p, program, color, index_count };
                draws.push(cmd);
                proof {
                    assert(cmd == spec_draw_cmd(*self, n as int, p as int));
                    assert(draws@ =~= base + spec_node_draws(*self, n as int).subrange(
                        0,
                        p as int + 1,
                    ));
                }
                p = p + 1;
            }
            proof {
                assert(spec_node_draws(*self, n as int).subrange(
                    0,
                    spec_node_draws(*self, n as int).len() as int,
                ) =~= spec_node_draws(*self, n as int));
                assert(draws@ == spec_draws_prefix(*self, n as int + 1));
            }
            n = n + 1;
        }
        FramePlan { target: self.camera.dimensions, clear_color, draws, blit: self.screen }
    }
}

} // verus!
