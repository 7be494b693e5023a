//! Flattening the document's scene graph into the node list.
//!
//! The hierarchy is walked depth first from the default scene's roots, in
//! order.  Each node is visited at most once -- an auxiliary visited set
//! de-duplicates nodes reachable over several paths -- and the hierarchy is
//! discarded afterwards: only the flat list survives into the render loop.
//! A visited node contributes its accumulated transform chain, which is the
//! parent's chain extended by the node's local transform: the child's world
//! transform is parent-then-local, never the other way around.  A node with
//! a mesh reference emits one flat `Node` carrying the mesh index and the
//! per-primitive material indices recorded for that mesh.

use vstd::prelude::*;

use crate::gltf::NodeDef;
use crate::mat::Mat4;
use crate::render::Node;
use crate::render::NodeView;
use crate::render::node_views;

verus! {

/// How many entries of `s` are false: the number of nodes still unvisited.
pub open spec fn count_false(s: Seq<bool>) -> int
    decreases s.len(),
{
    if s.len() == 0 {
        0
    } else {
        count_false(s.drop_last()) + if s.last() {
            0int
        } else {
            1int
        }
    }
}

/// The unvisited count is bounded by the set's size.
pub proof fn lemma_count_false_bounds(s: Seq<bool>)
    ensures
        0 <= count_false(s) <= s.len(),
    decreases s.len(),
{
    if s.len() > 0 {
        lemma_count_false_bounds(s.drop_last());
    }
}

/// Marking an unvisited node visited lowers the unvisited count by one.
pub proof fn lemma_count_false_update(s: Seq<bool>, i: int)
    requires
        0 <= i < s.len(),
        !s[i],
    ensures
        count_false(s.update(i, true)) == count_false(s) - 1,
    decreases s.len(),
{
    let t = s.update(i, true);
    if i == s.len() - 1 {
        assert(t.drop_last() =~= s.drop_last());
    } else {
        assert(t.drop_last() =~= s.drop_last().update(i, true));
        lemma_count_false_update(s.drop_last(), i);
        assert(t.last() == s.last());
    }
}

/// The traversal stack entries for a node's children: pushed in reverse so
/// that the first child is popped, and visited, first.  Every child starts
/// from the same accumulated chain.
pub open spec fn child_entries(children: Seq<usize>, chain: Seq<Mat4>) -> Seq<(int, Seq<Mat4>)> {
    Seq::new(children.len(), |i: int| (children[children.len() - 1 - i] as int, chain))
}

/// The initial traversal stack: the scene's roots in reverse, each with an
/// empty accumulated chain.
pub open spec fn root_stack(roots: Seq<usize>) -> Seq<(int, Seq<Mat4>)> {
    Seq::new(roots.len(), |i: int| (roots[roots.len() - 1 - i] as int, Seq::<Mat4>::empty()))
}

/// One whole depth-first traversal, as a function of the remaining stack,
/// the visited set and the nodes emitted so far.  Popping an out-of-range or
/// already visited index skips it; otherwise the node is marked visited, its
/// local transform extends the chain, a mesh-bearing node is emitted, and
/// its children are pushed.
pub open spec fn flatten_iter(
    defs: Seq<NodeDef>,
    mats: Seq<Seq<usize>>,
    stack: Seq<(int, Seq<Mat4>)>,
    visited: Seq<bool>,
    acc: Seq<NodeView>,
) -> Seq<NodeView>
    decreases count_false(visited), stack.len(),
{
    if stack.len() == 0 {
        acc
    } else {
        let top = stack.last();
        let rest = stack.drop_last();
        let idx = top.0;
        if idx < 0 || idx >= defs.len() || idx >= visited.len() || visited[idx] {
            flatten_iter(defs, mats, rest, visited, acc)
        } else {
            proof {
                lemma_count_false_bounds(visited);
                lemma_count_false_update(visited, idx);
                lemma_count_false_bounds(visited.update(idx, true));
            }
            let v2 = visited.update(idx, true);
            let chain = top.1.push(defs[idx].local);
            let acc2 = match defs[idx].mesh {
                Some(m) => if m < mats.len() {
                    acc.push(NodeView { mesh: m as int, materials: mats[m as int], transform: chain })
                } else {
                    acc
                },
                None => acc,
            };
            let stack2 = rest + child_entries(defs[idx].children@, chain);
            flatten_iter(defs, mats, stack2, v2, acc2)
        }
    }
}

/// What flattening a whole document's scene graph yields.
pub open spec fn spec_flatten(
    defs: Seq<NodeDef>,
    mats: Seq<Seq<usize>>,
    roots: Seq<usize>,
) -> Seq<NodeView> {
    flatten_iter(
        defs,
        mats,
        root_stack(roots),
        Seq::new(defs.len(), |i: int| false),
        Seq::empty(),
    )
}

/// The traversal stack's mathematical contents.
pub open spec fn stack_views(s: Seq<(usize, Vec<Mat4>)>) -> Seq<(int, Seq<Mat4>)> {
    Seq::new(s.len(), |i: int| (s[i].0 as int, s[i].1@))
}

/// Copies a transform chain.
fn clone_chain(v: &Vec<Mat4>) -> (r: Vec<Mat4>)
    ensures
        r@ == v@,
{
    let r = v.clone();
    proof {
        assert(r@ =~= v@);
    }
    r
}

/// Copies a material-index list.
fn clone_indices(v: &Vec<usize>) -> (r: Vec<usize>)
    ensures
        r@ == v@,
{
    let r = v.clone();
    proof {
        assert(r@ =~= v@);
    }
    r
}

/// Flattens the scene graph depth first from `roots`, de-duplicating nodes
/// with a visited set, exactly as `spec_flatten` describes.
pub fn flatten_nodes(defs: &Vec<NodeDef>, mats: &Vec<Vec<usize>>, roots: &Vec<usize>) -> (r: Vec<
    Node,
>)
    ensures
        node_views(r@) == spec_flatten(defs@, crate::gltf::usize_list_views(mats@), roots@),
{
    let ghost gmats = crate::gltf::usize_list_views(mats@);
    let n = defs.len();
    let mut visited: Vec<bool> = vec![false; n];
    proof {
        assert(visited@ =~= Seq::new(defs@.len(), |i: int| false));
    }
    let mut stack: Vec<(usize, Vec<Mat4>)> = Vec::new();
    let mut i: usize = roots.len();
    while i > 0
        invariant
            i <= roots.len(),
            stack@.len() == roots.len() - i,
            forall|j: int|
                0 <= j < stack@.len() ==> (#[trigger] stack@[j]).0 == roots@[roots@.len() - 1 - j]
                    && stack@[j].1@ =~= Seq::<Mat4>::empty(),
        decreases i,
    {
        i = i - 1;
        stack.push((roots[i], Vec::new()));
    }
    proof {
        assert(stack_views(stack@) =~= root_stack(roots@));
    }
    let mut out: Vec<Node> = Vec::new();
    let ghost goal = flatten_iter(
        defs@,
        gmats,
        root_stack(roots@),
        Seq::new(defs@.len(), |i: int| false),
        Seq::empty(),
    );
    proof {
        assert(node_views(out@) =~= Seq::<NodeView>::empty());
    }
    while stack.len() > 0
        invariant
            n == defs@.len(),
            visited@.len() == defs@.len(),
            flatten_iter(defs@, gmats, stack_views(stack@), visited@, node_views(out@)) == goal,
            gmats == crate::gltf::usize_list_views(mats@),
        decreases count_false(visited@), stack@.len(),
    {
        let ghost stack0 = stack_views(stack@);
        let ghost visited0 = visited@;
        let ghost out0 = node_views(out@);
        proof {
            lemma_count_false_bounds(visited@);
        }
        let top = stack.pop().unwrap();
        let (idx, chain) = top;
        proof {
            assert(stack0.last() == (idx as int, chain@));
            assert(stack_views(stack@) =~= stack0.drop_last());
        }
        if idx < n && !visited[idx] {
            proof {
                lemma_count_false_bounds(visited@);
                lemma_count_false_update(visited@, idx as int);
            }
            visited[idx] = true;
            proof {
                lemma_count_false_bounds(visited@);
            }
            let mut chain2 = chain;
            chain2.push(defs[idx].local);
            match defs[idx].mesh {
                Some(m) => {
                    if m < mats.len() {
                        let node = Node {
                            mesh: m,
                            materials: clone_indices(&mats[m]),
                            transform: clone_chain(&chain2),
                        };
                        let ghost nv = node@;
                        out.push(node);
                        proof {
                            assert(nv == NodeView {
                                mesh: m as int,
                                materials: gmats[m as int],
                                transform: chain2@,
                            });
                            assert(node_views(out@) =~= out0.push(nv));
                        }
                    }
                },
                None => {},
            }
            // push the children in reverse, so the first child is visited
            // first
            let nc = defs[idx].children.len();
            let ghost rest0 = stack_views(stack@);
            let mut j: usize = nc;
            while j > 0
                invariant
                    j <= nc,
                    nc == defs@[idx as int].children@.len(),
                    idx < defs@.len(),
                    stack@.len() == rest0.len() + (nc - j),
                    forall|k: int|
                        0 <= k < rest0.len() ==> ((#[trigger] stack@[k]).0 as int, stack@[k].1@)
                            == rest0[k],
                    forall|k: int|
                        rest0.len() <= k < stack@.len() ==> ((#[trigger] stack@[k]).0 as int,
                        stack@[k].1@) == (
                            defs@[idx as int].children@[nc - 1 - (k - rest0.len())] as int,
                            chain2@,
                        ),
                decreases j,
            {
                j = j - 1;
                stack.push((defs[idx].children[j], clone_chain(&chain2)));
            }
            proof {
                assert(stack_views(stack@) =~~= rest0 + child_entries(
                    defs@[idx as int].children@,
                    chain2@,
                ));
                assert(flatten_iter(defs@, gmats, stack0, visited0, out0) == flatten_iter(
                    defs@,
                    gmats,
                    stack_views(stack@),
                    visited@,
                    node_views(out@),
                ));
            }
        } else {
            proof {
                assert(flatten_iter(defs@, gmats, stack0, visited0, out0) == flatten_iter(
                    defs@,
                    gmats,
                    stack_views(stack@),
                    visited@,
                    node_views(out@),
                ));
            }
        }
    }
    proof {
        assert(node_views(out@) == goal);
    }
    out
}

// ---------------------------------------------------------------------------
// Laws
// ---------------------------------------------------------------------------

/// A flattened node is well formed against the per-mesh material-index
/// table: its mesh exists and it carries that mesh's recorded indices.
pub open spec fn node_ok(nv: NodeView, mats: Seq<Seq<usize>>) -> bool {
    &&& 0 <= nv.mesh < mats.len()
    &&& nv.materials == mats[nv.mesh]
}

/// Every node the traversal emits is well formed, provided those already
/// emitted are.
pub proof fn lemma_flatten_all_ok(
    defs: Seq<NodeDef>,
    mats: Seq<Seq<usize>>,
    stack: Seq<(int, Seq<Mat4>)>,
    visited: Seq<bool>,
    acc: Seq<NodeView>,
)
    requires
        forall|k: int| 0 <= k < acc.len() ==> node_ok(#[trigger] acc[k], mats),
    ensures
        forall|k: int|
            0 <= k < flatten_iter(defs, mats, stack, visited, acc).len() ==> node_ok(
                #[trigger] flatten_iter(defs, mats, stack, visited, acc)[k],
                mats,
            ),
    decreases count_false(visited), stack.len(),
{
    lemma_count_false_bounds(visited);
    if stack.len() == 0 {
    } else {
        let top = stack.last();
        let rest = stack.drop_last();
        let idx = top.0;
        if idx < 0 || idx >= defs.len() || idx >= visited.len() || visited[idx] {
            lemma_flatten_all_ok(defs, mats, rest, visited, acc);
            assert(flatten_iter(defs, mats, stack, visited, acc) == flatten_iter(
                defs,
                mats,
                rest,
                visited,
                acc,
            ));
        } else {
            lemma_count_false_update(visited, idx);
            lemma_count_false_bounds(visited.update(idx, true));
            let v2 = visited.update(idx, true);
            let chain = top.1.push(defs[idx].local);
            let acc2 = match defs[idx].mesh {
                Some(m) => if m < mats.len() {
                    acc.push(
                        NodeView { mesh: m as int, materials: mats[m as int], transform: chain },
                    )
                } else {
                    acc
                },
                None => acc,
            };
            let stack2 = rest + child_entries(defs[idx].children@, chain);
            assert forall|k: int| 0 <= k < acc2.len() implies node_ok(#[trigger] acc2[k], mats) by {
                if k < acc.len() {
                    assert(acc2[k] == acc[k]);
                }
            }
            lemma_flatten_all_ok(defs, mats, stack2, v2, acc2);
            assert(flatten_iter(defs, mats, stack, visited, acc) == flatten_iter(
                defs,
                mats,
                stack2,
                v2,
                acc2,
            ));
        }
    }
}

/// Law: transform composition order.  In a scene whose root carries local
/// transform `P` and whose only child carries local transform `L`, the
/// flattened list holds the root with chain `[P]` and the child with chain
/// `[P, L]`: the child's world transform is the parent's transform applied
/// first, then the child's own -- parent times local, never local times
/// parent.
pub proof fn lemma_transform_composition(
    parent: NodeDef,
    child: NodeDef,
    mats: Seq<Seq<usize>>,
    pm: usize,
    cm: usize,
)
    requires
        parent.children@ == seq![1usize],
        child.children@.len() == 0,
        parent.mesh == Some(pm),
        child.mesh == Some(cm),
        pm < mats.len(),
        cm < mats.len(),
    ensures
        ({
            let flat = spec_flatten(seq![parent, child], mats, seq![0usize]);
            &&& flat.len() == 2
            &&& flat[0].mesh == pm as int
            &&& flat[0].transform == seq![parent.local]
            &&& flat[1].mesh == cm as int
            &&& flat[1].materials == mats[cm as int]
            &&& flat[1].transform == seq![parent.local, child.local]
        }),
{
    let defs = seq![parent, child];
    let roots = seq![0usize];
    let s0 = root_stack(roots);
    let v0 = Seq::new(defs.len(), |i: int| false);
    let a0 = Seq::<NodeView>::empty();
    assert(s0 =~~= seq![(0int, Seq::<Mat4>::empty())]);

    // visit the root: emit it and push its only child
    let chain1 = Seq::<Mat4>::empty().push(parent.local);
    let v1 = v0.update(0, true);
    let a1 = a0.push(NodeView { mesh: pm as int, materials: mats[pm as int], transform: chain1 });
    let s1 = s0.drop_last() + child_entries(defs[0].children@, chain1);
    assert(s0.last() == (0int, Seq::<Mat4>::empty()));
    assert(s0[0].1 =~= Seq::<Mat4>::empty());
    assert(defs[0].children@ == seq![1usize]);
    assert(flatten_iter(defs, mats, s0, v0, a0) == flatten_iter(defs, mats, s1, v1, a1));
    assert(s1 =~~= seq![(1int, chain1)]);

    // visit the child: emit it; it has no children
    let chain2 = chain1.push(child.local);
    let v2 = v1.update(1, true);
    let a2 = a1.push(NodeView { mesh: cm as int, materials: mats[cm as int], transform: chain2 });
    let s2 = s1.drop_last() + child_entries(defs[1].children@, chain2);
    assert(s1.last() == (1int, chain1));
    assert(!v1[1]);
    assert(flatten_iter(defs, mats, s1, v1, a1) == flatten_iter(defs, mats, s2, v2, a2));
    assert(s2.len() == 0);
    assert(flatten_iter(defs, mats, s2, v2, a2) == a2);

    assert(spec_flatten(defs, mats, roots) == a2);
    assert(a2[0].transform =~= seq![parent.local]);
    assert(a2[1].transform =~= seq![parent.local, child.local]);
}

} // verus!
