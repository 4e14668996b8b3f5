use vstd::prelude::*;

use crate::components::{find_key, AssetKey};

verus! {

/// A descendant of a tagged scene root, as the replacement pass sees it.
#[derive(Clone, Copy, Debug, PartialEq, Eq, Structural)]
pub struct SceneDescendant {
    /// The standard material the descendant renders with, if it has one.
    pub standard_material: Option<AssetKey>,
    /// The descendant carries toon settings of its own, which take precedence
    /// over the root's.
    pub has_local_override: bool,
    /// The standard material's asset is loaded.
    pub material_loaded: bool,
}

/// The replacement decided for the descendants of one scene root.
#[derive(Debug)]
pub struct ScenePlan {
    /// One entry per toon material to create: the index of the first
    /// descendant that uses the standard material it is built from.
    pub slot_sources: Vec<usize>,
    /// For each descendant, the slot whose toon material replaces its
    /// standard material, or `None` when it is left alone.
    pub assignments: Vec<Option<usize>>,
    /// Every standard material under the root was converted, so the root can
    /// be marked complete and need not be scanned again.
    pub complete: bool,
}

/// The descendant is converted by its root: it has a loaded standard material
/// and no toon settings of its own.
pub open spec fn convertible(d: SceneDescendant) -> bool {
    d.standard_material is Some && !d.has_local_override && d.material_loaded
}

/// The descendant would be converted by its root, but its standard material is
/// not loaded yet.
pub open spec fn unresolved(d: SceneDescendant) -> bool {
    d.standard_material is Some && !d.has_local_override && !d.material_loaded
}

/// The standard material of a descendant.
pub open spec fn source_key(d: SceneDescendant) -> AssetKey {
    d.standard_material.unwrap()
}

/// Each of the first `n` descendants gets a slot exactly when it is
/// convertible, and the slot's material was built from the same standard
/// material.
pub open spec fn assignments_ok(
    descs: Seq<SceneDescendant>,
    n: int,
    sources: Seq<usize>,
    assigns: Seq<Option<usize>>,
) -> bool {
    &&& assigns.len() == n
    &&& forall|i: int|
        0 <= i < n ==> ((#[trigger] assigns[i]) is Some <==> convertible(descs[i]))
    &&& forall|i: int|
        0 <= i < n && (#[trigger] assigns[i]) is Some ==> {
            &&& assigns[i].unwrap() < sources.len()
            &&& source_key(descs[i]) == source_key(descs[sources[assigns[i].unwrap() as int] as int])
        }
}

/// The slots are the distinct standard materials among the convertible
/// descendants in `[0, n)`, in the order of their first use.
pub open spec fn slots_ok(
    descs: Seq<SceneDescendant>,
    n: int,
    sources: Seq<usize>,
    assigns: Seq<Option<usize>>,
) -> bool {
    &&& forall|k: int|
        0 <= k < sources.len() ==> {
            &&& (#[trigger] sources[k]) < n
            &&& convertible(descs[sources[k] as int])
            &&& assigns[sources[k] as int] == Some(k as usize)
        }
    &&& forall|k1: int, k2: int|
        0 <= k1 < k2 < sources.len() ==> #[trigger] sources[k1] < #[trigger] sources[k2]
    &&& forall|k1: int, k2: int|
        0 <= k1 < sources.len() && 0 <= k2 < sources.len() && k1 != k2 ==> source_key(
            descs[#[trigger] sources[k1] as int],
        ) != source_key(descs[#[trigger] sources[k2] as int])
    &&& forall|k: int, j: int|
        0 <= k < sources.len() && 0 <= j < sources[k] && convertible(#[trigger] descs[j])
            ==> source_key(descs[j]) != source_key(descs[#[trigger] sources[k] as int])
}

/// Some descendant's standard material is still loading.
pub open spec fn any_unresolved(descs: Seq<SceneDescendant>) -> bool {
    exists|i: int| 0 <= i < descs.len() && unresolved(#[trigger] descs[i])
}

/// The plan is the replacement of the descendants `descs` of one root.
pub open spec fn scene_plan_spec(descs: Seq<SceneDescendant>, plan: ScenePlan) -> bool {
    &&& assignments_ok(descs, descs.len() as int, plan.slot_sources@, plan.assignments@)
    &&& slots_ok(descs, descs.len() as int, plan.slot_sources@, plan.assignments@)
    &&& plan.complete == (descs.len() > 0 && !any_unresolved(descs))
}

/// Plans the material replacement under one scene root.
///
/// `descendants` are the root's descendants in traversal order. A descendant
/// with a loaded standard material and no toon settings of its own gets a toon
/// material; descendants that share a standard material share one toon
/// material, so one is created per distinct standard material. The root is
/// complete once it has descendants and none of them still waits for its
/// standard material to load.
pub fn plan_scene_replacement(descendants: &Vec<SceneDescendant>) -> (plan: ScenePlan)
    ensures
        scene_plan_spec(descendants@, plan),
{
    let ghost descs = descendants@;
    let mut keys: Vec<AssetKey> = Vec::new();
    let mut slot_sources: Vec<usize> = Vec::new();
    let mut assignments: Vec<Option<usize>> = Vec::new();
    let mut saw_descendants = false;
    let mut unresolved_material = false;
    let n = descendants.len();
    let mut i: usize = 0;
    while i < n
        invariant
            n == descs.len(),
            descs == descendants@,
            i <= n,
            saw_descendants == (i > 0),
            unresolved_material == exists|j: int| 0 <= j < i && unresolved(#[trigger] descs[j]),
            keys.len() == slot_sources.len(),
            forall|k: int|
                0 <= k < keys.len() ==> keys@[k] == source_key(
                    descs[#[trigger] slot_sources@[k] as int],
                ),
            assignments_ok(descs, i as int, slot_sources@, assignments@),
            slots_ok(descs, i as int, slot_sources@, assignments@),
        decreases n - i,
    {
        let ghost old_sources = slot_sources@;
        let ghost old_keys = keys@;
        saw_descendants = true;
        let d = descendants[i];
        let mut assignment: Option<usize> = None;
        match d.standard_material {
            None => {},
            Some(key) => {
                if !d.has_local_override {
                    if !d.material_loaded {
                        unresolved_material = true;
                    } else {
                        match find_key(&keys, key) {
                            Some(k) => {
                                assignment = Some(k);
                            },
                            None => {
                                let k = keys.len();
                                keys.push(key);
                                slot_sources.push(i);
                                assignment = Some(k);
                            },
                        }
                    }
                }
            },
        }
        let ghost old_assignments = assignments@;
        assignments.push(assignment);
        proof {
            assert(descs[i as int] == d);
            assert forall|j: int| 0 <= j < i + 1 && unresolved(#[trigger] descs[j]) implies (j
                < i && unresolved(descs[j])) || (j == i && unresolved(d)) by {}
            assert forall|j: int|
                0 <= j < i + 1 implies ((#[trigger] assignments@[j]) is Some <==> convertible(
                descs[j],
            )) by {
                if j < i {
                    assert(assignments@[j] == old_assignments[j]);
                }
            }
            let src = slot_sources@;
            assert forall|k: int| 0 <= k < src.len() implies {
                &&& (#[trigger] src[k]) < i + 1
                &&& convertible(descs[src[k] as int])
                &&& assignments@[src[k] as int] == Some(k as usize)
            } by {
                if k < old_sources.len() {
                    assert(src[k] == old_sources[k]);
                    assert(assignments@[src[k] as int] == old_assignments[src[k] as int]);
                }
            }
            assert forall|k1: int, k2: int|
                0 <= k1 < src.len() && 0 <= k2 < src.len() && k1 != k2 implies source_key(
                descs[#[trigger] src[k1] as int],
            ) != source_key(descs[#[trigger] src[k2] as int]) by {
                if k1 < old_sources.len() && k2 < old_sources.len() {
                    assert(src[k1] == old_sources[k1]);
                    assert(src[k2] == old_sources[k2]);
                } else if k1 < old_sources.len() {
                    assert(keys@[k1] == old_keys[k1]);
                    assert(keys@[k2] == source_key(descs[src[k2] as int]));
                } else {
                    assert(keys@[k2] == old_keys[k2]);
                    assert(keys@[k1] == source_key(descs[src[k1] as int]));
                }
            }
            assert forall|k: int, j: int|
                0 <= k < src.len() && 0 <= j < src[k] && convertible(#[trigger] descs[j]) implies source_key(
                descs[j],
            ) != source_key(descs[#[trigger] src[k] as int]) by {
                if k < old_sources.len() {
                    assert(src[k] == old_sources[k]);
                } else {
                    assert(j < i);
                    assert(old_assignments[j] is Some);
                    let kk = old_assignments[j].unwrap() as int;
                    assert(old_keys[kk] == source_key(descs[old_sources[kk] as int]));
                    assert(keys@[k] == source_key(descs[src[k] as int]));
                }
            }
        }
        i = i + 1;
    }
    ScenePlan { slot_sources, assignments, complete: saw_descendants && !unresolved_material }
}

/// Descendants of one root that share a loaded standard material share one
/// toon material: the replacement creates one toon material per distinct
/// standard material, not one per mesh.
pub proof fn lemma_shared_material_shares_toon_material(
    descs: Seq<SceneDescendant>,
    plan: ScenePlan,
    i: int,
    j: int,
)
    requires
        scene_plan_spec(descs, plan),
        0 <= i < descs.len(),
        0 <= j < descs.len(),
        convertible(descs[i]),
        convertible(descs[j]),
        source_key(descs[i]) == source_key(descs[j]),
    ensures
        plan.assignments@[i] is Some,
        plan.assignments@[i] == plan.assignments@[j],
{
    let a = plan.assignments@;
    let s = plan.slot_sources@;
    assert(a[i] is Some);
    assert(a[j] is Some);
    let ki = a[i].unwrap() as int;
    let kj = a[j].unwrap() as int;
    if ki != kj {
        assert(source_key(descs[s[ki] as int]) != source_key(descs[s[kj] as int]));
    }
}

/// A descendant with toon settings of its own is never converted by its
/// root, and a root whose descendants still wait for a standard material to
/// load is not complete.
pub proof fn lemma_override_and_completion(descs: Seq<SceneDescendant>, plan: ScenePlan, i: int)
    requires
        scene_plan_spec(descs, plan),
        0 <= i < descs.len(),
    ensures
        descs[i].has_local_override ==> plan.assignments@[i] is None,
        unresolved(descs[i]) ==> !plan.complete,
{
}

/// Plans the replacement of directly tagged meshes: given, for each tagged
/// mesh, whether its standard material is loaded, returns the indices of the
/// meshes converted now (each gets a toon material of its own); the others
/// are retried on a later frame.
pub fn plan_direct_replacements(material_loaded: &Vec<bool>) -> (res: Vec<usize>)
    ensures
        forall|r: int| 0 <= r < res.len() ==> (#[trigger] res@[r]) < material_loaded.len()
            && material_loaded@[res@[r] as int],
        forall|r1: int, r2: int| 0 <= r1 < r2 < res.len() ==> #[trigger] res@[r1] < #[trigger] res@[r2],
        forall|i: int| 0 <= i < material_loaded.len() && #[trigger] material_loaded@[i] ==> res@.contains(i as usize),
{
    let mut res: Vec<usize> = Vec::new();
    let n = material_loaded.len();
    let mut i: usize = 0;
    while i < n
        invariant
            n == material_loaded.len(),
            i <= n,
            forall|r: int| 0 <= r < res.len() ==> (#[trigger] res@[r]) < i
                && material_loaded@[res@[r] as int],
            forall|r1: int, r2: int| 0 <= r1 < r2 < res.len() ==> #[trigger] res@[r1] < #[trigger] res@[r2],
            forall|j: int| 0 <= j < i && #[trigger] material_loaded@[j] ==> res@.contains(j as usize),
        decreases n - i,
    {
        if material_loaded[i] {
            let ghost old_res = res@;
            res.push(i);
            proof {
                assert(res@[old_res.len() as int] == i);
                assert forall|j: int| 0 <= j < i + 1 && #[trigger] material_loaded@[j] implies res@.contains(j as usize) by {
                    if j < i {
                        let r = choose|r: int| 0 <= r < old_res.len() && old_res[r] == j as usize;
                        assert(res@[r] == old_res[r]);
                    }
                }
            }
        }
        i = i + 1;
    }
    res
}

} // verus!
