use vstd::prelude::*;

use crate::components::{
    find_key, AssetKey, ToonManagedMaterial, ToonManagedMaterialSource, ToonRuntimeState,
    ToonShaderDiagnostics,
};
use crate::material::{DiffuseSettings, ToonDiffuseMode};

verus! {

/// How many elements of `s` satisfy `p`.
pub open spec fn count_where<A>(s: Seq<A>, p: spec_fn(A) -> bool) -> nat
    decreases s.len(),
{
    if s.len() == 0 {
        0
    } else {
        count_where(s.drop_last(), p) + if p(s.last()) {
            1nat
        } else {
            0nat
        }
    }
}

/// The marker comes from the given source.
pub open spec fn from_source(source: ToonManagedMaterialSource) -> spec_fn(ToonManagedMaterial) -> bool {
    |m: ToonManagedMaterial| m.source == source
}

/// What the diagnostics read of one toon material asset.
#[derive(Clone, Copy, Debug, PartialEq, Eq, Structural)]
pub struct MaterialSummary {
    /// The diffuse settings of the asset's toon extension.
    pub diffuse: DiffuseSettings,
    /// The rim light contributes.
    pub rim_enabled: bool,
    /// The specular band contributes.
    pub specular_enabled: bool,
}

/// The asset samples a ramp texture.
pub open spec fn ramp_material() -> spec_fn(MaterialSummary) -> bool {
    |m: MaterialSummary| m.diffuse.uses_ramp_texture_spec()
}

/// The asset has its rim light on.
pub open spec fn rim_material() -> spec_fn(MaterialSummary) -> bool {
    |m: MaterialSummary| m.rim_enabled
}

/// The asset has its specular band on.
pub open spec fn specular_material() -> spec_fn(MaterialSummary) -> bool {
    |m: MaterialSummary| m.specular_enabled
}

/// The diagnostics of one frame, from the runtime state, the markers of all
/// converted meshes, the number of tagged scene roots, and all toon material
/// assets.
pub open spec fn diagnostics_spec(
    runtime: ToonRuntimeState,
    managed: Seq<ToonManagedMaterial>,
    scene_roots: usize,
    materials: Seq<MaterialSummary>,
) -> ToonShaderDiagnostics {
    ToonShaderDiagnostics {
        runtime_active: runtime.active,
        managed_direct_entities: count_where(
            managed,
            from_source(ToonManagedMaterialSource::Direct),
        ) as usize,
        managed_scene_entities: count_where(
            managed,
            from_source(ToonManagedMaterialSource::Scene),
        ) as usize,
        scene_roots,
        toon_material_assets: materials.len() as usize,
        ramp_materials: count_where(materials, ramp_material()) as usize,
        rim_enabled_materials: count_where(materials, rim_material()) as usize,
        specular_enabled_materials: count_where(materials, specular_material()) as usize,
    }
}

/// No more elements satisfy a predicate than there are elements.
pub proof fn lemma_count_where_bounded<A>(s: Seq<A>, p: spec_fn(A) -> bool)
    ensures
        count_where(s, p) <= s.len(),
    decreases s.len(),
{
    if s.len() > 0 {
        lemma_count_where_bounded(s.drop_last(), p);
    }
}

/// Every marker is direct or scene, so the two counts add up to all markers.
pub proof fn lemma_sources_partition(s: Seq<ToonManagedMaterial>)
    ensures
        count_where(s, from_source(ToonManagedMaterialSource::Direct)) + count_where(
            s,
            from_source(ToonManagedMaterialSource::Scene),
        ) == s.len(),
    decreases s.len(),
{
    if s.len() > 0 {
        lemma_sources_partition(s.drop_last());
    }
}

/// Counting with `count_where` is the length of the filtered sequence.
pub proof fn lemma_count_where_is_filter_len<A>(s: Seq<A>, p: spec_fn(A) -> bool)
    ensures
        count_where(s, p) == s.filter(p).len(),
    decreases s.len(),
{
    reveal(Seq::filter);
    if s.len() > 0 {
        lemma_count_where_is_filter_len(s.drop_last(), p);
    }
}

/// Each diagnostics counter counts exactly the inputs it names: converted
/// meshes marked direct, those marked scene, toon materials sampling a ramp
/// texture (ramp mode with a texture attached), those with the rim light on,
/// and those with the specular band on; the asset count is the number of
/// toon materials and the runtime flag is the runtime state's.
pub proof fn lemma_diagnostics_counts(
    runtime: ToonRuntimeState,
    managed: Seq<ToonManagedMaterial>,
    scene_roots: usize,
    materials: Seq<MaterialSummary>,
)
    requires
        managed.len() <= usize::MAX,
        materials.len() <= usize::MAX,
    ensures
        ({
            let d = diagnostics_spec(runtime, managed, scene_roots, materials);
            &&& d.runtime_active == runtime.active
            &&& d.managed_direct_entities == managed.filter(
                |m: ToonManagedMaterial| m.source == ToonManagedMaterialSource::Direct,
            ).len()
            &&& d.managed_scene_entities == managed.filter(
                |m: ToonManagedMaterial| m.source == ToonManagedMaterialSource::Scene,
            ).len()
            &&& d.scene_roots == scene_roots
            &&& d.toon_material_assets == materials.len()
            &&& d.ramp_materials == materials.filter(
                |m: MaterialSummary|
                    m.diffuse.diffuse_mode == ToonDiffuseMode::RampTexture
                        && m.diffuse.has_ramp_texture,
            ).len()
            &&& d.rim_enabled_materials == materials.filter(|m: MaterialSummary| m.rim_enabled).len()
            &&& d.specular_enabled_materials == materials.filter(
                |m: MaterialSummary| m.specular_enabled,
            ).len()
        }),
{
    let direct = |m: ToonManagedMaterial| m.source == ToonManagedMaterialSource::Direct;
    let scene = |m: ToonManagedMaterial| m.source == ToonManagedMaterialSource::Scene;
    let ramp = |m: MaterialSummary|
        m.diffuse.diffuse_mode == ToonDiffuseMode::RampTexture && m.diffuse.has_ramp_texture;
    let rim = |m: MaterialSummary| m.rim_enabled;
    let specular = |m: MaterialSummary| m.specular_enabled;
    assert(from_source(ToonManagedMaterialSource::Direct) =~= direct);
    assert(from_source(ToonManagedMaterialSource::Scene) =~= scene);
    assert(ramp_material() =~= ramp);
    assert(rim_material() =~= rim);
    assert(specular_material() =~= specular);
    lemma_count_where_is_filter_len(managed, direct);
    lemma_count_where_is_filter_len(managed, scene);
    lemma_count_where_is_filter_len(materials, ramp);
    lemma_count_where_is_filter_len(materials, rim);
    lemma_count_where_is_filter_len(materials, specular);
    lemma_count_where_bounded(managed, direct);
    lemma_count_where_bounded(managed, scene);
    lemma_count_where_bounded(materials, ramp);
    lemma_count_where_bounded(materials, rim);
    lemma_count_where_bounded(materials, specular);
}

/// One step of a counting loop: the count over the first `i + 1` elements.
proof fn lemma_count_where_step<A>(s: Seq<A>, p: spec_fn(A) -> bool, i: int)
    requires
        0 <= i < s.len(),
    ensures
        count_where(s.take(i + 1), p) == count_where(s.take(i), p) + if p(s[i]) {
            1nat
        } else {
            0nat
        },
{
    assert(s.take(i + 1).drop_last() =~= s.take(i));
}

/// Computes the per-frame diagnostics: the runtime flag, how many converted
/// meshes came from direct tagging and how many from scene roots, the number
/// of tagged scene roots, the number of toon material assets, and how many of
/// those sample a ramp texture, light a rim, and show a specular band.
pub fn publish_diagnostics(
    runtime: &ToonRuntimeState,
    managed: &Vec<ToonManagedMaterial>,
    scene_roots: usize,
    materials: &Vec<MaterialSummary>,
) -> (res: ToonShaderDiagnostics)
    ensures
        res == diagnostics_spec(*runtime, managed@, scene_roots, materials@),
        res.runtime_active == runtime.active,
        res.managed_direct_entities == managed@.filter(
            |m: ToonManagedMaterial| m.source == ToonManagedMaterialSource::Direct,
        ).len(),
        res.managed_scene_entities == managed@.filter(
            |m: ToonManagedMaterial| m.source == ToonManagedMaterialSource::Scene,
        ).len(),
        res.scene_roots == scene_roots,
        res.toon_material_assets == materials.len(),
        res.ramp_materials == materials@.filter(
            |m: MaterialSummary|
                m.diffuse.diffuse_mode == ToonDiffuseMode::RampTexture && m.diffuse.has_ramp_texture,
        ).len(),
        res.rim_enabled_materials == materials@.filter(|m: MaterialSummary| m.rim_enabled).len(),
        res.specular_enabled_materials == materials@.filter(
            |m: MaterialSummary| m.specular_enabled,
        ).len(),
{
    let mut managed_direct_entities: usize = 0;
    let mut managed_scene_entities: usize = 0;
    let mut i: usize = 0;
    while i < managed.len()
        invariant
            i <= managed.len(),
            managed_direct_entities == count_where(
                managed@.take(i as int),
                from_source(ToonManagedMaterialSource::Direct),
            ),
            managed_scene_entities == count_where(
                managed@.take(i as int),
                from_source(ToonManagedMaterialSource::Scene),
            ),
            managed_direct_entities + managed_scene_entities == i,
        decreases managed.len() - i,
    {
        proof {
            lemma_count_where_step(managed@, from_source(ToonManagedMaterialSource::Direct), i as int);
            lemma_count_where_step(managed@, from_source(ToonManagedMaterialSource::Scene), i as int);
        }
        match managed[i].source {
            ToonManagedMaterialSource::Direct => managed_direct_entities += 1,
            ToonManagedMaterialSource::Scene => managed_scene_entities += 1,
        }
        i = i + 1;
    }
    assert(managed@.take(managed.len() as int) =~= managed@);

    let mut ramp_materials: usize = 0;
    let mut rim_enabled_materials: usize = 0;
    let mut specular_enabled_materials: usize = 0;
    let mut j: usize = 0;
    while j < materials.len()
        invariant
            j <= materials.len(),
            ramp_materials == count_where(materials@.take(j as int), ramp_material()),
            rim_enabled_materials == count_where(materials@.take(j as int), rim_material()),
            specular_enabled_materials == count_where(
                materials@.take(j as int),
                specular_material(),
            ),
            ramp_materials <= j,
            rim_enabled_materials <= j,
            specular_enabled_materials <= j,
        decreases materials.len() - j,
    {
        proof {
            lemma_count_where_step(materials@, ramp_material(), j as int);
            lemma_count_where_step(materials@, rim_material(), j as int);
            lemma_count_where_step(materials@, specular_material(), j as int);
        }
        let m = &materials[j];
        if m.diffuse.uses_ramp_texture() {
            ramp_materials += 1;
        }
        if m.rim_enabled {
            rim_enabled_materials += 1;
        }
        if m.specular_enabled {
            specular_enabled_materials += 1;
        }
        j = j + 1;
    }
    assert(materials@.take(materials.len() as int) =~= materials@);

    proof {
        lemma_diagnostics_counts(*runtime, managed@, scene_roots, materials@);
    }
    ToonShaderDiagnostics {
        runtime_active: runtime.active,
        managed_direct_entities,
        managed_scene_entities,
        scene_roots,
        toon_material_assets: materials.len(),
        ramp_materials,
        rim_enabled_materials,
        specular_enabled_materials,
    }
}

/// Every converted mesh is counted once, as direct or as scene, and no more
/// assets sample a ramp, light a rim, or show a specular band than there are
/// toon material assets.
pub proof fn lemma_diagnostics_consistent(
    runtime: ToonRuntimeState,
    managed: Seq<ToonManagedMaterial>,
    scene_roots: usize,
    materials: Seq<MaterialSummary>,
)
    requires
        managed.len() <= usize::MAX,
        materials.len() <= usize::MAX,
    ensures
        ({
            let d = diagnostics_spec(runtime, managed, scene_roots, materials);
            &&& d.managed_direct_entities + d.managed_scene_entities == managed.len()
            &&& d.ramp_materials <= d.toon_material_assets
            &&& d.rim_enabled_materials <= d.toon_material_assets
            &&& d.specular_enabled_materials <= d.toon_material_assets
            &&& d.runtime_active == runtime.active
        }),
{
    lemma_sources_partition(managed);
    lemma_count_where_bounded(managed, from_source(ToonManagedMaterialSource::Direct));
    lemma_count_where_bounded(managed, from_source(ToonManagedMaterialSource::Scene));
    lemma_count_where_bounded(materials, ramp_material());
    lemma_count_where_bounded(materials, rim_material());
    lemma_count_where_bounded(materials, specular_material());
}

/// A descendant of a scene root whose toon settings changed, as the
/// parameter sync sees it.
#[derive(Clone, Copy, Debug, PartialEq, Eq, Structural)]
pub struct SyncDescendant {
    /// The toon material the descendant renders with, if it has one.
    pub toon_material: Option<AssetKey>,
    /// The descendant carries toon settings of its own.
    pub has_local_override: bool,
}

/// The root's settings are pushed to this descendant's toon material.
pub open spec fn syncable(d: SyncDescendant) -> bool {
    d.toon_material is Some && !d.has_local_override
}

/// The toon material of a descendant.
pub open spec fn toon_key(d: SyncDescendant) -> AssetKey {
    d.toon_material.unwrap()
}

/// `res` lists, in traversal order, the first descendant of each distinct
/// toon material among the syncable descendants in `[0, n)`.
pub open spec fn sync_plan_ok(descs: Seq<SyncDescendant>, n: int, res: Seq<usize>) -> bool {
    &&& forall|r: int| 0 <= r < res.len() ==> (#[trigger] res[r]) < n && syncable(descs[res[r] as int])
    &&& forall|r1: int, r2: int| 0 <= r1 < r2 < res.len() ==> #[trigger] res[r1] < #[trigger] res[r2]
    &&& forall|r: int, j: int|
        0 <= r < res.len() && 0 <= j < res[r] && syncable(#[trigger] descs[j]) ==> toon_key(descs[j])
            != toon_key(descs[#[trigger] res[r] as int])
    &&& forall|i: int|
        0 <= i < n && syncable(#[trigger] descs[i]) ==> exists|r: int|
            0 <= r < res.len() && toon_key(descs[#[trigger] res[r] as int]) == toon_key(descs[i])
}

/// One step of the sync planning loop keeps its invariant.
proof fn lemma_sync_step(
    descs: Seq<SyncDescendant>,
    i: usize,
    old_res: Seq<usize>,
    old_seen: Seq<AssetKey>,
    res: Seq<usize>,
    seen: Seq<AssetKey>,
    listed: bool,
)
    requires
        0 <= i < descs.len(),
        old_seen.len() == old_res.len(),
        forall|r: int| 0 <= r < old_seen.len() ==> old_seen[r] == toon_key(descs[#[trigger] old_res[r] as int]),
        sync_plan_ok(descs, i as int, old_res),
        listed ==> {
            &&& syncable(descs[i as int])
            &&& forall|q: int| 0 <= q < old_seen.len() ==> old_seen[q] != toon_key(descs[i as int])
            &&& res == old_res.push(i)
            &&& seen == old_seen.push(toon_key(descs[i as int]))
        },
        !listed ==> {
            &&& res == old_res
            &&& seen == old_seen
            &&& syncable(descs[i as int]) ==> exists|q: int| 0 <= q < old_seen.len() && old_seen[q] == toon_key(descs[i as int])
        },
    ensures
        seen.len() == res.len(),
        forall|r: int| 0 <= r < seen.len() ==> seen[r] == toon_key(descs[#[trigger] res[r] as int]),
        sync_plan_ok(descs, i + 1, res),
{
    if listed {
        assert(res[old_res.len() as int] == i);
        assert forall|r: int| 0 <= r < seen.len() implies seen[r] == toon_key(descs[#[trigger] res[r] as int]) by {
            if r < old_res.len() {
                assert(res[r] == old_res[r]);
            }
        }
        assert forall|r: int| 0 <= r < res.len() implies (#[trigger] res[r]) < i + 1 && syncable(descs[res[r] as int]) by {
            if r < old_res.len() {
                assert(res[r] == old_res[r]);
            }
        }
        assert forall|r1: int, r2: int| 0 <= r1 < r2 < res.len() implies #[trigger] res[r1] < #[trigger] res[r2] by {
            assert(res[r1] == old_res[r1]);
            if r2 < old_res.len() {
                assert(res[r2] == old_res[r2]);
            }
        }
        assert forall|r: int, j: int|
            0 <= r < res.len() && 0 <= j < res[r] && syncable(#[trigger] descs[j]) implies toon_key(descs[j])
                != toon_key(descs[#[trigger] res[r] as int]) by {
            if r < old_res.len() {
                assert(res[r] == old_res[r]);
            } else {
                assert(j < i);
                let w = choose|w: int|
                    0 <= w < old_res.len() && toon_key(descs[#[trigger] old_res[w] as int]) == toon_key(descs[j]);
                assert(old_seen[w] == toon_key(descs[old_res[w] as int]));
                assert(old_seen[w] != toon_key(descs[i as int]));
            }
        }
        assert forall|q: int| 0 <= q < i + 1 && syncable(#[trigger] descs[q]) implies exists|r: int|
            0 <= r < res.len() && toon_key(descs[#[trigger] res[r] as int]) == toon_key(descs[q]) by {
            if q < i {
                let w = choose|w: int|
                    0 <= w < old_res.len() && toon_key(descs[#[trigger] old_res[w] as int]) == toon_key(descs[q]);
                assert(res[w] == old_res[w]);
            } else {
                assert(toon_key(descs[res[old_res.len() as int] as int]) == toon_key(descs[q]));
            }
        }
    } else {
        assert forall|q: int| 0 <= q < i + 1 && syncable(#[trigger] descs[q]) implies exists|r: int|
            0 <= r < res.len() && toon_key(descs[#[trigger] res[r] as int]) == toon_key(descs[q]) by {
            if q == i {
                let w = choose|w: int| 0 <= w < old_seen.len() && old_seen[w] == toon_key(descs[i as int]);
                assert(toon_key(descs[res[w] as int]) == toon_key(descs[q]));
            }
        }
    }
}

/// Plans the parameter sync under one scene root whose toon settings
/// changed: returns the descendants whose toon material receives the root's
/// settings. Descendants with settings of their own are skipped, and a toon
/// material shared by several descendants is listed once, at its first user.
pub fn plan_scene_sync(descendants: &Vec<SyncDescendant>) -> (res: Vec<usize>)
    ensures
        sync_plan_ok(descendants@, descendants.len() as int, res@),
{
    let ghost descs = descendants@;
    let mut seen: Vec<AssetKey> = Vec::new();
    let mut res: Vec<usize> = Vec::new();
    let n = descendants.len();
    let mut i: usize = 0;
    while i < n
        invariant
            n == descs.len(),
            descs == descendants@,
            i <= n,
            seen.len() == res.len(),
            forall|r: int| 0 <= r < seen.len() ==> seen@[r] == toon_key(descs[#[trigger] res@[r] as int]),
            sync_plan_ok(descs, i as int, res@),
        decreases n - i,
    {
        let d = descendants[i];
        let ghost old_res = res@;
        let ghost old_seen = seen@;
        let mut listed = false;
        if !d.has_local_override {
            if let Some(key) = d.toon_material {
                if find_key(&seen, key).is_none() {
                    seen.push(key);
                    res.push(i);
                    listed = true;
                }
            }
        }
        proof {
            assert(descs[i as int] == d);
            lemma_sync_step(descs, i, old_res, old_seen, res@, seen@, listed);
        }
        i = i + 1;
    }
    res
}

/// A toon material shared by several syncable descendants receives the
/// root's settings once: no two listed descendants use the same material.
pub proof fn lemma_sync_lists_each_material_once(
    descs: Seq<SyncDescendant>,
    res: Seq<usize>,
    r1: int,
    r2: int,
)
    requires
        sync_plan_ok(descs, descs.len() as int, res),
        0 <= r1 < r2 < res.len(),
    ensures
        toon_key(descs[res[r1] as int]) != toon_key(descs[res[r2] as int]),
{
    assert(res[r1] < res[r2]);
    assert(syncable(descs[res[r1] as int]));
}

} // verus!
