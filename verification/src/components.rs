use vstd::prelude::*;

verus! {

/// Runtime counters published once per frame, for inspection tools,
/// overlays and end-to-end assertions.
#[derive(Clone, Copy, Debug, PartialEq, Eq, Structural)]
pub struct ToonShaderDiagnostics {
    pub runtime_active: bool,
    pub managed_direct_entities: usize,
    pub managed_scene_entities: usize,
    pub scene_roots: usize,
    pub toon_material_assets: usize,
    pub ramp_materials: usize,
    pub rim_enabled_materials: usize,
    pub specular_enabled_materials: usize,
}

impl Default for ToonShaderDiagnostics {
    fn default() -> (res: Self)
        ensures
            !res.runtime_active,
            res.managed_direct_entities == 0,
            res.managed_scene_entities == 0,
            res.scene_roots == 0,
            res.toon_material_assets == 0,
            res.ramp_materials == 0,
            res.rim_enabled_materials == 0,
            res.specular_enabled_materials == 0,
    {
        ToonShaderDiagnostics {
            runtime_active: false,
            managed_direct_entities: 0,
            managed_scene_entities: 0,
            scene_roots: 0,
            toon_material_assets: 0,
            ramp_materials: 0,
            rim_enabled_materials: 0,
            specular_enabled_materials: 0,
        }
    }
}

/// Whether the material replacement and parameter sync work runs.
#[derive(Clone, Copy, Debug, PartialEq, Eq, Structural)]
pub struct ToonRuntimeState {
    pub active: bool,
}

impl Default for ToonRuntimeState {
    /// The runtime starts inactive until its activation schedule runs.
    fn default() -> (res: Self)
        ensures
            !res.active,
    {
        ToonRuntimeState { active: false }
    }
}

/// Turns the runtime on.
pub fn activate_runtime(runtime: &mut ToonRuntimeState)
    ensures
        final(runtime).active,
{
    runtime.active = true;
}

/// Turns the runtime off.
pub fn deactivate_runtime(runtime: &mut ToonRuntimeState)
    ensures
        !final(runtime).active,
{
    runtime.active = false;
}

/// Whether the runtime work should run this frame.
pub fn runtime_is_active(runtime: &ToonRuntimeState) -> (res: bool)
    ensures
        res == runtime.active,
{
    runtime.active
}

/// Where a converted mesh got its toon material from.
#[derive(Clone, Copy, Debug, PartialEq, Eq, Structural)]
pub enum ToonManagedMaterialSource {
    /// The mesh entity itself carried the toon settings.
    Direct,
    /// The mesh is a descendant of a scene root that carried them.
    Scene,
}

/// Marks a mesh whose standard material was replaced by a toon material.
#[derive(Clone, Copy, Debug, PartialEq, Eq, Structural)]
pub struct ToonManagedMaterial {
    pub source: ToonManagedMaterialSource,
}

impl ToonManagedMaterial {
    /// The marker of a directly converted mesh.
    pub fn direct() -> (res: Self)
        ensures
            res.source == ToonManagedMaterialSource::Direct,
    {
        ToonManagedMaterial { source: ToonManagedMaterialSource::Direct }
    }

    /// The marker of a mesh converted through its scene root.
    pub fn scene() -> (res: Self)
        ensures
            res.source == ToonManagedMaterialSource::Scene,
    {
        ToonManagedMaterial { source: ToonManagedMaterialSource::Scene }
    }
}

/// A plain identity of a material asset: its runtime index bits, or the UUID
/// it was registered under.
#[derive(Clone, Copy, Debug, PartialEq, Eq, Hash, Structural)]
pub enum AssetKey {
    Index(u64),
    Uuid(u128),
}

/// The position of `key` in `keys`, if it occurs there.
pub(crate) fn find_key(keys: &Vec<AssetKey>, key: AssetKey) -> (res: Option<usize>)
    ensures
        match res {
            Some(k) => k < keys.len() && keys@[k as int] == key,
            None => forall|k: int| 0 <= k < keys.len() ==> keys@[k] != key,
        },
{
    let mut k: usize = 0;
    while k < keys.len()
        invariant
            k <= keys.len(),
            forall|j: int| 0 <= j < k ==> keys@[j] != key,
        decreases keys.len() - k,
    {
        if keys[k] == key {
            return Some(k);
        }
        k = k + 1;
    }
    None
}

} // verus!
