use saddle_rendering_toon_shader::components::{
    activate_runtime, deactivate_runtime, runtime_is_active, AssetKey, ToonManagedMaterial,
    ToonManagedMaterialSource, ToonRuntimeState, ToonShaderDiagnostics,
};
use saddle_rendering_toon_shader::material::DiffuseSettings;
use saddle_rendering_toon_shader::scene_replace::{
    plan_direct_replacements, plan_scene_replacement, SceneDescendant,
};
use saddle_rendering_toon_shader::systems::{
    plan_scene_sync, publish_diagnostics, MaterialSummary, SyncDescendant,
};

fn mesh(key: AssetKey) -> SceneDescendant {
    SceneDescendant { standard_material: Some(key), has_local_override: false, material_loaded: true }
}

#[test]
fn runtime_starts_inactive_until_activated() {
    let mut runtime = ToonRuntimeState::default();
    assert!(!runtime_is_active(&runtime));
    activate_runtime(&mut runtime);
    assert!(runtime_is_active(&runtime));
    deactivate_runtime(&mut runtime);
    assert!(!runtime_is_active(&runtime));
    activate_runtime(&mut runtime);
    assert!(runtime.active);
}

#[test]
fn managed_markers_record_their_source() {
    assert_eq!(ToonManagedMaterial::direct().source, ToonManagedMaterialSource::Direct);
    assert_eq!(ToonManagedMaterial::scene().source, ToonManagedMaterialSource::Scene);
}

#[test]
fn scene_plan_reuses_one_toon_material_per_source_and_completes() {
    let shared = AssetKey::Index(7);
    let plan = plan_scene_replacement(&vec![mesh(shared), mesh(shared)]);
    assert_eq!(plan.slot_sources, vec![0]);
    assert_eq!(plan.assignments, vec![Some(0), Some(0)]);
    assert!(plan.complete);
}

#[test]
fn scene_plan_gives_distinct_sources_distinct_materials() {
    let a = AssetKey::Index(1);
    let b = AssetKey::Uuid(1);
    let descendants = vec![
        mesh(a),
        SceneDescendant { standard_material: None, has_local_override: false, material_loaded: false },
        mesh(b),
        mesh(a),
        SceneDescendant { standard_material: Some(b), has_local_override: true, material_loaded: true },
    ];
    let plan = plan_scene_replacement(&descendants);
    assert_eq!(plan.slot_sources, vec![0, 2]);
    assert_eq!(plan.assignments, vec![Some(0), None, Some(1), Some(0), None]);
    assert!(plan.complete);
}

#[test]
fn scene_plan_waits_for_unloaded_materials_and_for_descendants() {
    let empty = plan_scene_replacement(&vec![]);
    assert!(empty.slot_sources.is_empty());
    assert!(empty.assignments.is_empty());
    assert!(!empty.complete);

    let loading = SceneDescendant {
        standard_material: Some(AssetKey::Index(3)),
        has_local_override: false,
        material_loaded: false,
    };
    let plan = plan_scene_replacement(&vec![mesh(AssetKey::Index(4)), loading]);
    assert_eq!(plan.slot_sources, vec![0]);
    assert_eq!(plan.assignments, vec![Some(0), None]);
    assert!(!plan.complete);

    // An unloaded material under a local override does not hold the root back.
    let overridden = SceneDescendant {
        standard_material: Some(AssetKey::Index(3)),
        has_local_override: true,
        material_loaded: false,
    };
    let plan = plan_scene_replacement(&vec![overridden]);
    assert!(plan.slot_sources.is_empty());
    assert_eq!(plan.assignments, vec![None]);
    assert!(plan.complete);
}

#[test]
fn direct_plan_converts_only_loaded_materials() {
    assert_eq!(plan_direct_replacements(&vec![true, false, true, true]), vec![0, 2, 3]);
    assert!(plan_direct_replacements(&vec![false, false]).is_empty());
    assert!(plan_direct_replacements(&vec![]).is_empty());
}

#[test]
fn sync_plan_skips_overrides_and_updates_shared_materials_once() {
    let shared = AssetKey::Index(10);
    let own = AssetKey::Index(11);
    let descendants = vec![
        SyncDescendant { toon_material: Some(shared), has_local_override: false },
        SyncDescendant { toon_material: Some(own), has_local_override: true },
        SyncDescendant { toon_material: None, has_local_override: false },
        SyncDescendant { toon_material: Some(shared), has_local_override: false },
        SyncDescendant { toon_material: Some(AssetKey::Uuid(10)), has_local_override: false },
    ];
    assert_eq!(plan_scene_sync(&descendants), vec![0, 4]);
    assert!(plan_scene_sync(&vec![]).is_empty());
}

#[test]
fn diagnostics_count_sources_and_material_features() {
    let mut runtime = ToonRuntimeState::default();
    activate_runtime(&mut runtime);
    let managed = vec![
        ToonManagedMaterial::direct(),
        ToonManagedMaterial::scene(),
        ToonManagedMaterial::scene(),
    ];
    let materials = vec![
        MaterialSummary { diffuse: DiffuseSettings::ramped(), rim_enabled: true, specular_enabled: false },
        MaterialSummary { diffuse: DiffuseSettings::default(), rim_enabled: false, specular_enabled: true },
        MaterialSummary {
            diffuse: DiffuseSettings::ramped().with_band_count(3),
            rim_enabled: true,
            specular_enabled: true,
        },
    ];
    let diagnostics = publish_diagnostics(&runtime, &managed, 1, &materials);
    assert_eq!(
        diagnostics,
        ToonShaderDiagnostics {
            runtime_active: true,
            managed_direct_entities: 1,
            managed_scene_entities: 2,
            scene_roots: 1,
            toon_material_assets: 3,
            ramp_materials: 1,
            rim_enabled_materials: 2,
            specular_enabled_materials: 2,
        }
    );

    let idle = publish_diagnostics(&ToonRuntimeState::default(), &vec![], 0, &vec![]);
    assert_eq!(idle, ToonShaderDiagnostics::default());
}
