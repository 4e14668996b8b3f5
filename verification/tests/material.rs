use saddle_rendering_toon_shader::material::{
    sanitize_band_count, DiffuseSettings, ToonDiffuseMode, MAX_BANDS, MIN_BANDS,
};

#[test]
fn default_extension_uses_two_band_mode_without_ramp() {
    let extension = DiffuseSettings::default();

    assert_eq!(extension.diffuse_mode, ToonDiffuseMode::Bands);
    assert_eq!(extension.band_count, 2);
    assert!(!extension.uses_ramp_texture());
}

#[test]
fn ramp_mode_without_texture_falls_back_to_band_mode_in_uniform() {
    let extension = DiffuseSettings {
        diffuse_mode: ToonDiffuseMode::RampTexture,
        has_ramp_texture: false,
        ..Default::default()
    };

    assert_eq!(extension.sanitized_modes(true).diffuse_mode, 0);
}

#[test]
fn ramp_mode_with_texture_samples_it_in_uniform() {
    let extension = DiffuseSettings::ramped();
    assert_eq!(extension.diffuse_mode, ToonDiffuseMode::RampTexture);
    assert!(extension.uses_ramp_texture());
    assert_eq!(extension.sanitized_modes(false).diffuse_mode, 1);
}

#[test]
fn diffuse_builders_switch_modes() {
    let ramped = DiffuseSettings::ramped();
    assert!(ramped.uses_ramp_texture());
    assert_eq!(ramped.band_count, 2);

    // Choosing a band count returns to stepped bands, even with a ramp attached.
    let banded = ramped.with_band_count(4);
    assert_eq!(banded.band_count, 4);
    assert_eq!(banded.diffuse_mode, ToonDiffuseMode::Bands);
    assert!(banded.has_ramp_texture);
    assert!(!banded.uses_ramp_texture());

    let detached = DiffuseSettings::ramped().without_ramp_texture();
    assert_eq!(detached.diffuse_mode, ToonDiffuseMode::Bands);
    assert!(!detached.has_ramp_texture);
    assert!(!detached.uses_ramp_texture());

    let hard_edge = DiffuseSettings::banded(2).with_band_count(2);
    assert_eq!(hard_edge.band_count, 2);
    assert!(!hard_edge.uses_ramp_texture());

    assert_eq!(DiffuseSettings::banded(3).band_count, 3);
    assert_eq!(DiffuseSettings::banded(3).diffuse_mode, ToonDiffuseMode::Bands);
    assert_eq!(ToonDiffuseMode::default(), ToonDiffuseMode::Bands);
}

#[test]
fn sanitized_band_count_is_clamped_to_supported_range() {
    assert_eq!(MIN_BANDS, 2);
    assert_eq!(MAX_BANDS, 8);
    assert_eq!(sanitize_band_count(99), 8);
    assert_eq!(sanitize_band_count(0), 2);
    assert_eq!(sanitize_band_count(1), 2);
    assert_eq!(sanitize_band_count(2), 2);
    assert_eq!(sanitize_band_count(5), 5);
    assert_eq!(sanitize_band_count(8), 8);
    assert_eq!(sanitize_band_count(9), 8);
    assert_eq!(sanitize_band_count(u32::MAX), 8);

    let extension = DiffuseSettings::banded(99);
    let modes = extension.sanitized_modes(true);
    assert_eq!(modes.band_count, 8);
    assert_eq!(modes.diffuse_mode, 0);
    assert_eq!(modes.rim_lit_only, 1);
    assert_eq!(extension.sanitized_modes(false).rim_lit_only, 0);
}
