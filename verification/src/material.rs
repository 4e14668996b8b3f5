use vstd::prelude::*;

verus! {

/// How the diffuse light term of a toon material is quantised.
#[derive(Clone, Copy, Debug, PartialEq, Eq, Hash, Structural)]
pub enum ToonDiffuseMode {
    /// Stepped bands computed in the shader.
    Bands,
    /// A sampled ramp texture.
    RampTexture,
}

impl Default for ToonDiffuseMode {
    fn default() -> (mode: Self)
        ensures
            mode == ToonDiffuseMode::Bands,
    {
        ToonDiffuseMode::Bands
    }
}

/// The smallest band count the shader receives.
pub const MIN_BANDS: u32 = 2;

/// The largest band count the shader receives.
pub const MAX_BANDS: u32 = 8;

/// The band count a material starts with.
pub const DEFAULT_BAND_COUNT: u32 = 2;

/// `value` clamped to the closed range `[lo, hi]`.
pub open spec fn clamp_spec(value: int, lo: int, hi: int) -> int {
    if value < lo {
        lo
    } else if value > hi {
        hi
    } else {
        value
    }
}

/// The band count that the shader uniform carries for a requested count.
pub open spec fn sanitized_band_count_spec(band_count: u32) -> u32 {
    clamp_spec(band_count as int, MIN_BANDS as int, MAX_BANDS as int) as u32
}

/// The band count that the shader uniform carries for a requested count:
/// the request clamped to `[MIN_BANDS, MAX_BANDS]`.
pub fn sanitize_band_count(band_count: u32) -> (res: u32)
    ensures
        res == sanitized_band_count_spec(band_count),
        MIN_BANDS <= res <= MAX_BANDS,
        band_count < MIN_BANDS ==> res == MIN_BANDS,
        band_count > MAX_BANDS ==> res == MAX_BANDS,
        MIN_BANDS <= band_count <= MAX_BANDS ==> res == band_count,
{
    if band_count < MIN_BANDS {
        MIN_BANDS
    } else if band_count > MAX_BANDS {
        MAX_BANDS
    } else {
        band_count
    }
}

/// The integer encoding of a boolean flag in the shader uniform.
pub open spec fn flag_code_spec(flag: bool) -> u32 {
    if flag {
        1
    } else {
        0
    }
}

/// The diffuse part of a toon material's settings: the quantisation mode,
/// the requested band count, and whether a ramp texture is attached.
/// (Handles, colours and the floating-point tuning values of a material stay
/// with the renderer integration; only what decides the diffuse mode is here.)
#[derive(Clone, Copy, Debug, PartialEq, Eq, Structural)]
pub struct DiffuseSettings {
    pub diffuse_mode: ToonDiffuseMode,
    pub band_count: u32,
    pub has_ramp_texture: bool,
}

/// The integer fields of the shader uniform, after sanitisation.
#[derive(Clone, Copy, Debug, PartialEq, Eq, Structural)]
pub struct ToonUniformModes {
    /// 0 for stepped bands, 1 for ramp texture sampling.
    pub diffuse_mode: u32,
    /// Band count, within `[MIN_BANDS, MAX_BANDS]`.
    pub band_count: u32,
    /// 1 when the rim light is masked to the lit side, else 0.
    pub rim_lit_only: u32,
}

impl DiffuseSettings {
    /// The settings a material starts with: two stepped bands, no ramp.
    pub open spec fn default_spec() -> DiffuseSettings {
        DiffuseSettings {
            diffuse_mode: ToonDiffuseMode::Bands,
            band_count: DEFAULT_BAND_COUNT,
            has_ramp_texture: false,
        }
    }

    /// `self` switched to stepped bands with `band_count` bands.
    pub open spec fn with_band_count_spec(self, band_count: u32) -> DiffuseSettings {
        DiffuseSettings { diffuse_mode: ToonDiffuseMode::Bands, band_count, ..self }
    }

    /// `self` switched to sampling an attached ramp texture.
    pub open spec fn with_ramp_texture_spec(self) -> DiffuseSettings {
        DiffuseSettings {
            diffuse_mode: ToonDiffuseMode::RampTexture,
            has_ramp_texture: true,
            ..self
        }
    }

    /// `self` switched back to stepped bands, with the ramp texture detached.
    pub open spec fn without_ramp_texture_spec(self) -> DiffuseSettings {
        DiffuseSettings {
            diffuse_mode: ToonDiffuseMode::Bands,
            has_ramp_texture: false,
            ..self
        }
    }

    /// The ramp texture is sampled: ramp mode is chosen and a texture is attached.
    pub open spec fn uses_ramp_texture_spec(self) -> bool {
        self.diffuse_mode == ToonDiffuseMode::RampTexture && self.has_ramp_texture
    }

    /// The sanitised integer uniform fields for these settings and the rim
    /// light's lit-side flag.
    pub open spec fn sanitized_modes_spec(self, rim_lit_side_only: bool) -> ToonUniformModes {
        ToonUniformModes {
            diffuse_mode: match self.diffuse_mode {
                ToonDiffuseMode::Bands => 0,
                ToonDiffuseMode::RampTexture => flag_code_spec(self.has_ramp_texture),
            },
            band_count: sanitized_band_count_spec(self.band_count),
            rim_lit_only: flag_code_spec(rim_lit_side_only),
        }
    }

    /// Stepped bands with the given band count, starting from the defaults.
    pub fn banded(band_count: u32) -> (res: DiffuseSettings)
        ensures
            res == Self::default_spec().with_band_count_spec(band_count),
            res.diffuse_mode == ToonDiffuseMode::Bands,
            res.band_count == band_count,
            !res.has_ramp_texture,
    {
        let d: DiffuseSettings = Default::default();
        d.with_band_count(band_count)
    }

    /// Ramp texture sampling, starting from the defaults.
    pub fn ramped() -> (res: DiffuseSettings)
        ensures
            res == Self::default_spec().with_ramp_texture_spec(),
            res.diffuse_mode == ToonDiffuseMode::RampTexture,
            res.band_count == DEFAULT_BAND_COUNT,
            res.has_ramp_texture,
    {
        let d: DiffuseSettings = Default::default();
        d.with_ramp_texture()
    }

    /// Sets the band count and switches to stepped bands; an attached ramp
    /// texture stays attached but is no longer sampled.
    pub fn with_band_count(self, band_count: u32) -> (res: DiffuseSettings)
        ensures
            res == self.with_band_count_spec(band_count),
            res.diffuse_mode == ToonDiffuseMode::Bands,
            res.band_count == band_count,
            res.has_ramp_texture == self.has_ramp_texture,
    {
        DiffuseSettings { diffuse_mode: ToonDiffuseMode::Bands, band_count, ..self }
    }

    /// Attaches a ramp texture and switches to sampling it.
    pub fn with_ramp_texture(self) -> (res: DiffuseSettings)
        ensures
            res == self.with_ramp_texture_spec(),
            res.diffuse_mode == ToonDiffuseMode::RampTexture,
            res.band_count == self.band_count,
            res.has_ramp_texture,
    {
        DiffuseSettings {
            diffuse_mode: ToonDiffuseMode::RampTexture,
            has_ramp_texture: true,
            ..self
        }
    }

    /// Detaches the ramp texture and switches to stepped bands.
    pub fn without_ramp_texture(self) -> (res: DiffuseSettings)
        ensures
            res == self.without_ramp_texture_spec(),
            res.diffuse_mode == ToonDiffuseMode::Bands,
            res.band_count == self.band_count,
            !res.has_ramp_texture,
    {
        DiffuseSettings { diffuse_mode: ToonDiffuseMode::Bands, has_ramp_texture: false, ..self }
    }

    /// Whether the ramp texture is sampled.
    pub fn uses_ramp_texture(&self) -> (res: bool)
        ensures
            res == self.uses_ramp_texture_spec(),
            res == (self.diffuse_mode == ToonDiffuseMode::RampTexture && self.has_ramp_texture),
    {
        match self.diffuse_mode {
            ToonDiffuseMode::Bands => false,
            ToonDiffuseMode::RampTexture => self.has_ramp_texture,
        }
    }

    /// The integer fields of the shader uniform: ramp mode without a texture
    /// falls back to bands, the band count is clamped to
    /// `[MIN_BANDS, MAX_BANDS]`, and the rim flag becomes 0 or 1.
    pub fn sanitized_modes(&self, rim_lit_side_only: bool) -> (res: ToonUniformModes)
        ensures
            res == self.sanitized_modes_spec(rim_lit_side_only),
            res.diffuse_mode == (if self.diffuse_mode == ToonDiffuseMode::RampTexture
                && self.has_ramp_texture {
                1u32
            } else {
                0u32
            }),
            MIN_BANDS <= res.band_count <= MAX_BANDS,
            self.band_count < MIN_BANDS ==> res.band_count == MIN_BANDS,
            self.band_count > MAX_BANDS ==> res.band_count == MAX_BANDS,
            MIN_BANDS <= self.band_count <= MAX_BANDS ==> res.band_count == self.band_count,
            res.rim_lit_only == (if rim_lit_side_only {
                1u32
            } else {
                0u32
            }),
    {
        let diffuse_mode: u32 = match self.diffuse_mode {
            ToonDiffuseMode::Bands => 0,
            ToonDiffuseMode::RampTexture => {
                if self.has_ramp_texture {
                    1
                } else {
                    0
                }
            },
        };
        let rim_lit_only: u32 = if rim_lit_side_only {
            1
        } else {
            0
        };
        ToonUniformModes {
            diffuse_mode,
            band_count: sanitize_band_count(self.band_count),
            rim_lit_only,
        }
    }
}

impl Default for DiffuseSettings {
    fn default() -> (res: Self)
        ensures
            res == DiffuseSettings::default_spec(),
            res.diffuse_mode == ToonDiffuseMode::Bands,
            res.band_count == 2,
            !res.has_ramp_texture,
    {
        DiffuseSettings {
            diffuse_mode: ToonDiffuseMode::Bands,
            band_count: DEFAULT_BAND_COUNT,
            has_ramp_texture: false,
        }
    }
}

/// The band count in the shader uniform is always within
/// `[MIN_BANDS, MAX_BANDS]`, a request already in that range passes
/// unchanged, and sanitising twice gives what sanitising once gives.
pub proof fn lemma_band_count_sanitization(band_count: u32)
    ensures
        MIN_BANDS <= sanitized_band_count_spec(band_count) <= MAX_BANDS,
        MIN_BANDS <= band_count <= MAX_BANDS ==> sanitized_band_count_spec(band_count)
            == band_count,
        sanitized_band_count_spec(sanitized_band_count_spec(band_count))
            == sanitized_band_count_spec(band_count),
{
}

/// The uniform samples the ramp texture exactly when the settings use it:
/// ramp mode without an attached texture falls back to stepped bands.
pub proof fn lemma_uniform_mode_matches_ramp_use(settings: DiffuseSettings, rim_lit_side_only: bool)
    ensures
        settings.sanitized_modes_spec(rim_lit_side_only).diffuse_mode == flag_code_spec(
            settings.uses_ramp_texture_spec(),
        ),
{
}

/// Attaching a ramp texture makes it sampled; detaching it, or choosing a band
/// count, makes it unsampled; `ramped()` is the defaults with a ramp attached,
/// and `banded(n)` is the defaults with `n` bands.
pub proof fn lemma_diffuse_builders(settings: DiffuseSettings, band_count: u32)
    ensures
        settings.with_ramp_texture_spec().uses_ramp_texture_spec(),
        !settings.without_ramp_texture_spec().uses_ramp_texture_spec(),
        !settings.with_band_count_spec(band_count).uses_ramp_texture_spec(),
        settings.with_band_count_spec(band_count).band_count == band_count,
        settings.with_ramp_texture_spec().band_count == settings.band_count,
        settings.without_ramp_texture_spec().band_count == settings.band_count,
        !DiffuseSettings::default_spec().uses_ramp_texture_spec(),
        settings.with_ramp_texture_spec().without_ramp_texture_spec()
            == settings.without_ramp_texture_spec(),
{
}

/// The band count clamp: a request below the supported range gives the
/// smallest count, one above it gives the largest, one inside it passes
/// unchanged; the result is always within `[2, 8]`, and it never moves
/// away from a larger request (a larger request never gives a smaller count).
pub proof fn lemma_band_count_clamp(band_count: u32, other: u32)
    ensures
        2 <= sanitized_band_count_spec(band_count) <= 8,
        band_count < 2 ==> sanitized_band_count_spec(band_count) == 2,
        band_count > 8 ==> sanitized_band_count_spec(band_count) == 8,
        2 <= band_count <= 8 ==> sanitized_band_count_spec(band_count) == band_count,
        band_count <= other ==> sanitized_band_count_spec(band_count) <= sanitized_band_count_spec(other),
{
}

/// The uniform's integer fields, in terms of the settings: ramp sampling
/// (code 1) only in ramp mode with a texture attached, otherwise stepped
/// bands (code 0); the band count clamped into `[2, 8]` exactly as the band
/// count sanitisation does; the rim flag 1 when masked to the lit side, else 0.
pub proof fn lemma_sanitized_modes(settings: DiffuseSettings, rim_lit_side_only: bool)
    ensures
        ({
            let m = settings.sanitized_modes_spec(rim_lit_side_only);
            &&& m.diffuse_mode == 1 <==> (settings.diffuse_mode == ToonDiffuseMode::RampTexture
                && settings.has_ramp_texture)
            &&& m.diffuse_mode == 0 || m.diffuse_mode == 1
            &&& 2 <= m.band_count <= 8
            &&& settings.band_count < 2 ==> m.band_count == 2
            &&& settings.band_count > 8 ==> m.band_count == 8
            &&& 2 <= settings.band_count <= 8 ==> m.band_count == settings.band_count
            &&& m.band_count == sanitized_band_count_spec(settings.band_count)
            &&& m.rim_lit_only == 1 <==> rim_lit_side_only
            &&& m.rim_lit_only == 0 || m.rim_lit_only == 1
        }),
{
}

/// The default settings quantise into two stepped bands and have no ramp
/// texture attached; `banded(n)` keeps that (no ramp, stepped bands) with `n`
/// bands, and `ramped()` attaches a ramp and samples it, with two bands.
pub proof fn lemma_defaults(band_count: u32)
    ensures
        DiffuseSettings::default_spec().diffuse_mode == ToonDiffuseMode::Bands,
        DiffuseSettings::default_spec().band_count == 2,
        !DiffuseSettings::default_spec().has_ramp_texture,
        ({
            let b = DiffuseSettings::default_spec().with_band_count_spec(band_count);
            &&& b.diffuse_mode == ToonDiffuseMode::Bands
            &&& b.band_count == band_count
            &&& !b.has_ramp_texture
        }),
        ({
            let r = DiffuseSettings::default_spec().with_ramp_texture_spec();
            &&& r.diffuse_mode == ToonDiffuseMode::RampTexture
            &&& r.band_count == 2
            &&& r.has_ramp_texture
        }),
{
}

/// Switching modes, for all settings: detaching the ramp always leaves
/// stepped bands with no texture and the band count unchanged; attaching it
/// always selects ramp sampling with a texture and the band count unchanged;
/// choosing a band count always selects stepped bands with that count and
/// leaves the attachment as it was.
pub proof fn lemma_mode_switches(settings: DiffuseSettings, band_count: u32)
    ensures
        ({
            let d = settings.without_ramp_texture_spec();
            &&& d.diffuse_mode == ToonDiffuseMode::Bands
            &&& !d.has_ramp_texture
            &&& d.band_count == settings.band_count
        }),
        ({
            let a = settings.with_ramp_texture_spec();
            &&& a.diffuse_mode == ToonDiffuseMode::RampTexture
            &&& a.has_ramp_texture
            &&& a.band_count == settings.band_count
        }),
        ({
            let c = settings.with_band_count_spec(band_count);
            &&& c.diffuse_mode == ToonDiffuseMode::Bands
            &&& c.band_count == band_count
            &&& c.has_ramp_texture == settings.has_ramp_texture
        }),
        settings.with_ramp_texture_spec().without_ramp_texture_spec().has_ramp_texture == false,
{
}

} // verus!
