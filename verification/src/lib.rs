//! Verified decision logic of a toon (cel) shading material system: how the
//! diffuse quantisation settings of a material are chosen and sanitised, how
//! the descendants of an imported scene are planned for material replacement,
//! how runtime parameter syncs are planned, and how the per-frame diagnostics
//! are computed.

pub mod components;
pub mod material;
pub mod scene_replace;
pub mod systems;
