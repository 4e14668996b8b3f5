# saddle-rendering-toon-shader

Toon and cel shading for Bevy PBR scenes, with its decision logic verified
by Verus.

- `src/` is the verified library: diffuse mode and band-count sanitisation
  (`material`), the runtime state, converted-mesh markers and diagnostics
  record (`components`), the planning of material replacement under scene
  roots and on directly tagged meshes (`scene_replace`), and the planning of
  runtime parameter syncs and the diagnostics computation (`systems`).
- `app/` is the Bevy integration: the material extension with its colours and
  floating-point tuning values, the ECS systems that gather plain values for
  the library and apply its plans, and the plugin. The fragment shader is
  loaded from `shaders/toon_shader.wgsl` in the application's asset folder.
- `tests/` exercises the library on concrete values.
