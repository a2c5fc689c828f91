# intergen

The verified core of Intergen, a keyboard-driven playground that grows recursive
structures of cubes, tetrahedra, octahedra and dodecahedra. The library holds the
parts of the program that are decisions rather than drawing, each with a contract
proved by Verus:

- `effect_catalog`, `scene_catalog`, `tuner_parameter`: the parameters of the live
  control page, their stable identifiers and their LFO slots.
- `tuner_navigation`, `edit_mode`, `numeric_entry`, `choices`: selection, edit
  modes and typed numbers on the control page.
- `tuner_keys`, `tuner_overlay`: which actions the keys of a frame ask of the
  control page, and the overlay and list page it shows.
- `control_page`: which F-page owns the keyboard and how the function keys open and
  close the pages.
- `presets`, `preset_storage`: the hundred preset slots, saving, loading, freeing and
  resolving collisions, the preset strip and file names.
- `recent_changes`, `help_text`, `generation_messages`: the texts shown to the user.
- `capture`: launch options and screenshot and Blender export names.
- `spawn_order`, `noise_hash`: the order in which attachment points are tried and
  the integer hashes behind the random LFO shapes and exclusions.
- `timestamp`, `text`: calendar arithmetic and string building.

`app/` is a small console program around the library: it reads the launch options,
prints the startup help, reads and writes preset files with `toml`, and holds the
floating-point helpers. Rendering is not part of it.
