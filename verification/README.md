# toconfig

Typed builders for configuration files, with each renderer verified by Verus
against a specification of the exact text it produces.

Supported targets:

- Neovim Lua (`base`, `command`, `keymap`): user commands and key mappings;
- fish shell (`fish`): variables, aliases, abbreviations, functions,
  completions, prompts and control-flow blocks;
- `/etc/fstab` (`fstab`), INI files and GTK settings (`ini`, `gtk`);
- Helix (`helix`), Hyprland (`hyprland`), Ghostty (`ghostty`) and
  fontconfig XML (`fontconfig`).

Layout:

- `src/` is the verified library. `src/text.rs` holds the shared text
  building blocks (joining, indentation, decimal numbers, line splitting)
  with their specifications, and `src/decimal.rs` compares decimal texts
  with range bounds; every other module pairs each node type with a
  spec function describing its rendering, and proves the executable renderer
  equal to it. Properties that span several functions (escaping can be read
  back, validation of a tree succeeds exactly when every node validates,
  blocks are framed by their opening and closing lines, ...) are public proof
  functions next to the code they are about.
- `tests/` runs the library on concrete inputs.
- `app/` forms the decimal texts of floating-point values (opacities, font
  sizes, layout ratios, bezier points, monitor scales) that the library
  nodes hold and check, and writes generated files.
