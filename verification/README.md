# lua_hooks

A plugin for a 32-bit game that hooks the game's Lua chunk loading to run
plugin scripts and exposes a few Rust functions to Lua.

- `src/` is the verified library (Verus): how the exposed functions read their
  arguments and what they do with them (`printing`, `fps`, `solo`, `notify`),
  the bytes and addresses the hooks patch (`patch`), the steps of the hooked
  loader across calls (`loader`), and the DLL entry decision (`dll`).
- `app/` is the Windows DLL around it: it reads the Lua stack, talks to the
  host, changes memory protection, writes the patches, logs and prints.
- `tests/` runs the library on concrete values.
