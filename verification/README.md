# Rust Faction

A patch for Red Faction Guerrilla (an injected DLL) and its launcher. The
library in `src/` holds what the two decide, with machine-checked proofs; `app/` holds
the Win32 calls, the GUI, the settings file and the detours that run inside
the game.

- `src/utils`: the module base and absolute addresses, little-endian byte
  images of integers, memory writes.
- `src/hooks`: the plan of the patch — which game functions are detoured and
  which bytes are written, in order — and the decisions made inside the
  detours (console lines, XML overrides, the version string, the memory
  layout).
- `src/common`: the settings and their store; C strings and module paths.
- `src/launcher`: the stages of launching the game and of injecting the DLL.
- `src/rfg`: game types (file enums, render state, wide strings for
  on-screen messages).
