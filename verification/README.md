# capybara

The core of a small 2D game framework, written in Verus. The library's functions carry
contracts that Verus proves; the few calls into other crates (`zip`, `png`, `fastrand`,
`rustc-hash` maps, `glow` constants and parts of `std`) sit in small functions whose
contracts are trusted, each with a doc comment that says what it claims.

- `src/network` — the binary packet codec (ping, pong, objects, arrays), the control
  packets carried in WebSocket frames, and the handling of incoming packets.
- `src/powder` — the falling-sand grid: slot storage, chunks and their cells, the world
  of chunks, the neighbourhoods lent to a simulation step, the scheduling of chunks into
  batches that can run side by side, where a blocked particle moves, the substeps of
  fluids and the cells a displaced fluid spreads into, the placing of a moved structure's particles, the holes it leaves and their
  filling, and the split of a structure into collider rectangles.
- `src/assets`, `src/filesystem` — the state machines that read a file and load the
  assets of a ZIP archive, entry by entry, and the decoding of PNG textures.
- `src/renderer` — draw batching, texture parameters, sprite animation frames and shader
  sources.
- `src/scene.rs`, `src/input.rs`, `src/ui.rs` — scene switching, key codes and button tints.

`app/` holds what runs around the library: reading files, the WebSocket client thread,
the premultiplication of decoded texture colors, OpenGL calls, and the floating-point motion of particles and colliders.
