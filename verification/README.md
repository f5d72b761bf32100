# ris_engine

The utilities and the renderer decisions of a small game engine, written in
Verus and proved against their contracts.

- `src/` is the verified library: the engine's error type and its texts,
  checks on file transfers, byte comparison, type-name trimming, the paths
  and the bookkeeping of fallback files (which old versions expire, where a
  replaced version goes), locks over an `AtomicBool`, and the decisions of
  the Vulkan renderer: device and queue-family choice, swapchain settings,
  memory types and formats, vertex layouts, shader words, frame rings, mesh
  buffers, the demo cubes and the per-frame state of the video system.
- `tests/` runs the library on concrete values.
- `app/` holds what touches the machine: the file system and the clock,
  waiting on locks, catching panics, message boxes, and the calls into the
  Vulkan driver through `ash` and `vulkano`, which hand their findings to
  the library.
