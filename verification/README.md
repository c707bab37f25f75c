# learn-vulkan-renderer

A learning Vulkan renderer, split in two:

- `src/` — the verified library (Verus): the decisions the renderer makes while it brings up
  Vulkan. Queue family choice, extension and feature checks, physical device selection (a
  state machine that asks for one driver query at a time), swapchain configuration, frame
  outcome handling and the present loop's resize bookkeeping, plus the error types. Vulkan data
  is modelled by plain values (`src/vulkan.rs`).
- `app/` — the milestone shells (`cargo run -- m1-s5`, `m1-s9`, `m1-s13`, ...): windowing with
  winit, every Vulkan call through ash and ash-window, and the conversions between ash's
  structures and the library's models.
- `tests/` — tests of the library, including checks that its Vulkan constants and extension
  names agree with ash.
