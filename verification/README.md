# fluid_sim

The verified core of a particle-based GPU fluid simulation (position-based
fluids over an octree neighbor search, rendered with mesh shaders).

`src/` holds what the CPU decides, each function with a contract proved by Verus,
except for two trusted wrappers whose contracts are taken as given:
`sorting::words_as_bytes` (`bytemuck::bytes_of` on the push-constant words) and
`shader::read_spv_words` (`ash::util::read_spv` on a compiled shader's bytes).

- `sorting`: sizes of the radix-sort scratch buffers, the split of the key blocks
  over thread groups, the per-iteration pass plan (ping-ponging between the
  caller's and the scratch buffers) as the ordered commands of each iteration:
  its dispatches, each followed by its barriers.
- `bytes`, `shader`: byte layouts of words and the decoding of SPIR-V modules.
- `ping_pong`, `particles`: double-buffered particle attributes.
- `physics_engine`: the ordered steps of one physics update, the buffer swaps
  they perform, the particle buffers each step binds and the barriers the
  solver stages record.
- `compute`, `fluids`, `integration`, `neighbor_list`, `octree`, `systems`: the
  shaders, entry points, specialization constants and bindings of every compute
  stage, and their dispatch sizes; the octree construction plan and the per-particle neighbor-list build, with
  their copies, fills and barriers.
- `spatial_grid`: power-of-two grid dimensions and Morton-code widths.
- `swapchain`, `frame`, `memory`, `input`: swapchain parameters, the frame loop's
  decisions, memory-type selection and input routing.

`app/` is ordinary Rust around it: Vulkan (ash), windowing (winit), byte layouts
(bytemuck), the float math of the camera (glam) and the random initial particles
(rand).
