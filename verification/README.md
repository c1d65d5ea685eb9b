# particle_cube

The verified decision logic of a WebGPU particle-cube renderer, and the
browser front end that drives it.

- `src/surface.rs`: when the canvas and surface must be reconfigured, and which
  surface format is chosen.
- `src/pointer.rs`: pointer drags turned into orbit-camera rotations.
- `src/uniform.rs`: the byte layout of the camera and lighting uniform blocks.
- `src/frame.rs`: the commands each animation frame issues.
- `app/`: the wasm entry point (`start`), WebGPU and DOM calls, and the
  floating-point camera math (projection, view matrix, matrix product,
  spherical angles), which stay outside the verified code. The WGSL shaders
  that `app/shaders.rs` embeds are not part of this tree.
