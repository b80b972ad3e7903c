# monadic

A wave-interference visualiser: emitters laid out on a lattice radiate at
wavenumbers given by a radial profile and a spectrum; the summed field is
rendered on the GPU, optionally Fourier-transformed or fed to a
reaction-diffusion model, and tuned from an egui side panel.

- `src/` is the verified library (Verus): the enums behind the pickers with
  their labels, shader ids and parameter usage; the integer layout of the
  lattices (cross arms, ring occupancy, the random lattice's generator, Halton
  digits) and of the spectra; and the decisions of the GPU passes (FFT stage
  table and ping-pong chain, reaction-diffusion step schedule, blit source,
  texture resizing, upload sizes).
- `app/` is the program around it: window and event loop (winit), GPU passes
  (wgpu), the control panel (egui), floating-point geometry and evaluation,
  and presets saved as JSON (serde).
- `tests/` exercises the library on concrete values.

The WGSL shaders are read at start-up from `shaders/` under the working
directory.
