# rust_geodesic_raytracer

A null-geodesic ray tracer around a Schwarzschild black hole (Kerr-Schild
Cartesian coordinates), split in two:

- `src/` is the verified library (Verus): the sky-cell hash and star decision,
  the checkerboard parity, the per-ray step controller, the event-to-color rule,
  pixel addressing, camera-option selection and the assembly of the RGB image
  (through the `image` crate).
- `app/` is the command-line program: argument parsing (clap), the
  floating-point numerics (metric, geodesic equations, implicit midpoint
  integration, camera, disk crossing, star brightness), the parallel pixel loop
  (rayon) and writing the PNG.
- `tests/` exercises the library on concrete values.
