# nyx-czml

Export of spacecraft trajectories to CZML, the JSON scene format of CesiumJS.

- `src/` is the verified library. It assembles the CZML document: the
  header packet and its timeline clock, the spacecraft packet with its
  Hermite-sampled inertial position, and the optional ground-track and
  sensor-footprint packets. Real numbers are carried as `Scalar` bit
  patterns and never computed with; epochs are held by their `hifitime`
  parts (duration and time scale), and `hifitime` orders, formats (ISO
  8601, UTC) and differences them.
- `app/` reads nyx trajectories (resampling and frame conversion), does the
  floating-point geometry (km to m, surface projection, footprint radius),
  and writes the document out as JSON through serde.
- `tests/` exercise the library, including on trajectories propagated with
  nyx.
