# sguaba

Hard-to-misuse rigid body transforms ("spatial math") between coordinate systems.

- `src/` is the verified library. It holds what the transforms do not compute with
  floating-point numbers: the type-state builders of bearings, WGS84 locations, vectors and
  Tait-Bryan rotations (generic over the type of the values they carry), the axis-naming
  conventions of NED, FRD, ENU and right-handed XYZ systems, and the hemisphere letters under
  which a WGS84 location is printed. Every public function states in its contract exactly what
  it returns, and the laws of the builders (building from components equals setting them one by
  one, reopening a value and building it again gives it back, setters overwrite and commute,
  Tait-Bryan angles come out in intrinsic order) are proof functions.
- `app/` is the floating-point part of the library built on top: coordinates, vectors in
  length, velocity and acceleration units, rotations and rigid body transforms (nalgebra
  quaternions and isometries), orientations and poses, WGS84 to ECEF conversion, the
  range checks of elevations and latitudes, printing, and the `system!`, `vector!`,
  `coordinate!`, `bearing!` and `wgs84!` macros.
- `tests/` exercises the verified builders with `uom` quantities and plain numbers.
