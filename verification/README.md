# gmt_field_aberrations

Configuration model of the GMT field aberration probes, verified with Verus.

- `src/segment/units.rs`: translation units (`Txyz`) and sky angles (`SkyAngle`),
  with floating-point values held by their IEEE-754 bit patterns, and their negation.
- `src/segment/dof.rs`, `src/segment/rbm.rs`: degrees of freedom and rigid body
  motions of a mirror segment.
- `src/mirror.rs`, `src/lib.rs`: mirror motions, pupil modes (with the segment id
  check of `geotrans`) and the Zernike coefficients formatting.
- `src/field.rs`, `src/probe.rs`: field pointings, field configurations and the
  fields of a set of probes.
- `src/zernike.rs`: the Noll indices of the Zernike modes (from `zernike::jnm`).

`app/` holds the floating-point computations (Zernike basis evaluation,
projections, unit conversions) and the GPU ray tracing through `crseo`, on
serializable copies of the library types.
