# sfcgal

Conversions between planar geometries in the shape of `geo-types` and the
geometries of the SFCGAL library, verified with Verus.

- `src/coord.rs`: coordinates; ordinates are binary64 bit patterns, with their
  numeric equality stated and decided over the bits.
- `src/geo.rs`: points, lines, line strings, polygons, triangles, their multi
  versions and collections; ring closing and `Polygon::new`.
- `src/sfcgal.rs`: the content of SFCGAL geometries as plain values, the SFCGAL
  geometry types and their identifiers.
- `src/geotypes.rs`: `ToSFCGAL` and `TryInto`, what they compute, and the
  round-trip laws between the two directions.
- `src/convert.rs`: the `TryInto` trait.
- `app/lib.rs`: the calls into the SFCGAL C library (building and reading its
  geometries) and the conversion from and to `geo-types` values.
