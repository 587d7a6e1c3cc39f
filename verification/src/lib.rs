//! Conversions between planar geometries in the shape of `geo-types` and
//! geometries of the SFCGAL library, with the laws that tie them together.
pub mod convert;
pub mod coord;
pub mod geo;
pub mod geotypes;
pub mod sfcgal;

pub use convert::TryInto;
pub use coord::Coord;
pub use geo::{
    Geometry, GeometryCollection, Line, LineString, MultiLineString, MultiPoint, MultiPolygon,
    Point, Polygon, Triangle,
};
pub use geotypes::ToSFCGAL;
pub use sfcgal::{Error, GeomType, PolygonRings, SFCGeometry};
