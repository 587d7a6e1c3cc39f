//! The content of SFCGAL geometries, as plain values.
//!
//! An [`SFCGeometry`] holds what the conversions read from, and write into, a
//! geometry of the SFCGAL library: its type and its coordinates, ring by ring
//! and member by member. Building the library's own object from it, and
//! reading one into it, is left to the code that links the library.
use vstd::prelude::*;

use crate::coord::Coord;
use crate::geo::PolygonShape;

verus! {

/// The geometry types of SFCGAL.
#[derive(Clone, Copy, Debug, PartialEq, Eq, Structural)]
pub enum GeomType {
    Point,
    Linestring,
    Polygon,
    Multipoint,
    Multilinestring,
    Multipolygon,
    Geometrycollection,
    Polyhedralsurface,
    Triangulatedsurface,
    Triangle,
    Solid,
    Multisolid,
}

/// Errors of this library.
#[derive(Clone, Copy, Debug, PartialEq, Eq, Structural)]
pub enum Error {
    /// SFCGAL reported a geometry type identifier that names no [`GeomType`].
    UnknownGeometryType(u32),
}

impl GeomType {
    /// The identifier that SFCGAL gives the type.
    pub open spec fn spec_type_id(self) -> u32 {
        match self {
            GeomType::Point => 1,
            GeomType::Linestring => 2,
            GeomType::Polygon => 3,
            GeomType::Multipoint => 4,
            GeomType::Multilinestring => 5,
            GeomType::Multipolygon => 6,
            GeomType::Geometrycollection => 7,
            GeomType::Polyhedralsurface => 15,
            GeomType::Triangulatedsurface => 16,
            GeomType::Triangle => 17,
            GeomType::Solid => 101,
            GeomType::Multisolid => 102,
        }
    }

    /// The identifier that SFCGAL gives the type.
    pub fn type_id(&self) -> (id: u32)
        ensures
            id == self.spec_type_id(),
    {
        match self {
            GeomType::Point => 1,
            GeomType::Linestring => 2,
            GeomType::Polygon => 3,
            GeomType::Multipoint => 4,
            GeomType::Multilinestring => 5,
            GeomType::Multipolygon => 6,
            GeomType::Geometrycollection => 7,
            GeomType::Polyhedralsurface => 15,
            GeomType::Triangulatedsurface => 16,
            GeomType::Triangle => 17,
            GeomType::Solid => 101,
            GeomType::Multisolid => 102,
        }
    }

    /// The type that SFCGAL identifies by `id`; an error for any other
    /// identifier.
    pub fn from_type_id(id: u32) -> (r: Result<GeomType, Error>)
        ensures
            r == (match type_of_id(id) {
                Some(t) => Ok::<GeomType, Error>(t),
                None => Err(Error::UnknownGeometryType(id)),
            }),
    {
        match id {
            1 => Ok(GeomType::Point),
            2 => Ok(GeomType::Linestring),
            3 => Ok(GeomType::Polygon),
            4 => Ok(GeomType::Multipoint),
            5 => Ok(GeomType::Multilinestring),
            6 => Ok(GeomType::Multipolygon),
            7 => Ok(GeomType::Geometrycollection),
            15 => Ok(GeomType::Polyhedralsurface),
            16 => Ok(GeomType::Triangulatedsurface),
            17 => Ok(GeomType::Triangle),
            101 => Ok(GeomType::Solid),
            102 => Ok(GeomType::Multisolid),
            _ => Err(Error::UnknownGeometryType(id)),
        }
    }
}

/// The type that SFCGAL identifies by `id`, if any.
pub open spec fn type_of_id(id: u32) -> Option<GeomType> {
    if id == 1 {
        Some(GeomType::Point)
    } else if id == 2 {
        Some(GeomType::Linestring)
    } else if id == 3 {
        Some(GeomType::Polygon)
    } else if id == 4 {
        Some(GeomType::Multipoint)
    } else if id == 5 {
        Some(GeomType::Multilinestring)
    } else if id == 6 {
        Some(GeomType::Multipolygon)
    } else if id == 7 {
        Some(GeomType::Geometrycollection)
    } else if id == 15 {
        Some(GeomType::Polyhedralsurface)
    } else if id == 16 {
        Some(GeomType::Triangulatedsurface)
    } else if id == 17 {
        Some(GeomType::Triangle)
    } else if id == 101 {
        Some(GeomType::Solid)
    } else if id == 102 {
        Some(GeomType::Multisolid)
    } else {
        None
    }
}

/// Reading back the identifier of a type gives the type.
pub proof fn lemma_type_id_roundtrip(t: GeomType)
    ensures
        type_of_id(t.spec_type_id()) == Some(t),
{
}

/// An identifier that names a type is that type's identifier.
pub proof fn lemma_type_of_id_sound(id: u32)
    ensures
        type_of_id(id) matches Some(t) ==> t.spec_type_id() == id,
{
}

/// Distinct types have distinct identifiers, so an identifier names at most
/// one type.
pub proof fn lemma_type_id_injective(a: GeomType, b: GeomType)
    ensures
        a.spec_type_id() == b.spec_type_id() ==> a == b,
{
}

/// The rings of a polygon: an exterior ring and the interior rings, each a
/// sequence of coordinates.
#[derive(Debug, PartialEq)]
pub struct PolygonRings {
    pub exterior: Vec<Coord>,
    pub interiors: Vec<Vec<Coord>>,
}

/// The content of an SFCGAL geometry of the kinds that the conversions
/// produce or read.
#[derive(Debug, PartialEq)]
pub enum SFCGeometry {
    Point(Coord),
    LineString(Vec<Coord>),
    Triangle(Coord, Coord, Coord),
    Polygon(PolygonRings),
    MultiPoint(Vec<Coord>),
    MultiLineString(Vec<Vec<Coord>>),
    MultiPolygon(Vec<PolygonRings>),
    GeometryCollection(Vec<SFCGeometry>),
}

/// The view of an [`SFCGeometry`].
#[verifier::ext_equal]
pub enum SfcShape {
    Point(Coord),
    LineString(Seq<Coord>),
    Triangle(Coord, Coord, Coord),
    Polygon(PolygonShape),
    MultiPoint(Seq<Coord>),
    MultiLineString(Seq<Seq<Coord>>),
    MultiPolygon(Seq<PolygonShape>),
    GeometryCollection(Seq<SfcShape>),
}

/// The coordinate sequences of a sequence of rings.
pub open spec fn ring_seqs(rings: Seq<Vec<Coord>>) -> Seq<Seq<Coord>> {
    rings.map_values(|r: Vec<Coord>| r@)
}

impl View for PolygonRings {
    type V = PolygonShape;

    open spec fn view(&self) -> PolygonShape {
        PolygonShape { exterior: self.exterior@, interiors: ring_seqs(self.interiors@) }
    }
}

/// The shapes of a sequence of polygons.
pub open spec fn rings_shapes(polygons: Seq<PolygonRings>) -> Seq<PolygonShape> {
    polygons.map_values(|p: PolygonRings| p@)
}

/// The view of an SFCGAL geometry.
pub open spec fn sfc_shape(g: SFCGeometry) -> SfcShape
    decreases g,
{
    match g {
        SFCGeometry::Point(c) => SfcShape::Point(c),
        SFCGeometry::LineString(pts) => SfcShape::LineString(pts@),
        SFCGeometry::Triangle(a, b, c) => SfcShape::Triangle(a, b, c),
        SFCGeometry::Polygon(p) => SfcShape::Polygon(p@),
        SFCGeometry::MultiPoint(pts) => SfcShape::MultiPoint(pts@),
        SFCGeometry::MultiLineString(ls) => SfcShape::MultiLineString(ring_seqs(ls@)),
        SFCGeometry::MultiPolygon(ps) => SfcShape::MultiPolygon(rings_shapes(ps@)),
        SFCGeometry::GeometryCollection(gs) => SfcShape::GeometryCollection(sfc_shapes(gs@)),
    }
}

/// The views of a sequence of SFCGAL geometries.
pub open spec fn sfc_shapes(gs: Seq<SFCGeometry>) -> Seq<SfcShape>
    decreases gs,
{
    if gs.len() == 0 {
        Seq::empty()
    } else {
        sfc_shapes(gs.drop_last()).push(sfc_shape(gs.last()))
    }
}

/// `sfc_shapes` maps `sfc_shape` over the sequence.
pub proof fn lemma_sfc_shapes(gs: Seq<SFCGeometry>)
    ensures
        sfc_shapes(gs).len() == gs.len(),
        forall|i: int| 0 <= i < gs.len() ==> #[trigger] sfc_shapes(gs)[i] == sfc_shape(gs[i]),
    decreases gs.len(),
{
    if gs.len() > 0 {
        lemma_sfc_shapes(gs.drop_last());
    }
}

impl View for SFCGeometry {
    type V = SfcShape;

    open spec fn view(&self) -> SfcShape {
        sfc_shape(*self)
    }
}

/// The SFCGAL type of a geometry.
pub open spec fn shape_type(s: SfcShape) -> GeomType {
    match s {
        SfcShape::Point(..) => GeomType::Point,
        SfcShape::LineString(..) => GeomType::Linestring,
        SfcShape::Triangle(..) => GeomType::Triangle,
        SfcShape::Polygon(..) => GeomType::Polygon,
        SfcShape::MultiPoint(..) => GeomType::Multipoint,
        SfcShape::MultiLineString(..) => GeomType::Multilinestring,
        SfcShape::MultiPolygon(..) => GeomType::Multipolygon,
        SfcShape::GeometryCollection(..) => GeomType::Geometrycollection,
    }
}

impl SFCGeometry {
    /// The SFCGAL type of the geometry.
    pub fn _type(&self) -> (r: Result<GeomType, Error>)
        ensures
            r == Ok::<GeomType, Error>(shape_type(self@)),
    {
        match self {
            SFCGeometry::Point(..) => Ok(GeomType::Point),
            SFCGeometry::LineString(..) => Ok(GeomType::Linestring),
            SFCGeometry::Triangle(..) => Ok(GeomType::Triangle),
            SFCGeometry::Polygon(..) => Ok(GeomType::Polygon),
            SFCGeometry::MultiPoint(..) => Ok(GeomType::Multipoint),
            SFCGeometry::MultiLineString(..) => Ok(GeomType::Multilinestring),
            SFCGeometry::MultiPolygon(..) => Ok(GeomType::Multipolygon),
            SFCGeometry::GeometryCollection(..) => Ok(GeomType::Geometrycollection),
        }
    }
}

} // verus!
