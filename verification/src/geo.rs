//! Planar geometries in the shape of the `geo-types` crate, over [`Coord`].
//!
//! Each type has a view (`@`) made of sequences of coordinates, which the
//! contracts of the conversions speak of.
use vstd::prelude::*;

use crate::coord::{coords_equal, is_nan, Coord};

verus! {

/// A single point.
#[derive(Clone, Copy, Debug, PartialEq, Eq, Structural)]
pub struct Point(pub Coord);

/// A segment from `start` to `end`.
#[derive(Clone, Copy, Debug, PartialEq, Eq, Structural)]
pub struct Line {
    pub start: Coord,
    pub end: Coord,
}

/// A sequence of coordinates joined by segments.
#[derive(Clone, Debug, PartialEq)]
pub struct LineString(pub Vec<Coord>);

/// A surface bounded by an exterior ring, with holes bounded by interior rings.
#[derive(Clone, Debug, PartialEq)]
pub struct Polygon {
    pub exterior: LineString,
    pub interiors: Vec<LineString>,
}

/// A collection of points.
#[derive(Clone, Debug, PartialEq)]
pub struct MultiPoint(pub Vec<Point>);

/// A collection of line strings.
#[derive(Clone, Debug, PartialEq)]
pub struct MultiLineString(pub Vec<LineString>);

/// A collection of polygons.
#[derive(Clone, Debug, PartialEq)]
pub struct MultiPolygon(pub Vec<Polygon>);

/// A triangle given by its three vertices.
#[derive(Clone, Copy, Debug, PartialEq, Eq, Structural)]
pub struct Triangle(pub Coord, pub Coord, pub Coord);

/// A collection of geometries of any kind.
#[derive(Debug, PartialEq)]
pub struct GeometryCollection(pub Vec<Geometry>);

/// Any of the geometries above, but a triangle.
#[derive(Debug, PartialEq)]
pub enum Geometry {
    Point(Point),
    Line(Line),
    LineString(LineString),
    Polygon(Polygon),
    MultiPoint(MultiPoint),
    MultiLineString(MultiLineString),
    MultiPolygon(MultiPolygon),
    GeometryCollection(GeometryCollection),
}

// ---------------------------------------------------------------------------
// Views
// ---------------------------------------------------------------------------

/// The rings of a polygon, as coordinate sequences.
#[verifier::ext_equal]
pub struct PolygonShape {
    pub exterior: Seq<Coord>,
    pub interiors: Seq<Seq<Coord>>,
}

/// The view of a [`Geometry`].
#[verifier::ext_equal]
pub enum GeometryShape {
    Point(Coord),
    Line(Coord, Coord),
    LineString(Seq<Coord>),
    Polygon(PolygonShape),
    MultiPoint(Seq<Coord>),
    MultiLineString(Seq<Seq<Coord>>),
    MultiPolygon(Seq<PolygonShape>),
    GeometryCollection(Seq<GeometryShape>),
}

impl View for LineString {
    type V = Seq<Coord>;

    open spec fn view(&self) -> Seq<Coord> {
        self.0@
    }
}

/// The coordinate sequences of a sequence of line strings.
pub open spec fn line_shapes(lines: Seq<LineString>) -> Seq<Seq<Coord>> {
    lines.map_values(|l: LineString| l@)
}

impl View for Polygon {
    type V = PolygonShape;

    open spec fn view(&self) -> PolygonShape {
        PolygonShape { exterior: self.exterior@, interiors: line_shapes(self.interiors@) }
    }
}

impl View for MultiPoint {
    type V = Seq<Coord>;

    open spec fn view(&self) -> Seq<Coord> {
        self.0@.map_values(|p: Point| p.0)
    }
}

impl View for MultiLineString {
    type V = Seq<Seq<Coord>>;

    open spec fn view(&self) -> Seq<Seq<Coord>> {
        line_shapes(self.0@)
    }
}

/// The shapes of a sequence of polygons.
pub open spec fn polygon_shapes(polygons: Seq<Polygon>) -> Seq<PolygonShape> {
    polygons.map_values(|p: Polygon| p@)
}

impl View for MultiPolygon {
    type V = Seq<PolygonShape>;

    open spec fn view(&self) -> Seq<PolygonShape> {
        polygon_shapes(self.0@)
    }
}

/// The view of a geometry.
pub open spec fn geometry_shape(g: Geometry) -> GeometryShape
    decreases g,
{
    match g {
        Geometry::Point(p) => GeometryShape::Point(p.0),
        Geometry::Line(l) => GeometryShape::Line(l.start, l.end),
        Geometry::LineString(l) => GeometryShape::LineString(l@),
        Geometry::Polygon(p) => GeometryShape::Polygon(p@),
        Geometry::MultiPoint(m) => GeometryShape::MultiPoint(m@),
        Geometry::MultiLineString(m) => GeometryShape::MultiLineString(m@),
        Geometry::MultiPolygon(m) => GeometryShape::MultiPolygon(m@),
        Geometry::GeometryCollection(c) => GeometryShape::GeometryCollection(
            geometry_shapes(c.0@),
        ),
    }
}

/// The views of a sequence of geometries.
pub open spec fn geometry_shapes(gs: Seq<Geometry>) -> Seq<GeometryShape>
    decreases gs,
{
    if gs.len() == 0 {
        Seq::empty()
    } else {
        geometry_shapes(gs.drop_last()).push(geometry_shape(gs.last()))
    }
}

/// `geometry_shapes` maps `geometry_shape` over the sequence.
pub proof fn lemma_geometry_shapes(gs: Seq<Geometry>)
    ensures
        geometry_shapes(gs).len() == gs.len(),
        forall|i: int| 0 <= i < gs.len() ==> #[trigger] geometry_shapes(gs)[i] == geometry_shape(gs[i]),
    decreases gs.len(),
{
    if gs.len() > 0 {
        lemma_geometry_shapes(gs.drop_last());
    }
}

impl View for GeometryCollection {
    type V = Seq<GeometryShape>;

    open spec fn view(&self) -> Seq<GeometryShape> {
        geometry_shapes(self.0@)
    }
}

impl View for Geometry {
    type V = GeometryShape;

    open spec fn view(&self) -> GeometryShape {
        geometry_shape(*self)
    }
}

// ---------------------------------------------------------------------------
// Rings
// ---------------------------------------------------------------------------

/// A ring is closed when it is empty or its first and last coordinates are
/// numerically equal.
pub open spec fn ring_is_closed(s: Seq<Coord>) -> bool {
    s.len() == 0 || coords_equal(s[0], s.last())
}

/// A ring closed by repeating its first coordinate at its end, unless it is
/// closed already.
pub open spec fn closed_ring(s: Seq<Coord>) -> Seq<Coord> {
    if ring_is_closed(s) {
        s
    } else {
        s.push(s[0])
    }
}

/// A polygon whose rings have all been closed.
pub open spec fn closed_polygon(p: PolygonShape) -> PolygonShape {
    PolygonShape {
        exterior: closed_ring(p.exterior),
        interiors: p.interiors.map_values(|r: Seq<Coord>| closed_ring(r)),
    }
}

/// All rings of the polygon are closed.
pub open spec fn polygon_is_closed(p: PolygonShape) -> bool {
    &&& ring_is_closed(p.exterior)
    &&& forall|i: int| 0 <= i < p.interiors.len() ==> ring_is_closed(#[trigger] p.interiors[i])
}

impl Point {
    /// The point at `(x, y)`.
    pub fn new(x: u64, y: u64) -> (p: Point)
        ensures
            p.0 == (Coord { x, y }),
    {
        Point(Coord { x, y })
    }

    /// The first ordinate.
    pub fn x(&self) -> (r: u64)
        ensures
            r == self.0.x,
    {
        self.0.x
    }

    /// The second ordinate.
    pub fn y(&self) -> (r: u64)
        ensures
            r == self.0.y,
    {
        self.0.y
    }
}

impl LineString {
    /// Whether the line string is a closed ring.
    pub fn is_closed(&self) -> (r: bool)
        ensures
            r == ring_is_closed(self@),
    {
        let n = self.0.len();
        if n == 0 {
            true
        } else {
            self.0[0].same_position(&self.0[n - 1])
        }
    }

    /// Closes the ring: if it is not closed, its first coordinate is
    /// appended.
    pub fn close(&mut self)
        ensures
            final(self)@ == closed_ring(old(self)@),
    {
        if !self.is_closed() {
            let first = self.0[0];
            self.0.push(first);
        }
    }
}

impl Polygon {
    /// The polygon with the given rings, each of them closed.
    pub fn new(exterior: LineString, interiors: Vec<LineString>) -> (p: Polygon)
        ensures
            p@ == closed_polygon(PolygonShape { exterior: exterior@, interiors: line_shapes(interiors@) }),
    {
        let mut exterior = exterior;
        exterior.close();
        let mut interiors = interiors;
        let ghost given = interiors@;
        let mut i: usize = 0;
        while i < interiors.len()
            invariant
                interiors@.len() == given.len(),
                i <= given.len(),
                forall|j: int| 0 <= j < i ==> #[trigger] interiors@[j]@ == closed_ring(given[j]@),
                forall|j: int| i <= j < given.len() ==> #[trigger] interiors@[j] == given[j],
            decreases given.len() - i,
        {
            interiors[i].close();
            i = i + 1;
        }
        let p = Polygon { exterior, interiors };
        assert(p@.interiors =~= line_shapes(given).map_values(|r: Seq<Coord>| closed_ring(r)));
        p
    }
}

impl Geometry {
    /// The point, if the geometry is one.
    pub fn as_point(self) -> (r: Option<Point>)
        ensures
            (self is Point) == (r is Some),
            r matches Some(p) ==> self == Geometry::Point(p),
    {
        match self {
            Geometry::Point(p) => Some(p),
            _ => None,
        }
    }

    /// The line string, if the geometry is one.
    pub fn as_linestring(self) -> (r: Option<LineString>)
        ensures
            (self is LineString) == (r is Some),
            r matches Some(l) ==> self == Geometry::LineString(l),
    {
        match self {
            Geometry::LineString(l) => Some(l),
            _ => None,
        }
    }

    /// The polygon, if the geometry is one.
    pub fn as_polygon(self) -> (r: Option<Polygon>)
        ensures
            (self is Polygon) == (r is Some),
            r matches Some(p) ==> self == Geometry::Polygon(p),
    {
        match self {
            Geometry::Polygon(p) => Some(p),
            _ => None,
        }
    }

    /// The multi point, if the geometry is one.
    pub fn as_multipoint(self) -> (r: Option<MultiPoint>)
        ensures
            (self is MultiPoint) == (r is Some),
            r matches Some(m) ==> self == Geometry::MultiPoint(m),
    {
        match self {
            Geometry::MultiPoint(m) => Some(m),
            _ => None,
        }
    }

    /// The multi line string, if the geometry is one.
    pub fn as_multilinestring(self) -> (r: Option<MultiLineString>)
        ensures
            (self is MultiLineString) == (r is Some),
            r matches Some(m) ==> self == Geometry::MultiLineString(m),
    {
        match self {
            Geometry::MultiLineString(m) => Some(m),
            _ => None,
        }
    }

    /// The multi polygon, if the geometry is one.
    pub fn as_multipolygon(self) -> (r: Option<MultiPolygon>)
        ensures
            (self is MultiPolygon) == (r is Some),
            r matches Some(m) ==> self == Geometry::MultiPolygon(m),
    {
        match self {
            Geometry::MultiPolygon(m) => Some(m),
            _ => None,
        }
    }
}

// ---------------------------------------------------------------------------
// Laws of rings
// ---------------------------------------------------------------------------

/// Closing a ring whose first coordinate has no NaN ordinate yields a closed
/// ring.
pub proof fn lemma_closed_ring_is_closed(s: Seq<Coord>)
    requires
        s.len() > 0 ==> !is_nan(s[0].x) && !is_nan(s[0].y),
    ensures
        ring_is_closed(closed_ring(s)),
{
}

/// Closing a ring twice is closing it once, when its first coordinate has no
/// NaN ordinate.
pub proof fn lemma_close_idempotent(s: Seq<Coord>)
    requires
        s.len() > 0 ==> !is_nan(s[0].x) && !is_nan(s[0].y),
    ensures
        closed_ring(closed_ring(s)) == closed_ring(s),
{
}

/// Closing a closed ring leaves it as it is.
pub proof fn lemma_close_closed_ring(s: Seq<Coord>)
    requires
        ring_is_closed(s),
    ensures
        closed_ring(s) == s,
{
}

/// Closing a polygon whose rings are all closed leaves it as it is.
pub proof fn lemma_close_closed_polygon(p: PolygonShape)
    requires
        polygon_is_closed(p),
    ensures
        closed_polygon(p) == p,
{
    assert(closed_polygon(p).interiors =~= p.interiors);
}

/// Closing a ring keeps its coordinates, in order, as a prefix; it adds one
/// coordinate, a copy of the first, exactly when the ring was not closed.
pub proof fn lemma_closed_ring_extends(s: Seq<Coord>)
    ensures
        closed_ring(s).subrange(0, s.len() as int) == s,
        ring_is_closed(s) ==> closed_ring(s).len() == s.len(),
        !ring_is_closed(s) ==> closed_ring(s).len() == s.len() + 1 && closed_ring(s).last() == s[0],
{
    assert(closed_ring(s).subrange(0, s.len() as int) =~= s);
}

} // verus!
