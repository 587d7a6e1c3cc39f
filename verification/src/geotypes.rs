//! Conversion between the geometries of [`crate::geo`] and SFCGAL geometries.
//!
//! [`ToSFCGAL`] turns each planar geometry into the content of an SFCGAL
//! geometry; [`crate::TryInto`] reads an SFCGAL geometry of the six kinds that have a
//! planar counterpart back into a [`Geometry`]. Reading a polygon closes its
//! rings, as building a polygon does.
use vstd::prelude::*;

use crate::convert::TryInto;
use crate::coord::{is_nan, Coord};
use crate::geo::{
    closed_polygon, closed_ring, geometry_shape, geometry_shapes, lemma_close_closed_polygon,
    lemma_geometry_shapes, line_shapes, polygon_is_closed, polygon_shapes, ring_is_closed, Geometry, GeometryCollection,
    GeometryShape, Line, LineString, MultiLineString, MultiPoint, MultiPolygon, Point, Polygon,
    PolygonShape, Triangle,
};
use crate::sfcgal::{
    lemma_sfc_shapes, ring_seqs, rings_shapes, sfc_shape, sfc_shapes, Error, PolygonRings,
    SFCGeometry, SfcShape,
};

verus! {

// ---------------------------------------------------------------------------
// What the conversions compute
// ---------------------------------------------------------------------------

/// The SFCGAL geometry that a planar geometry becomes: a line becomes a line
/// string of its two ends, a collection the collection of its converted
/// members, and every other kind its SFCGAL namesake with the same
/// coordinates.
pub open spec fn geometry_to_sfc(g: GeometryShape) -> SfcShape
    decreases g,
{
    match g {
        GeometryShape::Point(c) => SfcShape::Point(c),
        GeometryShape::Line(a, b) => SfcShape::LineString(seq![a, b]),
        GeometryShape::LineString(pts) => SfcShape::LineString(pts),
        GeometryShape::Polygon(p) => SfcShape::Polygon(p),
        GeometryShape::MultiPoint(pts) => SfcShape::MultiPoint(pts),
        GeometryShape::MultiLineString(ls) => SfcShape::MultiLineString(ls),
        GeometryShape::MultiPolygon(ps) => SfcShape::MultiPolygon(ps),
        GeometryShape::GeometryCollection(gs) => SfcShape::GeometryCollection(
            geometries_to_sfc(gs),
        ),
    }
}

/// [`geometry_to_sfc`] of each member of a sequence.
pub open spec fn geometries_to_sfc(gs: Seq<GeometryShape>) -> Seq<SfcShape>
    decreases gs,
{
    if gs.len() == 0 {
        Seq::empty()
    } else {
        geometries_to_sfc(gs.drop_last()).push(geometry_to_sfc(gs.last()))
    }
}

/// `geometries_to_sfc` maps `geometry_to_sfc` over the sequence.
pub proof fn lemma_geometries_to_sfc(gs: Seq<GeometryShape>)
    ensures
        geometries_to_sfc(gs).len() == gs.len(),
        forall|i: int|
            0 <= i < gs.len() ==> #[trigger] geometries_to_sfc(gs)[i] == geometry_to_sfc(gs[i]),
    decreases gs.len(),
{
    if gs.len() > 0 {
        lemma_geometries_to_sfc(gs.drop_last());
    }
}

/// The SFCGAL geometries that have a planar counterpart: points, line
/// strings, polygons and their multi versions.
pub open spec fn sfc_convertible(s: SfcShape) -> bool {
    ||| s is Point
    ||| s is LineString
    ||| s is Polygon
    ||| s is MultiPoint
    ||| s is MultiLineString
    ||| s is MultiPolygon
}

/// The planar geometry that a convertible SFCGAL geometry becomes: the
/// namesake with the same coordinates, every polygon ring closed.
pub open spec fn sfc_to_geometry(s: SfcShape) -> GeometryShape
    recommends
        sfc_convertible(s),
{
    match s {
        SfcShape::Point(c) => GeometryShape::Point(c),
        SfcShape::LineString(pts) => GeometryShape::LineString(pts),
        SfcShape::Polygon(p) => GeometryShape::Polygon(closed_polygon(p)),
        SfcShape::MultiPoint(pts) => GeometryShape::MultiPoint(pts),
        SfcShape::MultiLineString(ls) => GeometryShape::MultiLineString(ls),
        SfcShape::MultiPolygon(ps) => GeometryShape::MultiPolygon(
            ps.map_values(|p: PolygonShape| closed_polygon(p)),
        ),
        _ => arbitrary(),
    }
}

impl SFCGeometry {
    /// Whether the geometry is of a kind that [`crate::TryInto`] reads: a
    /// point, line string, polygon or one of their multi versions.
    pub fn is_convertible(&self) -> (r: bool)
        ensures
            r == sfc_convertible(self@),
    {
        match self {
            SFCGeometry::Point(..) => true,
            SFCGeometry::LineString(..) => true,
            SFCGeometry::Polygon(..) => true,
            SFCGeometry::MultiPoint(..) => true,
            SFCGeometry::MultiLineString(..) => true,
            SFCGeometry::MultiPolygon(..) => true,
            SFCGeometry::Triangle(..) => false,
            SFCGeometry::GeometryCollection(..) => false,
        }
    }
}

// ---------------------------------------------------------------------------
// From planar geometries to SFCGAL
// ---------------------------------------------------------------------------

/// Conversion of a planar geometry into an SFCGAL geometry. It succeeds with
/// the geometry whose view is `sfcgal_shape`.
pub trait ToSFCGAL {
    /// The view of the SFCGAL geometry that `self` becomes.
    spec fn sfcgal_shape(&self) -> SfcShape;

    fn to_sfcgal(&self) -> (r: Result<SFCGeometry, Error>)
        ensures
            r is Ok,
            r matches Ok(s) ==> s@ == self.sfcgal_shape(),
    ;
}

/// The points of the SFCGAL line string that a line string becomes.
fn linestring_geo_to_sfcgal(geom: &LineString) -> (r: Vec<Coord>)
    ensures
        r@ == geom@,
{
    let point_list = &geom.0;
    let mut out: Vec<Coord> = Vec::new();
    let mut i: usize = 0;
    while i < point_list.len()
        invariant
            i <= point_list@.len(),
            out@ == point_list@.take(i as int),
        decreases point_list@.len() - i,
    {
        let coords = point_list[i];
        out.push(Coord::new(coords.x, coords.y));
        i = i + 1;
        assert(out@ =~= point_list@.take(i as int));
    }
    assert(point_list@.take(i as int) =~= point_list@);
    out
}

/// The rings of the SFCGAL polygon that a polygon becomes.
fn polygon_geo_to_sfcgal(polygon: &Polygon) -> (r: PolygonRings)
    ensures
        r@ == polygon@,
{
    let exterior = linestring_geo_to_sfcgal(&polygon.exterior);
    let rings = &polygon.interiors;
    let mut interiors: Vec<Vec<Coord>> = Vec::new();
    let mut i: usize = 0;
    while i < rings.len()
        invariant
            i <= rings@.len(),
            interiors@.len() == i,
            forall|j: int| 0 <= j < i ==> #[trigger] interiors@[j]@ == rings@[j]@,
        decreases rings@.len() - i,
    {
        interiors.push(linestring_geo_to_sfcgal(&rings[i]));
        i = i + 1;
    }
    let r = PolygonRings { exterior, interiors };
    assert(ring_seqs(r.interiors@) =~= line_shapes(polygon.interiors@));
    r
}

/// A point becomes an SFCGAL point.
impl ToSFCGAL for Point {
    open spec fn sfcgal_shape(&self) -> SfcShape {
        geometry_to_sfc(GeometryShape::Point(self.0))
    }

    fn to_sfcgal(&self) -> Result<SFCGeometry, Error>
    {
        Ok(SFCGeometry::Point(Coord::new(self.x(), self.y())))
    }
}

/// A multi point becomes an SFCGAL multi point.
impl ToSFCGAL for MultiPoint {
    open spec fn sfcgal_shape(&self) -> SfcShape {
        geometry_to_sfc(GeometryShape::MultiPoint(self@))
    }

    fn to_sfcgal(&self) -> Result<SFCGeometry, Error>
    {
        let point_list = &self.0;
        let mut out: Vec<Coord> = Vec::new();
        let mut i: usize = 0;
        while i < point_list.len()
            invariant
                i <= point_list@.len(),
                out@.len() == i,
                forall|j: int| 0 <= j < i ==> #[trigger] out@[j] == point_list@[j].0,
            decreases point_list@.len() - i,
        {
            let point = point_list[i];
            out.push(Coord::new(point.x(), point.y()));
            i = i + 1;
        }
        assert(out@ =~= self@);
        Ok(SFCGeometry::MultiPoint(out))
    }
}

/// A line becomes an SFCGAL line string from its start to its end.
impl ToSFCGAL for Line {
    open spec fn sfcgal_shape(&self) -> SfcShape {
        geometry_to_sfc(GeometryShape::Line(self.start, self.end))
    }

    fn to_sfcgal(&self) -> Result<SFCGeometry, Error>
    {
        let mut out: Vec<Coord> = Vec::new();
        out.push(Coord::new(self.start.x, self.start.y));
        out.push(Coord::new(self.end.x, self.end.y));
        assert(out@ =~= seq![self.start, self.end]);
        Ok(SFCGeometry::LineString(out))
    }
}

/// A line string becomes an SFCGAL line string.
impl ToSFCGAL for LineString {
    open spec fn sfcgal_shape(&self) -> SfcShape {
        geometry_to_sfc(GeometryShape::LineString(self@))
    }

    fn to_sfcgal(&self) -> Result<SFCGeometry, Error>
    {
        Ok(SFCGeometry::LineString(linestring_geo_to_sfcgal(self)))
    }
}

/// A multi line string becomes an SFCGAL multi line string.
impl ToSFCGAL for MultiLineString {
    open spec fn sfcgal_shape(&self) -> SfcShape {
        geometry_to_sfc(GeometryShape::MultiLineString(self@))
    }

    fn to_sfcgal(&self) -> Result<SFCGeometry, Error>
    {
        let linestring_list = &self.0;
        let mut out: Vec<Vec<Coord>> = Vec::new();
        let mut i: usize = 0;
        while i < linestring_list.len()
            invariant
                i <= linestring_list@.len(),
                out@.len() == i,
                forall|j: int| 0 <= j < i ==> #[trigger] out@[j]@ == linestring_list@[j]@,
            decreases linestring_list@.len() - i,
        {
            out.push(linestring_geo_to_sfcgal(&linestring_list[i]));
            i = i + 1;
        }
        assert(ring_seqs(out@) =~= self@);
        Ok(SFCGeometry::MultiLineString(out))
    }
}

/// A triangle becomes an SFCGAL triangle with the same vertices in the same
/// order.
impl ToSFCGAL for Triangle {
    open spec fn sfcgal_shape(&self) -> SfcShape {
        SfcShape::Triangle(self.0, self.1, self.2)
    }

    fn to_sfcgal(&self) -> Result<SFCGeometry, Error>
    {
        let c0 = self.0;
        let c1 = self.1;
        let c2 = self.2;
        Ok(
            SFCGeometry::Triangle(
                Coord::new(c0.x, c0.y),
                Coord::new(c1.x, c1.y),
                Coord::new(c2.x, c2.y),
            ),
        )
    }
}

/// A polygon becomes an SFCGAL polygon with the same rings.
impl ToSFCGAL for Polygon {
    open spec fn sfcgal_shape(&self) -> SfcShape {
        geometry_to_sfc(GeometryShape::Polygon(self@))
    }

    fn to_sfcgal(&self) -> Result<SFCGeometry, Error>
    {
        Ok(SFCGeometry::Polygon(polygon_geo_to_sfcgal(self)))
    }
}

/// A multi polygon becomes an SFCGAL multi polygon.
impl ToSFCGAL for MultiPolygon {
    open spec fn sfcgal_shape(&self) -> SfcShape {
        geometry_to_sfc(GeometryShape::MultiPolygon(self@))
    }

    fn to_sfcgal(&self) -> Result<SFCGeometry, Error>
    {
        let list_polygons = &self.0;
        let mut out: Vec<PolygonRings> = Vec::new();
        let mut i: usize = 0;
        while i < list_polygons.len()
            invariant
                i <= list_polygons@.len(),
                out@.len() == i,
                forall|j: int| 0 <= j < i ==> #[trigger] out@[j]@ == list_polygons@[j]@,
            decreases list_polygons@.len() - i,
        {
            out.push(polygon_geo_to_sfcgal(&list_polygons[i]));
            i = i + 1;
        }
        assert(rings_shapes(out@) =~= polygon_shapes(list_polygons@));
        Ok(SFCGeometry::MultiPolygon(out))
    }
}

/// A geometry collection becomes an SFCGAL geometry collection of its
/// converted members.
impl ToSFCGAL for GeometryCollection {
    open spec fn sfcgal_shape(&self) -> SfcShape {
        geometry_to_sfc(GeometryShape::GeometryCollection(self@))
    }

    fn to_sfcgal(&self) -> Result<SFCGeometry, Error>
        decreases self,
    {
        let list_geoms = &self.0;
        let n = list_geoms.len();
        let mut out: Vec<SFCGeometry> = Vec::new();
        let mut i: usize = 0;
        while i < n
            invariant
                n == self.0@.len(),
                list_geoms == &self.0,
                i <= n,
                out@.len() == i,
                forall|j: int|
                    0 <= j < i ==> #[trigger] sfc_shape(out@[j]) == geometry_to_sfc(
                        geometry_shape(list_geoms@[j]),
                    ),
            decreases n - i,
        {
            proof {
                assert(decreases_to!(self.0 => self.0[i as int]));
                assert(decreases_to!(*self => self.0[i as int]));
            }
            let sfcgal_geom = self.0[i].to_sfcgal()?;
            out.push(sfcgal_geom);
            i = i + 1;
        }
        proof {
            lemma_sfc_shapes(out@);
            lemma_geometry_shapes(list_geoms@);
            lemma_geometries_to_sfc(geometry_shapes(list_geoms@));
            assert(sfc_shapes(out@) =~= geometries_to_sfc(geometry_shapes(list_geoms@)));
        }
        Ok(SFCGeometry::GeometryCollection(out))
    }
}

/// A geometry becomes the SFCGAL geometry that its kind converts to.
impl ToSFCGAL for Geometry {
    open spec fn sfcgal_shape(&self) -> SfcShape {
        geometry_to_sfc(self@)
    }

    fn to_sfcgal(&self) -> Result<SFCGeometry, Error>
        decreases self,
    {
        match self {
            Geometry::Point(c) => c.to_sfcgal(),
            Geometry::Line(c) => c.to_sfcgal(),
            Geometry::LineString(c) => c.to_sfcgal(),
            Geometry::Polygon(c) => c.to_sfcgal(),
            Geometry::MultiPoint(c) => c.to_sfcgal(),
            Geometry::MultiLineString(c) => c.to_sfcgal(),
            Geometry::MultiPolygon(c) => c.to_sfcgal(),
            Geometry::GeometryCollection(c) => {
                proof {
                    assert(decreases_to!(*self => self->GeometryCollection_0));
                }
                c.to_sfcgal()
            },
        }
    }
}

// ---------------------------------------------------------------------------
// From SFCGAL to planar geometries
// ---------------------------------------------------------------------------

/// The planar point at an SFCGAL point.
fn geo_point_from_sfcgal(geom: &Coord) -> (p: Point)
    ensures
        p.0 == *geom,
{
    Point::new(geom.x, geom.y)
}

/// The line string with the points of an SFCGAL line string.
fn geo_line_from_sfcgal(points: &Vec<Coord>) -> (l: LineString)
    ensures
        l@ == points@,
{
    let mut v_points: Vec<Coord> = Vec::new();
    let mut i: usize = 0;
    while i < points.len()
        invariant
            i <= points@.len(),
            v_points@ == points@.take(i as int),
        decreases points@.len() - i,
    {
        let pt_geom = geo_point_from_sfcgal(&points[i]);
        v_points.push(pt_geom.0);
        i = i + 1;
        assert(v_points@ =~= points@.take(i as int));
    }
    assert(points@.take(i as int) =~= points@);
    LineString(v_points)
}

/// The planar polygon with the rings of an SFCGAL polygon, each closed.
fn geo_polygon_from_sfcgal(rings: &PolygonRings) -> (p: Polygon)
    ensures
        p@ == closed_polygon(rings@),
{
    let exterior_geo = geo_line_from_sfcgal(&rings.exterior);
    let nrings = rings.interiors.len();
    let mut interiors_geo: Vec<LineString> = Vec::new();
    let mut i: usize = 0;
    while i < nrings
        invariant
            nrings == rings.interiors@.len(),
            i <= nrings,
            interiors_geo@.len() == i,
            forall|j: int| 0 <= j < i ==> #[trigger] interiors_geo@[j]@ == rings.interiors@[j]@,
        decreases nrings - i,
    {
        interiors_geo.push(geo_line_from_sfcgal(&rings.interiors[i]));
        i = i + 1;
    }
    assert(line_shapes(interiors_geo@) =~= ring_seqs(rings.interiors@));
    Polygon::new(exterior_geo, interiors_geo)
}

/// Reads an SFCGAL point, line string, polygon, multi point, multi line
/// string or multi polygon into the planar geometry of the same kind; the
/// rings of polygons come back closed.
impl crate::convert::TryInto<Geometry> for SFCGeometry {
    type Err = Error;

    open spec fn can_convert(&self) -> bool {
        sfc_convertible(self@)
    }

    open spec fn converted(&self) -> GeometryShape {
        sfc_to_geometry(self@)
    }

    fn try_into(self) -> Result<Geometry, Error> {
        match self {
            SFCGeometry::Point(c) => Ok(Geometry::Point(geo_point_from_sfcgal(&c))),
            SFCGeometry::MultiPoint(geoms) => {
                let ngeoms = geoms.len();
                let mut pts: Vec<Point> = Vec::new();
                let mut i: usize = 0;
                while i < ngeoms
                    invariant
                        ngeoms == geoms@.len(),
                        i <= ngeoms,
                        pts@.len() == i,
                        forall|j: int| 0 <= j < i ==> #[trigger] pts@[j].0 == geoms@[j],
                    decreases ngeoms - i,
                {
                    pts.push(geo_point_from_sfcgal(&geoms[i]));
                    i = i + 1;
                }
                let m = MultiPoint(pts);
                assert(m@ =~= geoms@);
                Ok(Geometry::MultiPoint(m))
            },
            SFCGeometry::LineString(points) => Ok(
                Geometry::LineString(geo_line_from_sfcgal(&points)),
            ),
            SFCGeometry::MultiLineString(geoms) => {
                let ngeoms = geoms.len();
                let mut lines: Vec<LineString> = Vec::new();
                let mut i: usize = 0;
                while i < ngeoms
                    invariant
                        ngeoms == geoms@.len(),
                        i <= ngeoms,
                        lines@.len() == i,
                        forall|j: int| 0 <= j < i ==> #[trigger] lines@[j]@ == geoms@[j]@,
                    decreases ngeoms - i,
                {
                    lines.push(geo_line_from_sfcgal(&geoms[i]));
                    i = i + 1;
                }
                let m = MultiLineString(lines);
                assert(m@ =~= ring_seqs(geoms@));
                Ok(Geometry::MultiLineString(m))
            },
            SFCGeometry::Polygon(rings) => Ok(Geometry::Polygon(geo_polygon_from_sfcgal(&rings))),
            SFCGeometry::MultiPolygon(geoms) => {
                let ngeoms = geoms.len();
                let mut vec_polygons: Vec<Polygon> = Vec::new();
                let mut i: usize = 0;
                while i < ngeoms
                    invariant
                        ngeoms == geoms@.len(),
                        i <= ngeoms,
                        vec_polygons@.len() == i,
                        forall|j: int|
                            0 <= j < i ==> #[trigger] vec_polygons@[j]@ == closed_polygon(
                                geoms@[j]@,
                            ),
                    decreases ngeoms - i,
                {
                    vec_polygons.push(geo_polygon_from_sfcgal(&geoms[i]));
                    i = i + 1;
                }
                let m = MultiPolygon(vec_polygons);
                assert(m@ =~= rings_shapes(geoms@).map_values(
                    |p: PolygonShape| closed_polygon(p),
                ));
                Ok(Geometry::MultiPolygon(m))
            },
            _ => unreached(),
        }
    }
}

// ---------------------------------------------------------------------------
// Laws
// ---------------------------------------------------------------------------

/// The planar kinds that have an SFCGAL namesake which converts back: points,
/// line strings, polygons and their multi versions.
pub open spec fn has_sfc_namesake(g: GeometryShape) -> bool {
    ||| g is Point
    ||| g is LineString
    ||| g is Polygon
    ||| g is MultiPoint
    ||| g is MultiLineString
    ||| g is MultiPolygon
}

/// The planar geometry with the rings of its polygons closed.
pub open spec fn geometry_with_closed_rings(g: GeometryShape) -> GeometryShape {
    match g {
        GeometryShape::Polygon(p) => GeometryShape::Polygon(closed_polygon(p)),
        GeometryShape::MultiPolygon(ps) => GeometryShape::MultiPolygon(
            ps.map_values(|p: PolygonShape| closed_polygon(p)),
        ),
        _ => g,
    }
}

/// All rings of the polygons of a planar geometry are closed.
pub open spec fn geometry_rings_closed(g: GeometryShape) -> bool {
    match g {
        GeometryShape::Polygon(p) => polygon_is_closed(p),
        GeometryShape::MultiPolygon(ps) => forall|i: int|
            0 <= i < ps.len() ==> polygon_is_closed(#[trigger] ps[i]),
        _ => true,
    }
}

/// The SFCGAL geometry with the rings of its polygons closed.
pub open spec fn sfc_with_closed_rings(s: SfcShape) -> SfcShape {
    match s {
        SfcShape::Polygon(p) => SfcShape::Polygon(closed_polygon(p)),
        SfcShape::MultiPolygon(ps) => SfcShape::MultiPolygon(
            ps.map_values(|p: PolygonShape| closed_polygon(p)),
        ),
        _ => s,
    }
}

/// All rings of the polygons of an SFCGAL geometry are closed.
pub open spec fn sfc_rings_closed(s: SfcShape) -> bool {
    match s {
        SfcShape::Polygon(p) => polygon_is_closed(p),
        SfcShape::MultiPolygon(ps) => forall|i: int|
            0 <= i < ps.len() ==> polygon_is_closed(#[trigger] ps[i]),
        _ => true,
    }
}

/// Closing every polygon of a sequence whose polygons are closed leaves it
/// as it is.
proof fn lemma_close_closed_polygons(ps: Seq<PolygonShape>)
    requires
        forall|i: int| 0 <= i < ps.len() ==> polygon_is_closed(#[trigger] ps[i]),
    ensures
        ps.map_values(|p: PolygonShape| closed_polygon(p)) == ps,
{
    assert forall|i: int| 0 <= i < ps.len() implies closed_polygon(ps[i]) == ps[i] by {
        lemma_close_closed_polygon(ps[i]);
    }
    assert(ps.map_values(|p: PolygonShape| closed_polygon(p)) =~= ps);
}

/// Converting a point, line string, polygon or multi geometry to SFCGAL and
/// reading it back gives the same kind with the same coordinates, the rings
/// of its polygons closed.
pub proof fn lemma_geometry_roundtrip(g: GeometryShape)
    requires
        has_sfc_namesake(g),
    ensures
        sfc_convertible(geometry_to_sfc(g)),
        sfc_to_geometry(geometry_to_sfc(g)) == geometry_with_closed_rings(g),
{
}

/// Converting a point, line string, polygon or multi geometry whose rings are
/// closed to SFCGAL and reading it back gives the same geometry.
pub proof fn lemma_geometry_roundtrip_closed(g: GeometryShape)
    requires
        has_sfc_namesake(g),
        geometry_rings_closed(g),
    ensures
        sfc_to_geometry(geometry_to_sfc(g)) == g,
{
    match g {
        GeometryShape::Polygon(p) => lemma_close_closed_polygon(p),
        GeometryShape::MultiPolygon(ps) => lemma_close_closed_polygons(ps),
        _ => {},
    }
}

/// A line converted to SFCGAL and read back is the line string from its
/// start to its end.
pub proof fn lemma_line_roundtrip(start: Coord, end: Coord)
    ensures
        sfc_convertible(geometry_to_sfc(GeometryShape::Line(start, end))),
        sfc_to_geometry(geometry_to_sfc(GeometryShape::Line(start, end)))
            == GeometryShape::LineString(seq![start, end]),
{
}

/// Triangles and geometry collections become SFCGAL geometries that do not
/// convert back.
pub proof fn lemma_no_way_back(g: GeometryShape, a: Coord, b: Coord, c: Coord)
    requires
        g is GeometryCollection,
    ensures
        !sfc_convertible(geometry_to_sfc(g)),
        !sfc_convertible(SfcShape::Triangle(a, b, c)),
{
}

/// Reading a convertible SFCGAL geometry and converting the result back
/// gives the geometry with the rings of its polygons closed.
pub proof fn lemma_sfc_roundtrip(s: SfcShape)
    requires
        sfc_convertible(s),
    ensures
        geometry_to_sfc(sfc_to_geometry(s)) == sfc_with_closed_rings(s),
{
}

/// Reading a convertible SFCGAL geometry whose rings are closed and
/// converting the result back gives the same geometry.
pub proof fn lemma_sfc_roundtrip_closed(s: SfcShape)
    requires
        sfc_convertible(s),
        sfc_rings_closed(s),
    ensures
        geometry_to_sfc(sfc_to_geometry(s)) == s,
{
    match s {
        SfcShape::Polygon(p) => lemma_close_closed_polygon(p),
        SfcShape::MultiPolygon(ps) => lemma_close_closed_polygons(ps),
        _ => {},
    }
}

/// The polygons read from SFCGAL have closed rings, provided that no ring
/// starts at a coordinate with a NaN ordinate.
pub proof fn lemma_read_rings_closed(s: SfcShape)
    requires
        sfc_convertible(s),
        forall|p: PolygonShape| #[trigger] polygon_of(s, p) ==> rings_start_numeric(p),
    ensures
        geometry_rings_closed(sfc_to_geometry(s)),
{
    match s {
        SfcShape::Polygon(p) => {
            assert(polygon_of(s, p));
            lemma_closed_polygon_is_closed(p);
        },
        SfcShape::MultiPolygon(ps) => {
            let qs = ps.map_values(|p: PolygonShape| closed_polygon(p));
            assert forall|i: int| 0 <= i < qs.len() implies polygon_is_closed(#[trigger] qs[i]) by {
                assert(polygon_of(s, ps[i]));
                lemma_closed_polygon_is_closed(ps[i]);
            }
        },
        _ => {},
    }
}

/// `p` is a polygon of the SFCGAL geometry `s`.
pub open spec fn polygon_of(s: SfcShape, p: PolygonShape) -> bool {
    match s {
        SfcShape::Polygon(q) => p == q,
        SfcShape::MultiPolygon(ps) => ps.contains(p),
        _ => false,
    }
}

/// No ring of the polygon starts at a coordinate with a NaN ordinate.
pub open spec fn rings_start_numeric(p: PolygonShape) -> bool {
    &&& ring_starts_numeric(p.exterior)
    &&& forall|i: int| 0 <= i < p.interiors.len() ==> ring_starts_numeric(#[trigger] p.interiors[i])
}

/// The ring is empty or its first coordinate has no NaN ordinate.
pub open spec fn ring_starts_numeric(r: Seq<Coord>) -> bool {
    r.len() > 0 ==> !is_nan(r[0].x) && !is_nan(r[0].y)
}

/// Closing the rings of a polygon whose rings start at numeric coordinates
/// gives a polygon with closed rings.
pub proof fn lemma_closed_polygon_is_closed(p: PolygonShape)
    requires
        rings_start_numeric(p),
    ensures
        polygon_is_closed(closed_polygon(p)),
{
    assert forall|i: int| 0 <= i < closed_polygon(p).interiors.len() implies ring_is_closed(
        #[trigger] closed_polygon(p).interiors[i],
    ) by {
        assert(ring_starts_numeric(p.interiors[i]));
    }
}

// ---------------------------------------------------------------------------
// What each conversion keeps, member by member
// ---------------------------------------------------------------------------

/// A point becomes the SFCGAL point at the same coordinate.
pub proof fn law_point_to_sfcgal(p: Point)
    ensures
        p.sfcgal_shape() == SfcShape::Point(p.0),
        p.sfcgal_shape() == geometry_to_sfc(GeometryShape::Point(p.0)),
{
}

/// A multi point becomes an SFCGAL multi point with one point per member,
/// in order, each at the member's x and y.
pub proof fn law_multipoint_to_sfcgal(m: MultiPoint)
    ensures
        m.sfcgal_shape() is MultiPoint,
        m.sfcgal_shape()->MultiPoint_0.len() == m.0@.len(),
        forall|i: int|
            0 <= i < m.0@.len() ==> {
                &&& (#[trigger] m.sfcgal_shape()->MultiPoint_0[i]).x == m.0@[i].0.x
                &&& m.sfcgal_shape()->MultiPoint_0[i].y == m.0@[i].0.y
            },
        m.sfcgal_shape() == geometry_to_sfc(GeometryShape::MultiPoint(m@)),
{
}

/// A line becomes the SFCGAL line string from its start to its end.
pub proof fn law_line_to_sfcgal(l: Line)
    ensures
        l.sfcgal_shape() == SfcShape::LineString(seq![l.start, l.end]),
        l.sfcgal_shape() == geometry_to_sfc(GeometryShape::Line(l.start, l.end)),
{
}

/// A line string becomes the SFCGAL line string through the same points, in
/// order.
pub proof fn law_linestring_to_sfcgal(l: LineString)
    ensures
        l.sfcgal_shape() == SfcShape::LineString(l.0@),
        l.sfcgal_shape() == geometry_to_sfc(GeometryShape::LineString(l@)),
{
}

/// A multi line string becomes an SFCGAL multi line string with one line
/// string per member, in order, each through the member's points.
pub proof fn law_multilinestring_to_sfcgal(m: MultiLineString)
    ensures
        m.sfcgal_shape() is MultiLineString,
        m.sfcgal_shape()->MultiLineString_0.len() == m.0@.len(),
        forall|i: int|
            0 <= i < m.0@.len() ==> #[trigger] m.sfcgal_shape()->MultiLineString_0[i] == m.0@[i].0@,
        m.sfcgal_shape() == geometry_to_sfc(GeometryShape::MultiLineString(m@)),
{
}

/// A triangle becomes the SFCGAL triangle whose i-th vertex has the x and y
/// of the triangle's i-th coordinate.
pub proof fn law_triangle_to_sfcgal(t: Triangle)
    ensures
        t.sfcgal_shape() is Triangle,
        t.sfcgal_shape()->Triangle_0.x == t.0.x,
        t.sfcgal_shape()->Triangle_0.y == t.0.y,
        t.sfcgal_shape()->Triangle_1.x == t.1.x,
        t.sfcgal_shape()->Triangle_1.y == t.1.y,
        t.sfcgal_shape()->Triangle_2.x == t.2.x,
        t.sfcgal_shape()->Triangle_2.y == t.2.y,
{
}

/// A polygon becomes the SFCGAL polygon with the same exterior ring and
/// every interior ring, in order.
pub proof fn law_polygon_to_sfcgal(p: Polygon)
    ensures
        p.sfcgal_shape() is Polygon,
        p.sfcgal_shape()->Polygon_0.exterior == p.exterior.0@,
        p.sfcgal_shape()->Polygon_0.interiors.len() == p.interiors@.len(),
        forall|i: int|
            0 <= i < p.interiors@.len() ==> #[trigger] p.sfcgal_shape()->Polygon_0.interiors[i]
                == p.interiors@[i].0@,
        p.sfcgal_shape() == geometry_to_sfc(GeometryShape::Polygon(p@)),
{
}

/// A multi polygon becomes an SFCGAL multi polygon with one polygon per
/// member, in order, each with the member's rings.
pub proof fn law_multipolygon_to_sfcgal(m: MultiPolygon)
    ensures
        m.sfcgal_shape() is MultiPolygon,
        m.sfcgal_shape()->MultiPolygon_0.len() == m.0@.len(),
        forall|i: int|
            0 <= i < m.0@.len() ==> {
                &&& (#[trigger] m.sfcgal_shape()->MultiPolygon_0[i]).exterior == m.0@[i].exterior.0@
                &&& m.sfcgal_shape()->MultiPolygon_0[i].interiors.len() == m.0@[i].interiors@.len()
                &&& forall|j: int|
                    0 <= j < m.0@[i].interiors@.len() ==> #[trigger] m.sfcgal_shape()->MultiPolygon_0[i].interiors[j]
                        == m.0@[i].interiors@[j].0@
            },
        m.sfcgal_shape() == geometry_to_sfc(GeometryShape::MultiPolygon(m@)),
{
}

/// A geometry collection becomes an SFCGAL collection with one member per
/// member, in order, each what its member becomes.
pub proof fn law_collection_to_sfcgal(c: GeometryCollection)
    ensures
        c.sfcgal_shape() is GeometryCollection,
        c.sfcgal_shape()->GeometryCollection_0.len() == c.0@.len(),
        forall|i: int|
            0 <= i < c.0@.len() ==> #[trigger] c.sfcgal_shape()->GeometryCollection_0[i]
                == c.0@[i].sfcgal_shape(),
        c.sfcgal_shape() == geometry_to_sfc(GeometryShape::GeometryCollection(c@)),
{
    lemma_geometry_shapes(c.0@);
    lemma_geometries_to_sfc(geometry_shapes(c.0@));
}

/// A geometry becomes what its member of each kind becomes.
pub proof fn law_geometry_to_sfcgal(g: Geometry)
    ensures
        g.sfcgal_shape() == geometry_to_sfc(g@),
        g matches Geometry::Point(p) ==> g.sfcgal_shape() == p.sfcgal_shape(),
        g matches Geometry::Line(l) ==> g.sfcgal_shape() == l.sfcgal_shape(),
        g matches Geometry::LineString(l) ==> g.sfcgal_shape() == l.sfcgal_shape(),
        g matches Geometry::Polygon(p) ==> g.sfcgal_shape() == p.sfcgal_shape(),
        g matches Geometry::MultiPoint(m) ==> g.sfcgal_shape() == m.sfcgal_shape(),
        g matches Geometry::MultiLineString(m) ==> g.sfcgal_shape() == m.sfcgal_shape(),
        g matches Geometry::MultiPolygon(m) ==> g.sfcgal_shape() == m.sfcgal_shape(),
        g matches Geometry::GeometryCollection(c) ==> g.sfcgal_shape() == c.sfcgal_shape(),
{
}

/// Reading an SFCGAL geometry gives what [`sfc_to_geometry`], of which the
/// round-trip laws speak, says.
pub proof fn law_read_is_sfc_to_geometry(s: SFCGeometry)
    ensures
        s.can_convert() == sfc_convertible(s@),
        s.converted() == sfc_to_geometry(s@),
{
}

/// Reading an SFCGAL point gives the planar point with the same x and y.
pub proof fn law_read_point(s: SFCGeometry)
    requires
        s@ is Point,
    ensures
        s.converted() is Point,
        s.converted()->Point_0.x == s@->Point_0.x,
        s.converted()->Point_0.y == s@->Point_0.y,
{
}

/// Reading an SFCGAL multi point gives a multi point with one point per
/// member, in order, each with the member's x and y.
pub proof fn law_read_multipoint(s: SFCGeometry)
    requires
        s@ is MultiPoint,
    ensures
        s.converted() is MultiPoint,
        s.converted()->MultiPoint_0.len() == s@->MultiPoint_0.len(),
        forall|i: int|
            0 <= i < s@->MultiPoint_0.len() ==> {
                &&& (#[trigger] s.converted()->MultiPoint_0[i]).x == s@->MultiPoint_0[i].x
                &&& s.converted()->MultiPoint_0[i].y == s@->MultiPoint_0[i].y
            },
{
}

/// Reading an SFCGAL line string gives the line string through the same
/// points, in order.
pub proof fn law_read_linestring(s: SFCGeometry)
    requires
        s@ is LineString,
    ensures
        s.converted() == GeometryShape::LineString(s@->LineString_0),
{
}

/// Reading an SFCGAL multi line string gives one line string per member, in
/// order, each through the member's points.
pub proof fn law_read_multilinestring(s: SFCGeometry)
    requires
        s@ is MultiLineString,
    ensures
        s.converted() is MultiLineString,
        s.converted()->MultiLineString_0.len() == s@->MultiLineString_0.len(),
        forall|i: int|
            0 <= i < s@->MultiLineString_0.len() ==> #[trigger] s.converted()->MultiLineString_0[i]
                == s@->MultiLineString_0[i],
{
}

/// Reading an SFCGAL polygon gives the polygon with the same exterior ring
/// and every interior ring, in order, each closed.
pub proof fn law_read_polygon(s: SFCGeometry)
    requires
        s@ is Polygon,
    ensures
        s.converted() is Polygon,
        s.converted()->Polygon_0.exterior == closed_ring(s@->Polygon_0.exterior),
        s.converted()->Polygon_0.interiors.len() == s@->Polygon_0.interiors.len(),
        forall|i: int|
            0 <= i < s@->Polygon_0.interiors.len() ==> #[trigger] s.converted()->Polygon_0.interiors[i]
                == closed_ring(s@->Polygon_0.interiors[i]),
{
}

/// Reading an SFCGAL multi polygon gives one polygon per member, in order,
/// each with the member's rings closed.
pub proof fn law_read_multipolygon(s: SFCGeometry)
    requires
        s@ is MultiPolygon,
    ensures
        s.converted() is MultiPolygon,
        s.converted()->MultiPolygon_0.len() == s@->MultiPolygon_0.len(),
        forall|i: int|
            0 <= i < s@->MultiPolygon_0.len() ==> #[trigger] s.converted()->MultiPolygon_0[i]
                == closed_polygon(s@->MultiPolygon_0[i]),
{
}

/// A member read from a multi polygon has its exterior ring closed and as
/// many interior rings as the SFCGAL polygon.
pub proof fn law_read_multipolygon_rings(s: SFCGeometry, i: int)
    requires
        s@ is MultiPolygon,
        0 <= i < s@->MultiPolygon_0.len(),
    ensures
        s.converted()->MultiPolygon_0[i].exterior == closed_ring(s@->MultiPolygon_0[i].exterior),
        s.converted()->MultiPolygon_0[i].interiors.len() == s@->MultiPolygon_0[i].interiors.len(),
{
}

} // verus!
