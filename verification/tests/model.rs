use sfcgal::coord::ordinate_eq;
use sfcgal::{
    Coord, Error, GeomType, Geometry, GeometryCollection, Line, LineString, MultiLineString,
    MultiPoint, MultiPolygon, Point, Polygon, PolygonRings, SFCGeometry, ToSFCGAL, TryInto,
};

fn c(x: f64, y: f64) -> Coord {
    Coord::new(x.to_bits(), y.to_bits())
}

fn ls(points: &[(f64, f64)]) -> LineString {
    LineString(points.iter().map(|&(x, y)| c(x, y)).collect())
}

const SAMPLES: [f64; 11] = [
    0.0,
    -0.0,
    1.5,
    -1.5,
    0.1,
    f64::INFINITY,
    f64::NEG_INFINITY,
    f64::NAN,
    f64::MIN_POSITIVE,
    5e-324,
    f64::MAX,
];

#[test]
fn ordinate_equality_is_float_equality() {
    for &a in SAMPLES.iter() {
        for &b in SAMPLES.iter() {
            assert_eq!(ordinate_eq(a.to_bits(), b.to_bits()), a == b, "{} {}", a, b);
        }
    }
    // a NaN with another payload
    let other_nan = f64::from_bits(0x7ff0_0000_0000_0001);
    assert!(other_nan.is_nan());
    assert!(!ordinate_eq(other_nan.to_bits(), other_nan.to_bits()));
}

#[test]
fn same_position_compares_numbers() {
    assert!(c(0.0, 1.0).same_position(&c(-0.0, 1.0)));
    assert!(!c(0.0, 1.0).same_position(&c(0.0, 1.5)));
    assert!(!c(f64::NAN, 1.0).same_position(&c(f64::NAN, 1.0)));
}

#[test]
fn close_appends_first_coordinate() {
    let mut ring = ls(&[(0., 0.), (1., 0.), (1., 1.)]);
    assert!(!ring.is_closed());
    ring.close();
    assert_eq!(ring, ls(&[(0., 0.), (1., 0.), (1., 1.), (0., 0.)]));
    assert!(ring.is_closed());
    ring.close();
    assert_eq!(ring, ls(&[(0., 0.), (1., 0.), (1., 1.), (0., 0.)]));
}

#[test]
fn close_keeps_closed_and_empty_rings() {
    let mut empty = LineString(vec![]);
    assert!(empty.is_closed());
    empty.close();
    assert_eq!(empty.0.len(), 0);

    // -0.0 equals 0.0, so this ring is closed and keeps its last coordinate
    let mut ring = LineString(vec![c(0., 0.), c(1., 1.), c(-0.0, 0.)]);
    assert!(ring.is_closed());
    ring.close();
    assert_eq!(ring.0.len(), 3);
    assert_eq!(ring.0[2].x, (-0.0f64).to_bits());
}

#[test]
fn close_ring_starting_at_nan_never_closes() {
    let mut ring = ls(&[(f64::NAN, 0.), (1., 1.)]);
    ring.close();
    assert_eq!(ring.0.len(), 3);
    assert!(!ring.is_closed());
    ring.close();
    assert_eq!(ring.0.len(), 4);
}

#[test]
fn polygon_new_closes_every_ring() {
    let p = Polygon::new(
        ls(&[(0., 0.), (4., 0.), (4., 4.)]),
        vec![ls(&[(1., 1.), (2., 1.), (2., 2.)]), ls(&[(3., 3.), (3.5, 3.), (3., 3.)])],
    );
    assert_eq!(p.exterior, ls(&[(0., 0.), (4., 0.), (4., 4.), (0., 0.)]));
    assert_eq!(p.interiors[0], ls(&[(1., 1.), (2., 1.), (2., 2.), (1., 1.)]));
    assert_eq!(p.interiors[1], ls(&[(3., 3.), (3.5, 3.), (3., 3.)]));
}

#[test]
fn reading_a_polygon_closes_its_rings() {
    let s = SFCGeometry::Polygon(PolygonRings {
        exterior: vec![c(0., 0.), c(2., 0.), c(2., 2.)],
        interiors: vec![vec![c(0.5, 0.5), c(1., 0.5), c(1., 1.)]],
    });
    let p = TryInto::try_into(s).unwrap().as_polygon().unwrap();
    assert_eq!(p.exterior, ls(&[(0., 0.), (2., 0.), (2., 2.), (0., 0.)]));
    assert_eq!(p.interiors[0], ls(&[(0.5, 0.5), (1., 0.5), (1., 1.), (0.5, 0.5)]));
}

#[test]
fn reading_a_multipolygon_closes_its_rings() {
    let s = SFCGeometry::MultiPolygon(vec![
        PolygonRings { exterior: vec![c(0., 0.), c(2., 0.), c(2., 2.)], interiors: vec![] },
        PolygonRings { exterior: vec![], interiors: vec![] },
    ]);
    let m = TryInto::try_into(s).unwrap().as_multipolygon().unwrap();
    assert_eq!(m.0.len(), 2);
    assert_eq!(m.0[0].exterior, ls(&[(0., 0.), (2., 0.), (2., 2.), (0., 0.)]));
    assert_eq!(m.0[1].exterior.0.len(), 0);
}

#[test]
fn line_becomes_two_point_linestring() {
    let line = Line { start: c(1., 2.), end: c(3., 4.) };
    let s = line.to_sfcgal().unwrap();
    assert_eq!(s._type(), Ok(GeomType::Linestring));
    let back = TryInto::try_into(s).unwrap().as_linestring().unwrap();
    assert_eq!(back, ls(&[(1., 2.), (3., 4.)]));
}

#[test]
fn geometry_dispatches_on_kind() {
    let cases: Vec<(Geometry, GeomType)> = vec![
        (Geometry::Point(Point::new(1, 2)), GeomType::Point),
        (Geometry::Line(Line { start: c(0., 0.), end: c(1., 1.) }), GeomType::Linestring),
        (Geometry::LineString(ls(&[(0., 0.)])), GeomType::Linestring),
        (Geometry::Polygon(Polygon::new(ls(&[]), vec![])), GeomType::Polygon),
        (Geometry::MultiPoint(MultiPoint(vec![])), GeomType::Multipoint),
        (Geometry::MultiLineString(MultiLineString(vec![])), GeomType::Multilinestring),
        (Geometry::MultiPolygon(MultiPolygon(vec![])), GeomType::Multipolygon),
        (Geometry::GeometryCollection(GeometryCollection(vec![])), GeomType::Geometrycollection),
    ];
    for (g, t) in cases.iter() {
        assert_eq!(g.to_sfcgal().unwrap()._type(), Ok(*t));
    }
}

#[test]
fn geometry_collection_converts_each_member() {
    let inner = GeometryCollection(vec![Geometry::Point(Point::new(7, 8))]);
    let gc = GeometryCollection(vec![
        Geometry::Line(Line { start: c(0., 0.), end: c(1., 1.) }),
        Geometry::GeometryCollection(inner),
        Geometry::MultiPoint(MultiPoint(vec![Point::new(1, 2), Point::new(3, 4)])),
    ]);
    let s = gc.to_sfcgal().unwrap();
    match s {
        SFCGeometry::GeometryCollection(members) => {
            assert_eq!(members.len(), 3);
            match &members[0] {
                SFCGeometry::LineString(pts) => assert_eq!(pts, &vec![c(0., 0.), c(1., 1.)]),
                _ => panic!("expected a line string"),
            }
            match &members[1] {
                SFCGeometry::GeometryCollection(inner) => {
                    assert_eq!(inner.len(), 1);
                    match &inner[0] {
                        SFCGeometry::Point(p) => assert_eq!(*p, Coord::new(7, 8)),
                        _ => panic!("expected a point"),
                    }
                }
                _ => panic!("expected a collection"),
            }
            match &members[2] {
                SFCGeometry::MultiPoint(pts) => {
                    assert_eq!(pts, &vec![Coord::new(1, 2), Coord::new(3, 4)])
                }
                _ => panic!("expected a multi point"),
            }
        }
        _ => panic!("expected a collection"),
    }
}

#[test]
fn type_ids_follow_sfcgal() {
    let all = [
        (GeomType::Point, 1),
        (GeomType::Linestring, 2),
        (GeomType::Polygon, 3),
        (GeomType::Multipoint, 4),
        (GeomType::Multilinestring, 5),
        (GeomType::Multipolygon, 6),
        (GeomType::Geometrycollection, 7),
        (GeomType::Polyhedralsurface, 15),
        (GeomType::Triangulatedsurface, 16),
        (GeomType::Triangle, 17),
        (GeomType::Solid, 101),
        (GeomType::Multisolid, 102),
    ];
    for &(t, id) in all.iter() {
        assert_eq!(t.type_id(), id);
        assert_eq!(GeomType::from_type_id(id), Ok(t));
    }
}

#[test]
fn unknown_type_id_is_an_error() {
    for id in [0u32, 8, 14, 18, 100, 103, u32::MAX] {
        assert_eq!(GeomType::from_type_id(id), Err(Error::UnknownGeometryType(id)));
    }
}

#[test]
fn type_of_each_sfcgal_geometry() {
    assert_eq!(SFCGeometry::Point(c(0., 0.))._type(), Ok(GeomType::Point));
    assert_eq!(SFCGeometry::LineString(vec![])._type(), Ok(GeomType::Linestring));
    assert_eq!(
        SFCGeometry::Triangle(c(0., 0.), c(1., 0.), c(0., 1.))._type(),
        Ok(GeomType::Triangle)
    );
    assert_eq!(
        SFCGeometry::Polygon(PolygonRings { exterior: vec![], interiors: vec![] })._type(),
        Ok(GeomType::Polygon)
    );
    assert_eq!(SFCGeometry::MultiPoint(vec![])._type(), Ok(GeomType::Multipoint));
    assert_eq!(SFCGeometry::MultiLineString(vec![])._type(), Ok(GeomType::Multilinestring));
    assert_eq!(SFCGeometry::MultiPolygon(vec![])._type(), Ok(GeomType::Multipolygon));
    assert_eq!(
        SFCGeometry::GeometryCollection(vec![])._type(),
        Ok(GeomType::Geometrycollection)
    );
}

#[test]
fn roundtrip_from_sfcgal_keeps_closed_geometries() {
    let closed = vec![c(0., 0.), c(1., 0.), c(1., 1.), c(0., 0.)];
    let cases = vec![
        SFCGeometry::Point(c(0.25, -3.0)),
        SFCGeometry::LineString(vec![c(0., 0.), c(5., 5.), c(6., 0.)]),
        SFCGeometry::MultiPoint(vec![c(1., 1.)]),
        SFCGeometry::MultiLineString(vec![vec![c(1., 1.)], vec![]]),
        SFCGeometry::Polygon(PolygonRings { exterior: closed.clone(), interiors: vec![closed.clone()] }),
    ];
    for s in cases {
        let expected = format!("{:?}", s);
        let back = TryInto::try_into(s).unwrap().to_sfcgal().unwrap();
        assert_eq!(format!("{:?}", back), expected);
    }
}

#[test]
fn roundtrip_from_geo_keeps_closed_geometries() {
    let polygon = Polygon::new(ls(&[(0., 0.), (3., 0.), (0., 3.), (0., 0.)]), vec![]);
    let cases = vec![
        Geometry::Point(Point::new(5, 6)),
        Geometry::LineString(ls(&[(0., 1.), (2., 3.)])),
        Geometry::Polygon(polygon.clone()),
        Geometry::MultiPoint(MultiPoint(vec![Point::new(1, 1), Point::new(2, 2)])),
        Geometry::MultiLineString(MultiLineString(vec![ls(&[(0., 0.)])])),
        Geometry::MultiPolygon(MultiPolygon(vec![polygon])),
    ];
    for g in cases {
        let back = TryInto::try_into(g.to_sfcgal().unwrap()).unwrap();
        assert_eq!(back, g);
    }
}

#[test]
fn roundtrip_from_geo_closes_open_polygon() {
    let open = Polygon { exterior: ls(&[(0., 0.), (3., 0.), (0., 3.)]), interiors: vec![] };
    let back = TryInto::try_into(open.to_sfcgal().unwrap()).unwrap().as_polygon().unwrap();
    assert_eq!(back.exterior, ls(&[(0., 0.), (3., 0.), (0., 3.), (0., 0.)]));
}
