use sfcgal::{
    Coord, GeomType, LineString, MultiLineString, MultiPoint, MultiPolygon, Point, Polygon,
    SFCGeometry, ToSFCGAL, Triangle, TryInto,
};

fn c(x: f64, y: f64) -> Coord {
    Coord::new(x.to_bits(), y.to_bits())
}

fn pt(x: f64, y: f64) -> Point {
    Point::new(x.to_bits(), y.to_bits())
}

fn ls(points: &[(f64, f64)]) -> LineString {
    LineString(points.iter().map(|&(x, y)| c(x, y)).collect())
}

fn fx(v: u64) -> f64 {
    f64::from_bits(v)
}

#[test]
fn point_geo_to_sfcgal_to_geo() {
    let pt = pt(0.1, 0.9);
    let pt_sfcgal = pt.to_sfcgal().unwrap();
    assert_eq!(pt_sfcgal._type().unwrap(), GeomType::Point);
    let pt: Point = TryInto::try_into(pt_sfcgal).unwrap().as_point().unwrap();
    assert_eq!(fx(pt.x()), 0.1);
    assert_eq!(fx(pt.y()), 0.9);
}

#[test]
fn point_sfcgal_try_into_geo() {
    let pt_sfcgal = SFCGeometry::Point(c(0.1, 0.9));
    let pt: Point = TryInto::try_into(pt_sfcgal).unwrap().as_point().unwrap();
    assert_eq!(fx(pt.x()), 0.1);
    assert_eq!(fx(pt.y()), 0.9);
}

#[test]
fn multipoint_geo_to_sfcgal_to_geo() {
    let multipt = MultiPoint(vec![pt(0., 0.), pt(1., 1.)]);
    let mpt_sfcgal = multipt.to_sfcgal().unwrap();
    assert_eq!(mpt_sfcgal._type().unwrap(), GeomType::Multipoint);
    let mpt: MultiPoint = TryInto::try_into(mpt_sfcgal).unwrap().as_multipoint().unwrap();
    assert_eq!(fx(mpt.0[0].x()), 0.);
    assert_eq!(fx(mpt.0[0].y()), 0.);
    assert_eq!(fx(mpt.0[1].x()), 1.);
    assert_eq!(fx(mpt.0[1].y()), 1.);
}

#[test]
fn linestring_geo_to_sfcgal_to_geo() {
    let linestring = ls(&[(0., 0.), (1., 1.)]);
    let line_sfcgal = linestring.to_sfcgal().unwrap();
    assert_eq!(line_sfcgal._type().unwrap(), GeomType::Linestring);
    let linestring_geo: LineString = TryInto::try_into(line_sfcgal).unwrap().as_linestring().unwrap();
    assert_eq!(fx(linestring_geo.0[0].x), 0.);
    assert_eq!(fx(linestring_geo.0[0].y), 0.);
    assert_eq!(fx(linestring_geo.0[1].x), 1.);
    assert_eq!(fx(linestring_geo.0[1].y), 1.);
}

#[test]
fn multilinestring_geo_to_sfcgal_to_geo() {
    let multilinestring = MultiLineString(vec![ls(&[(0., 0.), (1., 1.)])]);
    let mls_sfcgal = multilinestring.to_sfcgal().unwrap();
    assert_eq!(mls_sfcgal._type().unwrap(), GeomType::Multilinestring);
    let mls: MultiLineString = TryInto::try_into(mls_sfcgal).unwrap().as_multilinestring().unwrap();
    assert_eq!(fx(mls.0[0].0[0].x), 0.);
    assert_eq!(fx(mls.0[0].0[0].y), 0.);
    assert_eq!(fx(mls.0[0].0[1].x), 1.);
    assert_eq!(fx(mls.0[0].0[1].y), 1.);
}

#[test]
fn triangle_geo_to_sfcgal() {
    let tri = Triangle(c(0., 0.), c(1., 0.), c(0.5, 1.));
    let tri_sfcgal = tri.to_sfcgal().unwrap();
    assert_eq!(tri_sfcgal._type().unwrap(), GeomType::Triangle);
    match tri_sfcgal {
        SFCGeometry::Triangle(a, b, d) => {
            assert_eq!(a, c(0., 0.));
            assert_eq!(b, c(1., 0.));
            assert_eq!(d, c(0.5, 1.));
        }
        _ => panic!("not a triangle"),
    }
}

#[test]
fn polygon_geo_to_sfcgal_to_geo() {
    let polygon = Polygon::new(
        ls(&[(0., 0.), (1., 0.), (1., 1.), (0., 1.), (0., 0.)]),
        vec![ls(&[(0.1, 0.1), (0.1, 0.9), (0.9, 0.9), (0.9, 0.1), (0.1, 0.1)])],
    );
    let poly_sfcgal = polygon.to_sfcgal().unwrap();
    let polyg: Polygon = TryInto::try_into(poly_sfcgal).unwrap().as_polygon().unwrap();

    assert_eq!(polyg.exterior, ls(&[(0., 0.), (1., 0.), (1., 1.), (0., 1.), (0., 0.)]));
    assert_eq!(fx(polyg.interiors[0].0[0].x), 0.1);
    assert_eq!(fx(polyg.interiors[0].0[0].y), 0.1);
    assert_eq!(fx(polyg.interiors[0].0[2].x), 0.9);
    assert_eq!(fx(polyg.interiors[0].0[2].y), 0.9);
    assert_eq!(fx(polyg.interiors[0].0[3].x), 0.9);
    assert_eq!(fx(polyg.interiors[0].0[3].y), 0.1);
}

#[test]
fn multipolygon_geo_to_sfcgal_to_geo() {
    let multipolygon = MultiPolygon(vec![Polygon::new(
        ls(&[(0., 0.), (1., 0.), (1., 1.), (0., 1.), (0., 0.)]),
        vec![ls(&[(0.1, 0.1), (0.1, 0.9), (0.9, 0.9), (0.9, 0.1), (0.1, 0.1)])],
    )]);
    let mutlipolygon_sfcgal = multipolygon.to_sfcgal().unwrap();
    let mpg: MultiPolygon = TryInto::try_into(mutlipolygon_sfcgal).unwrap().as_multipolygon().unwrap();

    assert_eq!(mpg.0[0].exterior, ls(&[(0., 0.), (1., 0.), (1., 1.), (0., 1.), (0., 0.)]));
    assert_eq!(
        mpg.0[0].interiors[0],
        ls(&[(0.1, 0.1), (0.1, 0.9), (0.9, 0.9), (0.9, 0.1), (0.1, 0.1)])
    );
}
