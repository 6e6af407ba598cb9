use pg_geometry::{Geometry, IsNull, PgArgumentBuffer, PgValueFormat, PgValueRef};
use postgis::ewkb::{
    GeometryCollectionT, GeometryT, LineStringT, MultiLineStringT, MultiPointT, MultiPolygonT,
    Point, PolygonT,
};

fn round_trip(value: GeometryT<Point>) -> GeometryT<Point> {
    let mut buf = PgArgumentBuffer::new();
    assert_eq!(Geometry { value }.encode_by_ref(&mut buf), Ok(IsNull::No));
    Geometry::decode(PgValueRef::new(buf.as_slice(), PgValueFormat::Binary)).unwrap().value
}

fn line(coords: &[(f64, f64)], srid: Option<i32>) -> LineStringT<Point> {
    LineStringT { points: coords.iter().map(|&(x, y)| Point::new(x, y, srid)).collect(), srid }
}

fn square(srid: Option<i32>) -> PolygonT<Point> {
    let ring = line(&[(0.0, 0.0), (4.0, 0.0), (4.0, 4.0), (0.0, 4.0), (0.0, 0.0)], srid);
    let hole = line(&[(1.0, 1.0), (2.0, 1.0), (2.0, 2.0), (1.0, 1.0)], srid);
    PolygonT { rings: vec![ring, hole], srid }
}

#[test]
fn round_trip_point() {
    let g = Geometry { value: GeometryT::Point(Point::new(10.5, -20.25, None)) };
    let mut buf = PgArgumentBuffer::new();
    assert_eq!(g.encode_by_ref(&mut buf), Ok(IsNull::No));
    assert_eq!(buf.len(), 21);
    let back = Geometry::decode(PgValueRef::new(buf.as_slice(), PgValueFormat::Binary)).unwrap();
    match back.value {
        GeometryT::Point(p) => {
            assert_eq!(p.x, 10.5);
            assert_eq!(p.y, -20.25);
            assert_eq!(p.srid, None);
        },
        other => panic!("not a point: {:?}", other),
    }
}

#[test]
fn round_trip_point_with_srid_in_a_buffer_longer_than_the_hint() {
    let g = Geometry { value: GeometryT::Point(Point::new(-71.06, 42.36, Some(4326))) };
    let mut buf = PgArgumentBuffer::with_capacity(g.size_hint());
    assert_eq!(g.size_hint(), 21);
    assert_eq!(g.encode_by_ref(&mut buf), Ok(IsNull::No));
    assert_eq!(buf.len(), 25);
    let back = Geometry::decode(PgValueRef::new(buf.as_slice(), PgValueFormat::Binary)).unwrap();
    match back.value {
        GeometryT::Point(p) => assert_eq!(p, Point::new(-71.06, 42.36, Some(4326))),
        other => panic!("not a point: {:?}", other),
    }
}

#[test]
fn round_trip_point_keeps_the_bits_of_odd_coordinates() {
    let x = f64::from_bits(0x7FF8_0000_0000_1234);
    match round_trip(GeometryT::Point(Point::new(x, -0.0, None))) {
        GeometryT::Point(p) => {
            assert_eq!(p.x.to_bits(), 0x7FF8_0000_0000_1234);
            assert_eq!(p.y.to_bits(), (-0.0f64).to_bits());
        },
        other => panic!("not a point: {:?}", other),
    }
}

#[test]
fn round_trip_after_other_bytes_in_the_buffer() {
    let mut buf = PgArgumentBuffer::new();
    buf.append(vec![9, 9, 9, 9]);
    let g = Geometry { value: GeometryT::Point(Point::new(1.0, 2.0, None)) };
    assert_eq!(g.encode_by_ref(&mut buf), Ok(IsNull::No));
    let added = &buf.as_slice()[4..];
    let back = Geometry::decode(PgValueRef::new(added, PgValueFormat::Binary)).unwrap();
    assert!(matches!(back.value, GeometryT::Point(p) if p == Point::new(1.0, 2.0, None)));
}

#[test]
fn round_trip_line_string() {
    let l = line(&[(0.0, 0.0), (1.5, 2.5), (-3.0, 4.0)], None);
    match round_trip(GeometryT::LineString(l.clone())) {
        GeometryT::LineString(back) => assert_eq!(back, l),
        other => panic!("not a line string: {:?}", other),
    }
}

#[test]
fn round_trip_line_string_with_srid() {
    let l = line(&[(0.0, 0.0), (1.5, 2.5)], Some(4326));
    match round_trip(GeometryT::LineString(l.clone())) {
        GeometryT::LineString(back) => assert_eq!(back, l),
        other => panic!("not a line string: {:?}", other),
    }
}

#[test]
fn round_trip_polygon() {
    match round_trip(GeometryT::Polygon(square(None))) {
        GeometryT::Polygon(back) => assert_eq!(back, square(None)),
        other => panic!("not a polygon: {:?}", other),
    }
}

#[test]
fn round_trip_multi_point() {
    let m = MultiPointT { points: line(&[(1.0, 2.0), (3.0, 4.0)], None).points, srid: None };
    match round_trip(GeometryT::MultiPoint(m.clone())) {
        GeometryT::MultiPoint(back) => assert_eq!(back, m),
        other => panic!("not a multi point: {:?}", other),
    }
}

#[test]
fn round_trip_multi_line_string() {
    let m = MultiLineStringT {
        lines: vec![line(&[(0.0, 0.0), (1.0, 1.0)], None), line(&[(2.0, 2.0), (3.0, 3.0)], None)],
        srid: None,
    };
    match round_trip(GeometryT::MultiLineString(m.clone())) {
        GeometryT::MultiLineString(back) => assert_eq!(back, m),
        other => panic!("not a multi line string: {:?}", other),
    }
}

#[test]
fn round_trip_multi_polygon() {
    let m = MultiPolygonT { polygons: vec![square(None), square(None)], srid: None };
    match round_trip(GeometryT::MultiPolygon(m.clone())) {
        GeometryT::MultiPolygon(back) => assert_eq!(back, m),
        other => panic!("not a multi polygon: {:?}", other),
    }
}

#[test]
fn round_trip_geometry_collection() {
    let c = GeometryCollectionT {
        geometries: vec![
            GeometryT::Point(Point::new(1.0, 2.0, None)),
            GeometryT::LineString(line(&[(0.0, 0.0), (1.0, 1.0)], None)),
            GeometryT::Polygon(square(None)),
        ],
        srid: None,
    };
    match round_trip(GeometryT::GeometryCollection(c)) {
        GeometryT::GeometryCollection(back) => {
            assert_eq!(back.srid, None);
            assert_eq!(back.geometries.len(), 3);
            assert!(matches!(back.geometries[0], GeometryT::Point(p) if p == Point::new(1.0, 2.0, None)));
            assert!(matches!(
                back.geometries[1],
                GeometryT::LineString(ref l) if *l == line(&[(0.0, 0.0), (1.0, 1.0)], None)
            ));
            assert!(matches!(back.geometries[2], GeometryT::Polygon(ref p) if *p == square(None)));
        },
        other => panic!("not a collection: {:?}", other),
    }
}

#[test]
fn round_trip_drops_the_srid_of_a_part() {
    let m = MultiPointT { points: vec![Point::new(1.0, 2.0, Some(4326))], srid: Some(4326) };
    match round_trip(GeometryT::MultiPoint(m)) {
        GeometryT::MultiPoint(back) => {
            assert_eq!(back.srid, Some(4326));
            assert_eq!(back.points, vec![Point::new(1.0, 2.0, None)]);
        },
        other => panic!("not a multi point: {:?}", other),
    }
}

#[test]
fn round_trip_keeps_the_size_hint() {
    let g = Geometry { value: GeometryT::Polygon(square(Some(3857))) };
    let hint = g.size_hint();
    let back = Geometry { value: round_trip(g.value) };
    assert_eq!(back.size_hint(), hint);
    assert_eq!(hint, 93);
}
