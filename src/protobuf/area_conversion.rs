//! Areas, shapes and maps between the binary form and the dialects.

use vstd::prelude::*;
use crate::geo::{in_range, is_ring, radius_ok, InvalidCircleError, InvalidPointError, InvalidPolygonError};
use crate::map::{Entry, KeyValueMap};
use crate::protobuf::{Area, Circle, Point, Polygon, ValuePair};
use crate::v1dot0::map::{is_key, InvalidKeyError, Key};
use crate::vecs::reversed;
use crate::{geo, v1dot0, v1dot1, v1dot2};

verus! {

/// The error returned when a binary area does not fit a dialect.
#[derive(Debug, Clone, PartialEq, Eq)]
pub enum AreaConversionError {
    /// A geocode key is invalid for CAP v1.0.
    Geocode(InvalidKeyError),
    /// A polygon is invalid.
    Polygon(InvalidPolygonError),
    /// A circle is invalid.
    Circle(InvalidCircleError),
}

/// The entries that binary value pairs hold.
pub open spec fn pairs_view(v: Seq<ValuePair>) -> Seq<(Seq<char>, Seq<char>)> {
    v.map_values(|p: ValuePair| (p.value_name@, p.value@))
}

/// The coordinates, in units, of a binary point.
pub open spec fn point_units(p: Point) -> (int, int) {
    (p.latitude.units as int, p.longitude.units as int)
}

pub open spec fn polygon_points(p: Polygon) -> Seq<(int, int)> {
    p.point@.map_values(|x: Point| point_units(x))
}

/// Whether a binary polygon is a valid closed ring of valid points.
pub open spec fn polygon_ok(p: Polygon) -> bool {
    (forall|i: int| 0 <= i < p.point@.len() ==> in_range(#[trigger] point_units(p.point@[i]).0, point_units(p.point@[i]).1))
        && is_ring(polygon_points(p))
}

pub open spec fn circle_ok(c: Circle) -> bool {
    in_range(point_units(c.point).0, point_units(c.point).1) && radius_ok(c.radius.units as int)
}

impl geo::Point {
    /// Check a binary point against WGS 84 bounds.
    pub fn try_from_protobuf(value: Point) -> (r: Result<geo::Point, InvalidPointError>)
        ensures
            in_range(point_units(value).0, point_units(value).1) <==> r is Ok,
            r matches Ok(p) ==> p@ == point_units(value) && p.wf(),
    {
        geo::Point::new(value.latitude, value.longitude)
    }
}

impl Point {
    /// The binary form of a point.
    pub fn from_point(value: geo::Point) -> (r: Point)
        ensures
            point_units(r) == value@,
    {
        Point { latitude: value.latitude(), longitude: value.longitude() }
    }
}

impl geo::Polygon {
    /// Check a binary polygon: valid points forming a closed ring of at least four.
    pub fn try_from_protobuf(value: Polygon) -> (r: Result<geo::Polygon, InvalidPolygonError>)
        ensures
            polygon_ok(value) <==> r is Ok,
            r matches Ok(p) ==> p@ == polygon_points(value) && p.wf(),
    {
        let ghost orig = value.point@;
        let mut points: Vec<geo::Point> = Vec::new();
        let mut i: usize = 0;
        while i < value.point.len()
            invariant
                orig == value.point@,
                i <= orig.len(),
                points@.len() == i,
                forall|j: int| 0 <= j < i ==> (#[trigger] points@[j])@ == point_units(orig[j]) && points@[j].wf(),
                forall|j: int| 0 <= j < i ==> in_range(#[trigger] point_units(orig[j]).0, point_units(orig[j]).1),
            decreases orig.len() - i,
        {
            match geo::Point::try_from_protobuf(value.point[i]) {
                Ok(p) => points.push(p),
                Err(e) => {
                    assert(!in_range(point_units(orig[i as int]).0, point_units(orig[i as int]).1));
                    return Err(InvalidPolygonError::InvalidPoint(e));
                },
            }
            i = i + 1;
        }
        let ghost ps = points@;
        assert(ps.map_values(|q: geo::Point| q@) =~= polygon_points(value));
        geo::Polygon::new(points)
    }
}

impl Polygon {
    /// The binary form of a polygon.
    pub fn from_polygon(value: geo::Polygon) -> (r: Polygon)
        ensures
            polygon_points(r) == value@,
    {
        let pts = value.iter();
        let mut out: Vec<Point> = Vec::new();
        let mut i: usize = 0;
        while i < pts.len()
            invariant
                pts@.map_values(|q: geo::Point| q@) == value@,
                i <= pts@.len(),
                out@.len() == i,
                forall|j: int| 0 <= j < i ==> point_units(#[trigger] out@[j]) == pts@[j]@,
            decreases pts.len() - i,
        {
            out.push(Point::from_point(pts[i]));
            i = i + 1;
        }
        let r = Polygon { point: out };
        assert(polygon_points(r) =~= value@);
        r
    }
}

impl geo::Circle {
    /// Check a binary circle.
    pub fn try_from_protobuf(value: Circle) -> (r: Result<geo::Circle, InvalidCircleError>)
        ensures
            circle_ok(value) <==> r is Ok,
            r matches Ok(c) ==> c.center@ == point_units(value.point) && c.radius == value.radius && c.wf(),
    {
        let center = match geo::Point::try_from_protobuf(value.point) {
            Ok(p) => p,
            Err(e) => {
                return Err(InvalidCircleError::InvalidCenterPoint(e));
            },
        };
        geo::Circle::new(center, value.radius)
    }
}

impl Circle {
    /// The binary form of a circle.
    pub fn from_circle(value: geo::Circle) -> (r: Circle)
        ensures
            point_units(r.point) == value.center@,
            r.radius == value.radius,
    {
        Circle { point: Point::from_point(value.center), radius: value.radius }
    }
}

/// Binary value pairs as a map, in order.
pub fn map_from_pairs(pairs: Vec<ValuePair>) -> (r: KeyValueMap)
    ensures
        r@ == pairs_view(pairs@),
{
    let ghost orig = pairs@;
    let n = pairs.len();
    let mut rest = reversed(pairs);
    let mut out = KeyValueMap::new();
    let mut i: usize = 0;
    while i < n
        invariant
            n == orig.len(),
            i <= n,
            rest@.len() == n - i,
            forall|j: int| 0 <= j < n - i ==> #[trigger] rest@[j] == orig[n - 1 - j],
            out@ == pairs_view(orig.subrange(0, i as int)),
        decreases n - i,
    {
        let p = rest.pop().unwrap();
        out.push(p.value_name, p.value);
        assert(pairs_view(orig.subrange(0, i + 1)) =~= pairs_view(orig.subrange(0, i as int)).push((orig[i as int].value_name@, orig[i as int].value@)));
        i = i + 1;
    }
    assert(orig.subrange(0, n as int) =~= orig);
    out
}

/// A map as binary value pairs, in order.
pub fn pairs_from_map(m: KeyValueMap) -> (r: Vec<ValuePair>)
    ensures
        pairs_view(r@) == m@,
{
    let ghost orig = m@;
    let entries = m.into_entries();
    let n = entries.len();
    let mut rest = reversed(entries);
    let mut out: Vec<ValuePair> = Vec::new();
    let mut i: usize = 0;
    while i < n
        invariant
            n == orig.len(),
            i <= n,
            rest@.len() == n - i,
            forall|j: int| 0 <= j < n - i ==> (#[trigger] rest@[j])@ == orig[n - 1 - j],
            pairs_view(out@) == orig.subrange(0, i as int),
        decreases n - i,
    {
        assert(rest@[n - i - 1]@ == orig[i as int]);
        let e = rest.pop().unwrap();
        let Entry { value_name, value } = e;
        let ghost before = out@;
        out.push(ValuePair { value_name, value });
        assert(pairs_view(out@) =~= pairs_view(before).push(orig[i as int]));
        assert(orig.subrange(0, i + 1) =~= orig.subrange(0, i as int).push(orig[i as int]));
        i = i + 1;
    }
    assert(orig.subrange(0, n as int) =~= orig);
    out
}

/// Whether every name of the pairs is a valid CAP v1.0 key.
pub open spec fn keys_ok(v: Seq<ValuePair>) -> bool {
    forall|i: int| 0 <= i < v.len() ==> is_key(#[trigger] v[i].value_name@)
}

/// Binary value pairs as a CAP v1.0 map, whose keys are restricted.
pub fn key_map_from_pairs(pairs: Vec<ValuePair>) -> (r: Result<v1dot0::KeyValueMap, InvalidKeyError>)
    ensures
        keys_ok(pairs@) <==> r is Ok,
        r matches Ok(m) ==> m@ == pairs_view(pairs@) && m.wf(),
{
    let ghost orig = pairs@;
    let n = pairs.len();
    let mut rest = reversed(pairs);
    let mut out = v1dot0::KeyValueMap::new();
    let mut i: usize = 0;
    while i < n
        invariant
            n == orig.len(),
            i <= n,
            rest@.len() == n - i,
            forall|j: int| 0 <= j < n - i ==> #[trigger] rest@[j] == orig[n - 1 - j],
            out@ == pairs_view(orig.subrange(0, i as int)),
            out.wf(),
            orig == pairs@,
            forall|j: int| 0 <= j < i ==> is_key(#[trigger] orig[j].value_name@),
        decreases n - i,
    {
        assert(rest@[n - i - 1] == orig[i as int]);
        let p = rest.pop().unwrap();
        let ValuePair { value_name, value } = p;
        match Key::new(value_name) {
            Ok(k) => out.push(k, value),
            Err(e) => {
                assert(!is_key(orig[i as int].value_name@));
                return Err(e);
            },
        }
        assert(pairs_view(orig.subrange(0, i + 1)) =~= pairs_view(orig.subrange(0, i as int)).push((orig[i as int].value_name@, orig[i as int].value@)));
        i = i + 1;
    }
    assert(orig.subrange(0, n as int) =~= orig);
    Ok(out)
}

/// A CAP v1.0 map as binary value pairs, in order.
pub fn pairs_from_key_map(m: v1dot0::KeyValueMap) -> (r: Vec<ValuePair>)
    ensures
        pairs_view(r@) == m@,
{
    let ghost orig = m@;
    let entries = m.into_entries();
    let n = entries.len();
    let mut rest = reversed(entries);
    let mut out: Vec<ValuePair> = Vec::new();
    let mut i: usize = 0;
    while i < n
        invariant
            n == orig.len(),
            i <= n,
            rest@.len() == n - i,
            forall|j: int| 0 <= j < n - i ==> (#[trigger] rest@[j]).0@ == orig[n - 1 - j].0 && rest@[j].1@ == orig[n - 1 - j].1,
            pairs_view(out@) == orig.subrange(0, i as int),
        decreases n - i,
    {
        let (k, v) = rest.pop().unwrap();
        let ghost before = out@;
        out.push(ValuePair { value_name: k.into_inner(), value: v });
        assert(pairs_view(out@) =~= pairs_view(before).push(orig[i as int]));
        assert(orig.subrange(0, i + 1) =~= orig.subrange(0, i as int).push(orig[i as int]));
        i = i + 1;
    }
    assert(orig.subrange(0, n as int) =~= orig);
    out
}

fn polygons_from_protobuf(v: Vec<Polygon>) -> (r: Result<Vec<geo::Polygon>, AreaConversionError>)
    ensures
        r matches Err(e) ==> e matches AreaConversionError::Polygon(_),
        (forall|i: int| 0 <= i < v@.len() ==> polygon_ok(#[trigger] v@[i])) <==> r is Ok,
        r matches Ok(ps) ==> ps@.len() == v@.len() && forall|i: int| 0 <= i < v@.len() ==> (#[trigger] ps@[i])@ == polygon_points(v@[i]) && ps@[i].wf(),
{
    let ghost orig = v@;
    let n = v.len();
    let mut rest = reversed(v);
    let mut out: Vec<geo::Polygon> = Vec::new();
    let mut i: usize = 0;
    while i < n
        invariant
            n == orig.len(),
            orig == v@,
            i <= n,
            rest@.len() == n - i,
            forall|j: int| 0 <= j < n - i ==> #[trigger] rest@[j] == orig[n - 1 - j],
            out@.len() == i,
            forall|j: int| 0 <= j < i ==> polygon_ok(#[trigger] orig[j]) && out@[j]@ == polygon_points(orig[j]) && out@[j].wf(),
        decreases n - i,
    {
        assert(rest@[n - i - 1] == orig[i as int]);
        let x = rest.pop().unwrap();
        match geo::Polygon::try_from_protobuf(x) {
            Ok(p) => out.push(p),
            Err(e) => {
                return Err(AreaConversionError::Polygon(e));
            },
        }
        i = i + 1;
    }
    proof {
        assert forall|i: int| 0 <= i < orig.len() implies polygon_ok(#[trigger] orig[i]) && (#[trigger] out@[i])@ == polygon_points(v@[i]) && out@[i].wf() by {
            assert(polygon_ok(orig[i]));
        }
    }
    Ok(out)
}

fn circles_from_protobuf(v: Vec<Circle>) -> (r: Result<Vec<geo::Circle>, AreaConversionError>)
    ensures
        r matches Err(e) ==> e matches AreaConversionError::Circle(_),
        (forall|i: int| 0 <= i < v@.len() ==> circle_ok(#[trigger] v@[i])) <==> r is Ok,
        r matches Ok(cs) ==> cs@.len() == v@.len() && forall|i: int| 0 <= i < v@.len() ==> (#[trigger] cs@[i]).center@ == point_units(v@[i].point) && cs@[i].radius == v@[i].radius && cs@[i].wf(),
{
    let mut out: Vec<geo::Circle> = Vec::new();
    let mut i: usize = 0;
    while i < v.len()
        invariant
            i <= v@.len(),
            out@.len() == i,
            forall|j: int| 0 <= j < i ==> circle_ok(#[trigger] v@[j]),
            forall|j: int| 0 <= j < i ==> (#[trigger] out@[j]).center@ == point_units(v@[j].point) && out@[j].radius == v@[j].radius && out@[j].wf(),
        decreases v.len() - i,
    {
        let x = v[i];
        assert(x == v@[i as int]);
        match geo::Circle::try_from_protobuf(x) {
            Ok(c) => {
                out.push(c);
                assert(out@[i as int] == c);
            },
            Err(e) => {
                return Err(AreaConversionError::Circle(e));
            },
        }
        i = i + 1;
    }
    assert forall|i: int| 0 <= i < v@.len() implies circle_ok(#[trigger] v@[i]) && (#[trigger] out@[i]).center@ == point_units(v@[i].point) && out@[i].radius == v@[i].radius && out@[i].wf() by {
        assert(circle_ok(v@[i]));
    }
    Ok(out)
}

fn polygons_to_protobuf(v: Vec<geo::Polygon>) -> (r: Vec<Polygon>)
    ensures
        r@.len() == v@.len(),
        forall|i: int| 0 <= i < v@.len() ==> polygon_points(#[trigger] r@[i]) == v@[i]@,
{
    let ghost orig = v@;
    let n = v.len();
    let mut rest = reversed(v);
    let mut out: Vec<Polygon> = Vec::new();
    let mut i: usize = 0;
    while i < n
        invariant
            n == orig.len(),
            i <= n,
            rest@.len() == n - i,
            forall|j: int| 0 <= j < n - i ==> #[trigger] rest@[j] == orig[n - 1 - j],
            out@.len() == i,
            forall|j: int| 0 <= j < i ==> polygon_points(#[trigger] out@[j]) == orig[j]@,
        decreases n - i,
    {
        let x = rest.pop().unwrap();
        out.push(Polygon::from_polygon(x));
        i = i + 1;
    }
    out
}

fn circles_to_protobuf(v: Vec<geo::Circle>) -> (r: Vec<Circle>)
    ensures
        r@.len() == v@.len(),
        forall|i: int| 0 <= i < v@.len() ==> point_units(#[trigger] r@[i].point) == v@[i].center@ && r@[i].radius == v@[i].radius,
{
    let mut out: Vec<Circle> = Vec::new();
    let mut i: usize = 0;
    while i < v.len()
        invariant
            i <= v@.len(),
            out@.len() == i,
            forall|j: int| 0 <= j < i ==> point_units(#[trigger] out@[j].point) == v@[j].center@ && out@[j].radius == v@[j].radius,
        decreases v.len() - i,
    {
        out.push(Circle::from_circle(v[i]));
        i = i + 1;
    }
    out
}

/// Which field an area error is about: 0 for polygons, 1 for circles, 2 for geocodes.
pub open spec fn area_error_field(e: AreaConversionError) -> int {
    match e {
        AreaConversionError::Polygon(_) => 0,
        AreaConversionError::Circle(_) => 1,
        AreaConversionError::Geocode(_) => 2,
    }
}

/// The first field of a binary area that does not fit, checked in order: polygons, circles,
/// and for CAP v1.0 the geocode keys.
pub open spec fn area_failure(v: Area, oldest: bool) -> Option<int> {
    if !(forall|i: int| 0 <= i < v.polygon@.len() ==> polygon_ok(#[trigger] v.polygon@[i])) {
        Some(0)
    } else if !(forall|i: int| 0 <= i < v.circle@.len() ==> circle_ok(#[trigger] v.circle@[i])) {
        Some(1)
    } else if oldest && !keys_ok(v.geocode@) {
        Some(2)
    } else {
        None
    }
}

/// Whether the shapes of a binary area are valid.
pub open spec fn shapes_ok(v: Area) -> bool {
    (forall|i: int| 0 <= i < v.polygon@.len() ==> polygon_ok(#[trigger] v.polygon@[i]))
        && (forall|i: int| 0 <= i < v.circle@.len() ==> circle_ok(#[trigger] v.circle@[i]))
}

pub open spec fn shapes_decoded(v: Area, polygons: Seq<geo::Polygon>, circles: Seq<geo::Circle>) -> bool {
    &&& polygons.len() == v.polygon@.len()
    &&& (forall|i: int| 0 <= i < polygons.len() ==> (#[trigger] polygons[i])@ == polygon_points(v.polygon@[i]))
    &&& circles.len() == v.circle@.len()
    &&& (forall|i: int| 0 <= i < circles.len() ==> (#[trigger] circles[i]).center@ == point_units(v.circle@[i].point) && circles[i].radius == v.circle@[i].radius)
}

/// Whether a binary area converts to CAP v1.0: valid shapes and valid geocode keys.
pub open spec fn area_fits_v1dot0(v: Area) -> bool {
    shapes_ok(v) && keys_ok(v.geocode@)
}

pub open spec fn area_decoded_v1dot0(v: Area, r: v1dot0::Area) -> bool {
    &&& r.description == v.area_desc
    &&& shapes_decoded(v, r.polygons@, r.circles@)
    &&& r.geocode@ == pairs_view(v.geocode@)
    &&& r.altitude == v.altitude
    &&& r.ceiling == v.ceiling
}

pub open spec fn area_encoded_v1dot0(r: v1dot0::Area, v: Area) -> bool {
    &&& v.area_desc == r.description
    &&& v.polygon@.len() == r.polygons@.len()
    &&& (forall|i: int| 0 <= i < r.polygons@.len() ==> polygon_points(#[trigger] v.polygon@[i]) == r.polygons@[i]@)
    &&& v.circle@.len() == r.circles@.len()
    &&& (forall|i: int| 0 <= i < r.circles@.len() ==> point_units(#[trigger] v.circle@[i].point) == r.circles@[i].center@ && v.circle@[i].radius == r.circles@[i].radius)
    &&& pairs_view(v.geocode@) == r.geocode@
    &&& v.altitude == r.altitude
    &&& v.ceiling == r.ceiling
}

impl v1dot0::Area {
    /// Convert a binary area: every polygon and circle must be valid.
    pub fn try_from_protobuf(value: Area) -> (r: Result<v1dot0::Area, AreaConversionError>)
        ensures
            area_fits_v1dot0(value) <==> r is Ok,
            r matches Ok(x) ==> area_decoded_v1dot0(value, x),
            r matches Err(e) ==> area_failure(value, true) == Some(area_error_field(e)),
    {
        let polygons = polygons_from_protobuf(value.polygon)?;
        let circles = circles_from_protobuf(value.circle)?;
        let geocode = match key_map_from_pairs(value.geocode) {
            Ok(m) => m,
            Err(e) => {
                return Err(AreaConversionError::Geocode(e));
            },
        };
        Ok(v1dot0::Area {
            description: value.area_desc,
            polygons,
            circles,
            geocode,
            altitude: value.altitude,
            ceiling: value.ceiling,
        })
    }
}

impl Area {
    /// The binary form of an area.
    pub fn from_v1dot0(value: v1dot0::Area) -> (r: Area)
        ensures
            area_encoded_v1dot0(value, r),
    {
        let ghost orig = value;
        let polygon = polygons_to_protobuf(value.polygons);
        let circle = circles_to_protobuf(value.circles);
        let geocode = pairs_from_key_map(value.geocode);
        let r = Area {
            area_desc: value.description,
            polygon,
            circle,
            geocode,
            altitude: value.altitude,
            ceiling: value.ceiling,
        };
        assert(r.polygon@.len() == orig.polygons@.len());
        assert(pairs_view(r.geocode@) == orig.geocode@);
        assert(r.area_desc == orig.description);
        assert(forall|i: int| 0 <= i < orig.polygons@.len() ==> polygon_points(#[trigger] r.polygon@[i]) == orig.polygons@[i]@);
        assert(forall|i: int| 0 <= i < orig.circles@.len() ==> point_units(#[trigger] r.circle@[i].point) == orig.circles@[i].center@ && r.circle@[i].radius == orig.circles@[i].radius);
        r
    }
}

pub open spec fn area_decoded_v1dot1(v: Area, r: v1dot1::Area) -> bool {
    &&& r.description == v.area_desc
    &&& shapes_decoded(v, r.polygons@, r.circles@)
    &&& r.geocode@ == pairs_view(v.geocode@)
    &&& r.altitude == v.altitude
    &&& r.ceiling == v.ceiling
}

pub open spec fn area_encoded_v1dot1(r: v1dot1::Area, v: Area) -> bool {
    &&& v.area_desc == r.description
    &&& v.polygon@.len() == r.polygons@.len()
    &&& (forall|i: int| 0 <= i < r.polygons@.len() ==> polygon_points(#[trigger] v.polygon@[i]) == r.polygons@[i]@)
    &&& v.circle@.len() == r.circles@.len()
    &&& (forall|i: int| 0 <= i < r.circles@.len() ==> point_units(#[trigger] v.circle@[i].point) == r.circles@[i].center@ && v.circle@[i].radius == r.circles@[i].radius)
    &&& pairs_view(v.geocode@) == r.geocode@
    &&& v.altitude == r.altitude
    &&& v.ceiling == r.ceiling
}

impl v1dot1::Area {
    /// Convert a binary area: every polygon and circle must be valid.
    pub fn try_from_protobuf(value: Area) -> (r: Result<v1dot1::Area, AreaConversionError>)
        ensures
            shapes_ok(value) <==> r is Ok,
            r matches Ok(x) ==> area_decoded_v1dot1(value, x),
            r matches Err(e) ==> area_failure(value, false) == Some(area_error_field(e)),
    {
        let polygons = polygons_from_protobuf(value.polygon)?;
        let circles = circles_from_protobuf(value.circle)?;
        let geocode = map_from_pairs(value.geocode);
        Ok(v1dot1::Area {
            description: value.area_desc,
            polygons,
            circles,
            geocode,
            altitude: value.altitude,
            ceiling: value.ceiling,
        })
    }
}

impl Area {
    /// The binary form of an area.
    pub fn from_v1dot1(value: v1dot1::Area) -> (r: Area)
        ensures
            area_encoded_v1dot1(value, r),
    {
        let ghost orig = value;
        let polygon = polygons_to_protobuf(value.polygons);
        let circle = circles_to_protobuf(value.circles);
        let geocode = pairs_from_map(value.geocode);
        let r = Area {
            area_desc: value.description,
            polygon,
            circle,
            geocode,
            altitude: value.altitude,
            ceiling: value.ceiling,
        };
        assert(r.polygon@.len() == orig.polygons@.len());
        assert(pairs_view(r.geocode@) == orig.geocode@);
        assert(r.area_desc == orig.description);
        assert(forall|i: int| 0 <= i < orig.polygons@.len() ==> polygon_points(#[trigger] r.polygon@[i]) == orig.polygons@[i]@);
        assert(forall|i: int| 0 <= i < orig.circles@.len() ==> point_units(#[trigger] r.circle@[i].point) == orig.circles@[i].center@ && r.circle@[i].radius == orig.circles@[i].radius);
        r
    }
}

pub open spec fn area_decoded_v1dot2(v: Area, r: v1dot2::Area) -> bool {
    &&& r.description == v.area_desc
    &&& shapes_decoded(v, r.polygons@, r.circles@)
    &&& r.geocode@ == pairs_view(v.geocode@)
    &&& r.altitude == v.altitude
    &&& r.ceiling == v.ceiling
}

pub open spec fn area_encoded_v1dot2(r: v1dot2::Area, v: Area) -> bool {
    &&& v.area_desc == r.description
    &&& v.polygon@.len() == r.polygons@.len()
    &&& (forall|i: int| 0 <= i < r.polygons@.len() ==> polygon_points(#[trigger] v.polygon@[i]) == r.polygons@[i]@)
    &&& v.circle@.len() == r.circles@.len()
    &&& (forall|i: int| 0 <= i < r.circles@.len() ==> point_units(#[trigger] v.circle@[i].point) == r.circles@[i].center@ && v.circle@[i].radius == r.circles@[i].radius)
    &&& pairs_view(v.geocode@) == r.geocode@
    &&& v.altitude == r.altitude
    &&& v.ceiling == r.ceiling
}

impl v1dot2::Area {
    /// Convert a binary area: every polygon and circle must be valid.
    pub fn try_from_protobuf(value: Area) -> (r: Result<v1dot2::Area, AreaConversionError>)
        ensures
            shapes_ok(value) <==> r is Ok,
            r matches Ok(x) ==> area_decoded_v1dot2(value, x),
            r matches Err(e) ==> area_failure(value, false) == Some(area_error_field(e)),
    {
        let polygons = polygons_from_protobuf(value.polygon)?;
        let circles = circles_from_protobuf(value.circle)?;
        let geocode = map_from_pairs(value.geocode);
        Ok(v1dot2::Area {
            description: value.area_desc,
            polygons,
            circles,
            geocode,
            altitude: value.altitude,
            ceiling: value.ceiling,
        })
    }
}

impl Area {
    /// The binary form of an area.
    pub fn from_v1dot2(value: v1dot2::Area) -> (r: Area)
        ensures
            area_encoded_v1dot2(value, r),
    {
        let ghost orig = value;
        let polygon = polygons_to_protobuf(value.polygons);
        let circle = circles_to_protobuf(value.circles);
        let geocode = pairs_from_map(value.geocode);
        let r = Area {
            area_desc: value.description,
            polygon,
            circle,
            geocode,
            altitude: value.altitude,
            ceiling: value.ceiling,
        };
        assert(r.polygon@.len() == orig.polygons@.len());
        assert(pairs_view(r.geocode@) == orig.geocode@);
        assert(r.area_desc == orig.description);
        assert(forall|i: int| 0 <= i < orig.polygons@.len() ==> polygon_points(#[trigger] r.polygon@[i]) == orig.polygons@[i]@);
        assert(forall|i: int| 0 <= i < orig.circles@.len() ==> point_units(#[trigger] r.circle@[i].point) == orig.circles@[i].center@ && r.circle@[i].radius == orig.circles@[i].radius);
        r
    }
}

} // verus!
