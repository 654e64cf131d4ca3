//! Geometry objects (RFC 7946), as found in the `coordinates` of Tweets and the
//! `bounding_box` of places.

use vstd::prelude::*;

use crate::json::{
    decode_number, decode_string, spec_number, spec_string, str_eq, DecodeError, JsonNumber,
    JsonValue,
};

verus! {

/// A position: longitude, then latitude, each kept as the number that was sent.
#[derive(Debug)]
pub struct Position(pub JsonNumber, pub JsonNumber);

/// A geometry object.
#[derive(Debug)]
pub enum Geometry {
    Point(Position),
    MultiPoint(Vec<Position>),
    LineString(Vec<Position>),
    MultiLineString(Vec<Vec<Position>>),
    Polygon(Vec<Vec<Position>>),
    MultiPolygon(Vec<Vec<Vec<Position>>>),
}

/// The contents of a [`Geometry`], with sequences in place of vectors.
pub enum GeometryModel {
    Point(Position),
    MultiPoint(Seq<Position>),
    LineString(Seq<Position>),
    MultiLineString(Seq<Seq<Position>>),
    Polygon(Seq<Seq<Position>>),
    MultiPolygon(Seq<Seq<Seq<Position>>>),
}

pub open spec fn lines_view(v: Vec<Vec<Position>>) -> Seq<Seq<Position>> {
    v@.map_values(|l: Vec<Position>| l@)
}

pub open spec fn polys_view(v: Vec<Vec<Vec<Position>>>) -> Seq<Seq<Seq<Position>>> {
    v@.map_values(|p: Vec<Vec<Position>>| lines_view(p))
}

impl View for Geometry {
    type V = GeometryModel;

    open spec fn view(&self) -> GeometryModel {
        match self {
            Geometry::Point(p) => GeometryModel::Point(*p),
            Geometry::MultiPoint(v) => GeometryModel::MultiPoint(v@),
            Geometry::LineString(v) => GeometryModel::LineString(v@),
            Geometry::MultiLineString(v) => GeometryModel::MultiLineString(lines_view(*v)),
            Geometry::Polygon(v) => GeometryModel::Polygon(lines_view(*v)),
            Geometry::MultiPolygon(v) => GeometryModel::MultiPolygon(polys_view(*v)),
        }
    }
}

/// The value of a `coordinates` member read without knowing the geometry's type: a number,
/// or arrays nested up to three levels around positions.
pub enum Coords {
    Num(JsonNumber),
    Dim0(Position),
    Dim1(Seq<Position>),
    Dim2(Seq<Seq<Position>>),
    Dim3(Seq<Seq<Seq<Position>>>),
}

/// A position read as an array of exactly two numbers.
pub open spec fn spec_position(v: JsonValue) -> Result<Position, DecodeError> {
    match v {
        JsonValue::Array(a) => if a@.len() == 0 {
            Err(DecodeError::InvalidLength)
        } else {
            match spec_number(a@[0]) {
                Err(e) => Err(e),
                Ok(x) => if a@.len() < 2 {
                    Err(DecodeError::InvalidLength)
                } else {
                    match spec_number(a@[1]) {
                        Err(e) => Err(e),
                        Ok(y) => if a@.len() > 2 {
                            Err(DecodeError::InvalidLength)
                        } else {
                            Ok(Position(x, y))
                        },
                    }
                },
            }
        },
        _ => Err(DecodeError::InvalidType),
    }
}

/// Array elements read as positions; the first failure decides the error.
pub open spec fn seq_positions(items: Seq<JsonValue>) -> Result<Seq<Position>, DecodeError>
    decreases items.len(),
{
    if items.len() == 0 {
        Ok(Seq::empty())
    } else {
        match spec_position(items[0]) {
            Err(e) => Err(e),
            Ok(p) => match seq_positions(items.drop_first()) {
                Err(e) => Err(e),
                Ok(rest) => Ok(seq![p] + rest),
            },
        }
    }
}

pub open spec fn spec_positions(v: JsonValue) -> Result<Seq<Position>, DecodeError> {
    match v {
        JsonValue::Array(a) => seq_positions(a@),
        _ => Err(DecodeError::InvalidType),
    }
}

/// Array elements read as arrays of positions.
pub open spec fn seq_lines(items: Seq<JsonValue>) -> Result<Seq<Seq<Position>>, DecodeError>
    decreases items.len(),
{
    if items.len() == 0 {
        Ok(Seq::empty())
    } else {
        match spec_positions(items[0]) {
            Err(e) => Err(e),
            Ok(l) => match seq_lines(items.drop_first()) {
                Err(e) => Err(e),
                Ok(rest) => Ok(seq![l] + rest),
            },
        }
    }
}

pub open spec fn spec_lines(v: JsonValue) -> Result<Seq<Seq<Position>>, DecodeError> {
    match v {
        JsonValue::Array(a) => seq_lines(a@),
        _ => Err(DecodeError::InvalidType),
    }
}

/// Array elements read as arrays of arrays of positions.
pub open spec fn seq_polys(items: Seq<JsonValue>) -> Result<Seq<Seq<Seq<Position>>>, DecodeError>
    decreases items.len(),
{
    if items.len() == 0 {
        Ok(Seq::empty())
    } else {
        match spec_lines(items[0]) {
            Err(e) => Err(e),
            Ok(l) => match seq_polys(items.drop_first()) {
                Err(e) => Err(e),
                Ok(rest) => Ok(seq![l] + rest),
            },
        }
    }
}

pub open spec fn spec_polys(v: JsonValue) -> Result<Seq<Seq<Seq<Position>>>, DecodeError> {
    match v {
        JsonValue::Array(a) => seq_polys(a@),
        _ => Err(DecodeError::InvalidType),
    }
}

/// A `coordinates` value read without knowing the type: the first element of an array decides
/// how deep the array is. After a first number, a second number completes a position and
/// further elements are not looked at; after a first array, the other elements must be arrays
/// of the same shape. An empty array is an empty list of positions, and arrays nested more than
/// four levels deep are refused.
pub open spec fn spec_coords(v: JsonValue) -> Result<Coords, DecodeError>
    decreases v,
{
    match v {
        JsonValue::Number(n) => Ok(Coords::Num(n)),
        JsonValue::Array(a) => if a@.len() == 0 {
            Ok(Coords::Dim1(Seq::empty()))
        } else {
            match spec_coords(a@[0]) {
                Err(e) => Err(e),
                Ok(Coords::Num(x)) => if a@.len() < 2 {
                    Err(DecodeError::InvalidLength)
                } else {
                    match spec_number(a@[1]) {
                        Err(e) => Err(e),
                        Ok(y) => Ok(Coords::Dim0(Position(x, y))),
                    }
                },
                Ok(Coords::Dim0(p)) => match seq_positions(a@.drop_first()) {
                    Err(e) => Err(e),
                    Ok(rest) => Ok(Coords::Dim1(seq![p] + rest)),
                },
                Ok(Coords::Dim1(l)) => match seq_lines(a@.drop_first()) {
                    Err(e) => Err(e),
                    Ok(rest) => Ok(Coords::Dim2(seq![l] + rest)),
                },
                Ok(Coords::Dim2(l)) => match seq_polys(a@.drop_first()) {
                    Err(e) => Err(e),
                    Ok(rest) => Ok(Coords::Dim3(seq![l] + rest)),
                },
                Ok(Coords::Dim3(_)) => Err(DecodeError::InvalidType),
            }
        },
        _ => Err(DecodeError::InvalidType),
    }
}

/// The geometry types.
#[derive(Clone, Copy)]
pub enum GeoKind {
    Point,
    MultiPoint,
    LineString,
    MultiLineString,
    Polygon,
    MultiPolygon,
}

pub open spec fn spec_geo_kind(t: Seq<char>) -> Option<GeoKind> {
    if t == "Point"@ {
        Some(GeoKind::Point)
    } else if t == "MultiPoint"@ {
        Some(GeoKind::MultiPoint)
    } else if t == "LineString"@ {
        Some(GeoKind::LineString)
    } else if t == "MultiLineString"@ {
        Some(GeoKind::MultiLineString)
    } else if t == "Polygon"@ {
        Some(GeoKind::Polygon)
    } else if t == "MultiPolygon"@ {
        Some(GeoKind::MultiPolygon)
    } else {
        None
    }
}

/// A geometry of the given type from coordinates read before the type was known.
pub open spec fn from_coords(kind: GeoKind, c: Coords) -> Result<GeometryModel, DecodeError> {
    match (kind, c) {
        (GeoKind::Point, Coords::Dim0(p)) => Ok(GeometryModel::Point(p)),
        (GeoKind::MultiPoint, Coords::Dim1(l)) => Ok(GeometryModel::MultiPoint(l)),
        (GeoKind::LineString, Coords::Dim1(l)) => Ok(GeometryModel::LineString(l)),
        (GeoKind::MultiLineString, Coords::Dim2(l)) => Ok(GeometryModel::MultiLineString(l)),
        (GeoKind::Polygon, Coords::Dim2(l)) => Ok(GeometryModel::Polygon(l)),
        (GeoKind::MultiPolygon, Coords::Dim3(l)) => Ok(GeometryModel::MultiPolygon(l)),
        _ => Err(DecodeError::InvalidCoordinates),
    }
}

/// A geometry of the given type from coordinates read once the type is known.
pub open spec fn strict_for(kind: GeoKind, v: JsonValue) -> Result<GeometryModel, DecodeError> {
    match kind {
        GeoKind::Point => match spec_position(v) {
            Ok(p) => Ok(GeometryModel::Point(p)),
            Err(e) => Err(e),
        },
        GeoKind::MultiPoint => match spec_positions(v) {
            Ok(l) => Ok(GeometryModel::MultiPoint(l)),
            Err(e) => Err(e),
        },
        GeoKind::LineString => match spec_positions(v) {
            Ok(l) => Ok(GeometryModel::LineString(l)),
            Err(e) => Err(e),
        },
        GeoKind::MultiLineString => match spec_lines(v) {
            Ok(l) => Ok(GeometryModel::MultiLineString(l)),
            Err(e) => Err(e),
        },
        GeoKind::Polygon => match spec_lines(v) {
            Ok(l) => Ok(GeometryModel::Polygon(l)),
            Err(e) => Err(e),
        },
        GeoKind::MultiPolygon => match spec_polys(v) {
            Ok(l) => Ok(GeometryModel::MultiPolygon(l)),
            Err(e) => Err(e),
        },
    }
}

/// After the type: the first `coordinates` member among the remaining ones.
pub open spec fn find_coordinates(es: Seq<(String, JsonValue)>, kind: GeoKind) -> Result<
    GeometryModel,
    DecodeError,
>
    decreases es.len(),
{
    if es.len() == 0 {
        Err(DecodeError::MissingField("coordinates"))
    } else if es[0].0@ == "coordinates"@ {
        strict_for(kind, es[0].1)
    } else {
        find_coordinates(es.drop_first(), kind)
    }
}

/// Reads the members in order: `coordinates` seen before `type` is kept (the last one wins);
/// the first `type` decides the geometry.
pub open spec fn geo_scan(es: Seq<(String, JsonValue)>, c: Option<Coords>) -> Result<
    GeometryModel,
    DecodeError,
>
    decreases es.len(),
{
    if es.len() == 0 {
        Err(DecodeError::MissingField("type"))
    } else if es[0].0@ == "type"@ {
        match spec_string(es[0].1) {
            Err(e) => Err(e),
            Ok(t) => match spec_geo_kind(t@) {
                None => Err(DecodeError::UnknownVariant),
                Some(kind) => match c {
                    Some(c) => from_coords(kind, c),
                    None => find_coordinates(es.drop_first(), kind),
                },
            },
        }
    } else if es[0].0@ == "coordinates"@ {
        match spec_coords(es[0].1) {
            Err(e) => Err(e),
            Ok(c2) => geo_scan(es.drop_first(), Some(c2)),
        }
    } else {
        geo_scan(es.drop_first(), c)
    }
}

/// The geometry that a JSON value denotes.
pub open spec fn spec_geometry(v: JsonValue) -> Result<GeometryModel, DecodeError> {
    match v {
        JsonValue::Object(es) => geo_scan(es@, None),
        _ => Err(DecodeError::InvalidType),
    }
}

/// The result of a decoder that builds a sequence, compared with what the specification says.
pub open spec fn agrees<T, V>(r: Result<T, DecodeError>, s: Result<V, DecodeError>, view: spec_fn(T) -> V) -> bool {
    match s {
        Ok(m) => r matches Ok(o) && view(o) == m,
        Err(e) => r matches Err(e2) && e2 == e,
    }
}

/// Reads a position: an array of exactly two numbers.
pub fn decode_position(v: &JsonValue) -> (r: Result<Position, DecodeError>)
    ensures
        r == spec_position(*v),
{
    match v {
        JsonValue::Array(a) => {
            if a.len() == 0 {
                return Err(DecodeError::InvalidLength);
            }
            let x = match decode_number(&a[0]) {
                Err(e) => {
                    return Err(e);
                },
                Ok(x) => x,
            };
            if a.len() < 2 {
                return Err(DecodeError::InvalidLength);
            }
            let y = match decode_number(&a[1]) {
                Err(e) => {
                    return Err(e);
                },
                Ok(y) => y,
            };
            if a.len() > 2 {
                return Err(DecodeError::InvalidLength);
            }
            Ok(Position(x, y))
        },
        _ => Err(DecodeError::InvalidType),
    }
}

/// Reads the elements of `items` from index `start` on as positions.
fn positions_from(items: &Vec<JsonValue>, start: usize) -> (r: Result<Vec<Position>, DecodeError>)
    requires
        start <= items@.len(),
    ensures
        agrees(r, seq_positions(items@.skip(start as int)), |o: Vec<Position>| o@),
{
    let mut out: Vec<Position> = Vec::new();
    let mut i: usize = start;
    proof {
        match seq_positions(items@.skip(start as int)) {
            Ok(rest) => {
                assert(out@ + rest =~= rest);
            },
            Err(_) => {},
        }
    }
    while i < items.len()
        invariant
            start <= i <= items@.len(),
            seq_positions(items@.skip(start as int)) == (match seq_positions(items@.skip(i as int)) {
                Err(e) => Err(e),
                Ok(rest) => Ok(out@ + rest),
            }),
        decreases items@.len() - i,
    {
        proof {
            assert(items@.skip(i as int).drop_first() =~= items@.skip(i + 1));
            assert(items@.skip(i as int)[0] == items@[i as int]);
        }
        match decode_position(&items[i]) {
            Err(e) => {
                proof {
                    assert(seq_positions(items@.skip(i as int)) == Err::<Seq<Position>, DecodeError>(e));
                }
                return Err(e);
            },
            Ok(p) => {
                proof {
                    match seq_positions(items@.skip(i + 1)) {
                        Err(e) => {},
                        Ok(rest) => {
                            assert(out@ + (seq![p] + rest) =~= out@.push(p) + rest);
                        },
                    }
                }
                out.push(p);
            },
        }
        i = i + 1;
    }
    proof {
        assert(items@.skip(i as int) =~= Seq::<JsonValue>::empty());
        assert(out@ + Seq::<Position>::empty() =~= out@);
    }
    Ok(out)
}

/// Reads an array of positions.
pub fn decode_positions(v: &JsonValue) -> (r: Result<Vec<Position>, DecodeError>)
    ensures
        agrees(r, spec_positions(*v), |o: Vec<Position>| o@),
{
    match v {
        JsonValue::Array(a) => {
            proof {
                assert(a@.skip(0) =~= a@);
            }
            positions_from(a, 0)
        },
        _ => Err(DecodeError::InvalidType),
    }
}

/// Reads the elements of `items` from index `start` on as arrays of positions.
fn lines_from(items: &Vec<JsonValue>, start: usize) -> (r: Result<Vec<Vec<Position>>, DecodeError>)
    requires
        start <= items@.len(),
    ensures
        agrees(r, seq_lines(items@.skip(start as int)), |o: Vec<Vec<Position>>| lines_view(o)),
{
    let mut out: Vec<Vec<Position>> = Vec::new();
    let mut i: usize = start;
    proof {
        match seq_lines(items@.skip(start as int)) {
            Ok(rest) => {
                assert(lines_view(out) + rest =~= rest);
            },
            Err(_) => {},
        }
    }
    while i < items.len()
        invariant
            start <= i <= items@.len(),
            seq_lines(items@.skip(start as int)) == (match seq_lines(items@.skip(i as int)) {
                Err(e) => Err(e),
                Ok(rest) => Ok(lines_view(out) + rest),
            }),
        decreases items@.len() - i,
    {
        proof {
            assert(items@.skip(i as int).drop_first() =~= items@.skip(i + 1));
            assert(items@.skip(i as int)[0] == items@[i as int]);
        }
        match decode_positions(&items[i]) {
            Err(e) => {
                proof {
                    assert(seq_lines(items@.skip(i as int)) == Err::<Seq<Seq<Position>>, DecodeError>(e));
                }
                return Err(e);
            },
            Ok(l) => {
                let ghost old_out = out;
                out.push(l);
                proof {
                    assert(lines_view(out) =~= lines_view(old_out).push(l@));
                    match seq_lines(items@.skip(i + 1)) {
                        Err(e) => {},
                        Ok(rest) => {
                            assert(lines_view(old_out) + (seq![l@] + rest) =~= lines_view(out) + rest);
                        },
                    }
                }
            },
        }
        i = i + 1;
    }
    proof {
        assert(items@.skip(i as int) =~= Seq::<JsonValue>::empty());
        assert(lines_view(out) + Seq::<Seq<Position>>::empty() =~= lines_view(out));
    }
    Ok(out)
}

/// Reads an array of arrays of positions.
pub fn decode_lines(v: &JsonValue) -> (r: Result<Vec<Vec<Position>>, DecodeError>)
    ensures
        agrees(r, spec_lines(*v), |o: Vec<Vec<Position>>| lines_view(o)),
{
    match v {
        JsonValue::Array(a) => {
            proof {
                assert(a@.skip(0) =~= a@);
            }
            lines_from(a, 0)
        },
        _ => Err(DecodeError::InvalidType),
    }
}

/// Reads the elements of `items` from index `start` on as arrays of arrays of positions.
fn polys_from(items: &Vec<JsonValue>, start: usize) -> (r: Result<Vec<Vec<Vec<Position>>>, DecodeError>)
    requires
        start <= items@.len(),
    ensures
        agrees(r, seq_polys(items@.skip(start as int)), |o: Vec<Vec<Vec<Position>>>| polys_view(o)),
{
    let mut out: Vec<Vec<Vec<Position>>> = Vec::new();
    let mut i: usize = start;
    proof {
        match seq_polys(items@.skip(start as int)) {
            Ok(rest) => {
                assert(polys_view(out) + rest =~= rest);
            },
            Err(_) => {},
        }
    }
    while i < items.len()
        invariant
            start <= i <= items@.len(),
            seq_polys(items@.skip(start as int)) == (match seq_polys(items@.skip(i as int)) {
                Err(e) => Err(e),
                Ok(rest) => Ok(polys_view(out) + rest),
            }),
        decreases items@.len() - i,
    {
        proof {
            assert(items@.skip(i as int).drop_first() =~= items@.skip(i + 1));
            assert(items@.skip(i as int)[0] == items@[i as int]);
        }
        match decode_lines(&items[i]) {
            Err(e) => {
                proof {
                    assert(seq_polys(items@.skip(i as int)) == Err::<Seq<Seq<Seq<Position>>>, DecodeError>(e));
                }
                return Err(e);
            },
            Ok(l) => {
                let ghost old_out = out;
                out.push(l);
                proof {
                    assert(polys_view(out) =~= polys_view(old_out).push(lines_view(l)));
                    match seq_polys(items@.skip(i + 1)) {
                        Err(e) => {},
                        Ok(rest) => {
                            assert(polys_view(old_out) + (seq![lines_view(l)] + rest) =~= polys_view(out) + rest);
                        },
                    }
                }
            },
        }
        i = i + 1;
    }
    proof {
        assert(items@.skip(i as int) =~= Seq::<JsonValue>::empty());
        assert(polys_view(out) + Seq::<Seq<Seq<Position>>>::empty() =~= polys_view(out));
    }
    Ok(out)
}

/// Reads an array of arrays of arrays of positions.
pub fn decode_polys(v: &JsonValue) -> (r: Result<Vec<Vec<Vec<Position>>>, DecodeError>)
    ensures
        agrees(r, spec_polys(*v), |o: Vec<Vec<Vec<Position>>>| polys_view(o)),
{
    match v {
        JsonValue::Array(a) => {
            proof {
                assert(a@.skip(0) =~= a@);
            }
            polys_from(a, 0)
        },
        _ => Err(DecodeError::InvalidType),
    }
}

/// A `coordinates` value read before the type is known.
pub enum Coordinates {
    Num(JsonNumber),
    Dim0(Position),
    Dim1(Vec<Position>),
    Dim2(Vec<Vec<Position>>),
    Dim3(Vec<Vec<Vec<Position>>>),
}

pub open spec fn coords_view(c: Coordinates) -> Coords {
    match c {
        Coordinates::Num(n) => Coords::Num(n),
        Coordinates::Dim0(p) => Coords::Dim0(p),
        Coordinates::Dim1(v) => Coords::Dim1(v@),
        Coordinates::Dim2(v) => Coords::Dim2(lines_view(v)),
        Coordinates::Dim3(v) => Coords::Dim3(polys_view(v)),
    }
}

/// Reads a `coordinates` value without knowing the type.
pub fn decode_coords(v: &JsonValue) -> (r: Result<Coordinates, DecodeError>)
    ensures
        agrees(r, spec_coords(*v), |o: Coordinates| coords_view(o)),
    decreases v,
{
    match v {
        JsonValue::Number(n) => Ok(Coordinates::Num(n.copy())),
        JsonValue::Array(a) => {
            if a.len() == 0 {
                let empty: Vec<Position> = Vec::new();
                proof {
                    assert(empty@ =~= Seq::<Position>::empty());
                }
                return Ok(Coordinates::Dim1(empty));
            }
            let first = decode_coords(&a[0]);
            match first {
                Err(e) => Err(e),
                Ok(Coordinates::Num(x)) => {
                    if a.len() < 2 {
                        return Err(DecodeError::InvalidLength);
                    }
                    match decode_number(&a[1]) {
                        Err(e) => Err(e),
                        Ok(y) => Ok(Coordinates::Dim0(Position(x, y))),
                    }
                },
                Ok(Coordinates::Dim0(p)) => {
                    proof {
                        assert(a@.skip(1) =~= a@.drop_first());
                    }
                    match positions_from(a, 1) {
                        Err(e) => Err(e),
                        Ok(rest) => {
                            let ghost r0 = rest@;
                            let mut rest = rest;
                            rest.insert(0, p);
                            proof {
                                assert(rest@ =~= seq![p] + r0);
                            }
                            Ok(Coordinates::Dim1(rest))
                        },
                    }
                },
                Ok(Coordinates::Dim1(l)) => {
                    proof {
                        assert(a@.skip(1) =~= a@.drop_first());
                    }
                    match lines_from(a, 1) {
                        Err(e) => Err(e),
                        Ok(rest) => {
                            let ghost r0 = lines_view(rest);
                            let ghost l0 = l@;
                            let mut rest = rest;
                            rest.insert(0, l);
                            proof {
                                assert(lines_view(rest) =~= seq![l0] + r0);
                            }
                            Ok(Coordinates::Dim2(rest))
                        },
                    }
                },
                Ok(Coordinates::Dim2(l)) => {
                    proof {
                        assert(a@.skip(1) =~= a@.drop_first());
                    }
                    match polys_from(a, 1) {
                        Err(e) => Err(e),
                        Ok(rest) => {
                            let ghost r0 = polys_view(rest);
                            let ghost l0 = lines_view(l);
                            let mut rest = rest;
                            rest.insert(0, l);
                            proof {
                                assert(polys_view(rest) =~= seq![l0] + r0);
                            }
                            Ok(Coordinates::Dim3(rest))
                        },
                    }
                },
                Ok(Coordinates::Dim3(_)) => Err(DecodeError::InvalidType),
            }
        },
        _ => Err(DecodeError::InvalidType),
    }
}

/// The geometry type that a `type` member names.
pub fn geo_kind(t: &str) -> (r: Option<GeoKind>)
    ensures
        r == spec_geo_kind(t@),
{
    if str_eq(t, "Point") {
        Some(GeoKind::Point)
    } else if str_eq(t, "MultiPoint") {
        Some(GeoKind::MultiPoint)
    } else if str_eq(t, "LineString") {
        Some(GeoKind::LineString)
    } else if str_eq(t, "MultiLineString") {
        Some(GeoKind::MultiLineString)
    } else if str_eq(t, "Polygon") {
        Some(GeoKind::Polygon)
    } else if str_eq(t, "MultiPolygon") {
        Some(GeoKind::MultiPolygon)
    } else {
        None
    }
}

fn geometry_from_coords(kind: GeoKind, c: Coordinates) -> (r: Result<Geometry, DecodeError>)
    ensures
        agrees(r, from_coords(kind, coords_view(c)), |o: Geometry| o@),
{
    match (kind, c) {
        (GeoKind::Point, Coordinates::Dim0(p)) => Ok(Geometry::Point(p)),
        (GeoKind::MultiPoint, Coordinates::Dim1(l)) => Ok(Geometry::MultiPoint(l)),
        (GeoKind::LineString, Coordinates::Dim1(l)) => Ok(Geometry::LineString(l)),
        (GeoKind::MultiLineString, Coordinates::Dim2(l)) => Ok(Geometry::MultiLineString(l)),
        (GeoKind::Polygon, Coordinates::Dim2(l)) => Ok(Geometry::Polygon(l)),
        (GeoKind::MultiPolygon, Coordinates::Dim3(l)) => Ok(Geometry::MultiPolygon(l)),
        _ => Err(DecodeError::InvalidCoordinates),
    }
}

fn geometry_strict(kind: GeoKind, v: &JsonValue) -> (r: Result<Geometry, DecodeError>)
    ensures
        agrees(r, strict_for(kind, *v), |o: Geometry| o@),
{
    match kind {
        GeoKind::Point => match decode_position(v) {
            Ok(p) => Ok(Geometry::Point(p)),
            Err(e) => Err(e),
        },
        GeoKind::MultiPoint => match decode_positions(v) {
            Ok(l) => Ok(Geometry::MultiPoint(l)),
            Err(e) => Err(e),
        },
        GeoKind::LineString => match decode_positions(v) {
            Ok(l) => Ok(Geometry::LineString(l)),
            Err(e) => Err(e),
        },
        GeoKind::MultiLineString => match decode_lines(v) {
            Ok(l) => Ok(Geometry::MultiLineString(l)),
            Err(e) => Err(e),
        },
        GeoKind::Polygon => match decode_lines(v) {
            Ok(l) => Ok(Geometry::Polygon(l)),
            Err(e) => Err(e),
        },
        GeoKind::MultiPolygon => match decode_polys(v) {
            Ok(l) => Ok(Geometry::MultiPolygon(l)),
            Err(e) => Err(e),
        },
    }
}

fn find_coordinates_from(es: &Vec<(String, JsonValue)>, start: usize, kind: GeoKind) -> (r: Result<Geometry, DecodeError>)
    requires
        start <= es@.len(),
    ensures
        agrees(r, find_coordinates(es@.skip(start as int), kind), |o: Geometry| o@),
{
    let mut i = start;
    while i < es.len()
        invariant
            start <= i <= es@.len(),
            find_coordinates(es@.skip(start as int), kind) == find_coordinates(es@.skip(i as int), kind),
        decreases es@.len() - i,
    {
        proof {
            assert(es@.skip(i as int).drop_first() =~= es@.skip(i + 1));
            assert(es@.skip(i as int)[0] == es@[i as int]);
        }
        let (k, val) = &es[i];
        if str_eq(k.as_str(), "coordinates") {
            return geometry_strict(kind, val);
        }
        i = i + 1;
    }
    proof {
        assert(es@.skip(i as int) =~= Seq::<(String, JsonValue)>::empty());
    }
    Err(DecodeError::MissingField("coordinates"))
}

pub open spec fn opt_coords_view(c: Option<Coordinates>) -> Option<Coords> {
    match c {
        Some(c) => Some(coords_view(c)),
        None => None,
    }
}

impl Geometry {
    /// Decodes a geometry object.
    pub fn from_json(v: &JsonValue) -> (r: Result<Geometry, DecodeError>)
        ensures
            agrees(r, spec_geometry(*v), |o: Geometry| o@),
    {
        match v {
            JsonValue::Object(es) => {
                let mut c: Option<Coordinates> = None;
                let mut i: usize = 0;
                proof {
                    assert(es@.skip(0) =~= es@);
                }
                while i < es.len()
                    invariant
                        *v == JsonValue::Object(*es),
                        i <= es@.len(),
                        spec_geometry(*v) == geo_scan(es@.skip(i as int), opt_coords_view(c)),
                    decreases es@.len() - i,
                {
                    proof {
                        assert(es@.skip(i as int).drop_first() =~= es@.skip(i + 1));
                        assert(es@.skip(i as int)[0] == es@[i as int]);
                    }
                    let (k, val) = &es[i];
                    if str_eq(k.as_str(), "type") {
                        let t = match decode_string(val) {
                            Err(e) => {
                                return Err(e);
                            },
                            Ok(t) => t,
                        };
                        let kind = match geo_kind(t.as_str()) {
                            None => {
                                return Err(DecodeError::UnknownVariant);
                            },
                            Some(kind) => kind,
                        };
                        match c {
                            Some(c) => {
                                return geometry_from_coords(kind, c);
                            },
                            None => {
                                return find_coordinates_from(es, i + 1, kind);
                            },
                        }
                    } else if str_eq(k.as_str(), "coordinates") {
                        match decode_coords(val) {
                            Err(e) => {
                                return Err(e);
                            },
                            Ok(c2) => {
                                c = Some(c2);
                            },
                        }
                    }
                    i = i + 1;
                }
                proof {
                    assert(es@.skip(i as int) =~= Seq::<(String, JsonValue)>::empty());
                }
                Err(DecodeError::MissingField("type"))
            },
            _ => Err(DecodeError::InvalidType),
        }
    }
}

} // verus!
