//! Places that Tweets are associated with.

use vstd::prelude::*;

use crate::json::{DecodeError, JsonValue};
use crate::message::geometry::{agrees, spec_geometry, Geometry, GeometryModel};
use crate::message::record::{
    decode_record, value_ok, lemma_record_ok, read_str, spec_record, str_value, FieldType,
    member_or_null, record_fields_come_from_their_members,
};

verus! {

/// A place.
#[derive(Debug)]
pub struct Place {
    /// The attributes of the place (such as `street_address`), in the order in which they
    /// were written; where a key repeats, the last one holds.
    pub attributes: Vec<(String, String)>,
    /// The area that the place covers.
    pub bounding_box: Geometry,
    pub country: String,
    pub country_code: String,
    pub full_name: String,
    pub id: String,
    pub name: String,
    pub place_type: String,
    pub url: String,
}

/// [`Place`] with a sequence in place of the vector and the model of the geometry.
pub struct PlaceModel {
    pub attributes: Seq<(String, String)>,
    pub bounding_box: GeometryModel,
    pub country: String,
    pub country_code: String,
    pub full_name: String,
    pub id: String,
    pub name: String,
    pub place_type: String,
    pub url: String,
}

pub open spec fn place_view(p: Place) -> PlaceModel {
    PlaceModel {
        attributes: p.attributes@,
        bounding_box: p.bounding_box@,
        country: p.country,
        country_code: p.country_code,
        full_name: p.full_name,
        id: p.id,
        name: p.name,
        place_type: p.place_type,
        url: p.url,
    }
}

/// The members of a place object, in the order in which they are declared.
pub open spec fn place_fields() -> Seq<(&'static str, FieldType)> {
    seq![
        ("attributes", FieldType::StrMap),
        ("bounding_box", FieldType::GeometryRec),
        ("country", FieldType::Str),
        ("country_code", FieldType::Str),
        ("full_name", FieldType::Str),
        ("id", FieldType::Str),
        ("name", FieldType::Str),
        ("place_type", FieldType::Str),
        ("url", FieldType::Str),
    ]
}

pub(crate) fn place_fields_vec() -> (r: Vec<(&'static str, FieldType)>)
    ensures
        r@ == place_fields(),
{
    let r = vec![
        ("attributes", FieldType::StrMap),
        ("bounding_box", FieldType::GeometryRec),
        ("country", FieldType::Str),
        ("country_code", FieldType::Str),
        ("full_name", FieldType::Str),
        ("id", FieldType::Str),
        ("name", FieldType::Str),
        ("place_type", FieldType::Str),
        ("url", FieldType::Str),
    ];
    proof {
        assert(r@ =~= place_fields());
    }
    r
}

/// The string members of an object, as pairs of name and text.
pub open spec fn str_pairs(v: JsonValue) -> Seq<(String, String)> {
    v->Object_0@.map_values(|p: (String, JsonValue)| (p.0, p.1->String_0))
}

pub open spec fn spec_place(v: JsonValue) -> Result<PlaceModel, DecodeError> {
    match spec_record(v, place_fields()) {
        Ok(vals) => Ok(
            PlaceModel {
                attributes: str_pairs(vals[0]),
                bounding_box: spec_geometry(vals[1])->Ok_0,
                country: str_value(vals[2]),
                country_code: str_value(vals[3]),
                full_name: str_value(vals[4]),
                id: str_value(vals[5]),
                name: str_value(vals[6]),
                place_type: str_value(vals[7]),
                url: str_value(vals[8]),
            },
        ),
        Err(e) => Err(e),
    }
}

fn read_str_pairs(v: &JsonValue) -> (r: Vec<(String, String)>)
    requires
        value_ok(FieldType::StrMap, *v),
    ensures
        r@ == str_pairs(*v),
{
    let mut out: Vec<(String, String)> = Vec::new();
    match v {
        JsonValue::Object(es) => {
            let mut i: usize = 0;
            while i < es.len()
                invariant
                    *v == JsonValue::Object(*es),
                    i <= es@.len(),
                    crate::message::record::str_map_error(es@) is None,
                    out@ == es@.take(i as int).map_values(
                        |p: (String, JsonValue)| (p.0, p.1->String_0),
                    ),
                decreases es@.len() - i,
            {
                proof {
                    assert(es@.take(i + 1) =~= es@.take(i as int).push(es@[i as int]));
                }
                let s = match &es[i].1 {
                    JsonValue::String(s) => s.clone(),
                    _ => String::new(),
                };
                out.push((es[i].0.clone(), s));
                proof {
                    assert(es@[i as int].1 is String) by {
                        lemma_str_map_at(es@, i as int);
                    }
                    assert(out@ =~= es@.take(i + 1).map_values(
                        |p: (String, JsonValue)| (p.0, p.1->String_0),
                    ));
                }
                i = i + 1;
            }
            proof {
                assert(es@.take(i as int) =~= es@);
            }
        },
        _ => {},
    }
    out
}

proof fn lemma_str_map_at(es: Seq<(String, JsonValue)>, i: int)
    requires
        crate::message::record::str_map_error(es) is None,
        0 <= i < es.len(),
    ensures
        es[i].1 is String,
    decreases es.len(),
{
    if i > 0 {
        lemma_str_map_at(es.drop_first(), i - 1);
    }
}

fn read_geometry(v: &JsonValue) -> (r: Geometry)
    requires
        value_ok(FieldType::GeometryRec, *v),
    ensures
        r@ == spec_geometry(*v)->Ok_0,
{
    match Geometry::from_json(v) {
        Ok(g) => g,
        Err(_) => Geometry::MultiPoint(Vec::new()),
    }
}

impl Place {
    /// Decodes a place.
    pub fn from_json(v: &JsonValue) -> (r: Result<Place, DecodeError>)
        ensures
            agrees(r, spec_place(*v), |p: Place| place_view(p)),
    {
        let null = JsonValue::Null;
        let fields = place_fields_vec();
        proof {
            lemma_record_ok(*v, place_fields());
        }
        match decode_record(v, &fields, &null) {
            Ok(vals) => Ok(
                Place {
                    attributes: read_str_pairs(vals[0]),
                    bounding_box: read_geometry(vals[1]),
                    country: read_str(vals[2]),
                    country_code: read_str(vals[3]),
                    full_name: read_str(vals[4]),
                    id: read_str(vals[5]),
                    name: read_str(vals[6]),
                    place_type: read_str(vals[7]),
                    url: read_str(vals[8]),
                },
            ),
            Err(e) => Err(e),
        }
    }
}

/// A place read from an object takes each of its fields from the member of that field's name,
/// whatever the order of the members (and `null` for an optional member that is missing).
pub proof fn place_reads_members_by_name(v: JsonValue)
    requires
        v is Object,
    ensures
        spec_place(v) matches Ok(m) ==> m == (PlaceModel {
            attributes: str_pairs(member_or_null(v, "attributes"@)),
            bounding_box: spec_geometry(member_or_null(v, "bounding_box"@))->Ok_0,
            country: str_value(member_or_null(v, "country"@)),
            country_code: str_value(member_or_null(v, "country_code"@)),
            full_name: str_value(member_or_null(v, "full_name"@)),
            id: str_value(member_or_null(v, "id"@)),
            name: str_value(member_or_null(v, "name"@)),
            place_type: str_value(member_or_null(v, "place_type"@)),
            url: str_value(member_or_null(v, "url"@)),
        }),
{
    reveal_strlit("attributes");
    reveal_strlit("bounding_box");
    reveal_strlit("country");
    reveal_strlit("country_code");
    reveal_strlit("full_name");
    reveal_strlit("id");
    reveal_strlit("name");
    reveal_strlit("place_type");
    reveal_strlit("url");
    assert("attributes"@.len() == 10 && "attributes"@[0] == 'a');
    assert("bounding_box"@.len() == 12 && "bounding_box"@[0] == 'b');
    assert("country"@.len() == 7);
    assert("country_code"@.len() == 12 && "country_code"@[0] == 'c');
    assert("full_name"@.len() == 9);
    assert("id"@.len() == 2);
    assert("name"@.len() == 4);
    assert("place_type"@.len() == 10 && "place_type"@[0] == 'p');
    assert("url"@.len() == 3);
    record_fields_come_from_their_members(v, place_fields());
}

} // verus!
