//! Reading JSON objects with a fixed set of named members ("records").
//!
//! A record is read from an object member by member: a member whose name is one of the
//! record's fields must hold a value of that field's type and may appear only once; other
//! members are ignored; every field must appear. A record may also be given as an array that
//! lists the field values in order.

use vstd::prelude::*;

use crate::datetime::{parse_datetime, parsed_utc_timestamp, TWITTER_DATE_FORMAT};
use crate::message::entities::{
    entities_fields, entities_fields_vec, hashtag_fields, hashtag_fields_vec, media_fields,
    media_fields_vec, size_fields, size_fields_vec, sizes_fields, sizes_fields_vec,
    symbol_fields, symbol_fields_vec, url_fields, url_fields_vec, user_mention_fields,
    user_mention_fields_vec,
};
use crate::message::geometry::{spec_geometry, Geometry};
use crate::message::place::{place_fields, place_fields_vec};
use crate::message::tweet::{
    current_user_retweet, spec_current_user_retweet, tweet_fields, tweet_fields_vec,
};
use crate::message::user::{user_fields, user_fields_vec};
use crate::json::{
    decode_u64, spec_string, spec_string_seq, spec_u64, str_eq, DecodeError, JsonNumber,
    JsonValue,
};

verus! {

/// The type of a record field.
#[derive(Clone, Copy, PartialEq, Eq, Structural)]
pub enum FieldType {
    /// An unsigned integer.
    U64,
    /// A string.
    Str,
    /// An array of strings.
    StrList,
    /// The code of a disconnect message: an integer from 1 to 12, except 8.
    DisconnectCode,
    /// A boolean.
    Bool,
    /// A pair of unsigned integers, written as an array of two.
    Indices,
    /// A date of the Twitter API, such as `Mon May 01 00:01:02 +0000 2017`.
    DateTime,
    /// An unsigned integer or `null`; may be missing.
    OptU64,
    /// A signed integer or `null`; may be missing.
    OptI64,
    /// A boolean or `null`; may be missing.
    OptBool,
    /// A string or `null`; may be missing.
    OptStr,
    /// A string, where `null` and a missing member stand for the empty string.
    NullableStr,
    /// One size of a photo or video (a record).
    SizeRec,
    /// The sizes of a photo or video (a record).
    SizesRec,
    /// An array of hashtags.
    HashtagList,
    /// An array of symbols.
    SymbolList,
    /// An array of URLs.
    UrlList,
    /// An array of user mentions.
    MentionList,
    /// An array of media, or `null`; may be missing.
    OptMediaList,
    /// An object whose members are all strings.
    StrMap,
    /// A geometry.
    GeometryRec,
    /// A geometry or `null`; may be missing.
    OptGeometry,
    /// A user (a record).
    UserRec,
    /// The entities of a Tweet (a record).
    EntitiesRec,
    /// A place (a record) or `null`; may be missing.
    OptPlace,
    /// The `current_user_retweet` member of a Tweet; may be missing.
    CurRetweet,
    /// A boolean; may be missing (then `false`).
    DefaultBool,
    /// An array of strings; may be missing (then empty).
    DefaultStrList,
    /// A Tweet (a record) or `null`; may be missing.
    OptTweet,
    /// An object or `null`; may be missing.
    OptObject,
}

/// A field of this type may be missing from an object; it then reads as `null`.
pub open spec fn is_optional(t: FieldType) -> bool {
    match t {
        FieldType::OptU64 | FieldType::OptI64 | FieldType::OptBool | FieldType::OptStr
        | FieldType::NullableStr | FieldType::OptMediaList | FieldType::OptGeometry
        | FieldType::OptPlace | FieldType::CurRetweet | FieldType::DefaultBool
        | FieldType::DefaultStrList | FieldType::OptTweet | FieldType::OptObject => true,
        _ => false,
    }
}

/// A value found for a field passes the field's check; a missing optional field reads as
/// `null`.
pub open spec fn value_ok(t: FieldType, v: JsonValue) -> bool {
    field_error(t, v) is None || (v is Null && is_optional(t))
}

/// The error, if any, of reading the members of an object as strings.
pub open spec fn str_map_error(es: Seq<(String, JsonValue)>) -> Option<DecodeError>
    decreases es.len(),
{
    if es.len() == 0 {
        None
    } else if es[0].1 is String {
        str_map_error(es.drop_first())
    } else {
        Some(DecodeError::InvalidType)
    }
}

/// The error, if any, of reading `v` as a signed integer.
pub open spec fn i64_error(v: JsonValue) -> Option<DecodeError> {
    match v {
        JsonValue::Number(JsonNumber::PosInt(n)) => if n <= i64::MAX {
            None
        } else {
            Some(DecodeError::InvalidValue)
        },
        JsonValue::Number(JsonNumber::NegInt(_)) => None,
        _ => Some(DecodeError::InvalidType),
    }
}

/// The error, if any, of reading an array as a pair of unsigned integers: each element in
/// turn, then the length.
pub open spec fn indices_error(a: Seq<JsonValue>) -> Option<DecodeError> {
    if a.len() == 0 {
        Some(DecodeError::InvalidLength)
    } else if spec_u64(a[0]) is Err {
        error_of(spec_u64(a[0]))
    } else if a.len() == 1 {
        Some(DecodeError::InvalidLength)
    } else if spec_u64(a[1]) is Err {
        error_of(spec_u64(a[1]))
    } else if a.len() > 2 {
        Some(DecodeError::InvalidLength)
    } else {
        None
    }
}

/// A disconnect code is known.
pub open spec fn is_disconnect_code(n: u64) -> bool {
    1 <= n <= 12 && n != 8
}

/// The error, if any, of reading `v` as a value of type `t`.
pub open spec fn field_error(t: FieldType, v: JsonValue) -> Option<DecodeError>
    decreases v, 2int,
{
    match t {
        FieldType::U64 => match spec_u64(v) {
            Ok(_) => None,
            Err(e) => Some(e),
        },
        FieldType::Str => match spec_string(v) {
            Ok(_) => None,
            Err(e) => Some(e),
        },
        FieldType::StrList => match v {
            JsonValue::Array(a) => error_of(spec_string_seq(a@)),
            _ => Some(DecodeError::InvalidType),
        },
        FieldType::DisconnectCode => match spec_u64(v) {
            Ok(n) => if is_disconnect_code(n) {
                None
            } else {
                Some(DecodeError::InvalidValue)
            },
            Err(e) => Some(e),
        },
        FieldType::Bool => match v {
            JsonValue::Bool(_) => None,
            _ => Some(DecodeError::InvalidType),
        },
        FieldType::Indices => match v {
            JsonValue::Array(a) => indices_error(a@),
            _ => Some(DecodeError::InvalidType),
        },
        FieldType::DateTime => match v {
            JsonValue::String(s) => if parsed_utc_timestamp(s@, TWITTER_DATE_FORMAT@) is Some {
                None
            } else {
                Some(DecodeError::InvalidDate)
            },
            _ => Some(DecodeError::InvalidType),
        },
        FieldType::OptU64 => match v {
            JsonValue::Null => None,
            _ => error_of(spec_u64(v)),
        },
        FieldType::OptI64 => match v {
            JsonValue::Null => None,
            _ => i64_error(v),
        },
        FieldType::OptBool => match v {
            JsonValue::Null | JsonValue::Bool(_) => None,
            _ => Some(DecodeError::InvalidType),
        },
        FieldType::OptStr | FieldType::NullableStr => match v {
            JsonValue::Null | JsonValue::String(_) => None,
            _ => Some(DecodeError::InvalidType),
        },
        FieldType::SizeRec => error_of(spec_record(v, size_fields())),
        FieldType::SizesRec => error_of(spec_record(v, sizes_fields())),
        FieldType::HashtagList => match v {
            JsonValue::Array(a) => list_error(a@, hashtag_fields()),
            _ => Some(DecodeError::InvalidType),
        },
        FieldType::SymbolList => match v {
            JsonValue::Array(a) => list_error(a@, symbol_fields()),
            _ => Some(DecodeError::InvalidType),
        },
        FieldType::UrlList => match v {
            JsonValue::Array(a) => list_error(a@, url_fields()),
            _ => Some(DecodeError::InvalidType),
        },
        FieldType::MentionList => match v {
            JsonValue::Array(a) => list_error(a@, user_mention_fields()),
            _ => Some(DecodeError::InvalidType),
        },
        FieldType::OptMediaList => match v {
            JsonValue::Null => None,
            JsonValue::Array(a) => list_error(a@, media_fields()),
            _ => Some(DecodeError::InvalidType),
        },
        FieldType::StrMap => match v {
            JsonValue::Object(es) => str_map_error(es@),
            _ => Some(DecodeError::InvalidType),
        },
        FieldType::GeometryRec => error_of(spec_geometry(v)),
        FieldType::OptGeometry => match v {
            JsonValue::Null => None,
            _ => error_of(spec_geometry(v)),
        },
        FieldType::UserRec => error_of(spec_record(v, user_fields())),
        FieldType::EntitiesRec => error_of(spec_record(v, entities_fields())),
        FieldType::OptPlace => match v {
            JsonValue::Null => None,
            _ => error_of(spec_record(v, place_fields())),
        },
        FieldType::CurRetweet => error_of(spec_current_user_retweet(v)),
        FieldType::DefaultBool => match v {
            JsonValue::Bool(_) => None,
            _ => Some(DecodeError::InvalidType),
        },
        FieldType::DefaultStrList => match v {
            JsonValue::Array(a) => error_of(spec_string_seq(a@)),
            _ => Some(DecodeError::InvalidType),
        },
        FieldType::OptTweet => match v {
            JsonValue::Null => None,
            _ => error_of(spec_record(v, tweet_fields())),
        },
        FieldType::OptObject => match v {
            JsonValue::Null | JsonValue::Object(_) => None,
            _ => Some(DecodeError::InvalidType),
        },
    }
}

/// The error, if any, of reading each element of an array as a record.
pub open spec fn list_error(a: Seq<JsonValue>, fields: Seq<(&'static str, FieldType)>) -> Option<
    DecodeError,
>
    decreases a, 0int,
{
    if a.len() == 0 {
        None
    } else {
        match spec_record(a[0], fields) {
            Err(e) => Some(e),
            Ok(_) => list_error(a.drop_first(), fields),
        }
    }
}

/// The index of the field named `k`, or -1.
pub open spec fn field_index(fields: Seq<(&'static str, FieldType)>, k: Seq<char>) -> int
    decreases fields.len(),
{
    if fields.len() == 0 {
        -1
    } else if fields[0].0@ == k {
        0
    } else {
        let r = field_index(fields.drop_first(), k);
        if r < 0 {
            -1
        } else {
            r + 1
        }
    }
}

/// Reads the members of an object in order; `seen` holds the value found for each field.
pub open spec fn obj_scan(
    es: Seq<(String, JsonValue)>,
    fields: Seq<(&'static str, FieldType)>,
    seen: Seq<Option<JsonValue>>,
) -> Result<Seq<Option<JsonValue>>, DecodeError>
    decreases es, 0int,
{
    if es.len() == 0 {
        Ok(seen)
    } else {
        let f = field_index(fields, es[0].0@);
        if f < 0 {
            obj_scan(es.drop_first(), fields, seen)
        } else if seen[f] is Some {
            Err(DecodeError::DuplicateField(fields[f].0))
        } else {
            match field_error(fields[f].1, es[0].1) {
                Some(e) => Err(e),
                None => obj_scan(es.drop_first(), fields, seen.update(f, Some(es[0].1))),
            }
        }
    }
}

/// The first field that was not found, if any.
pub open spec fn first_missing(
    fields: Seq<(&'static str, FieldType)>,
    seen: Seq<Option<JsonValue>>,
) -> Option<&'static str>
    decreases fields.len(),
{
    if fields.len() == 0 {
        None
    } else if seen.len() > 0 && seen[0] is None && !is_optional(fields[0].1) {
        Some(fields[0].0)
    } else {
        first_missing(fields.drop_first(), seen.drop_first())
    }
}

/// The first element of an array that does not have the type of its field, if any.
pub open spec fn arr_error(a: Seq<JsonValue>, fields: Seq<(&'static str, FieldType)>) -> Option<
    DecodeError,
>
    decreases a, 0int,
{
    if fields.len() == 0 {
        if a.len() > 0 {
            Some(DecodeError::InvalidLength)
        } else {
            None
        }
    } else if a.len() == 0 {
        Some(DecodeError::InvalidLength)
    } else {
        match field_error(fields[0].1, a[0]) {
            Some(e) => Some(e),
            None => arr_error(a.drop_first(), fields.drop_first()),
        }
    }
}

/// No field found yet.
pub open spec fn none_seen(n: nat) -> Seq<Option<JsonValue>> {
    Seq::new(n, |i: int| None::<JsonValue>)
}

/// The error of a result, if any.
pub open spec fn error_of<T>(r: Result<T, DecodeError>) -> Option<DecodeError> {
    match r {
        Ok(_) => None,
        Err(e) => Some(e),
    }
}

/// The values found, with `null` for the fields that were missing.
pub open spec fn unwrap_all(seen: Seq<Option<JsonValue>>) -> Seq<JsonValue> {
    seen.map_values(
        |o: Option<JsonValue>|
            match o {
                Some(x) => x,
                None => JsonValue::Null,
            },
    )
}

/// The values of a record's fields, in the order of `fields`.
pub open spec fn spec_record(v: JsonValue, fields: Seq<(&'static str, FieldType)>) -> Result<
    Seq<JsonValue>,
    DecodeError,
>
    decreases v, 1int,
{
    match v {
        JsonValue::Object(es) => match obj_scan(es@, fields, none_seen(fields.len())) {
            Err(e) => Err(e),
            Ok(seen) => match first_missing(fields, seen) {
                Some(name) => Err(DecodeError::MissingField(name)),
                None => Ok(unwrap_all(seen)),
            },
        },
        JsonValue::Array(a) => match arr_error(a@, fields) {
            Some(e) => Err(e),
            None => Ok(a@),
        },
        _ => Err(DecodeError::InvalidType),
    }
}

// The values of fields that passed their checks.

pub open spec fn u64_value(v: JsonValue) -> u64 {
    spec_u64(v)->Ok_0
}

pub open spec fn str_value(v: JsonValue) -> String {
    v->String_0
}

pub open spec fn bool_value(v: JsonValue) -> bool {
    v->Bool_0
}

pub open spec fn indices_value(v: JsonValue) -> (u64, u64) {
    (u64_value(v->Array_0@[0]), u64_value(v->Array_0@[1]))
}

/// A date as seconds since the Unix epoch.
pub open spec fn date_value(v: JsonValue) -> i64 {
    parsed_utc_timestamp(v->String_0@, TWITTER_DATE_FORMAT@)->Some_0
}

pub open spec fn opt_u64_value(v: JsonValue) -> Option<u64> {
    match v {
        JsonValue::Null => None,
        _ => Some(u64_value(v)),
    }
}

pub open spec fn opt_i64_value(v: JsonValue) -> Option<i64> {
    match v {
        JsonValue::Number(JsonNumber::PosInt(n)) => Some(n as i64),
        JsonValue::Number(JsonNumber::NegInt(n)) => Some(n),
        _ => None,
    }
}

pub open spec fn opt_bool_value(v: JsonValue) -> Option<bool> {
    match v {
        JsonValue::Bool(b) => Some(b),
        _ => None,
    }
}

pub open spec fn opt_str_value(v: JsonValue) -> Option<String> {
    match v {
        JsonValue::String(s) => Some(s),
        _ => None,
    }
}

/// The text of a string that may be `null` (the empty text).
pub open spec fn nullable_str_text(v: JsonValue) -> Seq<char> {
    match v {
        JsonValue::String(s) => s@,
        _ => Seq::empty(),
    }
}

pub(crate) fn read_u64(v: &JsonValue) -> (r: u64)
    requires
        value_ok(FieldType::U64, *v),
    ensures
        r == u64_value(*v),
{
    match v {
        JsonValue::Number(JsonNumber::PosInt(n)) => *n,
        _ => 0,
    }
}

pub(crate) fn read_str(v: &JsonValue) -> (r: String)
    requires
        value_ok(FieldType::Str, *v),
    ensures
        r == str_value(*v),
{
    match v {
        JsonValue::String(s) => s.clone(),
        _ => String::new(),
    }
}

pub(crate) fn read_bool(v: &JsonValue) -> (r: bool)
    requires
        value_ok(FieldType::Bool, *v),
    ensures
        r == bool_value(*v),
{
    match v {
        JsonValue::Bool(b) => *b,
        _ => false,
    }
}

pub(crate) fn read_indices(v: &JsonValue) -> (r: (u64, u64))
    requires
        value_ok(FieldType::Indices, *v),
    ensures
        r == indices_value(*v),
{
    match v {
        JsonValue::Array(a) => (read_u64(&a[0]), read_u64(&a[1])),
        _ => (0, 0),
    }
}

pub(crate) fn read_date(v: &JsonValue) -> (r: i64)
    requires
        value_ok(FieldType::DateTime, *v),
    ensures
        r == date_value(*v),
{
    match v {
        JsonValue::String(s) => match parse_datetime(s.as_str()) {
            Ok(t) => t,
            Err(_) => 0,
        },
        _ => 0,
    }
}

pub(crate) fn read_opt_u64(v: &JsonValue) -> (r: Option<u64>)
    requires
        value_ok(FieldType::OptU64, *v),
    ensures
        r == opt_u64_value(*v),
{
    match v {
        JsonValue::Number(JsonNumber::PosInt(n)) => Some(*n),
        _ => None,
    }
}

pub(crate) fn read_opt_i64(v: &JsonValue) -> (r: Option<i64>)
    requires
        value_ok(FieldType::OptI64, *v),
    ensures
        r == opt_i64_value(*v),
{
    match v {
        JsonValue::Number(JsonNumber::PosInt(n)) => Some(*n as i64),
        JsonValue::Number(JsonNumber::NegInt(n)) => Some(*n),
        _ => None,
    }
}

pub(crate) fn read_opt_bool(v: &JsonValue) -> (r: Option<bool>)
    ensures
        r == opt_bool_value(*v),
{
    match v {
        JsonValue::Bool(b) => Some(*b),
        _ => None,
    }
}

pub(crate) fn read_opt_str(v: &JsonValue) -> (r: Option<String>)
    ensures
        r == opt_str_value(*v),
{
    match v {
        JsonValue::String(s) => Some(s.clone()),
        _ => None,
    }
}

pub(crate) fn read_nullable_str(v: &JsonValue) -> (r: String)
    ensures
        r@ == nullable_str_text(*v),
{
    match v {
        JsonValue::String(s) => s.clone(),
        _ => String::new(),
    }
}

/// Whether `v` reads as a value of type `t`, and the error if not.
pub fn check_field(t: FieldType, v: &JsonValue) -> (r: Option<DecodeError>)
    ensures
        r == field_error(t, *v),
    decreases *v, 2int, 0int,
{
    match t {
        FieldType::U64 | FieldType::DisconnectCode => match v {
            JsonValue::Number(JsonNumber::PosInt(n)) => {
                if matches!(t, FieldType::DisconnectCode) && !(1 <= *n && *n <= 12 && *n != 8) {
                    Some(DecodeError::InvalidValue)
                } else {
                    None
                }
            },
            JsonValue::Number(JsonNumber::NegInt(_)) => Some(DecodeError::InvalidValue),
            _ => Some(DecodeError::InvalidType),
        },
        FieldType::Str => match v {
            JsonValue::String(_) => None,
            _ => Some(DecodeError::InvalidType),
        },
        FieldType::StrList | FieldType::DefaultStrList => match v {
            JsonValue::Array(a) => {
                let mut i: usize = 0;
                proof {
                    assert(a@.skip(0) =~= a@);
                }
                while i < a.len()
                    invariant
                        *v == JsonValue::Array(*a),
                        t == FieldType::StrList || t == FieldType::DefaultStrList,
                        i <= a@.len(),
                        error_of(spec_string_seq(a@)) == error_of(spec_string_seq(a@.skip(i as int))),
                    decreases a@.len() - i,
                {
                    proof {
                        assert(a@.skip(i as int).drop_first() =~= a@.skip(i + 1));
                        assert(a@.skip(i as int)[0] == a@[i as int]);
                    }
                    match &a[i] {
                        JsonValue::String(_) => {},
                        _ => {
                            return Some(DecodeError::InvalidType);
                        },
                    }
                    i = i + 1;
                }
                proof {
                    assert(a@.skip(i as int) =~= Seq::<JsonValue>::empty());
                }
                None
            },
            _ => Some(DecodeError::InvalidType),
        },
        FieldType::Bool => match v {
            JsonValue::Bool(_) => None,
            _ => Some(DecodeError::InvalidType),
        },
        FieldType::Indices => match v {
            JsonValue::Array(a) => {
                if a.len() == 0 {
                    return Some(DecodeError::InvalidLength);
                }
                if let Err(e) = decode_u64(&a[0]) {
                    return Some(e);
                }
                if a.len() == 1 {
                    return Some(DecodeError::InvalidLength);
                }
                if let Err(e) = decode_u64(&a[1]) {
                    return Some(e);
                }
                if a.len() > 2 {
                    Some(DecodeError::InvalidLength)
                } else {
                    None
                }
            },
            _ => Some(DecodeError::InvalidType),
        },
        FieldType::DateTime => match v {
            JsonValue::String(s) => match parse_datetime(s.as_str()) {
                Ok(_) => None,
                Err(_) => Some(DecodeError::InvalidDate),
            },
            _ => Some(DecodeError::InvalidType),
        },
        FieldType::OptU64 => match v {
            JsonValue::Null => None,
            _ => match decode_u64(v) {
                Ok(_) => None,
                Err(e) => Some(e),
            },
        },
        FieldType::OptI64 => match v {
            JsonValue::Null => None,
            JsonValue::Number(JsonNumber::PosInt(n)) => if *n <= 9223372036854775807u64 {
                None
            } else {
                Some(DecodeError::InvalidValue)
            },
            JsonValue::Number(JsonNumber::NegInt(_)) => None,
            _ => Some(DecodeError::InvalidType),
        },
        FieldType::OptBool => match v {
            JsonValue::Null | JsonValue::Bool(_) => None,
            _ => Some(DecodeError::InvalidType),
        },
        FieldType::OptStr | FieldType::NullableStr => match v {
            JsonValue::Null | JsonValue::String(_) => None,
            _ => Some(DecodeError::InvalidType),
        },
        FieldType::SizeRec => record_error(v, &size_fields_vec()),
        FieldType::SizesRec => record_error(v, &sizes_fields_vec()),
        FieldType::HashtagList => match v {
            JsonValue::Array(_) => check_list(v, &hashtag_fields_vec()),
            _ => Some(DecodeError::InvalidType),
        },
        FieldType::SymbolList => match v {
            JsonValue::Array(_) => check_list(v, &symbol_fields_vec()),
            _ => Some(DecodeError::InvalidType),
        },
        FieldType::UrlList => match v {
            JsonValue::Array(_) => check_list(v, &url_fields_vec()),
            _ => Some(DecodeError::InvalidType),
        },
        FieldType::MentionList => match v {
            JsonValue::Array(_) => check_list(v, &user_mention_fields_vec()),
            _ => Some(DecodeError::InvalidType),
        },
        FieldType::OptMediaList => match v {
            JsonValue::Null => None,
            JsonValue::Array(_) => check_list(v, &media_fields_vec()),
            _ => Some(DecodeError::InvalidType),
        },
        FieldType::StrMap => match v {
            JsonValue::Object(es) => {
                let mut i: usize = 0;
                proof {
                    assert(es@.skip(0) =~= es@);
                }
                while i < es.len()
                    invariant
                        *v == JsonValue::Object(*es),
                        t == FieldType::StrMap,
                        i <= es@.len(),
                        str_map_error(es@) == str_map_error(es@.skip(i as int)),
                    decreases es@.len() - i,
                {
                    proof {
                        assert(es@.skip(i as int).drop_first() =~= es@.skip(i + 1));
                        assert(es@.skip(i as int)[0] == es@[i as int]);
                    }
                    match &es[i].1 {
                        JsonValue::String(_) => {},
                        _ => {
                            proof {
                                assert(!(es@.skip(i as int)[0].1 is String));
                                assert(str_map_error(es@.skip(i as int)) == Some(
                                    DecodeError::InvalidType,
                                ));
                            }
                            return Some(DecodeError::InvalidType);
                        },
                    }
                    i = i + 1;
                }
                proof {
                    assert(es@.skip(i as int) =~= Seq::<(String, JsonValue)>::empty());
                }
                None
            },
            _ => Some(DecodeError::InvalidType),
        },
        FieldType::GeometryRec => match Geometry::from_json(v) {
            Ok(_) => None,
            Err(e) => Some(e),
        },
        FieldType::OptGeometry => match v {
            JsonValue::Null => None,
            _ => match Geometry::from_json(v) {
                Ok(_) => None,
                Err(e) => Some(e),
            },
        },
        FieldType::UserRec => record_error(v, &user_fields_vec()),
        FieldType::EntitiesRec => record_error(v, &entities_fields_vec()),
        FieldType::OptPlace => match v {
            JsonValue::Null => None,
            _ => record_error(v, &place_fields_vec()),
        },
        FieldType::CurRetweet => match current_user_retweet(v) {
            Ok(_) => None,
            Err(e) => Some(e),
        },
        FieldType::DefaultBool => match v {
            JsonValue::Bool(_) => None,
            _ => Some(DecodeError::InvalidType),
        },
        FieldType::OptTweet => match v {
            JsonValue::Null => None,
            _ => record_error(v, &tweet_fields_vec()),
        },
        FieldType::OptObject => match v {
            JsonValue::Null | JsonValue::Object(_) => None,
            _ => Some(DecodeError::InvalidType),
        },
    }
}

/// The error, if any, of reading `v` as a record.
fn record_error(v: &JsonValue, fields: &Vec<(&'static str, FieldType)>) -> (r: Option<DecodeError>)
    ensures
        r == error_of(spec_record(*v, fields@)),
    decreases *v, 1int, 1int,
{
    let null = JsonValue::Null;
    match decode_record(v, fields, &null) {
        Ok(_) => None,
        Err(e) => Some(e),
    }
}

/// The error, if any, of reading each element of an array as a record.
fn check_list(v: &JsonValue, fields: &Vec<(&'static str, FieldType)>) -> (r: Option<DecodeError>)
    requires
        v is Array,
    ensures
        r == list_error(v->Array_0@, fields@),
    decreases *v, 1int, 0int,
{
    match v {
        JsonValue::Array(a) => {
            let mut i: usize = 0;
            proof {
                assert(a@.skip(0) =~= a@);
            }
            while i < a.len()
                invariant
                    *v == JsonValue::Array(*a),
                    i <= a@.len(),
                    list_error(a@, fields@) == list_error(a@.skip(i as int), fields@),
                decreases a@.len() - i,
            {
                proof {
                    assert(a@.skip(i as int).drop_first() =~= a@.skip(i + 1));
                    assert(a@.skip(i as int)[0] == a@[i as int]);
                    assert(decreases_to!(*v => a@[i as int]));
                }
                if let Some(e) = record_error(&a[i], fields) {
                    return Some(e);
                }
                i = i + 1;
            }
            proof {
                assert(a@.skip(i as int) =~= Seq::<JsonValue>::empty());
            }
            None
        },
        _ => None,
    }
}

/// Whether a field of type `t` may be missing.
fn optional(t: FieldType) -> (r: bool)
    ensures
        r == is_optional(t),
{
    match t {
        FieldType::OptU64 | FieldType::OptI64 | FieldType::OptBool | FieldType::OptStr
        | FieldType::NullableStr | FieldType::OptMediaList | FieldType::OptGeometry
        | FieldType::OptPlace | FieldType::CurRetweet | FieldType::DefaultBool
        | FieldType::DefaultStrList | FieldType::OptTweet | FieldType::OptObject => true,
        _ => false,
    }
}

/// The index of the field named `k`.
fn find_field(fields: &Vec<(&'static str, FieldType)>, k: &str) -> (r: Option<usize>)
    ensures
        field_index(fields@, k@) < 0 ==> r is None,
        field_index(fields@, k@) >= 0 ==> r == Some(field_index(fields@, k@) as usize),
        field_index(fields@, k@) < fields@.len(),
{
    let mut i: usize = 0;
    proof {
        assert(fields@.skip(0) =~= fields@);
        lemma_field_index_range(fields@, k@);
    }
    while i < fields.len()
        invariant
            i <= fields@.len(),
            field_index(fields@, k@) == (if field_index(fields@.skip(i as int), k@) < 0 {
                -1
            } else {
                field_index(fields@.skip(i as int), k@) + i
            }),
            -1 <= field_index(fields@.skip(i as int), k@) < fields@.len() - i,
        decreases fields@.len() - i,
    {
        proof {
            assert(fields@.skip(i as int).drop_first() =~= fields@.skip(i + 1));
            assert(fields@.skip(i as int)[0] == fields@[i as int]);
            lemma_field_index_range(fields@.skip(i + 1), k@);
        }
        if str_eq(fields[i].0, k) {
            return Some(i);
        }
        i = i + 1;
    }
    proof {
        assert(fields@.skip(i as int) =~= Seq::<(&'static str, FieldType)>::empty());
    }
    None
}

proof fn lemma_field_index_range(fields: Seq<(&'static str, FieldType)>, k: Seq<char>)
    ensures
        -1 <= field_index(fields, k) < fields.len(),
        field_index(fields, k) >= 0 ==> fields[field_index(fields, k)].0@ == k,
        field_index(fields, k) < 0 ==> forall|i: int| 0 <= i < fields.len() ==> #[trigger] fields[i].0@ != k,
    decreases fields.len(),
{
    if fields.len() > 0 {
        lemma_field_index_range(fields.drop_first(), k);
        if field_index(fields, k) < 0 {
            assert forall|i: int| 0 <= i < fields.len() implies #[trigger] fields[i].0@ != k by {
                if i > 0 {
                    assert(fields[i] == fields.drop_first()[i - 1]);
                }
            }
        }
    }
}

/// No two fields have the same name.
pub open spec fn names_distinct(fields: Seq<(&'static str, FieldType)>) -> bool {
    forall|i: int, j: int|
        0 <= i < j < fields.len() ==> #[trigger] fields[i].0@ != #[trigger] fields[j].0@
}

/// Where names are distinct, a field's name leads to that field.
proof fn lemma_field_index_of_name(fields: Seq<(&'static str, FieldType)>, q: int)
    requires
        names_distinct(fields),
        0 <= q < fields.len(),
    ensures
        field_index(fields, fields[q].0@) == q,
    decreases q,
{
    if q > 0 {
        let rest = fields.drop_first();
        assert(fields[0].0@ != fields[q].0@);
        assert(rest[q - 1] == fields[q]);
        assert forall|i: int, j: int| 0 <= i < j < rest.len() implies #[trigger] rest[i].0@
            != #[trigger] rest[j].0@ by {
            assert(rest[i] == fields[i + 1]);
            assert(rest[j] == fields[j + 1]);
        }
        lemma_field_index_of_name(rest, q - 1);
    }
}

/// The value of the first member named `name`, if any.
pub open spec fn member_named(es: Seq<(String, JsonValue)>, name: Seq<char>) -> Option<JsonValue>
    decreases es.len(),
{
    if es.len() == 0 {
        None
    } else if es[0].0@ == name {
        Some(es[0].1)
    } else {
        member_named(es.drop_first(), name)
    }
}

/// The member of `v` named `name`, or `null` where `v` has none.
pub open spec fn member_or_null(v: JsonValue, name: Seq<char>) -> JsonValue {
    match v {
        JsonValue::Object(es) => match member_named(es@, name) {
            Some(x) => x,
            None => JsonValue::Null,
        },
        _ => JsonValue::Null,
    }
}

/// Scanning the members finds for a field the member of its name (and fails on a second one).
proof fn lemma_obj_scan_by_name(
    es: Seq<(String, JsonValue)>,
    fields: Seq<(&'static str, FieldType)>,
    seen: Seq<Option<JsonValue>>,
    q: int,
)
    requires
        seen.len() == fields.len(),
        0 <= q < fields.len(),
        field_index(fields, fields[q].0@) == q,
    ensures
        obj_scan(es, fields, seen) matches Ok(fin) ==> fin.len() == fields.len() && fin[q] == (
        match seen[q] {
            Some(x) => Some(x),
            None => member_named(es, fields[q].0@),
        }),
    decreases es.len(),
{
    if es.len() > 0 {
        let k = es[0].0@;
        lemma_field_index_range(fields, k);
        let f = field_index(fields, k);
        if f < 0 {
            assert(k != fields[q].0@);
            lemma_obj_scan_by_name(es.drop_first(), fields, seen, q);
        } else if seen[f] is None {
            if field_error(fields[f].1, es[0].1) is None {
                let s2 = seen.update(f, Some(es[0].1));
                if f != q {
                    assert(k != fields[q].0@);
                    assert(s2[q] == seen[q]);
                }
                lemma_obj_scan_by_name(es.drop_first(), fields, s2, q);
            }
        }
    }
}

/// A record read from an object takes each of its fields from the member of the field's
/// name, whatever the order of the members, and `null` for an optional field that the object
/// does not have.
pub proof fn record_fields_come_from_their_members(
    v: JsonValue,
    fields: Seq<(&'static str, FieldType)>,
)
    requires
        v is Object,
        names_distinct(fields),
    ensures
        spec_record(v, fields) matches Ok(vals) ==> vals.len() == fields.len() && forall|q: int|
            0 <= q < fields.len() ==> #[trigger] vals[q] == member_or_null(v, fields[q].0@),
{
    let es = v->Object_0@;
    let init = none_seen(fields.len());
    if obj_scan(es, fields, init) is Ok {
        let fin = obj_scan(es, fields, init)->Ok_0;
        assert forall|q: int| 0 <= q < fields.len() implies #[trigger] unwrap_all(fin)[q]
            == member_or_null(v, fields[q].0@) by {
            lemma_field_index_of_name(fields, q);
            lemma_obj_scan_by_name(es, fields, init, q);
        }
        lemma_obj_scan_ok(es, fields, init);
    }
}

/// Reads a record: the values of its fields, in the order of `fields`, with `null` (the value
/// that `null` refers to) for the optional fields that are missing.
pub fn decode_record<'a>(
    v: &'a JsonValue,
    fields: &Vec<(&'static str, FieldType)>,
    null: &'a JsonValue,
) -> (r: Result<Vec<&'a JsonValue>, DecodeError>)
    requires
        *null == JsonValue::Null,
    ensures
        match spec_record(*v, fields@) {
            Ok(vals) => r matches Ok(out) && out@.len() == vals.len() && forall|i: int|
                0 <= i < vals.len() ==> *out@[i] == vals[i],
            Err(e) => r matches Err(e2) && e2 == e,
        },
        r matches Ok(out) ==> forall|i: int|
            0 <= i < out@.len() ==> (#[trigger] out@[i] is Null || decreases_to!(*v => *out@[i])),
    decreases *v, 1int, 0int,
{
    let n = fields.len();
    match v {
        JsonValue::Object(es) => {
            let mut seen: Vec<Option<usize>> = Vec::new();
            let mut j: usize = 0;
            while j < n
                invariant
                    j <= n,
                    n == fields@.len(),
                    seen@.len() == j,
                    forall|q: int| 0 <= q < j ==> seen@[q] is None,
                decreases n - j,
            {
                seen.push(None);
                j = j + 1;
            }
            let ghost init = none_seen(fields@.len());
            let ghost model = init;
            let mut i: usize = 0;
            proof {
                assert(es@.skip(0) =~= es@);
            }
            while i < es.len()
                invariant
                    *v == JsonValue::Object(*es),
                    n == fields@.len(),
                    i <= es@.len(),
                    seen@.len() == n,
                    model.len() == n,
                    forall|q: int|
                        0 <= q < n ==> (#[trigger] seen@[q] is None <==> model[q] is None),
                    forall|q: int|
                        0 <= q < n && seen@[q] is Some ==> seen@[q]->Some_0 < es@.len()
                            && #[trigger] model[q] == Some(es@[seen@[q]->Some_0 as int].1),
                    obj_scan(es@, fields@, init) == obj_scan(es@.skip(i as int), fields@, model),
                    init == none_seen(fields@.len()),
                decreases es@.len() - i,
            {
                proof {
                    assert(es@.skip(i as int).drop_first() =~= es@.skip(i + 1));
                    assert(es@.skip(i as int)[0] == es@[i as int]);
                }
                let (k, val) = &es[i];
                match find_field(fields, k.as_str()) {
                    None => {},
                    Some(f) => {
                        if seen[f].is_some() {
                            proof {
                                assert(model[f as int] is Some);
                                assert(obj_scan(es@.skip(i as int), fields@, model) == Err::<
                                    Seq<Option<JsonValue>>,
                                    DecodeError,
                                >(DecodeError::DuplicateField(fields@[f as int].0)));
                            }
                            return Err(DecodeError::DuplicateField(fields[f].0));
                        }
                        proof {
                            assert(decreases_to!(*v => es@[i as int].1));
                        }
                        match check_field(fields[f].1, val) {
                            Some(e) => {
                                proof {
                                    assert(model[f as int] is None);
                                    assert(obj_scan(es@.skip(i as int), fields@, model) == Err::<
                                        Seq<Option<JsonValue>>,
                                        DecodeError,
                                    >(e));
                                }
                                return Err(e);
                            },
                            None => {
                                seen.set(f, Some(i));
                                proof {
                                    model = model.update(f as int, Some(es@[i as int].1));
                                }
                            },
                        }
                    },
                }
                i = i + 1;
            }
            proof {
                assert(es@.skip(i as int) =~= Seq::<(String, JsonValue)>::empty());
            }
            let mut out: Vec<&'a JsonValue> = Vec::new();
            let mut q: usize = 0;
            proof {
                assert(fields@.skip(0) =~= fields@);
                assert(model.skip(0) =~= model);
            }
            while q < n
                invariant
                    *v == JsonValue::Object(*es),
                    obj_scan(es@, fields@, init) == Ok::<Seq<Option<JsonValue>>, DecodeError>(model),
                    init == none_seen(fields@.len()),
                    n == fields@.len(),
                    q <= n,
                    seen@.len() == n,
                    model.len() == n,
                    forall|p: int|
                        0 <= p < n ==> (#[trigger] seen@[p] is None <==> model[p] is None),
                    forall|p: int|
                        0 <= p < n && seen@[p] is Some ==> seen@[p]->Some_0 < es@.len()
                            && #[trigger] model[p] == Some(es@[seen@[p]->Some_0 as int].1),
                    first_missing(fields@, model) == first_missing(
                        fields@.skip(q as int),
                        model.skip(q as int),
                    ),
                    out@.len() == q,
                    *null == JsonValue::Null,
                    forall|p: int| 0 <= p < q ==> *out@[p] == unwrap_all(model)[p],
                    forall|p: int|
                        0 <= p < q ==> (#[trigger] out@[p] is Null || decreases_to!(*v => *out@[p])),
                decreases n - q,
            {
                proof {
                    assert(fields@.skip(q as int).drop_first() =~= fields@.skip(q + 1));
                    assert(model.skip(q as int).drop_first() =~= model.skip(q + 1));
                    assert(fields@.skip(q as int)[0] == fields@[q as int]);
                    assert(model.skip(q as int)[0] == model[q as int]);
                }
                match seen[q] {
                    None => {
                        proof {
                            assert(model[q as int] is None);
                        }
                        if !optional(fields[q].1) {
                            proof {
                                assert(first_missing(fields@, model) == Some(fields@[q as int].0));
                            }
                            return Err(DecodeError::MissingField(fields[q].0));
                        }
                        out.push(null);
                    },
                    Some(idx) => {
                        proof {
                            assert(decreases_to!(*v => (*v)->Object_0));
                            assert(decreases_to!(es@[idx as int] => es@[idx as int].1));
                        }
                        out.push(&es[idx].1);
                    },
                }
                q = q + 1;
            }
            proof {
                assert(fields@.skip(q as int) =~= Seq::<(&'static str, FieldType)>::empty());

            }
            Ok(out)
        },
        JsonValue::Array(a) => {
            let mut out: Vec<&'a JsonValue> = Vec::new();
            let mut q: usize = 0;
            proof {
                assert(a@.skip(0) =~= a@);
                assert(fields@.skip(0) =~= fields@);
            }
            while q < n
                invariant
                    *v == JsonValue::Array(*a),
                    n == fields@.len(),
                    q <= n,
                    arr_error(a@, fields@) == arr_error(a@.skip(q as int), fields@.skip(q as int)),
                    q <= a@.len(),
                    out@.len() == q,
                    forall|p: int| 0 <= p < q ==> *out@[p] == a@[p],
                    forall|p: int|
                        0 <= p < q ==> (#[trigger] out@[p] is Null || decreases_to!(*v => *out@[p])),
                decreases n - q,
            {
                proof {
                    assert(fields@.skip(q as int).drop_first() =~= fields@.skip(q + 1));
                    assert(fields@.skip(q as int)[0] == fields@[q as int]);
                }
                if q >= a.len() {
                    return Err(DecodeError::InvalidLength);
                }
                proof {
                    assert(a@.skip(q as int).drop_first() =~= a@.skip(q + 1));
                    assert(a@.skip(q as int)[0] == a@[q as int]);
                }
                proof {
                    assert(decreases_to!(*v => a@[q as int]));
                }
                match check_field(fields[q].1, &a[q]) {
                    Some(e) => {
                        return Err(e);
                    },
                    None => {
                        out.push(&a[q]);
                    },
                }
                q = q + 1;
            }
            proof {
                assert(fields@.skip(q as int) =~= Seq::<(&'static str, FieldType)>::empty());
            }
            if a.len() > n {
                return Err(DecodeError::InvalidLength);
            }
            proof {
                assert(a@.skip(q as int) =~= Seq::<JsonValue>::empty());
            }
            Ok(out)
        },
        _ => Err(DecodeError::InvalidType),
    }
}

/// Found values pass their field's check, and scanning keeps that so.
proof fn lemma_obj_scan_ok(
    es: Seq<(String, JsonValue)>,
    fields: Seq<(&'static str, FieldType)>,
    seen: Seq<Option<JsonValue>>,
)
    requires
        seen.len() == fields.len(),
        forall|q: int|
            0 <= q < seen.len() && #[trigger] seen[q] is Some ==> field_error(
                fields[q].1,
                seen[q]->Some_0,
            ) is None,
    ensures
        obj_scan(es, fields, seen) matches Ok(fin) ==> fin.len() == fields.len() && forall|q: int|
            0 <= q < fin.len() && #[trigger] fin[q] is Some ==> field_error(
                fields[q].1,
                fin[q]->Some_0,
            ) is None,
    decreases es.len(),
{
    if es.len() > 0 {
        lemma_field_index_range(fields, es[0].0@);
        let f = field_index(fields, es[0].0@);
        if f < 0 {
            lemma_obj_scan_ok(es.drop_first(), fields, seen);
        } else if seen[f] is None {
            if field_error(fields[f].1, es[0].1) is None {
                let s2 = seen.update(f, Some(es[0].1));
                assert forall|q: int| 0 <= q < s2.len() && #[trigger] s2[q] is Some implies field_error(
                    fields[q].1,
                    s2[q]->Some_0,
                ) is None by {
                    if q != f {
                        assert(s2[q] == seen[q]);
                    }
                }
                lemma_obj_scan_ok(es.drop_first(), fields, s2);
            }
        }
    }
}

/// When no field is missing, every field that is not optional was found.
proof fn lemma_first_missing_none(fields: Seq<(&'static str, FieldType)>, seen: Seq<Option<JsonValue>>)
    requires
        seen.len() == fields.len(),
        first_missing(fields, seen) is None,
    ensures
        forall|q: int| 0 <= q < seen.len() ==> #[trigger] seen[q] is Some || is_optional(fields[q].1),
    decreases fields.len(),
{
    if fields.len() > 0 {
        lemma_first_missing_none(fields.drop_first(), seen.drop_first());
        assert forall|q: int| 0 <= q < seen.len() implies #[trigger] seen[q] is Some || is_optional(
            fields[q].1,
        ) by {
            if q > 0 {
                assert(seen[q] == seen.drop_first()[q - 1]);
                assert(fields[q] == fields.drop_first()[q - 1]);
            }
        }
    }
}

/// An array without errors has one value per field, each passing its field's check.
proof fn lemma_arr_ok(a: Seq<JsonValue>, fields: Seq<(&'static str, FieldType)>)
    requires
        arr_error(a, fields) is None,
    ensures
        a.len() == fields.len(),
        forall|q: int| 0 <= q < a.len() ==> field_error(fields[q].1, #[trigger] a[q]) is None,
    decreases fields.len(),
{
    if fields.len() > 0 {
        lemma_arr_ok(a.drop_first(), fields.drop_first());
        assert forall|q: int| 0 <= q < a.len() implies field_error(fields[q].1, #[trigger] a[q]) is None by {
            if q > 0 {
                assert(a[q] == a.drop_first()[q - 1]);
                assert(fields[q] == fields.drop_first()[q - 1]);
            }
        }
    }
}

/// When a list has no error, each of its elements reads as a record.
pub proof fn lemma_list_ok(a: Seq<JsonValue>, fields: Seq<(&'static str, FieldType)>)
    requires
        list_error(a, fields) is None,
    ensures
        forall|i: int| 0 <= i < a.len() ==> #[trigger] spec_record(a[i], fields) is Ok,
    decreases a.len(),
{
    if a.len() > 0 {
        lemma_list_ok(a.drop_first(), fields);
        assert forall|i: int| 0 <= i < a.len() implies #[trigger] spec_record(a[i], fields) is Ok by {
            if i > 0 {
                assert(a[i] == a.drop_first()[i - 1]);
            }
        }
    }
}

/// The values of a record pass their fields' checks.
pub proof fn lemma_record_ok(v: JsonValue, fields: Seq<(&'static str, FieldType)>)
    ensures
        spec_record(v, fields) matches Ok(vals) ==> vals.len() == fields.len() && forall|q: int|
            0 <= q < vals.len() ==> value_ok(fields[q].1, #[trigger] vals[q]),
{
    match v {
        JsonValue::Object(es) => {
            let init = none_seen(fields.len());
            lemma_obj_scan_ok(es@, fields, init);
            match obj_scan(es@, fields, init) {
                Ok(seen) => {
                    if first_missing(fields, seen) is None {
                        lemma_first_missing_none(fields, seen);
                        let vals = unwrap_all(seen);
                        assert forall|q: int| 0 <= q < vals.len() implies value_ok(
                            fields[q].1,
                            #[trigger] vals[q],
                        ) by {
                            assert(seen[q] is Some || is_optional(fields[q].1));
                        }
                    }
                },
                Err(_) => {},
            }
        },
        JsonValue::Array(a) => {
            if arr_error(a@, fields) is None {
                lemma_arr_ok(a@, fields);
                assert forall|q: int| 0 <= q < a@.len() implies value_ok(fields[q].1, #[trigger] a@[q]) by {
                    assert(field_error(fields[q].1, a@[q]) is None);
                }
            }
        },
        _ => {},
    }
}

} // verus!
