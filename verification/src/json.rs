//! A model of JSON values, and the reading of their basic parts.
//!
//! Messages are decoded from a [`JsonValue`] that keeps the members of each object in the
//! order in which they were written, so that decoders that look at members in order behave
//! exactly as they would on the JSON text.

use vstd::prelude::*;

verus! {

/// A JSON number, as it was written: a non-negative integer, a negative integer, or any other
/// number, kept as its decimal text.
#[derive(Debug)]
pub enum JsonNumber {
    PosInt(u64),
    NegInt(i64),
    Float(String),
}

/// A JSON value. The members of an object are kept in the order in which they were written.
#[derive(Debug)]
pub enum JsonValue {
    Null,
    Bool(bool),
    Number(JsonNumber),
    String(String),
    Array(Vec<JsonValue>),
    Object(Vec<(String, JsonValue)>),
}

/// Why a JSON value could not be decoded.
#[derive(Debug, Clone, Copy, PartialEq, Eq)]
pub enum DecodeError {
    /// The value has a type (string, number, array, ...) that the field does not take.
    InvalidType,
    /// A number is out of the range of the field.
    InvalidValue,
    /// An array has fewer or more elements than expected.
    InvalidLength,
    /// A tag names no known variant.
    UnknownVariant,
    /// A required member is missing.
    MissingField(&'static str),
    /// A member appears twice.
    DuplicateField(&'static str),
    /// The coordinates of a geometry do not have the shape that its type requires.
    InvalidCoordinates,
    /// A string is not a date in the format of the API.
    InvalidDate,
}

impl JsonNumber {
    /// A copy of the number.
    pub fn copy(&self) -> (r: JsonNumber)
        ensures
            r == *self,
    {
        match self {
            JsonNumber::PosInt(n) => JsonNumber::PosInt(*n),
            JsonNumber::NegInt(n) => JsonNumber::NegInt(*n),
            JsonNumber::Float(s) => JsonNumber::Float(s.clone()),
        }
    }
}

/// Whether two strings hold the same characters.
pub fn str_eq(a: &str, b: &str) -> (r: bool)
    ensures
        r == (a@ == b@),
{
    let ab = a.as_bytes();
    let bb = b.as_bytes();
    proof {
        vstd::utf8::encode_utf8_decode_utf8(a@);
        vstd::utf8::encode_utf8_decode_utf8(b@);
    }
    if ab.len() != bb.len() {
        proof {
            assert(ab@.len() != bb@.len());
        }
        return false;
    }
    let n = ab.len();
    let mut i: usize = 0;
    while i < n
        invariant
            ab@ == vstd::utf8::encode_utf8(a@),
            bb@ == vstd::utf8::encode_utf8(b@),
            n == ab@.len(),
            n == bb@.len(),
            i <= n,
            forall|j: int| 0 <= j < i ==> ab@[j] == bb@[j],
        decreases n - i,
    {
        if ab[i] != bb[i] {
            proof {
                assert(ab@ != bb@);
            }
            return false;
        }
        i = i + 1;
    }
    proof {
        assert(ab@ =~= bb@);
    }
    true
}

/// A JSON value read as an unsigned integer.
pub open spec fn spec_u64(v: JsonValue) -> Result<u64, DecodeError> {
    match v {
        JsonValue::Number(JsonNumber::PosInt(n)) => Ok(n),
        JsonValue::Number(JsonNumber::NegInt(_)) => Err(DecodeError::InvalidValue),
        _ => Err(DecodeError::InvalidType),
    }
}

/// Reads an unsigned integer.
pub fn decode_u64(v: &JsonValue) -> (r: Result<u64, DecodeError>)
    ensures
        r == spec_u64(*v),
{
    match v {
        JsonValue::Number(JsonNumber::PosInt(n)) => Ok(*n),
        JsonValue::Number(JsonNumber::NegInt(_)) => Err(DecodeError::InvalidValue),
        _ => Err(DecodeError::InvalidType),
    }
}

/// A JSON value read as a string.
pub open spec fn spec_string(v: JsonValue) -> Result<String, DecodeError> {
    match v {
        JsonValue::String(s) => Ok(s),
        _ => Err(DecodeError::InvalidType),
    }
}

/// Reads a string.
pub fn decode_string(v: &JsonValue) -> (r: Result<String, DecodeError>)
    ensures
        r == spec_string(*v),
{
    match v {
        JsonValue::String(s) => Ok(s.clone()),
        _ => Err(DecodeError::InvalidType),
    }
}

/// A JSON value read as any number.
pub open spec fn spec_number(v: JsonValue) -> Result<JsonNumber, DecodeError> {
    match v {
        JsonValue::Number(n) => Ok(n),
        _ => Err(DecodeError::InvalidType),
    }
}

/// Reads any number.
pub fn decode_number(v: &JsonValue) -> (r: Result<JsonNumber, DecodeError>)
    ensures
        r == spec_number(*v),
{
    match v {
        JsonValue::Number(n) => Ok(n.copy()),
        _ => Err(DecodeError::InvalidType),
    }
}

/// The elements of a JSON array, each read as an unsigned integer; the first element that
/// cannot be read decides the error.
pub open spec fn spec_u64_seq(items: Seq<JsonValue>) -> Result<Seq<u64>, DecodeError>
    decreases items.len(),
{
    if items.len() == 0 {
        Ok(Seq::empty())
    } else {
        match spec_u64(items[0]) {
            Err(e) => Err(e),
            Ok(n) => match spec_u64_seq(items.drop_first()) {
                Err(e) => Err(e),
                Ok(rest) => Ok(seq![n] + rest),
            },
        }
    }
}

/// The elements of a JSON array, each read as a string.
pub open spec fn spec_string_seq(items: Seq<JsonValue>) -> Result<Seq<String>, DecodeError>
    decreases items.len(),
{
    if items.len() == 0 {
        Ok(Seq::empty())
    } else {
        match spec_string(items[0]) {
            Err(e) => Err(e),
            Ok(s) => match spec_string_seq(items.drop_first()) {
                Err(e) => Err(e),
                Ok(rest) => Ok(seq![s] + rest),
            },
        }
    }
}

/// Reads an array of unsigned integers.
pub fn decode_u64_vec(v: &JsonValue) -> (r: Result<Vec<u64>, DecodeError>)
    ensures
        match *v {
            JsonValue::Array(a) => match spec_u64_seq(a@) {
                Ok(s) => r matches Ok(out) && out@ == s,
                Err(e) => r == Err::<Vec<u64>, DecodeError>(e),
            },
            _ => r == Err::<Vec<u64>, DecodeError>(DecodeError::InvalidType),
        },
{
    match v {
        JsonValue::Array(a) => {
            let mut out: Vec<u64> = Vec::new();
            let mut i: usize = 0;
            proof {
                assert(a@.skip(0) =~= a@);
                match spec_u64_seq(a@) {
                    Ok(rest) => {
                        assert(out@ + rest =~= rest);
                    },
                    Err(_) => {},
                }
            }
            while i < a.len()
                invariant
                    *v == JsonValue::Array(*a),
                    i <= a@.len(),
                    spec_u64_seq(a@) == (match spec_u64_seq(a@.skip(i as int)) {
                        Err(e) => Err(e),
                        Ok(rest) => Ok(out@ + rest),
                    }),
                decreases a@.len() - i,
            {
                proof {
                    assert(a@.skip(i as int).drop_first() =~= a@.skip(i + 1));
                    assert(a@.skip(i as int)[0] == a@[i as int]);
                }
                match decode_u64(&a[i]) {
                    Err(e) => {
                        proof {
                            assert(spec_u64_seq(a@.skip(i as int)) == Err::<Seq<u64>, DecodeError>(e));
                            assert(spec_u64_seq(a@) == Err::<Seq<u64>, DecodeError>(e));
                        }
                        return Err(e);
                    },
                    Ok(n) => {
                        proof {
                            match spec_u64_seq(a@.skip(i + 1)) {
                                Err(e) => {},
                                Ok(rest) => {
                                    assert(out@ + (seq![n] + rest) =~= out@.push(n) + rest);
                                },
                            }
                        }
                        out.push(n);
                    },
                }
                i = i + 1;
            }
            proof {
                assert(a@.skip(i as int) =~= Seq::<JsonValue>::empty());
                assert(out@ + Seq::<u64>::empty() =~= out@);
            }
            Ok(out)
        },
        _ => Err(DecodeError::InvalidType),
    }
}

/// Reads an array of strings.
pub fn decode_string_vec(v: &JsonValue) -> (r: Result<Vec<String>, DecodeError>)
    ensures
        match *v {
            JsonValue::Array(a) => match spec_string_seq(a@) {
                Ok(s) => r matches Ok(out) && out@ == s,
                Err(e) => r == Err::<Vec<String>, DecodeError>(e),
            },
            _ => r == Err::<Vec<String>, DecodeError>(DecodeError::InvalidType),
        },
{
    match v {
        JsonValue::Array(a) => {
            let mut out: Vec<String> = Vec::new();
            let mut i: usize = 0;
            proof {
                assert(a@.skip(0) =~= a@);
                match spec_string_seq(a@) {
                    Ok(rest) => {
                        assert(out@ + rest =~= rest);
                    },
                    Err(_) => {},
                }
            }
            while i < a.len()
                invariant
                    *v == JsonValue::Array(*a),
                    i <= a@.len(),
                    spec_string_seq(a@) == (match spec_string_seq(a@.skip(i as int)) {
                        Err(e) => Err(e),
                        Ok(rest) => Ok(out@ + rest),
                    }),
                decreases a@.len() - i,
            {
                proof {
                    assert(a@.skip(i as int).drop_first() =~= a@.skip(i + 1));
                    assert(a@.skip(i as int)[0] == a@[i as int]);
                }
                match decode_string(&a[i]) {
                    Err(e) => {
                        proof {
                            assert(spec_string_seq(a@.skip(i as int)) == Err::<Seq<String>, DecodeError>(e));
                        }
                        return Err(e);
                    },
                    Ok(s) => {
                        proof {
                            match spec_string_seq(a@.skip(i + 1)) {
                                Err(e) => {},
                                Ok(rest) => {
                                    assert(out@ + (seq![s] + rest) =~= out@.push(s) + rest);
                                },
                            }
                        }
                        out.push(s);
                    },
                }
                i = i + 1;
            }
            proof {
                assert(a@.skip(i as int) =~= Seq::<JsonValue>::empty());
                assert(out@ + Seq::<String>::empty() =~= out@);
            }
            Ok(out)
        },
        _ => Err(DecodeError::InvalidType),
    }
}

/// The contents of a [`JsonValue`], with sequences in place of vectors and texts in place of
/// strings.
pub enum JsonView {
    Null,
    Bool(bool),
    Number(JsonNumber),
    String(Seq<char>),
    Array(Seq<JsonView>),
    Object(Seq<(Seq<char>, JsonView)>),
}

pub open spec fn json_view(v: JsonValue) -> JsonView
    decreases v, 1int,
{
    match v {
        JsonValue::Null => JsonView::Null,
        JsonValue::Bool(b) => JsonView::Bool(b),
        JsonValue::Number(n) => JsonView::Number(n),
        JsonValue::String(s) => JsonView::String(s@),
        JsonValue::Array(a) => JsonView::Array(elements_view(a@)),
        JsonValue::Object(es) => JsonView::Object(members_view(es@)),
    }
}

pub open spec fn elements_view(a: Seq<JsonValue>) -> Seq<JsonView>
    decreases a, 0int,
{
    if a.len() == 0 {
        Seq::empty()
    } else {
        elements_view(a.drop_last()).push(json_view(a.last()))
    }
}

pub open spec fn members_view(es: Seq<(String, JsonValue)>) -> Seq<(Seq<char>, JsonView)>
    decreases es, 0int,
{
    if es.len() == 0 {
        Seq::empty()
    } else {
        members_view(es.drop_last()).push((es.last().0@, json_view(es.last().1)))
    }
}

impl JsonValue {
    /// A copy of the value.
    pub fn copy(&self) -> (r: JsonValue)
        ensures
            json_view(r) == json_view(*self),
        decreases *self,
    {
        match self {
            JsonValue::Null => JsonValue::Null,
            JsonValue::Bool(b) => JsonValue::Bool(*b),
            JsonValue::Number(n) => JsonValue::Number(n.copy()),
            JsonValue::String(s) => JsonValue::String(s.clone()),
            JsonValue::Array(a) => {
                let mut out: Vec<JsonValue> = Vec::new();
                let mut i: usize = 0;
                while i < a.len()
                    invariant
                        *self == JsonValue::Array(*a),
                        i <= a@.len(),
                        elements_view(out@) == elements_view(a@.take(i as int)),
                        out@.len() == i,
                    decreases a@.len() - i,
                {
                    proof {
                        assert(decreases_to!(*self => (*self)->Array_0));
                        assert(decreases_to!(*a => a@));
                        assert(decreases_to!(a@ => a@[i as int]));
                    }
                    let x = a[i].copy();
                    let ghost before = out@;
                    out.push(x);
                    proof {
                        assert(out@.drop_last() =~= before);
                        assert(a@.take(i + 1).drop_last() =~= a@.take(i as int));
                        assert(a@.take(i + 1).last() == a@[i as int]);
                    }
                    i = i + 1;
                }
                proof {
                    assert(a@.take(i as int) =~= a@);
                }
                JsonValue::Array(out)
            },
            JsonValue::Object(es) => {
                let mut out: Vec<(String, JsonValue)> = Vec::new();
                let mut i: usize = 0;
                while i < es.len()
                    invariant
                        *self == JsonValue::Object(*es),
                        i <= es@.len(),
                        members_view(out@) == members_view(es@.take(i as int)),
                        out@.len() == i,
                    decreases es@.len() - i,
                {
                    proof {
                        assert(decreases_to!(*self => (*self)->Object_0));
                        assert(decreases_to!(*es => es@));
                        assert(decreases_to!(es@ => es@[i as int]));
                        assert(decreases_to!(es@[i as int] => es@[i as int].1));
                    }
                    let x = es[i].1.copy();
                    let k = es[i].0.clone();
                    let ghost before = out@;
                    out.push((k, x));
                    proof {
                        assert(out@.drop_last() =~= before);
                        assert(es@.take(i + 1).drop_last() =~= es@.take(i as int));
                        assert(es@.take(i + 1).last() == es@[i as int]);
                    }
                    i = i + 1;
                }
                proof {
                    assert(es@.take(i as int) =~= es@);
                }
                JsonValue::Object(out)
            },
        }
    }
}

} // verus!
