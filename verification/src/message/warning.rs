//! Warning messages.

use vstd::prelude::*;

use crate::json::{
    decode_string, decode_u64, spec_string, spec_u64, str_eq, DecodeError, JsonValue,
};

verus! {

/// A warning that the stream is in danger of being disconnected.
#[derive(Clone, Debug, Eq, PartialEq, Hash)]
pub struct Warning {
    pub message: String,
    pub code: WarningCode,
}

/// The kind of a warning, with the figure that comes with it.
#[derive(Clone, Debug, Eq, PartialEq, Hash)]
pub enum WarningCode {
    /// The client is falling behind; the figure is how full the queue is, in percent.
    FallingBehind(u64),
    /// The stream follows more users than allowed; the figure is the user ID.
    FollowsOverLimit(u64),
    /// A code this library does not know.
    Custom(String),
}

/// The `code` member of a warning as sent.
pub enum Code {
    FallingBehind,
    FollowsOverLimit,
    Custom(String),
}

/// What has been read of a warning so far.
pub struct WarnState {
    pub code: Option<Code>,
    pub message: Option<String>,
    pub percent_full: Option<u64>,
    pub user_id: Option<u64>,
}

pub open spec fn spec_code(v: JsonValue) -> Result<Code, DecodeError> {
    match v {
        JsonValue::String(s) => Ok(
            if s@ == "FALLING_BEHIND"@ {
                Code::FallingBehind
            } else if s@ == "FOLLOWS_OVER_LIMIT"@ {
                Code::FollowsOverLimit
            } else {
                Code::Custom(s)
            },
        ),
        _ => Err(DecodeError::InvalidType),
    }
}

/// The codes of a warning are the API's words: a code read from a string is `FallingBehind`
/// exactly when the string is "FALLING_BEHIND", `FollowsOverLimit` exactly when it is
/// "FOLLOWS_OVER_LIMIT", and otherwise a custom code holding the string.
pub proof fn warning_codes_are_the_api_words(s: String)
    ensures
        spec_code(JsonValue::String(s)) matches Ok(Code::FallingBehind) <==> s@ == "FALLING_BEHIND"@,
        spec_code(JsonValue::String(s)) matches Ok(Code::FollowsOverLimit) <==> s@
            == "FOLLOWS_OVER_LIMIT"@,
        spec_code(JsonValue::String(s)) matches Ok(Code::Custom(c)) ==> c == s,
{
    reveal_strlit("FALLING_BEHIND");
    reveal_strlit("FOLLOWS_OVER_LIMIT");
    assert("FALLING_BEHIND"@.len() == 14 && "FOLLOWS_OVER_LIMIT"@.len() == 18);
}

/// Reading one member of a warning.
pub open spec fn warn_step(st: WarnState, k: String, v: JsonValue) -> Result<WarnState, DecodeError> {
    if k@ == "code"@ {
        match spec_code(v) {
            Ok(c) => Ok(WarnState { code: Some(c), ..st }),
            Err(e) => Err(e),
        }
    } else if k@ == "message"@ {
        match spec_string(v) {
            Ok(m) => Ok(WarnState { message: Some(m), ..st }),
            Err(e) => Err(e),
        }
    } else if k@ == "percent_full"@ {
        match spec_u64(v) {
            Ok(p) => Ok(WarnState { percent_full: Some(p), ..st }),
            Err(e) => Err(e),
        }
    } else if k@ == "user_id"@ {
        match spec_u64(v) {
            Ok(u) => Ok(WarnState { user_id: Some(u), ..st }),
            Err(e) => Err(e),
        }
    } else {
        Ok(st)
    }
}

/// The warning, once enough of it has been read.
pub open spec fn warn_ready(st: WarnState) -> Option<Warning> {
    match st.code {
        Some(Code::FallingBehind) => match (st.message, st.percent_full) {
            (Some(m), Some(p)) => Some(Warning { message: m, code: WarningCode::FallingBehind(p) }),
            _ => None,
        },
        Some(Code::FollowsOverLimit) => match (st.message, st.user_id) {
            (Some(m), Some(u)) => Some(Warning { message: m, code: WarningCode::FollowsOverLimit(u) }),
            _ => None,
        },
        Some(Code::Custom(c)) => match st.message {
            Some(m) => Some(Warning { message: m, code: WarningCode::Custom(c) }),
            None => None,
        },
        None => None,
    }
}

/// The member that is missing when the object ends before the warning is complete.
pub open spec fn warn_missing(st: WarnState) -> DecodeError {
    if st.code is None {
        DecodeError::MissingField("code")
    } else if st.message is None {
        DecodeError::MissingField("message")
    } else if st.code matches Some(Code::FallingBehind) {
        DecodeError::MissingField("percent_full")
    } else {
        DecodeError::MissingField("user_id")
    }
}

/// Reads the members in order until the warning is complete.
pub open spec fn warn_scan(es: Seq<(String, JsonValue)>, st: WarnState) -> Result<Warning, DecodeError>
    decreases es.len(),
{
    if es.len() == 0 {
        Err(warn_missing(st))
    } else {
        match warn_step(st, es[0].0, es[0].1) {
            Err(e) => Err(e),
            Ok(st2) => match warn_ready(st2) {
                Some(w) => Ok(w),
                None => warn_scan(es.drop_first(), st2),
            },
        }
    }
}

pub open spec fn empty_warn_state() -> WarnState {
    WarnState { code: None, message: None, percent_full: None, user_id: None }
}

/// The warning that a JSON value denotes: the members are read in order and the warning is
/// complete as soon as its code, its message and the figure that the code calls for are known;
/// the members after that are not looked at.
pub open spec fn spec_warning(v: JsonValue) -> Result<Warning, DecodeError> {
    match v {
        JsonValue::Object(es) => warn_scan(es@, empty_warn_state()),
        _ => Err(DecodeError::InvalidType),
    }
}

fn decode_code(v: &JsonValue) -> (r: Result<Code, DecodeError>)
    ensures
        r == spec_code(*v),
{
    match v {
        JsonValue::String(s) => {
            if str_eq(s.as_str(), "FALLING_BEHIND") {
                Ok(Code::FallingBehind)
            } else if str_eq(s.as_str(), "FOLLOWS_OVER_LIMIT") {
                Ok(Code::FollowsOverLimit)
            } else {
                Ok(Code::Custom(s.clone()))
            }
        },
        _ => Err(DecodeError::InvalidType),
    }
}

fn step(st: WarnState, k: &String, v: &JsonValue) -> (r: Result<WarnState, DecodeError>)
    ensures
        r == warn_step(st, *k, *v),
{
    if str_eq(k.as_str(), "code") {
        match decode_code(v) {
            Ok(c) => Ok(WarnState { code: Some(c), ..st }),
            Err(e) => Err(e),
        }
    } else if str_eq(k.as_str(), "message") {
        match decode_string(v) {
            Ok(m) => Ok(WarnState { message: Some(m), ..st }),
            Err(e) => Err(e),
        }
    } else if str_eq(k.as_str(), "percent_full") {
        match decode_u64(v) {
            Ok(p) => Ok(WarnState { percent_full: Some(p), ..st }),
            Err(e) => Err(e),
        }
    } else if str_eq(k.as_str(), "user_id") {
        match decode_u64(v) {
            Ok(u) => Ok(WarnState { user_id: Some(u), ..st }),
            Err(e) => Err(e),
        }
    } else {
        Ok(st)
    }
}

/// The warning, if complete; otherwise the state is handed back.
fn ready(st: WarnState) -> (r: Result<Warning, WarnState>)
    ensures
        match warn_ready(st) {
            Some(w) => r == Ok::<Warning, WarnState>(w),
            None => r == Err::<Warning, WarnState>(st),
        },
{
    match st {
        WarnState { code: Some(Code::FallingBehind), message: Some(m), percent_full: Some(p), user_id } =>
            Ok(Warning { message: m, code: WarningCode::FallingBehind(p) }),
        WarnState { code: Some(Code::FollowsOverLimit), message: Some(m), percent_full, user_id: Some(u) } =>
            Ok(Warning { message: m, code: WarningCode::FollowsOverLimit(u) }),
        WarnState { code: Some(Code::Custom(c)), message: Some(m), percent_full, user_id } =>
            Ok(Warning { message: m, code: WarningCode::Custom(c) }),
        st => Err(st),
    }
}

fn missing(st: &WarnState) -> (r: DecodeError)
    ensures
        r == warn_missing(*st),
{
    if st.code.is_none() {
        DecodeError::MissingField("code")
    } else if st.message.is_none() {
        DecodeError::MissingField("message")
    } else if matches!(st.code, Some(Code::FallingBehind)) {
        DecodeError::MissingField("percent_full")
    } else {
        DecodeError::MissingField("user_id")
    }
}

impl Warning {
    /// Decodes a warning from the JSON value sent as the `warning` member of a message.
    pub fn from_json(v: &JsonValue) -> (r: Result<Warning, DecodeError>)
        ensures
            r == spec_warning(*v),
    {
        match v {
            JsonValue::Object(es) => {
                let mut st = WarnState { code: None, message: None, percent_full: None, user_id: None };
                let mut i: usize = 0;
                proof {
                    assert(es@.skip(0) =~= es@);
                }
                while i < es.len()
                    invariant
                        *v == JsonValue::Object(*es),
                        i <= es@.len(),
                        spec_warning(*v) == warn_scan(es@.skip(i as int), st),
                    decreases es@.len() - i,
                {
                    proof {
                        assert(es@.skip(i as int).drop_first() =~= es@.skip(i + 1));
                        assert(es@.skip(i as int)[0] == es@[i as int]);
                    }
                    let (k, val) = &es[i];
                    match step(st, k, val) {
                        Err(e) => {
                            return Err(e);
                        },
                        Ok(st2) => match ready(st2) {
                            Ok(w) => {
                                return Ok(w);
                            },
                            Err(st3) => {
                                st = st3;
                            },
                        },
                    }
                    i = i + 1;
                }
                proof {
                    assert(es@.skip(i as int) =~= Seq::<(String, JsonValue)>::empty());
                }
                Err(missing(&st))
            },
            _ => Err(DecodeError::InvalidType),
        }
    }
}

/// Each part known after the first `n` members were read comes from one of them that has the
/// part's name.
spec fn warn_parts_from_members(es: Seq<(String, JsonValue)>, n: int, st: WarnState) -> bool {
    &&& st.code matches Some(c) ==> exists|i: int|
        #![trigger es[i]]
        0 <= i < n && es[i].0@ == "code"@ && spec_code(es[i].1) == Ok::<Code, DecodeError>(c)
    &&& st.message matches Some(m) ==> exists|i: int|
        #![trigger es[i]]
        0 <= i < n && es[i].0@ == "message"@ && spec_string(es[i].1) == Ok::<String, DecodeError>(m)
    &&& st.percent_full matches Some(p) ==> exists|i: int|
        #![trigger es[i]]
        0 <= i < n && es[i].0@ == "percent_full"@ && spec_u64(es[i].1) == Ok::<u64, DecodeError>(p)
    &&& st.user_id matches Some(u) ==> exists|i: int|
        #![trigger es[i]]
        0 <= i < n && es[i].0@ == "user_id"@ && spec_u64(es[i].1) == Ok::<u64, DecodeError>(u)
}

/// Each part of the warning `w` comes from a member of `es` that has the part's name.
pub open spec fn warning_from_members(es: Seq<(String, JsonValue)>, w: Warning) -> bool {
    &&& exists|i: int|
        #![trigger es[i]]
        0 <= i < es.len() && es[i].0@ == "message"@ && spec_string(es[i].1) == Ok::<
            String,
            DecodeError,
        >(w.message)
    &&& match w.code {
        WarningCode::FallingBehind(p) => (exists|i: int|
            #![trigger es[i]]
            0 <= i < es.len() && es[i].0@ == "code"@ && spec_code(es[i].1) == Ok::<Code, DecodeError>(
                Code::FallingBehind,
            )) && (exists|i: int|
            #![trigger es[i]]
            0 <= i < es.len() && es[i].0@ == "percent_full"@ && spec_u64(es[i].1) == Ok::<
                u64,
                DecodeError,
            >(p)),
        WarningCode::FollowsOverLimit(u) => (exists|i: int|
            #![trigger es[i]]
            0 <= i < es.len() && es[i].0@ == "code"@ && spec_code(es[i].1) == Ok::<Code, DecodeError>(
                Code::FollowsOverLimit,
            )) && (exists|i: int|
            #![trigger es[i]]
            0 <= i < es.len() && es[i].0@ == "user_id"@ && spec_u64(es[i].1) == Ok::<u64, DecodeError>(
                u,
            )),
        WarningCode::Custom(c) => exists|i: int|
            #![trigger es[i]]
            0 <= i < es.len() && es[i].0@ == "code"@ && spec_code(es[i].1) == Ok::<Code, DecodeError>(
                Code::Custom(c),
            ),
    }
}

/// Scanning the members keeps each part tied to a member of its name.
proof fn lemma_warn_scan_parts(es: Seq<(String, JsonValue)>, n: int, st: WarnState)
    requires
        0 <= n <= es.len(),
        warn_parts_from_members(es, n, st),
    ensures
        warn_scan(es.skip(n), st) matches Ok(w) ==> warning_from_members(es, w),
    decreases es.len() - n,
{
    if n < es.len() {
        assert(es.skip(n)[0] == es[n]);
        assert(es.skip(n).drop_first() =~= es.skip(n + 1));
        if let Ok(st2) = warn_step(st, es[n].0, es[n].1) {
            assert(warn_parts_from_members(es, n + 1, st2));
            lemma_warn_scan_parts(es, n + 1, st2);
        }
    }
}

/// Each part of a warning comes from a member of its name, whatever the order of the members:
/// its message from a member `message`, its code from a member `code` (`FALLING_BEHIND`,
/// `FOLLOWS_OVER_LIMIT` or another), and the figure of a falling-behind warning from a member
/// `percent_full`, that of a follows-over-limit warning from a member `user_id`.
pub proof fn warning_parts_come_from_their_members(v: JsonValue)
    ensures
        spec_warning(v) matches Ok(w) ==> v is Object && warning_from_members(v->Object_0@, w),
{
    if let JsonValue::Object(es) = v {
        assert(es@.skip(0) =~= es@);
        lemma_warn_scan_parts(es@, 0, empty_warn_state());
    }
}

} // verus!
