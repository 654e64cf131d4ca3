//! The messages of the Streaming API, and how a JSON message is told apart.

use vstd::prelude::*;

use crate::json::{
    decode_string, decode_string_vec, decode_u64, decode_u64_vec, spec_string, spec_string_seq,
    spec_u64, spec_u64_seq, str_eq, DecodeError, JsonValue,
};
use crate::message::direct_message::{
    direct_message_view, spec_direct_message, DirectMessage, DirectMessageModel,
};
use crate::message::event::{event_matches, spec_event, Event, EventModel};
use crate::message::record::{
    decode_record, lemma_record_ok, member_named, member_or_null, record_fields_come_from_their_members,
    spec_record, value_ok, FieldType,
};
use crate::message::tweet::{tweet_fields, tweet_matches, Tweet};
use crate::message::warning::{spec_warning, Warning};
use crate::text::{dec_nat, write_u64};

verus! {

/// A deleted Tweet.
#[derive(Clone, Copy, Debug, Eq, PartialEq, Hash)]
pub struct Delete {
    pub id: u64,
    pub user_id: u64,
}

/// A range of Tweets whose geolocated data must be stripped.
#[derive(Clone, Copy, Debug, Eq, PartialEq, Hash)]
pub struct ScrubGeo {
    pub user_id: u64,
    pub up_to_status_id: u64,
}

/// How many Tweets matched the filter but were not delivered because of rate limits.
#[derive(Clone, Copy, Debug, Eq, PartialEq, Hash)]
pub struct Limit {
    pub track: u64,
}

/// A Tweet whose content is withheld in some countries.
#[derive(Clone, Debug, Eq, PartialEq, Hash)]
pub struct StatusWithheld {
    pub id: u64,
    pub user_id: u64,
    pub withheld_in_countries: Vec<String>,
}

/// A user whose content is withheld in some countries.
#[derive(Clone, Debug, Eq, PartialEq, Hash)]
pub struct UserWithheld {
    pub id: u64,
    pub withheld_in_countries: Vec<String>,
}

/// Why a stream was closed.
#[derive(Clone, Debug, Eq, PartialEq, Hash)]
pub struct Disconnect {
    pub code: DisconnectCode,
    pub stream_name: String,
    pub reason: String,
}

/// The status code of a disconnect message.
#[derive(Clone, Copy, Debug, Eq, PartialEq, Hash)]
pub enum DisconnectCode {
    /// The feed was shut down (possibly a machine restart).
    Shutdown,
    /// The same endpoint was connected too many times.
    DuplicateStream,
    /// A control stream was used to close the stream.
    ControlRequest,
    /// The client was reading too slowly.
    Stall,
    /// The client appears to have initiated a disconnect.
    Normal,
    /// An OAuth token was revoked.
    TokenRevoked,
    /// The same credentials were used to connect a new stream and the oldest was disconnected.
    AdminLogout,
    /// The stream was connected with a negative count and all backfill was delivered.
    MaxMessageLimit,
    /// An internal issue disconnected the stream.
    StreamException,
    /// An internal issue disconnected the stream.
    BrokerStall,
    /// The host became overloaded and disconnected streams to balance load.
    ShedLoad,
}

/// A control URI for Site Streams.
#[derive(Clone, Debug, Eq, PartialEq, Hash)]
pub struct Control {
    pub control_uri: String,
}

/// A message from the Streaming API.
#[derive(Debug)]
pub enum StreamMessage {
    Tweet(Box<Tweet>),
    /// A notification about a non-Tweet event.
    Event(Box<Event>),
    Delete(Delete),
    ScrubGeo(ScrubGeo),
    Limit(Limit),
    StatusWithheld(StatusWithheld),
    UserWithheld(UserWithheld),
    Disconnect(Disconnect),
    Warning(Warning),
    /// The IDs of the user's friends.
    Friends(Vec<u64>),
    DirectMessage(Box<DirectMessage>),
    Control(Control),
    /// A message for the user with the given ID (Site Streams envelope).
    ForUser(u64, Box<StreamMessage>),
    /// A message not known to this library: its members as a map, in the order of the names'
    /// first members, each name once with the value of its last member.
    Custom(Vec<(String, JsonValue)>),
}

/// [`StatusWithheld`] with a sequence in place of the vector.
pub struct StatusWithheldModel {
    pub id: u64,
    pub user_id: u64,
    pub withheld_in_countries: Seq<String>,
}

/// [`UserWithheld`] with a sequence in place of the vector.
pub struct UserWithheldModel {
    pub id: u64,
    pub withheld_in_countries: Seq<String>,
}

/// What a [`StreamMessage`] is made from: the decoded parts, with sequences in place of
/// vectors; for a Tweet, the JSON object that it is read from.
pub enum MessageModel {
    Tweet(JsonValue),
    Event(EventModel),
    Delete(Delete),
    ScrubGeo(ScrubGeo),
    Limit(Limit),
    StatusWithheld(StatusWithheldModel),
    UserWithheld(UserWithheldModel),
    Disconnect(Disconnect),
    Warning(Warning),
    Friends(Seq<u64>),
    DirectMessage(DirectMessageModel),
    Control(Control),
    ForUser(u64, Box<MessageModel>),
    Custom(Seq<(String, JsonValue)>),
}

/// A message is what its model describes.
pub open spec fn message_matches(m: StreamMessage, x: MessageModel) -> bool
    decreases m,
{
    match m {
        StreamMessage::Tweet(t) => x matches MessageModel::Tweet(v) && tweet_matches(*t, v),
        StreamMessage::Event(e) => x matches MessageModel::Event(m) && event_matches(*e, m),
        StreamMessage::Delete(d) => x == MessageModel::Delete(d),
        StreamMessage::ScrubGeo(g) => x == MessageModel::ScrubGeo(g),
        StreamMessage::Limit(l) => x == MessageModel::Limit(l),
        StreamMessage::StatusWithheld(w) => x == MessageModel::StatusWithheld(
            StatusWithheldModel {
                id: w.id,
                user_id: w.user_id,
                withheld_in_countries: w.withheld_in_countries@,
            },
        ),
        StreamMessage::UserWithheld(u) => x == MessageModel::UserWithheld(
            UserWithheldModel { id: u.id, withheld_in_countries: u.withheld_in_countries@ },
        ),
        StreamMessage::Disconnect(d) => x == MessageModel::Disconnect(d),
        StreamMessage::Warning(w) => x == MessageModel::Warning(w),
        StreamMessage::Friends(f) => x == MessageModel::Friends(f@),
        StreamMessage::DirectMessage(d) => x == MessageModel::DirectMessage(direct_message_view(*d)),
        StreamMessage::Control(c) => x == MessageModel::Control(c),
        StreamMessage::ForUser(id, b) => x matches MessageModel::ForUser(id2, bx) && id == id2
            && message_matches(*b, *bx),
        StreamMessage::Custom(c) => x == MessageModel::Custom(c@),
    }
}

impl Control {
    /// The control URI.
    pub fn control_uri(&self) -> (r: &String)
        ensures
            *r == self.control_uri,
    {
        &self.control_uri
    }
}

/// The disconnect code with the given number.
pub open spec fn spec_disconnect_code(n: u64) -> DisconnectCode {
    if n == 1 {
        DisconnectCode::Shutdown
    } else if n == 2 {
        DisconnectCode::DuplicateStream
    } else if n == 3 {
        DisconnectCode::ControlRequest
    } else if n == 4 {
        DisconnectCode::Stall
    } else if n == 5 {
        DisconnectCode::Normal
    } else if n == 6 {
        DisconnectCode::TokenRevoked
    } else if n == 7 {
        DisconnectCode::AdminLogout
    } else if n == 9 {
        DisconnectCode::MaxMessageLimit
    } else if n == 10 {
        DisconnectCode::StreamException
    } else if n == 11 {
        DisconnectCode::BrokerStall
    } else {
        DisconnectCode::ShedLoad
    }
}

pub open spec fn spec_code_number(c: DisconnectCode) -> u32 {
    match c {
        DisconnectCode::Shutdown => 1,
        DisconnectCode::DuplicateStream => 2,
        DisconnectCode::ControlRequest => 3,
        DisconnectCode::Stall => 4,
        DisconnectCode::Normal => 5,
        DisconnectCode::TokenRevoked => 6,
        DisconnectCode::AdminLogout => 7,
        DisconnectCode::MaxMessageLimit => 9,
        DisconnectCode::StreamException => 10,
        DisconnectCode::BrokerStall => 11,
        DisconnectCode::ShedLoad => 12,
    }
}

/// The number of a code is a code's number (1 to 12 but 8), and it gives the code back.
pub proof fn disconnect_code_round_trip(c: DisconnectCode)
    ensures
        1 <= spec_code_number(c) <= 12,
        spec_code_number(c) != 8,
        spec_disconnect_code(spec_code_number(c) as u64) == c,
{
}

/// Each disconnect code has the number that the Streaming API gives it (1 for `Shutdown`, 2
/// for `DuplicateStream`, ..., 12 for `ShedLoad`; 8 is not used) and is named after its variant.
pub proof fn disconnect_codes_have_the_api_numbers(c: DisconnectCode)
    ensures
        (c is Shutdown) <==> spec_code_number(c) == 1,
        c is Shutdown ==> spec_code_name(c) == "Shutdown"@,
        (c is DuplicateStream) <==> spec_code_number(c) == 2,
        c is DuplicateStream ==> spec_code_name(c) == "DuplicateStream"@,
        (c is ControlRequest) <==> spec_code_number(c) == 3,
        c is ControlRequest ==> spec_code_name(c) == "ControlRequest"@,
        (c is Stall) <==> spec_code_number(c) == 4,
        c is Stall ==> spec_code_name(c) == "Stall"@,
        (c is Normal) <==> spec_code_number(c) == 5,
        c is Normal ==> spec_code_name(c) == "Normal"@,
        (c is TokenRevoked) <==> spec_code_number(c) == 6,
        c is TokenRevoked ==> spec_code_name(c) == "TokenRevoked"@,
        (c is AdminLogout) <==> spec_code_number(c) == 7,
        c is AdminLogout ==> spec_code_name(c) == "AdminLogout"@,
        (c is MaxMessageLimit) <==> spec_code_number(c) == 9,
        c is MaxMessageLimit ==> spec_code_name(c) == "MaxMessageLimit"@,
        (c is StreamException) <==> spec_code_number(c) == 10,
        c is StreamException ==> spec_code_name(c) == "StreamException"@,
        (c is BrokerStall) <==> spec_code_number(c) == 11,
        c is BrokerStall ==> spec_code_name(c) == "BrokerStall"@,
        (c is ShedLoad) <==> spec_code_number(c) == 12,
        c is ShedLoad ==> spec_code_name(c) == "ShedLoad"@,
{
}

impl DisconnectCode {
    /// The code for the number that a disconnect message carries (1 to 12, except 8).
    pub fn from_number(n: u64) -> (r: Option<DisconnectCode>)
        ensures
            (1 <= n <= 12 && n != 8) ==> r == Some(spec_disconnect_code(n)),
            !(1 <= n <= 12 && n != 8) ==> r is None,
    {
        if n == 1 {
            Some(DisconnectCode::Shutdown)
        } else if n == 2 {
            Some(DisconnectCode::DuplicateStream)
        } else if n == 3 {
            Some(DisconnectCode::ControlRequest)
        } else if n == 4 {
            Some(DisconnectCode::Stall)
        } else if n == 5 {
            Some(DisconnectCode::Normal)
        } else if n == 6 {
            Some(DisconnectCode::TokenRevoked)
        } else if n == 7 {
            Some(DisconnectCode::AdminLogout)
        } else if n == 9 {
            Some(DisconnectCode::MaxMessageLimit)
        } else if n == 10 {
            Some(DisconnectCode::StreamException)
        } else if n == 11 {
            Some(DisconnectCode::BrokerStall)
        } else if n == 12 {
            Some(DisconnectCode::ShedLoad)
        } else {
            None
        }
    }

    /// The number of the code.
    pub fn number(&self) -> (r: u32)
        ensures
            r == spec_code_number(*self),
    {
        match self {
            DisconnectCode::Shutdown => 1,
            DisconnectCode::DuplicateStream => 2,
            DisconnectCode::ControlRequest => 3,
            DisconnectCode::Stall => 4,
            DisconnectCode::Normal => 5,
            DisconnectCode::TokenRevoked => 6,
            DisconnectCode::AdminLogout => 7,
            DisconnectCode::MaxMessageLimit => 9,
            DisconnectCode::StreamException => 10,
            DisconnectCode::BrokerStall => 11,
            DisconnectCode::ShedLoad => 12,
        }
    }

    /// The name of the code.
    pub fn as_str(&self) -> (r: &'static str)
        ensures
            r@ == spec_code_name(*self),
    {
        match self {
            DisconnectCode::Shutdown => "Shutdown",
            DisconnectCode::DuplicateStream => "DuplicateStream",
            DisconnectCode::ControlRequest => "ControlRequest",
            DisconnectCode::Stall => "Stall",
            DisconnectCode::Normal => "Normal",
            DisconnectCode::TokenRevoked => "TokenRevoked",
            DisconnectCode::AdminLogout => "AdminLogout",
            DisconnectCode::MaxMessageLimit => "MaxMessageLimit",
            DisconnectCode::StreamException => "StreamException",
            DisconnectCode::BrokerStall => "BrokerStall",
            DisconnectCode::ShedLoad => "ShedLoad",
        }
    }
}

pub open spec fn spec_code_name(c: DisconnectCode) -> Seq<char> {
    match c {
        DisconnectCode::Shutdown => "Shutdown"@,
        DisconnectCode::DuplicateStream => "DuplicateStream"@,
        DisconnectCode::ControlRequest => "ControlRequest"@,
        DisconnectCode::Stall => "Stall"@,
        DisconnectCode::Normal => "Normal"@,
        DisconnectCode::TokenRevoked => "TokenRevoked"@,
        DisconnectCode::AdminLogout => "AdminLogout"@,
        DisconnectCode::MaxMessageLimit => "MaxMessageLimit"@,
        DisconnectCode::StreamException => "StreamException"@,
        DisconnectCode::BrokerStall => "BrokerStall"@,
        DisconnectCode::ShedLoad => "ShedLoad"@,
    }
}

// Field lists of the records.
pub open spec fn status_fields() -> Seq<(&'static str, FieldType)> {
    seq![("id", FieldType::U64), ("user_id", FieldType::U64)]
}

pub open spec fn scrub_geo_fields() -> Seq<(&'static str, FieldType)> {
    seq![("user_id", FieldType::U64), ("up_to_status_id", FieldType::U64)]
}

pub open spec fn limit_fields() -> Seq<(&'static str, FieldType)> {
    seq![("track", FieldType::U64)]
}

pub open spec fn status_withheld_fields() -> Seq<(&'static str, FieldType)> {
    seq![("id", FieldType::U64), ("user_id", FieldType::U64), ("withheld_in_countries", FieldType::StrList)]
}

pub open spec fn user_withheld_fields() -> Seq<(&'static str, FieldType)> {
    seq![("id", FieldType::U64), ("withheld_in_countries", FieldType::StrList)]
}

pub open spec fn disconnect_fields() -> Seq<(&'static str, FieldType)> {
    seq![("code", FieldType::DisconnectCode), ("stream_name", FieldType::Str), ("reason", FieldType::Str)]
}

pub open spec fn control_fields() -> Seq<(&'static str, FieldType)> {
    seq![("control_uri", FieldType::Str)]
}

/// The number in a value that passed its check.
pub open spec fn num(v: JsonValue) -> u64 {
    spec_u64(v)->Ok_0
}

/// The string in a value that passed its check.
pub open spec fn text(v: JsonValue) -> String {
    spec_string(v)->Ok_0
}

/// The strings in a value that passed its check.
pub open spec fn texts(v: JsonValue) -> Seq<String> {
    spec_string_seq(v->Array_0@)->Ok_0
}

/// The `delete` member: the first `status` member, a record of `id` and `user_id`; the other
/// members are not looked at.
pub open spec fn delete_scan(es: Seq<(String, JsonValue)>) -> Result<Delete, DecodeError>
    decreases es.len(),
{
    if es.len() == 0 {
        Err(DecodeError::MissingField("status"))
    } else if es[0].0@ == "status"@ {
        match spec_record(es[0].1, status_fields()) {
            Ok(vals) => Ok(Delete { id: num(vals[0]), user_id: num(vals[1]) }),
            Err(e) => Err(e),
        }
    } else {
        delete_scan(es.drop_first())
    }
}

pub open spec fn spec_delete(v: JsonValue) -> Result<Delete, DecodeError> {
    match v {
        JsonValue::Object(es) => delete_scan(es@),
        _ => Err(DecodeError::InvalidType),
    }
}

pub open spec fn spec_scrub_geo(v: JsonValue) -> Result<ScrubGeo, DecodeError> {
    match spec_record(v, scrub_geo_fields()) {
        Ok(vals) => Ok(ScrubGeo { user_id: num(vals[0]), up_to_status_id: num(vals[1]) }),
        Err(e) => Err(e),
    }
}

pub open spec fn spec_limit(v: JsonValue) -> Result<Limit, DecodeError> {
    match spec_record(v, limit_fields()) {
        Ok(vals) => Ok(Limit { track: num(vals[0]) }),
        Err(e) => Err(e),
    }
}

pub open spec fn spec_status_withheld(v: JsonValue) -> Result<StatusWithheldModel, DecodeError> {
    match spec_record(v, status_withheld_fields()) {
        Ok(vals) => Ok(
            StatusWithheldModel {
                id: num(vals[0]),
                user_id: num(vals[1]),
                withheld_in_countries: texts(vals[2]),
            },
        ),
        Err(e) => Err(e),
    }
}

pub open spec fn spec_user_withheld(v: JsonValue) -> Result<UserWithheldModel, DecodeError> {
    match spec_record(v, user_withheld_fields()) {
        Ok(vals) => Ok(UserWithheldModel { id: num(vals[0]), withheld_in_countries: texts(vals[1]) }),
        Err(e) => Err(e),
    }
}

pub open spec fn spec_disconnect(v: JsonValue) -> Result<Disconnect, DecodeError> {
    match spec_record(v, disconnect_fields()) {
        Ok(vals) => Ok(
            Disconnect {
                code: spec_disconnect_code(num(vals[0])),
                stream_name: text(vals[1]),
                reason: text(vals[2]),
            },
        ),
        Err(e) => Err(e),
    }
}

pub open spec fn spec_control(v: JsonValue) -> Result<Control, DecodeError> {
    match spec_record(v, control_fields()) {
        Ok(vals) => Ok(Control { control_uri: text(vals[0]) }),
        Err(e) => Err(e),
    }
}

pub open spec fn spec_friends(v: JsonValue) -> Result<Seq<u64>, DecodeError> {
    match v {
        JsonValue::Array(a) => spec_u64_seq(a@),
        _ => Err(DecodeError::InvalidType),
    }
}

/// Wraps a decoded part into a message.
pub open spec fn wrap<T>(r: Result<T, DecodeError>, f: spec_fn(T) -> MessageModel) -> Result<
    MessageModel,
    DecodeError,
> {
    match r {
        Ok(x) => Ok(f(x)),
        Err(e) => Err(e),
    }
}

/// The index of the first member from `lo` on whose name is `id`, `event` or `for_user`, or -1.
pub open spec fn first_marker(es: Seq<(String, JsonValue)>, lo: int) -> int
    decreases es.len() - lo,
{
    if lo >= es.len() || lo < 0 {
        -1
    } else if es[lo].0@ == "id"@ || es[lo].0@ == "event"@ || es[lo].0@ == "for_user"@ {
        lo
    } else {
        first_marker(es, lo + 1)
    }
}

/// The index of the first member in `lo..hi` named `key`, or -1.
pub open spec fn find_key(es: Seq<(String, JsonValue)>, lo: int, hi: int, key: Seq<char>) -> int
    decreases hi - lo,
{
    if lo >= hi || lo < 0 || hi > es.len() {
        -1
    } else if es[lo].0@ == key {
        lo
    } else {
        find_key(es, lo + 1, hi, key)
    }
}

/// A message whose first member is not one of the known kinds: the first member named `id`
/// makes it a Tweet, `event` an event, and `for_user` an envelope whose `message` member
/// (looked for first among the members before `for_user`, then after it) is the enclosed
/// message; with none of them the message is custom, its members collected into a map.
pub open spec fn spec_other(v: JsonValue) -> Result<MessageModel, DecodeError>
    decreases v, 0int,
{
    match v {
        JsonValue::Object(es) => {
            let j = first_marker(es@, 0);
            if j < 0 {
                Ok(MessageModel::Custom(collect_members(es@)))
            } else if es@[j].0@ == "id"@ {
                match spec_record(v, tweet_fields()) {
                    Ok(_) => Ok(MessageModel::Tweet(v)),
                    Err(e) => Err(e),
                }
            } else if es@[j].0@ == "event"@ {
                match spec_event(v) {
                    Ok(m) => Ok(MessageModel::Event(m)),
                    Err(e) => Err(e),
                }
            } else {
                match spec_u64(es@[j].1) {
                    Err(e) => Err(e),
                    Ok(id) => {
                        let before = find_key(es@, 0, j, "message"@);
                        let m = if before >= 0 {
                            before
                        } else {
                            find_key(es@, j + 1, es@.len() as int, "message"@)
                        };
                        if m < 0 || m >= es@.len() {
                            Err(DecodeError::MissingField("message"))
                        } else {
                            match spec_message(es@[m].1) {
                                Ok(msg) => Ok(MessageModel::ForUser(id, Box::new(msg))),
                                Err(e) => Err(e),
                            }
                        }
                    },
                }
            }
        },
        _ => Err(DecodeError::InvalidType),
    }
}

/// The message that a JSON value denotes. The name of the first member tells the kinds that
/// have a member of their own (`delete`, `scrub_geo`, `limit`, `status_withheld`,
/// `user_withheld`, `disconnect`, `warning`, `friends`, `direct_message`, `control`); the
/// other members are then not looked at. An empty object is a custom message.
pub open spec fn spec_message(v: JsonValue) -> Result<MessageModel, DecodeError>
    decreases v, 1int,
{
    match v {
        JsonValue::Object(es) => if es@.len() == 0 {
            Ok(MessageModel::Custom(es@))
        } else {
            let k = es@[0].0@;
            let val = es@[0].1;
            if k == "delete"@ {
                wrap(spec_delete(val), |d: Delete| MessageModel::Delete(d))
            } else if k == "scrub_geo"@ {
                wrap(spec_scrub_geo(val), |s: ScrubGeo| MessageModel::ScrubGeo(s))
            } else if k == "limit"@ {
                wrap(spec_limit(val), |l: Limit| MessageModel::Limit(l))
            } else if k == "status_withheld"@ {
                wrap(spec_status_withheld(val), |s: StatusWithheldModel| MessageModel::StatusWithheld(s))
            } else if k == "user_withheld"@ {
                wrap(spec_user_withheld(val), |u: UserWithheldModel| MessageModel::UserWithheld(u))
            } else if k == "disconnect"@ {
                wrap(spec_disconnect(val), |d: Disconnect| MessageModel::Disconnect(d))
            } else if k == "warning"@ {
                wrap(spec_warning(val), |w: Warning| MessageModel::Warning(w))
            } else if k == "friends"@ {
                wrap(spec_friends(val), |f: Seq<u64>| MessageModel::Friends(f))
            } else if k == "direct_message"@ {
                wrap(spec_direct_message(val), |d: DirectMessageModel| MessageModel::DirectMessage(d))
            } else if k == "control"@ {
                wrap(spec_control(val), |c: Control| MessageModel::Control(c))
            } else {
                spec_other(v)
            }
        },
        _ => Err(DecodeError::InvalidType),
    }
}

fn status_fields_vec() -> (r: Vec<(&'static str, FieldType)>)
    ensures
        r@ == status_fields(),
{
    let r = vec![("id", FieldType::U64), ("user_id", FieldType::U64)];
    proof {
        assert(r@ =~= status_fields());
    }
    r
}

fn scrub_geo_fields_vec() -> (r: Vec<(&'static str, FieldType)>)
    ensures
        r@ == scrub_geo_fields(),
{
    let r = vec![("user_id", FieldType::U64), ("up_to_status_id", FieldType::U64)];
    proof {
        assert(r@ =~= scrub_geo_fields());
    }
    r
}

fn limit_fields_vec() -> (r: Vec<(&'static str, FieldType)>)
    ensures
        r@ == limit_fields(),
{
    let r = vec![("track", FieldType::U64)];
    proof {
        assert(r@ =~= limit_fields());
    }
    r
}

fn status_withheld_fields_vec() -> (r: Vec<(&'static str, FieldType)>)
    ensures
        r@ == status_withheld_fields(),
{
    let r = vec![
        ("id", FieldType::U64),
        ("user_id", FieldType::U64),
        ("withheld_in_countries", FieldType::StrList),
    ];
    proof {
        assert(r@ =~= status_withheld_fields());
    }
    r
}

fn user_withheld_fields_vec() -> (r: Vec<(&'static str, FieldType)>)
    ensures
        r@ == user_withheld_fields(),
{
    let r = vec![("id", FieldType::U64), ("withheld_in_countries", FieldType::StrList)];
    proof {
        assert(r@ =~= user_withheld_fields());
    }
    r
}

fn disconnect_fields_vec() -> (r: Vec<(&'static str, FieldType)>)
    ensures
        r@ == disconnect_fields(),
{
    let r = vec![
        ("code", FieldType::DisconnectCode),
        ("stream_name", FieldType::Str),
        ("reason", FieldType::Str),
    ];
    proof {
        assert(r@ =~= disconnect_fields());
    }
    r
}

fn control_fields_vec() -> (r: Vec<(&'static str, FieldType)>)
    ensures
        r@ == control_fields(),
{
    let r = vec![("control_uri", FieldType::Str)];
    proof {
        assert(r@ =~= control_fields());
    }
    r
}

fn num_of(v: &JsonValue) -> (r: u64)
    requires
        spec_u64(*v) is Ok,
    ensures
        r == num(*v),
{
    match decode_u64(v) {
        Ok(n) => n,
        Err(_) => 0,
    }
}

fn text_of(v: &JsonValue) -> (r: String)
    requires
        spec_string(*v) is Ok,
    ensures
        r == text(*v),
{
    match decode_string(v) {
        Ok(s) => s,
        Err(_) => String::new(),
    }
}

fn texts_of(v: &JsonValue) -> (r: Vec<String>)
    requires
        v is Array,
        spec_string_seq(v->Array_0@) is Ok,
    ensures
        r@ == texts(*v),
{
    match decode_string_vec(v) {
        Ok(s) => s,
        Err(_) => Vec::new(),
    }
}

fn code_of(v: &JsonValue) -> (r: DisconnectCode)
    requires
        spec_u64(*v) is Ok,
        1 <= num(*v) <= 12 && num(*v) != 8,
    ensures
        r == spec_disconnect_code(num(*v)),
{
    let n = num_of(v);
    match DisconnectCode::from_number(n) {
        Some(c) => c,
        None => DisconnectCode::Shutdown,
    }
}

impl Delete {
    /// Decodes the `delete` member of a message.
    pub fn from_json(v: &JsonValue) -> (r: Result<Delete, DecodeError>)
        ensures
            r == spec_delete(*v),
    {
        match v {
            JsonValue::Object(es) => {
                let mut i: usize = 0;
                proof {
                    assert(es@.skip(0) =~= es@);
                }
                while i < es.len()
                    invariant
                        *v == JsonValue::Object(*es),
                        i <= es@.len(),
                        spec_delete(*v) == delete_scan(es@.skip(i as int)),
                    decreases es@.len() - i,
                {
                    proof {
                        assert(es@.skip(i as int).drop_first() =~= es@.skip(i + 1));
                        assert(es@.skip(i as int)[0] == es@[i as int]);
                    }
                    let (k, val) = &es[i];
                    if str_eq(k.as_str(), "status") {
                        let null = JsonValue::Null;
                        let fields = status_fields_vec();
                        proof {
                            lemma_record_ok(*val, status_fields());
                        }
                        return match decode_record(val, &fields, &null) {
                            Ok(vals) => Ok(Delete { id: num_of(vals[0]), user_id: num_of(vals[1]) }),
                            Err(e) => Err(e),
                        };
                    }
                    i = i + 1;
                }
                proof {
                    assert(es@.skip(i as int) =~= Seq::<(String, JsonValue)>::empty());
                }
                Err(DecodeError::MissingField("status"))
            },
            _ => Err(DecodeError::InvalidType),
        }
    }
}

impl ScrubGeo {
    /// Decodes the `scrub_geo` member of a message: from an object, `user_id` is the number
    /// in its member `user_id` and `up_to_status_id` the number in its member
    /// `up_to_status_id`.
    pub fn from_json(v: &JsonValue) -> (r: Result<ScrubGeo, DecodeError>)
        ensures
            r == spec_scrub_geo(*v),
            *v is Object ==> (r matches Ok(g) ==> spec_u64(member_or_null(*v, "user_id"@))
                == Ok::<u64, DecodeError>(g.user_id) && spec_u64(
                member_or_null(*v, "up_to_status_id"@),
            ) == Ok::<u64, DecodeError>(g.up_to_status_id)),
    {
        let null = JsonValue::Null;
        let fields = scrub_geo_fields_vec();
        proof {
            lemma_record_ok(*v, scrub_geo_fields());
            if *v is Object {
                scrub_geo_reads_members_by_name(*v);
            }
        }
        match decode_record(v, &fields, &null) {
            Ok(vals) => Ok(ScrubGeo { user_id: num_of(vals[0]), up_to_status_id: num_of(vals[1]) }),
            Err(e) => Err(e),
        }
    }
}

impl Limit {
    /// Decodes the `limit` member of a message.
    pub fn from_json(v: &JsonValue) -> (r: Result<Limit, DecodeError>)
        ensures
            r == spec_limit(*v),
    {
        let null = JsonValue::Null;
        let fields = limit_fields_vec();
        proof {
            lemma_record_ok(*v, limit_fields());
        }
        match decode_record(v, &fields, &null) {
            Ok(vals) => Ok(Limit { track: num_of(vals[0]) }),
            Err(e) => Err(e),
        }
    }
}

impl StatusWithheld {
    /// Decodes the `status_withheld` member of a message.
    pub fn from_json(v: &JsonValue) -> (r: Result<StatusWithheld, DecodeError>)
        ensures
            match spec_status_withheld(*v) {
                Ok(m) => r matches Ok(s) && s.id == m.id && s.user_id == m.user_id
                    && s.withheld_in_countries@ == m.withheld_in_countries,
                Err(e) => r matches Err(e2) && e2 == e,
            },
    {
        let null = JsonValue::Null;
        let fields = status_withheld_fields_vec();
        proof {
            lemma_record_ok(*v, status_withheld_fields());
        }
        match decode_record(v, &fields, &null) {
            Ok(vals) => Ok(
                StatusWithheld {
                    id: num_of(vals[0]),
                    user_id: num_of(vals[1]),
                    withheld_in_countries: texts_of(vals[2]),
                },
            ),
            Err(e) => Err(e),
        }
    }
}

impl UserWithheld {
    /// Decodes the `user_withheld` member of a message.
    pub fn from_json(v: &JsonValue) -> (r: Result<UserWithheld, DecodeError>)
        ensures
            match spec_user_withheld(*v) {
                Ok(m) => r matches Ok(u) && u.id == m.id && u.withheld_in_countries@
                    == m.withheld_in_countries,
                Err(e) => r matches Err(e2) && e2 == e,
            },
    {
        let null = JsonValue::Null;
        let fields = user_withheld_fields_vec();
        proof {
            lemma_record_ok(*v, user_withheld_fields());
        }
        match decode_record(v, &fields, &null) {
            Ok(vals) => Ok(UserWithheld { id: num_of(vals[0]), withheld_in_countries: texts_of(vals[1]) }),
            Err(e) => Err(e),
        }
    }
}

impl Disconnect {
    /// Decodes the `disconnect` member of a message.
    pub fn from_json(v: &JsonValue) -> (r: Result<Disconnect, DecodeError>)
        ensures
            r == spec_disconnect(*v),
    {
        let null = JsonValue::Null;
        let fields = disconnect_fields_vec();
        proof {
            lemma_record_ok(*v, disconnect_fields());
        }
        match decode_record(v, &fields, &null) {
            Ok(vals) => Ok(
                Disconnect {
                    code: code_of(vals[0]),
                    stream_name: text_of(vals[1]),
                    reason: text_of(vals[2]),
                },
            ),
            Err(e) => Err(e),
        }
    }
}

impl Control {
    /// Decodes the `control` member of a message.
    pub fn from_json(v: &JsonValue) -> (r: Result<Control, DecodeError>)
        ensures
            r == spec_control(*v),
    {
        let null = JsonValue::Null;
        let fields = control_fields_vec();
        proof {
            lemma_record_ok(*v, control_fields());
        }
        match decode_record(v, &fields, &null) {
            Ok(vals) => Ok(Control { control_uri: text_of(vals[0]) }),
            Err(e) => Err(e),
        }
    }
}

/// The index of the first member named `k`, or -1.
pub open spec fn member_index(ms: Seq<(String, JsonValue)>, k: Seq<char>) -> int
    decreases ms.len(),
{
    if ms.len() == 0 {
        -1
    } else if ms[0].0@ == k {
        0
    } else {
        let r = member_index(ms.drop_first(), k);
        if r < 0 {
            -1
        } else {
            r + 1
        }
    }
}

/// Members collected into a map: a name keeps the place of its first member and takes the
/// value of its last.
pub open spec fn collect_members(es: Seq<(String, JsonValue)>) -> Seq<(String, JsonValue)>
    decreases es.len(),
{
    if es.len() == 0 {
        Seq::empty()
    } else {
        let acc = collect_members(es.drop_last());
        let j = member_index(acc, es.last().0@);
        if j < 0 {
            acc.push(es.last())
        } else {
            acc.update(j, es.last())
        }
    }
}

proof fn lemma_member_index(ms: Seq<(String, JsonValue)>, k: Seq<char>)
    ensures
        -1 <= member_index(ms, k) < ms.len(),
        member_index(ms, k) >= 0 ==> ms[member_index(ms, k)].0@ == k,
        member_index(ms, k) < 0 ==> forall|i: int| 0 <= i < ms.len() ==> #[trigger] ms[i].0@ != k,
    decreases ms.len(),
{
    if ms.len() > 0 {
        lemma_member_index(ms.drop_first(), k);
        if member_index(ms, k) < 0 {
            assert forall|i: int| 0 <= i < ms.len() implies #[trigger] ms[i].0@ != k by {
                if i > 0 {
                    assert(ms[i] == ms.drop_first()[i - 1]);
                }
            }
        }
    }
}

/// Collected members hold each name once.
pub proof fn collected_names_are_distinct(es: Seq<(String, JsonValue)>)
    ensures
        forall|i: int, j: int|
            0 <= i < j < collect_members(es).len() ==> #[trigger] collect_members(es)[i].0@
                != #[trigger] collect_members(es)[j].0@,
    decreases es.len(),
{
    if es.len() > 0 {
        collected_names_are_distinct(es.drop_last());
        let acc = collect_members(es.drop_last());
        lemma_member_index(acc, es.last().0@);
        let c = collect_members(es);
        assert forall|i: int, j: int| 0 <= i < j < c.len() implies #[trigger] c[i].0@ != #[trigger] c[j].0@ by {
            if member_index(acc, es.last().0@) < 0 {
                if j == acc.len() {
                    assert(acc[i].0@ != es.last().0@);
                } else {
                    assert(acc[i].0@ != acc[j].0@);
                }
            } else {
                let m = member_index(acc, es.last().0@);
                if i == m {
                    assert(acc[m].0@ != acc[j].0@);
                } else if j == m {
                    assert(acc[i].0@ != acc[m].0@);
                } else {
                    assert(acc[i].0@ != acc[j].0@);
                }
            }
        }
    }
}

fn member_index_of(ms: &Vec<(String, JsonValue)>, k: &str) -> (r: Option<usize>)
    ensures
        member_index(ms@, k@) < 0 ==> r is None,
        member_index(ms@, k@) >= 0 ==> r == Some(member_index(ms@, k@) as usize),
{
    let mut i: usize = 0;
    proof {
        assert(ms@.skip(0) =~= ms@);
        lemma_member_index(ms@, k@);
    }
    while i < ms.len()
        invariant
            i <= ms@.len(),
            member_index(ms@, k@) == (if member_index(ms@.skip(i as int), k@) < 0 {
                -1
            } else {
                member_index(ms@.skip(i as int), k@) + i
            }),
        decreases ms@.len() - i,
    {
        proof {
            assert(ms@.skip(i as int).drop_first() =~= ms@.skip(i + 1));
            assert(ms@.skip(i as int)[0] == ms@[i as int]);
            lemma_member_index(ms@.skip(i + 1), k@);
        }
        if str_eq(ms[i].0.as_str(), k) {
            return Some(i);
        }
        i = i + 1;
    }
    proof {
        assert(ms@.skip(i as int) =~= Seq::<(String, JsonValue)>::empty());
    }
    None
}

/// Collects members into a map (see [`collect_members`]).
fn collect(es: Vec<(String, JsonValue)>) -> (r: Vec<(String, JsonValue)>)
    ensures
        r@ == collect_members(es@),
{
    let ghost orig = es@;
    let mut es = es;
    let mut out: Vec<(String, JsonValue)> = Vec::new();
    let ghost mut n: int = 0;
    proof {
        assert(orig.skip(0) =~= orig);
        assert(orig.take(0) =~= Seq::<(String, JsonValue)>::empty());
    }
    while es.len() > 0
        invariant
            0 <= n <= orig.len(),
            es@ == orig.skip(n),
            out@ == collect_members(orig.take(n)),
        decreases es@.len(),
    {
        let m = es.remove(0);
        proof {
            assert(m == orig[n]);
            assert(orig.skip(n).remove(0) =~= orig.skip(n + 1));
            assert(orig.take(n + 1).drop_last() =~= orig.take(n));
            assert(orig.take(n + 1).last() == orig[n]);
            lemma_member_index(out@, m.0@);
        }
        let ghost before = out@;
        let name = m.0.as_str();
        proof {
            assert(name@ == m.0@);
        }
        match member_index_of(&out, name) {
            Some(j) => {
                out.set(j, m);
                proof {
                    assert(out@ == before.update(member_index(before, m.0@), m));
                }
            },
            None => {
                out.push(m);
                proof {
                    assert(out@ == before.push(m));
                }
            },
        }
        proof {
            let t = orig.take(n + 1);
            assert(collect_members(t) == (if member_index(before, m.0@) < 0 {
                before.push(m)
            } else {
                before.update(member_index(before, m.0@), m)
            }));
            assert(out@ =~= collect_members(t));
            n = n + 1;
        }
    }
    proof {
        assert(orig.take(n) =~= orig);
    }
    out
}

fn first_marker_index(es: &Vec<(String, JsonValue)>) -> (r: Option<usize>)
    ensures
        first_marker(es@, 0) < 0 ==> r is None,
        first_marker(es@, 0) >= 0 ==> r == Some(first_marker(es@, 0) as usize),
{
    let mut i: usize = 0;
    while i < es.len()
        invariant
            i <= es@.len(),
            first_marker(es@, 0) == first_marker(es@, i as int),
        decreases es@.len() - i,
    {
        let k = es[i].0.as_str();
        if str_eq(k, "id") || str_eq(k, "event") || str_eq(k, "for_user") {
            return Some(i);
        }
        i = i + 1;
    }
    None
}

fn find_key_index(es: &Vec<(String, JsonValue)>, lo: usize, hi: usize, key: &str) -> (r: Option<usize>)
    requires
        lo <= hi <= es@.len(),
    ensures
        find_key(es@, lo as int, hi as int, key@) < 0 ==> r is None,
        find_key(es@, lo as int, hi as int, key@) >= 0 ==> r == Some(
            find_key(es@, lo as int, hi as int, key@) as usize,
        ),
{
    let mut i: usize = lo;
    while i < hi
        invariant
            lo <= i <= hi,
            hi <= es@.len(),
            find_key(es@, lo as int, hi as int, key@) == find_key(es@, i as int, hi as int, key@),
        decreases hi - i,
    {
        if str_eq(es[i].0.as_str(), key) {
            return Some(i);
        }
        i = i + 1;
    }
    None
}

proof fn lemma_first_marker_range(es: Seq<(String, JsonValue)>, lo: int)
    ensures
        first_marker(es, lo) < es.len(),
    decreases es.len() - lo,
{
    if !(lo >= es.len() || lo < 0) && !(es[lo].0@ == "id"@ || es[lo].0@ == "event"@ || es[lo].0@
        == "for_user"@) {
        lemma_first_marker_range(es, lo + 1);
    }
}

proof fn lemma_find_key_range(es: Seq<(String, JsonValue)>, lo: int, hi: int, key: Seq<char>)
    ensures
        find_key(es, lo, hi, key) < es.len(),
    decreases hi - lo,
{
    if !(lo >= hi || lo < 0 || hi > es.len()) && es[lo].0@ != key {
        lemma_find_key_range(es, lo + 1, hi, key);
    }
}

impl StreamMessage {
    /// Decodes a message from the JSON value of one line of the stream.
    pub fn from_json(v: JsonValue) -> (r: Result<StreamMessage, DecodeError>)
        ensures
            agrees_message(r, spec_message(v)),
        decreases v,
    {
        let ghost v0 = v;
        match v {
            JsonValue::Object(es) => {
                if es.len() == 0 {
                    return Ok(StreamMessage::Custom(es));
                }
                let is_dm;
                {
                    let k = es[0].0.as_str();
                    let val = &es[0].1;
                    if str_eq(k, "delete") {
                        return match Delete::from_json(val) {
                            Ok(d) => Ok(StreamMessage::Delete(d)),
                            Err(e) => Err(e),
                        };
                    } else if str_eq(k, "scrub_geo") {
                        return match ScrubGeo::from_json(val) {
                            Ok(s) => Ok(StreamMessage::ScrubGeo(s)),
                            Err(e) => Err(e),
                        };
                    } else if str_eq(k, "limit") {
                        return match Limit::from_json(val) {
                            Ok(l) => Ok(StreamMessage::Limit(l)),
                            Err(e) => Err(e),
                        };
                    } else if str_eq(k, "status_withheld") {
                        return match StatusWithheld::from_json(val) {
                            Ok(s) => Ok(StreamMessage::StatusWithheld(s)),
                            Err(e) => Err(e),
                        };
                    } else if str_eq(k, "user_withheld") {
                        return match UserWithheld::from_json(val) {
                            Ok(u) => Ok(StreamMessage::UserWithheld(u)),
                            Err(e) => Err(e),
                        };
                    } else if str_eq(k, "disconnect") {
                        return match Disconnect::from_json(val) {
                            Ok(d) => Ok(StreamMessage::Disconnect(d)),
                            Err(e) => Err(e),
                        };
                    } else if str_eq(k, "warning") {
                        return match Warning::from_json(val) {
                            Ok(w) => Ok(StreamMessage::Warning(w)),
                            Err(e) => Err(e),
                        };
                    } else if str_eq(k, "friends") {
                        return match decode_u64_vec(val) {
                            Ok(f) => Ok(StreamMessage::Friends(f)),
                            Err(e) => Err(e),
                        };
                    }
                    is_dm = str_eq(k, "direct_message");
                    if !is_dm && str_eq(k, "control") {
                        return match Control::from_json(val) {
                            Ok(c) => Ok(StreamMessage::Control(c)),
                            Err(e) => Err(e),
                        };
                    }
                }
                let mut es = es;
                if is_dm {
                    return match DirectMessage::from_json(&es[0].1) {
                        Ok(d) => Ok(StreamMessage::DirectMessage(Box::new(d))),
                        Err(e) => Err(e),
                    };
                }
                proof {
                    lemma_first_marker_range(es@, 0);
                }
                let j = match first_marker_index(&es) {
                    None => {
                        return Ok(StreamMessage::Custom(collect(es)));
                    },
                    Some(j) => j,
                };
                if str_eq(es[j].0.as_str(), "id") {
                    let t = JsonValue::Object(es);
                    return match Tweet::from_json(&t) {
                        Ok(t) => Ok(StreamMessage::Tweet(Box::new(t))),
                        Err(e) => Err(e),
                    };
                }
                if str_eq(es[j].0.as_str(), "event") {
                    let e = JsonValue::Object(es);
                    return match Event::from_json(&e) {
                        Ok(e) => Ok(StreamMessage::Event(Box::new(e))),
                        Err(x) => Err(x),
                    };
                }
                let id = match decode_u64(&es[j].1) {
                    Err(e) => {
                        return Err(e);
                    },
                    Ok(id) => id,
                };
                proof {
                    lemma_find_key_range(es@, 0, j as int, "message"@);
                    lemma_find_key_range(es@, j + 1, es@.len() as int, "message"@);
                }
                let m = match find_key_index(&es, 0, j, "message") {
                    Some(m) => m,
                    None => match find_key_index(&es, j + 1, es.len(), "message") {
                        Some(m) => m,
                        None => {
                            return Err(DecodeError::MissingField("message"));
                        },
                    },
                };
                let ghost es0 = es@;
                let (_, inner) = es.swap_remove(m);
                proof {
                    assert(inner == es0[m as int].1);
                }
                match StreamMessage::from_json(inner) {
                    Ok(msg) => Ok(StreamMessage::ForUser(id, Box::new(msg))),
                    Err(e) => Err(e),
                }
            },
            _ => Err(DecodeError::InvalidType),
        }
    }
}

/// The text of a disconnect message: `stream_name: number Name: reason`.
pub open spec fn disconnect_text(d: Disconnect) -> Seq<char> {
    d.stream_name@ + ": "@ + dec_nat(spec_code_number(d.code) as nat) + " "@ + spec_code_name(d.code)
        + ": "@ + d.reason@
}

impl Disconnect {
    /// The message as text: the stream's name, the code's number and name, and the reason.
    pub fn to_string(&self) -> (r: String)
        ensures
            r@ == disconnect_text(*self),
    {
        let mut out = String::new();
        out.append(self.stream_name.as_str());
        out.append(": ");
        write_u64(self.code.number() as u64, &mut out);
        out.append(" ");
        out.append(self.code.as_str());
        out.append(": ");
        out.append(self.reason.as_str());
        proof {
            assert(out@ =~= disconnect_text(*self));
        }
        out
    }
}

/// The result of decoding a message, compared with what the specification says.
pub open spec fn agrees_message(r: Result<StreamMessage, DecodeError>, s: Result<MessageModel, DecodeError>) -> bool {
    match s {
        Ok(m) => r matches Ok(o) && message_matches(o, m),
        Err(e) => r matches Err(e2) && e2 == e,
    }
}

// Each record takes its fields from the members of their names, whatever the order of the
// members.

/// The number in a value that passed the check of a number.
proof fn lemma_number_of(v: JsonValue)
    requires
        value_ok(FieldType::U64, v),
    ensures
        spec_u64(v) == Ok::<u64, DecodeError>(num(v)),
{
}

/// The string in a value that passed the check of a string.
proof fn lemma_text_of(v: JsonValue)
    requires
        value_ok(FieldType::Str, v),
    ensures
        spec_string(v) == Ok::<String, DecodeError>(text(v)),
{
}

/// The strings in a value that passed the check of a list of strings.
proof fn lemma_texts_of(v: JsonValue)
    requires
        value_ok(FieldType::StrList, v),
    ensures
        v is Array && spec_string_seq(v->Array_0@) == Ok::<Seq<String>, DecodeError>(texts(v)),
{
}

/// A `scrub_geo` record read from an object has as `user_id` the number in the member named
/// `user_id`, and as `up_to_status_id` the number in the member named `up_to_status_id`.
pub proof fn scrub_geo_reads_members_by_name(v: JsonValue)
    requires
        v is Object,
    ensures
        spec_scrub_geo(v) matches Ok(g) ==> spec_u64(member_or_null(v, "user_id"@)) == Ok::<
            u64,
            DecodeError,
        >(g.user_id) && spec_u64(member_or_null(v, "up_to_status_id"@)) == Ok::<u64, DecodeError>(
            g.up_to_status_id,
        ),
{
    reveal_strlit("user_id");
    reveal_strlit("up_to_status_id");
    assert("user_id"@.len() == 7 && "up_to_status_id"@.len() == 15);
    record_fields_come_from_their_members(v, scrub_geo_fields());
    lemma_record_ok(v, scrub_geo_fields());
    if let Ok(vals) = spec_record(v, scrub_geo_fields()) {
        lemma_number_of(vals[0]);
        lemma_number_of(vals[1]);
    }
}

/// A `limit` record read from an object has as `track` the number in the member named
/// `track`.
pub proof fn limit_reads_members_by_name(v: JsonValue)
    requires
        v is Object,
    ensures
        spec_limit(v) matches Ok(l) ==> spec_u64(member_or_null(v, "track"@)) == Ok::<
            u64,
            DecodeError,
        >(l.track),
{
    record_fields_come_from_their_members(v, limit_fields());
    lemma_record_ok(v, limit_fields());
    if let Ok(vals) = spec_record(v, limit_fields()) {
        lemma_number_of(vals[0]);
    }
}

/// A `status_withheld` record read from an object has as `id`, `user_id` and
/// `withheld_in_countries` what the members of those names hold.
pub proof fn status_withheld_reads_members_by_name(v: JsonValue)
    requires
        v is Object,
    ensures
        spec_status_withheld(v) matches Ok(m) ==> {
            &&& spec_u64(member_or_null(v, "id"@)) == Ok::<u64, DecodeError>(m.id)
            &&& spec_u64(member_or_null(v, "user_id"@)) == Ok::<u64, DecodeError>(m.user_id)
            &&& member_or_null(v, "withheld_in_countries"@) is Array
            &&& spec_string_seq(member_or_null(v, "withheld_in_countries"@)->Array_0@) == Ok::<
                Seq<String>,
                DecodeError,
            >(m.withheld_in_countries)
        },
{
    reveal_strlit("id");
    reveal_strlit("user_id");
    reveal_strlit("withheld_in_countries");
    assert("id"@.len() == 2 && "user_id"@.len() == 7 && "withheld_in_countries"@.len() == 21);
    record_fields_come_from_their_members(v, status_withheld_fields());
    lemma_record_ok(v, status_withheld_fields());
    if let Ok(vals) = spec_record(v, status_withheld_fields()) {
        lemma_number_of(vals[0]);
        lemma_number_of(vals[1]);
        lemma_texts_of(vals[2]);
    }
}

/// A `user_withheld` record read from an object has as `id` and `withheld_in_countries` what
/// the members of those names hold.
pub proof fn user_withheld_reads_members_by_name(v: JsonValue)
    requires
        v is Object,
    ensures
        spec_user_withheld(v) matches Ok(m) ==> {
            &&& spec_u64(member_or_null(v, "id"@)) == Ok::<u64, DecodeError>(m.id)
            &&& member_or_null(v, "withheld_in_countries"@) is Array
            &&& spec_string_seq(member_or_null(v, "withheld_in_countries"@)->Array_0@) == Ok::<
                Seq<String>,
                DecodeError,
            >(m.withheld_in_countries)
        },
{
    reveal_strlit("id");
    reveal_strlit("withheld_in_countries");
    assert("id"@.len() == 2 && "withheld_in_countries"@.len() == 21);
    record_fields_come_from_their_members(v, user_withheld_fields());
    lemma_record_ok(v, user_withheld_fields());
    if let Ok(vals) = spec_record(v, user_withheld_fields()) {
        lemma_number_of(vals[0]);
        lemma_texts_of(vals[1]);
    }
}

/// A `disconnect` record read from an object has the code of the number in the member named
/// `code`, and as `stream_name` and `reason` the strings in the members of those names.
pub proof fn disconnect_reads_members_by_name(v: JsonValue)
    requires
        v is Object,
    ensures
        spec_disconnect(v) matches Ok(d) ==> {
            &&& spec_u64(member_or_null(v, "code"@)) matches Ok(n)
            &&& d.code == spec_disconnect_code(n)
            &&& spec_string(member_or_null(v, "stream_name"@)) == Ok::<String, DecodeError>(
                d.stream_name,
            )
            &&& spec_string(member_or_null(v, "reason"@)) == Ok::<String, DecodeError>(d.reason)
        },
{
    reveal_strlit("code");
    reveal_strlit("stream_name");
    reveal_strlit("reason");
    assert("code"@.len() == 4 && "stream_name"@.len() == 11 && "reason"@.len() == 6);
    record_fields_come_from_their_members(v, disconnect_fields());
    lemma_record_ok(v, disconnect_fields());
    if let Ok(vals) = spec_record(v, disconnect_fields()) {
        lemma_text_of(vals[1]);
        lemma_text_of(vals[2]);
    }
}

/// A `control` record read from an object has as `control_uri` the string in the member
/// named `control_uri`.
pub proof fn control_reads_members_by_name(v: JsonValue)
    requires
        v is Object,
    ensures
        spec_control(v) matches Ok(c) ==> spec_string(member_or_null(v, "control_uri"@)) == Ok::<
            String,
            DecodeError,
        >(c.control_uri),
{
    record_fields_come_from_their_members(v, control_fields());
    lemma_record_ok(v, control_fields());
    if let Ok(vals) = spec_record(v, control_fields()) {
        lemma_text_of(vals[0]);
    }
}

/// The deletion read from the first member named `status`.
proof fn lemma_delete_scan_status(es: Seq<(String, JsonValue)>)
    ensures
        delete_scan(es) matches Ok(d) ==> member_named(es, "status"@) matches Some(s) && spec_record(
            s,
            status_fields(),
        ) matches Ok(vals) && d == (Delete { id: num(vals[0]), user_id: num(vals[1]) }),
    decreases es.len(),
{
    if es.len() > 0 && es[0].0@ != "status"@ {
        lemma_delete_scan_status(es.drop_first());
    }
}

/// A `delete` message is read from its first member named `status`; where that member is an
/// object, the deletion has as `id` and `user_id` the numbers in its members of those names.
pub proof fn delete_reads_members_by_name(v: JsonValue)
    requires
        v is Object,
    ensures
        spec_delete(v) matches Ok(d) ==> member_named(v->Object_0@, "status"@) matches Some(s) && (
        s is Object ==> spec_u64(member_or_null(s, "id"@)) == Ok::<u64, DecodeError>(d.id)
            && spec_u64(member_or_null(s, "user_id"@)) == Ok::<u64, DecodeError>(d.user_id)),
{
    reveal_strlit("id");
    reveal_strlit("user_id");
    assert("id"@.len() == 2 && "user_id"@.len() == 7);
    lemma_delete_scan_status(v->Object_0@);
    if let Some(s) = member_named(v->Object_0@, "status"@) {
        if s is Object {
            record_fields_come_from_their_members(s, status_fields());
        }
        lemma_record_ok(s, status_fields());
        if let Ok(vals) = spec_record(s, status_fields()) {
            lemma_number_of(vals[0]);
            lemma_number_of(vals[1]);
        }
    }
}

/// `v` is an object whose first member is named `name`.
pub open spec fn first_member_is(v: JsonValue, name: Seq<char>) -> bool {
    v is Object && v->Object_0@.len() > 0 && v->Object_0@[0].0@ == name
}

/// A message of a kind that has a member of its own is read from its first member, which has
/// the kind's name: a `ScrubGeo` message from a first member `scrub_geo`, a `Limit` from a
/// first member `limit`, and so on; a Tweet is the object itself, and an event is read from
/// the whole object.
pub proof fn message_kinds_come_from_their_first_member(v: JsonValue)
    ensures
        spec_message(v) matches Ok(m) ==> match m {
            MessageModel::Delete(d) => first_member_is(v, "delete"@) && spec_delete(v->Object_0@[0].1) == Ok::<
                _,
                DecodeError,
            >(d),
            MessageModel::ScrubGeo(g) => first_member_is(v, "scrub_geo"@) && spec_scrub_geo(v->Object_0@[0].1) == Ok::<
                _,
                DecodeError,
            >(g),
            MessageModel::Limit(l) => first_member_is(v, "limit"@) && spec_limit(v->Object_0@[0].1) == Ok::<
                _,
                DecodeError,
            >(l),
            MessageModel::StatusWithheld(w) => first_member_is(v, "status_withheld"@) && spec_status_withheld(v->Object_0@[0].1) == Ok::<
                _,
                DecodeError,
            >(w),
            MessageModel::UserWithheld(u) => first_member_is(v, "user_withheld"@) && spec_user_withheld(v->Object_0@[0].1) == Ok::<
                _,
                DecodeError,
            >(u),
            MessageModel::Disconnect(d) => first_member_is(v, "disconnect"@) && spec_disconnect(v->Object_0@[0].1) == Ok::<
                _,
                DecodeError,
            >(d),
            MessageModel::Warning(w) => first_member_is(v, "warning"@) && spec_warning(v->Object_0@[0].1) == Ok::<
                _,
                DecodeError,
            >(w),
            MessageModel::Friends(f) => first_member_is(v, "friends"@) && spec_friends(v->Object_0@[0].1) == Ok::<
                _,
                DecodeError,
            >(f),
            MessageModel::DirectMessage(d) => first_member_is(v, "direct_message"@) && spec_direct_message(v->Object_0@[0].1) == Ok::<
                _,
                DecodeError,
            >(d),
            MessageModel::Control(c) => first_member_is(v, "control"@) && spec_control(v->Object_0@[0].1) == Ok::<
                _,
                DecodeError,
            >(c),
            MessageModel::Tweet(t) => t == v && spec_record(v, tweet_fields()) is Ok,
            MessageModel::Event(e) => spec_event(v) == Ok::<EventModel, DecodeError>(e),
            _ => true,
        },
{
}

} // verus!
