//! Notifications about events that are not Tweets: favorites, follows, list changes, ...
//!
//! An event object is read member by member. `created_at`, `target` and `source` are read as
//! they come; the object of the event (`target_object`) is read by the kind that `event`
//! names, so where `target_object` comes first it is kept until `event` is read. Once all
//! four parts are known, the members that follow are not looked at.

use vstd::prelude::*;

use crate::datetime::{parse_datetime, parsed_utc_timestamp, TWITTER_DATE_FORMAT};
use crate::json::{json_view, str_eq, DecodeError, JsonValue, JsonView};
use crate::message::list::{spec_list, List};
use crate::message::record::spec_record;
use crate::message::tweet::{tweet_fields, tweet_matches, Tweet};
use crate::message::user::{spec_user, User};

verus! {

/// What an event is about.
#[derive(Debug)]
pub enum TargetObject {
    Favorite(Box<Tweet>),
    Unfavorite(Box<Tweet>),
    ListCreated(List),
    ListDestroyed(List),
    ListUpdated(List),
    ListMemberAdded(List),
    ListMemberRemoved(List),
    ListUserSubscribed(List),
    ListUserUnsubscribed(List),
    QuotedTweet(Box<Tweet>),
    AccessRevoked,
    Block,
    Unblock,
    Follow,
    Unfollow,
    UserUpdate,
    /// An event of another kind: its name and its object.
    Custom(String, JsonValue),
}

/// An event.
#[derive(Debug)]
pub struct Event {
    /// When the event happened, in seconds since the Unix epoch.
    pub created_at: i64,
    pub target: User,
    pub source: User,
    pub target_object: TargetObject,
}

/// What a [`TargetObject`] is made from; for a Tweet, the JSON object it is read from.
pub enum TargetModel {
    Favorite(JsonValue),
    Unfavorite(JsonValue),
    ListCreated(List),
    ListDestroyed(List),
    ListUpdated(List),
    ListMemberAdded(List),
    ListMemberRemoved(List),
    ListUserSubscribed(List),
    ListUserUnsubscribed(List),
    QuotedTweet(JsonValue),
    AccessRevoked,
    Block,
    Unblock,
    Follow,
    Unfollow,
    UserUpdate,
    Custom(Seq<char>, JsonView),
}

/// What an [`Event`] is made from.
pub struct EventModel {
    pub created_at: i64,
    pub target: User,
    pub source: User,
    pub target_object: TargetModel,
}

/// The object of an event is what its model describes.
pub open spec fn target_matches(t: TargetObject, m: TargetModel) -> bool {
    match t {
        TargetObject::Favorite(b) => m matches TargetModel::Favorite(v) && tweet_matches(*b, v),
        TargetObject::Unfavorite(b) => m matches TargetModel::Unfavorite(v) && tweet_matches(*b, v),
        TargetObject::QuotedTweet(b) => m matches TargetModel::QuotedTweet(v) && tweet_matches(*b, v),
        TargetObject::ListCreated(l) => m == TargetModel::ListCreated(l),
        TargetObject::ListDestroyed(l) => m == TargetModel::ListDestroyed(l),
        TargetObject::ListUpdated(l) => m == TargetModel::ListUpdated(l),
        TargetObject::ListMemberAdded(l) => m == TargetModel::ListMemberAdded(l),
        TargetObject::ListMemberRemoved(l) => m == TargetModel::ListMemberRemoved(l),
        TargetObject::ListUserSubscribed(l) => m == TargetModel::ListUserSubscribed(l),
        TargetObject::ListUserUnsubscribed(l) => m == TargetModel::ListUserUnsubscribed(l),
        TargetObject::AccessRevoked => m == TargetModel::AccessRevoked,
        TargetObject::Block => m == TargetModel::Block,
        TargetObject::Unblock => m == TargetModel::Unblock,
        TargetObject::Follow => m == TargetModel::Follow,
        TargetObject::Unfollow => m == TargetModel::Unfollow,
        TargetObject::UserUpdate => m == TargetModel::UserUpdate,
        TargetObject::Custom(k, v) => m == TargetModel::Custom(k@, json_view(v)),
    }
}

pub open spec fn event_matches(e: Event, m: EventModel) -> bool {
    &&& e.created_at == m.created_at
    &&& e.target == m.target
    &&& e.source == m.source
    &&& target_matches(e.target_object, m.target_object)
}

/// The object of an event whose kind needs none.
pub open spec fn label_of(kind: Seq<char>) -> Option<TargetModel> {
    if kind == "access_revoked"@ {
        Some(TargetModel::AccessRevoked)
    } else if kind == "block"@ {
        Some(TargetModel::Block)
    } else if kind == "unblock"@ {
        Some(TargetModel::Unblock)
    } else if kind == "follow"@ {
        Some(TargetModel::Follow)
    } else if kind == "unfollow"@ {
        Some(TargetModel::Unfollow)
    } else if kind == "user_update"@ {
        Some(TargetModel::UserUpdate)
    } else {
        None
    }
}

/// The Tweet of a Tweet event.
pub open spec fn tweet_target(v: JsonValue, f: spec_fn(JsonValue) -> TargetModel) -> Result<
    TargetModel,
    DecodeError,
> {
    match spec_record(v, tweet_fields()) {
        Ok(_) => Ok(f(v)),
        Err(e) => Err(e),
    }
}

/// The list of a list event.
pub open spec fn list_target(v: JsonValue, f: spec_fn(List) -> TargetModel) -> Result<
    TargetModel,
    DecodeError,
> {
    match spec_list(v) {
        Ok(l) => Ok(f(l)),
        Err(e) => Err(e),
    }
}

/// The object `v` of an event of the given kind.
#[verifier::opaque]
pub open spec fn resolve(kind: String, v: JsonValue) -> Result<TargetModel, DecodeError> {
    let k = kind@;
    if k == "favorite"@ {
        tweet_target(v, |t: JsonValue| TargetModel::Favorite(t))
    } else if k == "unfavorite"@ {
        tweet_target(v, |t: JsonValue| TargetModel::Unfavorite(t))
    } else if k == "quoted_tweet"@ {
        tweet_target(v, |t: JsonValue| TargetModel::QuotedTweet(t))
    } else if k == "list_created"@ {
        list_target(v, |l: List| TargetModel::ListCreated(l))
    } else if k == "list_destroyed"@ {
        list_target(v, |l: List| TargetModel::ListDestroyed(l))
    } else if k == "list_updated"@ {
        list_target(v, |l: List| TargetModel::ListUpdated(l))
    } else if k == "list_member_added"@ {
        list_target(v, |l: List| TargetModel::ListMemberAdded(l))
    } else if k == "list_member_removed"@ {
        list_target(v, |l: List| TargetModel::ListMemberRemoved(l))
    } else if k == "list_user_subscribed"@ {
        list_target(v, |l: List| TargetModel::ListUserSubscribed(l))
    } else if k == "list_user_unsubscribed"@ {
        list_target(v, |l: List| TargetModel::ListUserUnsubscribed(l))
    } else {
        match label_of(k) {
            Some(l) => Ok(l),
            None => Ok(TargetModel::Custom(k, json_view(v))),
        }
    }
}

/// The kind of event that an object model is for: the text of the `event` member.
pub open spec fn model_kind(m: TargetModel) -> Seq<char> {
    match m {
        TargetModel::Favorite(_) => "favorite"@,
        TargetModel::Unfavorite(_) => "unfavorite"@,
        TargetModel::ListCreated(_) => "list_created"@,
        TargetModel::ListDestroyed(_) => "list_destroyed"@,
        TargetModel::ListUpdated(_) => "list_updated"@,
        TargetModel::ListMemberAdded(_) => "list_member_added"@,
        TargetModel::ListMemberRemoved(_) => "list_member_removed"@,
        TargetModel::ListUserSubscribed(_) => "list_user_subscribed"@,
        TargetModel::ListUserUnsubscribed(_) => "list_user_unsubscribed"@,
        TargetModel::QuotedTweet(_) => "quoted_tweet"@,
        TargetModel::AccessRevoked => "access_revoked"@,
        TargetModel::Block => "block"@,
        TargetModel::Unblock => "unblock"@,
        TargetModel::Follow => "follow"@,
        TargetModel::Unfollow => "unfollow"@,
        TargetModel::UserUpdate => "user_update"@,
        TargetModel::Custom(k, _) => k,
    }
}

/// The kind of event that an object is for: the text of the `event` member.
pub open spec fn target_kind(t: TargetObject) -> Seq<char> {
    match t {
        TargetObject::Favorite(_) => "favorite"@,
        TargetObject::Unfavorite(_) => "unfavorite"@,
        TargetObject::ListCreated(_) => "list_created"@,
        TargetObject::ListDestroyed(_) => "list_destroyed"@,
        TargetObject::ListUpdated(_) => "list_updated"@,
        TargetObject::ListMemberAdded(_) => "list_member_added"@,
        TargetObject::ListMemberRemoved(_) => "list_member_removed"@,
        TargetObject::ListUserSubscribed(_) => "list_user_subscribed"@,
        TargetObject::ListUserUnsubscribed(_) => "list_user_unsubscribed"@,
        TargetObject::QuotedTweet(_) => "quoted_tweet"@,
        TargetObject::AccessRevoked => "access_revoked"@,
        TargetObject::Block => "block"@,
        TargetObject::Unblock => "unblock"@,
        TargetObject::Follow => "follow"@,
        TargetObject::Unfollow => "unfollow"@,
        TargetObject::UserUpdate => "user_update"@,
        TargetObject::Custom(k, _) => k@,
    }
}

/// An object has the kind of the model that it is made from.
pub proof fn target_has_the_kind_of_its_model(t: TargetObject, m: TargetModel)
    requires
        target_matches(t, m),
    ensures
        target_kind(t) == model_kind(m),
{
}

/// The kinds whose events have no object of their own are exactly `access_revoked`, `block`,
/// `unblock`, `follow`, `unfollow` and `user_update`, and the object read for such a kind is
/// the one of that kind: `block` gives `Block`, `unblock` gives `Unblock`, and so on.
pub proof fn labels_have_their_kind(kind: Seq<char>)
    ensures
        label_of(kind) is Some <==> (kind == "access_revoked"@ || kind == "block"@ || kind
            == "unblock"@ || kind == "follow"@ || kind == "unfollow"@ || kind == "user_update"@),
        label_of(kind) matches Some(m) ==> model_kind(m) == kind,
{
}

/// The object read for an event has the kind that the `event` member names: a known kind
/// gives the object of that kind, any other kind a custom object under that name.
pub proof fn resolved_object_has_the_event_kind(kind: String, v: JsonValue)
    ensures
        resolve(kind, v) matches Ok(m) ==> model_kind(m) == kind@,
{
    reveal(resolve);
}

/// What is known while the members of an event are read.
pub struct EventState {
    pub created_at: Option<i64>,
    pub target: Option<User>,
    pub source: Option<User>,
    pub target_object: Option<TargetModel>,
    /// The kind named by `event`, while its object has not been read.
    pub kind: Option<String>,
    /// The `target_object` member, while the kind has not been read.
    pub pending: Option<JsonValue>,
}

pub open spec fn initial_state() -> EventState {
    EventState {
        created_at: None,
        target: None,
        source: None,
        target_object: None,
        kind: None,
        pending: None,
    }
}

/// Reads one member.
#[verifier::opaque]
pub open spec fn event_step(k: Seq<char>, v: JsonValue, st: EventState) -> Result<
    EventState,
    DecodeError,
> {
    if k == "created_at"@ {
        match v {
            JsonValue::String(s) => match parsed_utc_timestamp(s@, TWITTER_DATE_FORMAT@) {
                Some(t) => Ok(EventState { created_at: Some(t), ..st }),
                None => Err(DecodeError::InvalidDate),
            },
            _ => Err(DecodeError::InvalidType),
        }
    } else if k == "event"@ {
        match v {
            JsonValue::String(e) => match st.pending {
                Some(p) => match resolve(e, p) {
                    Ok(m) => Ok(EventState { target_object: Some(m), pending: None, ..st }),
                    Err(x) => Err(x),
                },
                None => match label_of(e@) {
                    Some(l) => Ok(EventState { target_object: Some(l), ..st }),
                    None => Ok(EventState { target_object: None, kind: Some(e), ..st }),
                },
            },
            _ => Err(DecodeError::InvalidType),
        }
    } else if k == "target"@ {
        match spec_user(v) {
            Ok(u) => Ok(EventState { target: Some(u), ..st }),
            Err(x) => Err(x),
        }
    } else if k == "source"@ {
        match spec_user(v) {
            Ok(u) => Ok(EventState { source: Some(u), ..st }),
            Err(x) => Err(x),
        }
    } else if k == "target_object"@ {
        match st.kind {
            Some(e) => match resolve(e, v) {
                Ok(m) => Ok(EventState { target_object: Some(m), kind: None, ..st }),
                Err(x) => Err(x),
            },
            None => if st.target_object is None {
                Ok(EventState { pending: Some(v), ..st })
            } else {
                Ok(st)
            },
        }
    } else {
        Ok(st)
    }
}

pub open spec fn complete(st: EventState) -> bool {
    st.created_at is Some && st.target is Some && st.source is Some && st.target_object is Some
}

pub open spec fn model_of(st: EventState) -> EventModel {
    EventModel {
        created_at: st.created_at->Some_0,
        target: st.target->Some_0,
        source: st.source->Some_0,
        target_object: st.target_object->Some_0,
    }
}

/// The error when the members ran out before all parts were known.
pub open spec fn missing_part(st: EventState) -> DecodeError {
    if st.created_at is None {
        DecodeError::MissingField("created_at")
    } else if st.target is None {
        DecodeError::MissingField("target")
    } else if st.source is None {
        DecodeError::MissingField("source")
    } else if st.pending is Some {
        DecodeError::MissingField("event")
    } else {
        DecodeError::MissingField("target_object")
    }
}

/// Reads the members in order, stopping once all parts are known.
pub open spec fn event_scan(es: Seq<(String, JsonValue)>, st: EventState) -> Result<
    EventModel,
    DecodeError,
>
    decreases es.len(),
{
    if es.len() == 0 {
        if complete(st) {
            Ok(model_of(st))
        } else {
            Err(missing_part(st))
        }
    } else {
        match event_step(es[0].0@, es[0].1, st) {
            Err(e) => Err(e),
            Ok(st2) => if complete(st2) {
                Ok(model_of(st2))
            } else {
                event_scan(es.drop_first(), st2)
            },
        }
    }
}

pub open spec fn spec_event(v: JsonValue) -> Result<EventModel, DecodeError> {
    match v {
        JsonValue::Object(es) => event_scan(es@, initial_state()),
        _ => Err(DecodeError::InvalidType),
    }
}

fn label_kind(kind: &str) -> (r: Option<TargetObject>)
    ensures
        r matches Some(t) ==> target_kind(t) == kind@,
        match label_of(kind@) {
            Some(m) => r matches Some(t) && target_matches(t, m),
            None => r is None,
        },
{
    if str_eq(kind, "access_revoked") {
        Some(TargetObject::AccessRevoked)
    } else if str_eq(kind, "block") {
        Some(TargetObject::Block)
    } else if str_eq(kind, "unblock") {
        Some(TargetObject::Unblock)
    } else if str_eq(kind, "follow") {
        Some(TargetObject::Follow)
    } else if str_eq(kind, "unfollow") {
        Some(TargetObject::Unfollow)
    } else if str_eq(kind, "user_update") {
        Some(TargetObject::UserUpdate)
    } else {
        None
    }
}

fn tweet_of(v: &JsonValue) -> (r: Result<Box<Tweet>, DecodeError>)
    ensures
        match spec_record(*v, tweet_fields()) {
            Ok(_) => r matches Ok(t) && tweet_matches(*t, *v),
            Err(e) => r == Err::<Box<Tweet>, DecodeError>(e),
        },
{
    match Tweet::from_json(v) {
        Ok(t) => Ok(Box::new(t)),
        Err(e) => Err(e),
    }
}

/// Reads the object of an event of the given kind.
fn resolve_target(kind: &String, v: &JsonValue) -> (r: Result<TargetObject, DecodeError>)
    ensures
        match resolve(*kind, *v) {
            Ok(m) => r matches Ok(t) && target_matches(t, m),
            Err(e) => r matches Err(e2) && e2 == e,
        },
{
    reveal(resolve);
    let k = kind.as_str();
    if str_eq(k, "favorite") {
        return match tweet_of(v) {
            Ok(t) => Ok(TargetObject::Favorite(t)),
            Err(e) => Err(e),
        };
    } else if str_eq(k, "unfavorite") {
        return match tweet_of(v) {
            Ok(t) => Ok(TargetObject::Unfavorite(t)),
            Err(e) => Err(e),
        };
    } else if str_eq(k, "quoted_tweet") {
        return match tweet_of(v) {
            Ok(t) => Ok(TargetObject::QuotedTweet(t)),
            Err(e) => Err(e),
        };
    }
    let lists = str_eq(k, "list_created") || str_eq(k, "list_destroyed") || str_eq(k, "list_updated")
        || str_eq(k, "list_member_added") || str_eq(k, "list_member_removed") || str_eq(
        k,
        "list_user_subscribed",
    ) || str_eq(k, "list_user_unsubscribed");
    if lists {
        let l = match List::from_json(v) {
            Ok(l) => l,
            Err(e) => {
                return Err(e);
            },
        };
        return if str_eq(k, "list_created") {
            Ok(TargetObject::ListCreated(l))
        } else if str_eq(k, "list_destroyed") {
            Ok(TargetObject::ListDestroyed(l))
        } else if str_eq(k, "list_updated") {
            Ok(TargetObject::ListUpdated(l))
        } else if str_eq(k, "list_member_added") {
            Ok(TargetObject::ListMemberAdded(l))
        } else if str_eq(k, "list_member_removed") {
            Ok(TargetObject::ListMemberRemoved(l))
        } else if str_eq(k, "list_user_subscribed") {
            Ok(TargetObject::ListUserSubscribed(l))
        } else {
            Ok(TargetObject::ListUserUnsubscribed(l))
        };
    }
    match label_kind(k) {
        Some(t) => Ok(t),
        None => Ok(TargetObject::Custom(kind.clone(), v.copy())),
    }
}

/// The exec state of a scan is what the ghost state says.
pub open spec fn state_matches(
    es: Seq<(String, JsonValue)>,
    st: EventState,
    created_at: Option<i64>,
    target: Option<User>,
    source: Option<User>,
    target_object: Option<TargetObject>,
    kind: Option<String>,
    pending: Option<usize>,
) -> bool {
    &&& created_at == st.created_at
    &&& target == st.target
    &&& source == st.source
    &&& (target_object is None <==> st.target_object is None)
    &&& (target_object matches Some(t) ==> target_matches(t, st.target_object->Some_0))
    &&& kind == st.kind
    &&& match pending {
        None => st.pending is None,
        Some(p) => p < es.len() && st.pending == Some(es[p as int].1),
    }
}

/// The parts of an event found so far.
struct EventScan {
    created_at: Option<i64>,
    target: Option<User>,
    source: Option<User>,
    target_object: Option<TargetObject>,
    kind: Option<String>,
    pending: Option<usize>,
}

spec fn scan_matches(es: Seq<(String, JsonValue)>, st: EventState, sc: EventScan) -> bool {
    state_matches(es, st, sc.created_at, sc.target, sc.source, sc.target_object, sc.kind, sc.pending)
}

/// The result of reading a member, compared with the step of the specification.
spec fn step_agrees(
    r: Result<(), DecodeError>,
    es: Seq<(String, JsonValue)>,
    i: int,
    st: EventState,
    sc: EventScan,
) -> bool {
    match event_step(es[i].0@, es[i].1, st) {
        Ok(st2) => r is Ok && scan_matches(es, st2, sc),
        Err(e) => r == Err::<(), DecodeError>(e),
    }
}

fn read_event_member(
    sc: &mut EventScan,
    es: &Vec<(String, JsonValue)>,
    i: usize,
    Ghost(st): Ghost<EventState>,
) -> (r: Result<(), DecodeError>)
    requires
        i < es@.len(),
        es@[i as int].0@ == "event"@,
        es@[i as int].0@ != "created_at"@,
        scan_matches(es@, st, *old(sc)),
    ensures
        step_agrees(r, es@, i as int, st, *final(sc)),
{
    reveal(event_step);
    match &es[i].1 {
        JsonValue::String(e) => match sc.pending {
            Some(p) => match resolve_target(e, &es[p].1) {
                Ok(t) => {
                    sc.target_object = Some(t);
                    sc.pending = None;
                    Ok(())
                },
                Err(x) => Err(x),
            },
            None => match label_kind(e.as_str()) {
                Some(t) => {
                    sc.target_object = Some(t);
                    Ok(())
                },
                None => {
                    sc.target_object = None;
                    sc.kind = Some(e.clone());
                    Ok(())
                },
            },
        },
        _ => Err(DecodeError::InvalidType),
    }
}

fn read_target_object_member(
    sc: &mut EventScan,
    es: &Vec<(String, JsonValue)>,
    i: usize,
    Ghost(st): Ghost<EventState>,
) -> (r: Result<(), DecodeError>)
    requires
        i < es@.len(),
        es@[i as int].0@ == "target_object"@,
        es@[i as int].0@ != "created_at"@,
        es@[i as int].0@ != "event"@,
        es@[i as int].0@ != "target"@,
        es@[i as int].0@ != "source"@,
        scan_matches(es@, st, *old(sc)),
    ensures
        step_agrees(r, es@, i as int, st, *final(sc)),
{
    reveal(event_step);
    match &sc.kind {
        Some(e) => match resolve_target(e, &es[i].1) {
            Ok(t) => {
                sc.target_object = Some(t);
                sc.kind = None;
                Ok(())
            },
            Err(x) => Err(x),
        },
        None => {
            if sc.target_object.is_none() {
                sc.pending = Some(i);
            }
            Ok(())
        },
    }
}

fn read_member(
    sc: &mut EventScan,
    es: &Vec<(String, JsonValue)>,
    i: usize,
    Ghost(st): Ghost<EventState>,
) -> (r: Result<(), DecodeError>)
    requires
        i < es@.len(),
        scan_matches(es@, st, *old(sc)),
    ensures
        step_agrees(r, es@, i as int, st, *final(sc)),
{
    reveal(event_step);
    let k = es[i].0.as_str();
    let val = &es[i].1;
    if str_eq(k, "created_at") {
        match val {
            JsonValue::String(s) => match parse_datetime(s.as_str()) {
                Ok(t) => {
                    sc.created_at = Some(t);
                    Ok(())
                },
                Err(_) => Err(DecodeError::InvalidDate),
            },
            _ => Err(DecodeError::InvalidType),
        }
    } else if str_eq(k, "event") {
        read_event_member(sc, es, i, Ghost(st))
    } else if str_eq(k, "target") {
        match User::from_json(val) {
            Ok(u) => {
                sc.target = Some(u);
                Ok(())
            },
            Err(x) => Err(x),
        }
    } else if str_eq(k, "source") {
        match User::from_json(val) {
            Ok(u) => {
                sc.source = Some(u);
                Ok(())
            },
            Err(x) => Err(x),
        }
    } else if str_eq(k, "target_object") {
        read_target_object_member(sc, es, i, Ghost(st))
    } else {
        Ok(())
    }
}

impl Event {
    /// Decodes an event.
    pub fn from_json(v: &JsonValue) -> (r: Result<Event, DecodeError>)
        ensures
            match spec_event(*v) {
                Ok(m) => r matches Ok(e) && event_matches(e, m),
                Err(e) => r matches Err(e2) && e2 == e,
            },
    {
        let es = match v {
            JsonValue::Object(es) => es,
            _ => {
                return Err(DecodeError::InvalidType);
            },
        };
        let mut sc = EventScan {
            created_at: None,
            target: None,
            source: None,
            target_object: None,
            kind: None,
            pending: None,
        };
        let ghost mut st = initial_state();
        let mut i: usize = 0;
        proof {
            assert(es@.skip(0) =~= es@);
        }
        while i < es.len()
            invariant
                *v == JsonValue::Object(*es),
                i <= es@.len(),
                spec_event(*v) == event_scan(es@.skip(i as int), st),
                scan_matches(es@, st, sc),
                !complete(st),
            decreases es@.len() - i,
        {
            proof {
                assert(es@.skip(i as int).drop_first() =~= es@.skip(i + 1));
                assert(es@.skip(i as int)[0] == es@[i as int]);
            }
            let ghost st2 = event_step(es@[i as int].0@, es@[i as int].1, st)->Ok_0;
            if let Err(e) = read_member(&mut sc, es, i, Ghost(st)) {
                return Err(e);
            }
            proof {
                st = st2;
            }
            if sc.created_at.is_some() && sc.target.is_some() && sc.source.is_some()
                && sc.target_object.is_some() {
                return Ok(
                    Event {
                        created_at: sc.created_at.unwrap(),
                        target: sc.target.unwrap(),
                        source: sc.source.unwrap(),
                        target_object: sc.target_object.unwrap(),
                    },
                );
            }
            i = i + 1;
        }
        proof {
            assert(es@.skip(i as int) =~= Seq::<(String, JsonValue)>::empty());
        }
        if sc.created_at.is_none() {
            Err(DecodeError::MissingField("created_at"))
        } else if sc.target.is_none() {
            Err(DecodeError::MissingField("target"))
        } else if sc.source.is_none() {
            Err(DecodeError::MissingField("source"))
        } else if sc.pending.is_some() {
            Err(DecodeError::MissingField("event"))
        } else {
            Err(DecodeError::MissingField("target_object"))
        }
    }
}

/// `v` is a string that names the date `t`.
pub open spec fn names_date(v: JsonValue, t: i64) -> bool {
    v matches JsonValue::String(s) && parsed_utc_timestamp(s@, TWITTER_DATE_FORMAT@) == Some(t)
}

/// `v` is a string whose text is `kind`.
pub open spec fn names_kind(v: JsonValue, kind: Seq<char>) -> bool {
    v matches JsonValue::String(e) && e@ == kind
}

/// Each part known after the first `n` members were read comes from one of them that has the
/// part's name; so does a kind that waits for its object.
spec fn parts_from_members(es: Seq<(String, JsonValue)>, n: int, st: EventState) -> bool {
    &&& st.created_at matches Some(t) ==> exists|i: int|
        #![trigger es[i]]
        0 <= i < n && es[i].0@ == "created_at"@ && names_date(es[i].1, t)
    &&& st.target matches Some(u) ==> exists|i: int|
        #![trigger es[i]]
        0 <= i < n && es[i].0@ == "target"@ && spec_user(es[i].1) == Ok::<User, DecodeError>(u)
    &&& st.source matches Some(u) ==> exists|i: int|
        #![trigger es[i]]
        0 <= i < n && es[i].0@ == "source"@ && spec_user(es[i].1) == Ok::<User, DecodeError>(u)
    &&& st.target_object matches Some(m) ==> exists|i: int|
        #![trigger es[i]]
        0 <= i < n && es[i].0@ == "event"@ && names_kind(es[i].1, model_kind(m))
    &&& st.kind matches Some(e) ==> exists|i: int|
        #![trigger es[i]]
        0 <= i < n && es[i].0@ == "event"@ && es[i].1 == JsonValue::String(e)
}

/// Reading a member keeps each part tied to a member of its name.
proof fn lemma_event_step_parts(es: Seq<(String, JsonValue)>, n: int, st: EventState)
    requires
        0 <= n < es.len(),
        parts_from_members(es, n, st),
    ensures
        event_step(es[n].0@, es[n].1, st) matches Ok(st2) ==> parts_from_members(es, n + 1, st2),
{
    reveal(event_step);
    let k = es[n].0@;
    let v = es[n].1;
    if k == "created_at"@ {
    } else if k == "event"@ {
        if let JsonValue::String(e) = v {
            match st.pending {
                Some(p) => resolved_object_has_the_event_kind(e, p),
                None => labels_have_their_kind(e@),
            }
        }
    } else if k == "target"@ {
    } else if k == "source"@ {
    } else if k == "target_object"@ {
        if let Some(e) = st.kind {
            resolved_object_has_the_event_kind(e, v);
        }
    }
}

/// Scanning the members keeps each part tied to a member of its name.
proof fn lemma_event_scan_parts(es: Seq<(String, JsonValue)>, n: int, st: EventState)
    requires
        0 <= n <= es.len(),
        parts_from_members(es, n, st),
    ensures
        event_scan(es.skip(n), st) matches Ok(m) ==> parts_from_members(
            es,
            es.len() as int,
            EventState {
                created_at: Some(m.created_at),
                target: Some(m.target),
                source: Some(m.source),
                target_object: Some(m.target_object),
                kind: None,
                pending: None,
            },
        ),
    decreases es.len() - n,
{
    if n < es.len() {
        assert(es.skip(n)[0] == es[n]);
        assert(es.skip(n).drop_first() =~= es.skip(n + 1));
        lemma_event_step_parts(es, n, st);
        if let Ok(st2) = event_step(es[n].0@, es[n].1, st) {
            lemma_event_scan_parts(es, n + 1, st2);
        }
    }
}

/// Each part of an event comes from a member of its name, whatever the order of the members:
/// its date from a member `created_at`, its target and its source from members `target` and
/// `source`, and its object is of the kind that a member `event` names (`block` gives
/// `Block`, `unblock` gives `Unblock`, any other kind its own).
pub proof fn event_parts_come_from_their_members(v: JsonValue)
    ensures
        spec_event(v) matches Ok(m) ==> v is Object && {
            let es = v->Object_0@;
            &&& exists|i: int|
                #![trigger es[i]]
                0 <= i < es.len() && es[i].0@ == "created_at"@ && names_date(es[i].1, m.created_at)
            &&& exists|i: int|
                #![trigger es[i]]
                0 <= i < es.len() && es[i].0@ == "target"@ && spec_user(es[i].1) == Ok::<
                    User,
                    DecodeError,
                >(m.target)
            &&& exists|i: int|
                #![trigger es[i]]
                0 <= i < es.len() && es[i].0@ == "source"@ && spec_user(es[i].1) == Ok::<
                    User,
                    DecodeError,
                >(m.source)
            &&& exists|i: int|
                #![trigger es[i]]
                0 <= i < es.len() && es[i].0@ == "event"@ && names_kind(
                    es[i].1,
                    model_kind(m.target_object),
                )
        },
{
    if let JsonValue::Object(es) = v {
        assert(es@.skip(0) =~= es@);
        lemma_event_scan_parts(es@, 0, initial_state());
    }
}

} // verus!
