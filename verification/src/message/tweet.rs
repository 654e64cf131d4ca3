//! Fields of a Tweet that are read with rules of their own.

use vstd::prelude::*;

use crate::json::{
    decode_string_vec, decode_u64, members_view, spec_string_seq, spec_u64, str_eq, DecodeError,
    JsonValue,
};
use crate::message::entities::{entities_view, read_entities, spec_entities, Entities};
use crate::message::geometry::{spec_geometry, Geometry};
use crate::message::place::{place_view, spec_place, Place};
use crate::message::record::{
    bool_value, date_value, decode_record, lemma_record_ok, opt_bool_value, opt_str_value,
    member_or_null, names_distinct, opt_u64_value, read_bool, read_date, read_opt_bool, read_opt_str, read_opt_u64, read_str,
    read_u64, record_fields_come_from_their_members, spec_record, str_value, u64_value, value_ok, FieldType,
};
use crate::message::user::{read_user, spec_user, User};
use crate::stream_builder::{filter_level_text, FilterLevel};

verus! {

/// The `current_user_retweet` member: the first `id` member of an object (the other members
/// are not looked at).
pub open spec fn retweet_scan(es: Seq<(String, JsonValue)>) -> Result<Option<u64>, DecodeError>
    decreases es.len(),
{
    if es.len() == 0 {
        Err(DecodeError::MissingField("id"))
    } else if es[0].0@ == "id"@ {
        match spec_u64(es[0].1) {
            Ok(n) => Ok(Some(n)),
            Err(e) => Err(e),
        }
    } else {
        retweet_scan(es.drop_first())
    }
}

pub open spec fn spec_current_user_retweet(v: JsonValue) -> Result<Option<u64>, DecodeError> {
    match v {
        JsonValue::Object(es) => retweet_scan(es@),
        _ => Err(DecodeError::InvalidType),
    }
}

/// Reads the `current_user_retweet` member of a Tweet: the ID of the user's retweet.
pub fn current_user_retweet(v: &JsonValue) -> (r: Result<Option<u64>, DecodeError>)
    ensures
        r == spec_current_user_retweet(*v),
{
    match v {
        JsonValue::Object(es) => {
            let mut i: usize = 0;
            proof {
                assert(es@.skip(0) =~= es@);
            }
            while i < es.len()
                invariant
                    *v == JsonValue::Object(*es),
                    i <= es@.len(),
                    spec_current_user_retweet(*v) == retweet_scan(es@.skip(i as int)),
                decreases es@.len() - i,
            {
                proof {
                    assert(es@.skip(i as int).drop_first() =~= es@.skip(i + 1));
                    assert(es@.skip(i as int)[0] == es@[i as int]);
                }
                if str_eq(es[i].0.as_str(), "id") {
                    return match decode_u64(&es[i].1) {
                        Ok(n) => Ok(Some(n)),
                        Err(e) => Err(e),
                    };
                }
                i = i + 1;
            }
            proof {
                assert(es@.skip(i as int) =~= Seq::<(String, JsonValue)>::empty());
            }
            Err(DecodeError::MissingField("id"))
        },
        _ => Err(DecodeError::InvalidType),
    }
}

/// A string that may be `null`: `null` reads as the empty string.
pub open spec fn spec_nullable_string(v: JsonValue) -> Result<Seq<char>, DecodeError> {
    match v {
        JsonValue::String(s) => Ok(s@),
        JsonValue::Null => Ok(Seq::empty()),
        _ => Err(DecodeError::InvalidType),
    }
}

/// Reads a string that may be `null` (as the empty string).
pub fn nullable_string(v: &JsonValue) -> (r: Result<String, DecodeError>)
    ensures
        match spec_nullable_string(*v) {
            Ok(s) => r matches Ok(t) && t@ == s,
            Err(e) => r == Err::<String, DecodeError>(e),
        },
{
    match v {
        JsonValue::String(s) => Ok(s.clone()),
        JsonValue::Null => Ok(String::new()),
        _ => Err(DecodeError::InvalidType),
    }
}

/// Where a Tweet's content is withheld.
#[derive(Clone, Debug)]
pub enum WithheldScope {
    Status,
    User,
    /// Another value.
    Custom(String),
}

pub open spec fn withheld_scope_text(w: WithheldScope) -> Seq<char> {
    match w {
        WithheldScope::Status => "status"@,
        WithheldScope::User => "user"@,
        WithheldScope::Custom(s) => s@,
    }
}

/// The value that a `withheld_scope` text stands for.
pub open spec fn spec_withheld_scope(s: String) -> WithheldScope {
    if s@ == "status"@ {
        WithheldScope::Status
    } else if s@ == "user"@ {
        WithheldScope::User
    } else {
        WithheldScope::Custom(s)
    }
}

/// The known scopes are the API's words: a scope's text is "status" exactly when it is
/// `Status` or a custom scope of that text, and "user" exactly when it is `User` or a custom
/// scope of that text; and the scope read from a text has that text.
pub proof fn withheld_scope_texts_are_the_api_words(x: WithheldScope, s: String)
    ensures
        withheld_scope_text(x) == "status"@ <==> (x is Status || (x matches WithheldScope::Custom(c) && c@ == "status"@)),
        withheld_scope_text(x) == "user"@ <==> (x is User || (x matches WithheldScope::Custom(c) && c@ == "user"@)),
        withheld_scope_text(spec_withheld_scope(s)) == s@,
{
    reveal_strlit("status");
    reveal_strlit("user");
    assert("status"@.len() == 6 && "user"@.len() == 4);
}

impl WithheldScope {
    /// The text of the value.
    pub fn as_str(&self) -> (r: &str)
        ensures
            r@ == withheld_scope_text(*self),
    {
        match self {
            WithheldScope::Status => "status",
            WithheldScope::User => "user",
            WithheldScope::Custom(s) => s.as_str(),
        }
    }

    /// The value that a text stands for.
    pub fn from_text(s: String) -> (r: WithheldScope)
        ensures
            r == spec_withheld_scope(s),
    {
        if str_eq(s.as_str(), "status") {
            WithheldScope::Status
        } else if str_eq(s.as_str(), "user") {
            WithheldScope::User
        } else {
            WithheldScope::Custom(s)
        }
    }
}

/// Two values are equal when their texts are: a custom value equals the known value of the
/// same text.
impl PartialEq for WithheldScope {
    fn eq(&self, other: &Self) -> (r: bool) {
        str_eq(self.as_str(), other.as_str())
    }
}

impl vstd::std_specs::cmp::PartialEqSpecImpl for WithheldScope {
    open spec fn obeys_eq_spec() -> bool {
        true
    }

    open spec fn eq_spec(&self, other: &Self) -> bool {
        withheld_scope_text(*self) == withheld_scope_text(*other)
    }
}

impl Eq for WithheldScope {

}

/// The filter level that a text stands for.
pub open spec fn spec_filter_level(s: String) -> FilterLevel {
    if s@ == "none"@ {
        FilterLevel::Off
    } else if s@ == "low"@ {
        FilterLevel::Low
    } else if s@ == "medium"@ {
        FilterLevel::Medium
    } else {
        FilterLevel::Custom(s)
    }
}

/// The filter level read from a text has that text.
pub proof fn filter_level_read_from_text_has_that_text(s: String)
    ensures
        filter_level_text(spec_filter_level(s)) == s@,
{
}

/// The filter level that a text stands for.
pub fn filter_level_from_text(s: String) -> (r: FilterLevel)
    ensures
        r == spec_filter_level(s),
{
    if str_eq(s.as_str(), "none") {
        FilterLevel::Off
    } else if str_eq(s.as_str(), "low") {
        FilterLevel::Low
    } else if str_eq(s.as_str(), "medium") {
        FilterLevel::Medium
    } else {
        FilterLevel::Custom(s)
    }
}

/// A Tweet.
#[derive(Debug)]
pub struct Tweet {
    pub coordinates: Option<Geometry>,
    /// When the Tweet was created, in seconds since the Unix epoch.
    pub created_at: i64,
    pub current_user_retweet: Option<u64>,
    pub entities: Entities,
    pub favorite_count: Option<u64>,
    pub favorited: Option<bool>,
    pub filter_level: Option<FilterLevel>,
    pub id: u64,
    pub in_reply_to_screen_name: Option<String>,
    pub in_reply_to_status_id: Option<u64>,
    pub in_reply_to_user_id: Option<u64>,
    pub is_quote_status: bool,
    pub lang: Option<String>,
    pub place: Option<Place>,
    pub possibly_sensitive: Option<bool>,
    pub quoted_status_id: Option<u64>,
    pub quoted_status: Option<Box<Tweet>>,
    /// The members of the `scopes` object, in the order in which they were written.
    pub scopes: Option<Vec<(String, JsonValue)>>,
    pub retweet_count: u64,
    pub retweeted: bool,
    pub retweeted_status: Option<Box<Tweet>>,
    pub source: String,
    pub text: String,
    pub truncated: bool,
    pub user: User,
    /// `false` where the member is missing.
    pub withheld_copyright: bool,
    /// Empty where the member is missing.
    pub withheld_in_countries: Vec<String>,
    pub withheld_scope: Option<WithheldScope>,
}

/// The members of a Tweet object, in the order in which they are declared.
pub open spec fn tweet_fields() -> Seq<(&'static str, FieldType)> {
    seq![
        ("coordinates", FieldType::OptGeometry),
        ("created_at", FieldType::DateTime),
        ("current_user_retweet", FieldType::CurRetweet),
        ("entities", FieldType::EntitiesRec),
        ("favorite_count", FieldType::OptU64),
        ("favorited", FieldType::OptBool),
        ("filter_level", FieldType::OptStr),
        ("id", FieldType::U64),
        ("in_reply_to_screen_name", FieldType::OptStr),
        ("in_reply_to_status_id", FieldType::OptU64),
        ("in_reply_to_user_id", FieldType::OptU64),
        ("is_quote_status", FieldType::Bool),
        ("lang", FieldType::OptStr),
        ("place", FieldType::OptPlace),
        ("possibly_sensitive", FieldType::OptBool),
        ("quoted_status_id", FieldType::OptU64),
        ("quoted_status", FieldType::OptTweet),
        ("scopes", FieldType::OptObject),
        ("retweet_count", FieldType::U64),
        ("retweeted", FieldType::Bool),
        ("retweeted_status", FieldType::OptTweet),
        ("source", FieldType::Str),
        ("text", FieldType::Str),
        ("truncated", FieldType::Bool),
        ("user", FieldType::UserRec),
        ("withheld_copyright", FieldType::DefaultBool),
        ("withheld_in_countries", FieldType::DefaultStrList),
        ("withheld_scope", FieldType::OptStr),
    ]
}

/// The members of a Tweet have distinct names.
#[verifier::rlimit(100)]
proof fn lemma_tweet_names_distinct()
    ensures
        names_distinct(tweet_fields()),
{
    reveal_strlit("coordinates");
    reveal_strlit("created_at");
    reveal_strlit("current_user_retweet");
    reveal_strlit("entities");
    reveal_strlit("favorite_count");
    reveal_strlit("favorited");
    reveal_strlit("filter_level");
    reveal_strlit("id");
    reveal_strlit("in_reply_to_screen_name");
    reveal_strlit("in_reply_to_status_id");
    reveal_strlit("in_reply_to_user_id");
    reveal_strlit("is_quote_status");
    reveal_strlit("lang");
    reveal_strlit("place");
    reveal_strlit("possibly_sensitive");
    reveal_strlit("quoted_status_id");
    reveal_strlit("quoted_status");
    reveal_strlit("scopes");
    reveal_strlit("retweet_count");
    reveal_strlit("retweeted");
    reveal_strlit("retweeted_status");
    reveal_strlit("source");
    reveal_strlit("text");
    reveal_strlit("truncated");
    reveal_strlit("user");
    reveal_strlit("withheld_copyright");
    reveal_strlit("withheld_in_countries");
    reveal_strlit("withheld_scope");
    assert("coordinates"@.len() == 11 && "coordinates"@[0] == 'c' && "coordinates"@[1] == 'o');
    assert("created_at"@.len() == 10 && "created_at"@[0] == 'c' && "created_at"@[1] == 'r');
    assert("current_user_retweet"@.len() == 20 && "current_user_retweet"@[0] == 'c' && "current_user_retweet"@[1] == 'u');
    assert("entities"@.len() == 8 && "entities"@[0] == 'e' && "entities"@[1] == 'n');
    assert("favorite_count"@.len() == 14 && "favorite_count"@[0] == 'f' && "favorite_count"@[1] == 'a');
    assert("favorited"@.len() == 9 && "favorited"@[0] == 'f' && "favorited"@[1] == 'a');
    assert("filter_level"@.len() == 12 && "filter_level"@[0] == 'f' && "filter_level"@[1] == 'i');
    assert("id"@.len() == 2 && "id"@[0] == 'i' && "id"@[1] == 'd');
    assert("in_reply_to_screen_name"@.len() == 23 && "in_reply_to_screen_name"@[0] == 'i' && "in_reply_to_screen_name"@[1] == 'n');
    assert("in_reply_to_status_id"@.len() == 21 && "in_reply_to_status_id"@[0] == 'i' && "in_reply_to_status_id"@[1] == 'n');
    assert("in_reply_to_user_id"@.len() == 19 && "in_reply_to_user_id"@[0] == 'i' && "in_reply_to_user_id"@[1] == 'n');
    assert("is_quote_status"@.len() == 15 && "is_quote_status"@[0] == 'i' && "is_quote_status"@[1] == 's');
    assert("lang"@.len() == 4 && "lang"@[0] == 'l' && "lang"@[1] == 'a');
    assert("place"@.len() == 5 && "place"@[0] == 'p' && "place"@[1] == 'l');
    assert("possibly_sensitive"@.len() == 18 && "possibly_sensitive"@[0] == 'p' && "possibly_sensitive"@[1] == 'o');
    assert("quoted_status_id"@.len() == 16 && "quoted_status_id"@[0] == 'q' && "quoted_status_id"@[1] == 'u');
    assert("quoted_status"@.len() == 13 && "quoted_status"@[0] == 'q' && "quoted_status"@[1] == 'u');
    assert("scopes"@.len() == 6 && "scopes"@[0] == 's' && "scopes"@[1] == 'c');
    assert("retweet_count"@.len() == 13 && "retweet_count"@[0] == 'r' && "retweet_count"@[1] == 'e');
    assert("retweeted"@.len() == 9 && "retweeted"@[0] == 'r' && "retweeted"@[1] == 'e');
    assert("retweeted_status"@.len() == 16 && "retweeted_status"@[0] == 'r' && "retweeted_status"@[1] == 'e');
    assert("source"@.len() == 6 && "source"@[0] == 's' && "source"@[1] == 'o');
    assert("text"@.len() == 4 && "text"@[0] == 't' && "text"@[1] == 'e');
    assert("truncated"@.len() == 9 && "truncated"@[0] == 't' && "truncated"@[1] == 'r');
    assert("user"@.len() == 4 && "user"@[0] == 'u' && "user"@[1] == 's');
    assert("withheld_copyright"@.len() == 18 && "withheld_copyright"@[0] == 'w' && "withheld_copyright"@[1] == 'i');
    assert("withheld_in_countries"@.len() == 21 && "withheld_in_countries"@[0] == 'w' && "withheld_in_countries"@[1] == 'i');
    assert("withheld_scope"@.len() == 14 && "withheld_scope"@[0] == 'w' && "withheld_scope"@[1] == 'i');
}

pub(crate) fn tweet_fields_vec() -> (r: Vec<(&'static str, FieldType)>)
    ensures
        r@ == tweet_fields(),
{
    let r = vec![
        ("coordinates", FieldType::OptGeometry),
        ("created_at", FieldType::DateTime),
        ("current_user_retweet", FieldType::CurRetweet),
        ("entities", FieldType::EntitiesRec),
        ("favorite_count", FieldType::OptU64),
        ("favorited", FieldType::OptBool),
        ("filter_level", FieldType::OptStr),
        ("id", FieldType::U64),
        ("in_reply_to_screen_name", FieldType::OptStr),
        ("in_reply_to_status_id", FieldType::OptU64),
        ("in_reply_to_user_id", FieldType::OptU64),
        ("is_quote_status", FieldType::Bool),
        ("lang", FieldType::OptStr),
        ("place", FieldType::OptPlace),
        ("possibly_sensitive", FieldType::OptBool),
        ("quoted_status_id", FieldType::OptU64),
        ("quoted_status", FieldType::OptTweet),
        ("scopes", FieldType::OptObject),
        ("retweet_count", FieldType::U64),
        ("retweeted", FieldType::Bool),
        ("retweeted_status", FieldType::OptTweet),
        ("source", FieldType::Str),
        ("text", FieldType::Str),
        ("truncated", FieldType::Bool),
        ("user", FieldType::UserRec),
        ("withheld_copyright", FieldType::DefaultBool),
        ("withheld_in_countries", FieldType::DefaultStrList),
        ("withheld_scope", FieldType::OptStr),
    ];
    proof {
        assert(r@ =~= tweet_fields());
    }
    r
}

pub open spec fn cur_value(v: JsonValue) -> Option<u64> {
    match v {
        JsonValue::Null => None,
        _ => spec_current_user_retweet(v)->Ok_0,
    }
}

pub open spec fn default_bool_value(v: JsonValue) -> bool {
    match v {
        JsonValue::Bool(b) => b,
        _ => false,
    }
}

pub open spec fn default_texts(v: JsonValue) -> Seq<String> {
    match v {
        JsonValue::Array(a) => spec_string_seq(a@)->Ok_0,
        _ => Seq::empty(),
    }
}

pub open spec fn opt_filter_level(v: JsonValue) -> Option<FilterLevel> {
    match v {
        JsonValue::String(s) => Some(spec_filter_level(s)),
        _ => None,
    }
}

pub open spec fn opt_withheld_scope(v: JsonValue) -> Option<WithheldScope> {
    match v {
        JsonValue::String(s) => Some(spec_withheld_scope(s)),
        _ => None,
    }
}

/// A Tweet is what a JSON value describes: each member read by its rule, the Tweets it quotes
/// or retweets in turn.
pub open spec fn tweet_matches(t: Tweet, v: JsonValue) -> bool
    decreases t,
{
    match spec_record(v, tweet_fields()) {
        Err(_) => false,
        Ok(vals) => {
            &&& match t.coordinates {
                None => vals[0] is Null,
                Some(g) => !(vals[0] is Null) && spec_geometry(vals[0]) == Ok::<_, DecodeError>(g@),
            }
            &&& t.created_at == date_value(vals[1])
            &&& t.current_user_retweet == cur_value(vals[2])
            &&& entities_view(t.entities) == spec_entities(vals[3])->Ok_0
            &&& t.favorite_count == opt_u64_value(vals[4])
            &&& t.favorited == opt_bool_value(vals[5])
            &&& t.filter_level == opt_filter_level(vals[6])
            &&& t.id == u64_value(vals[7])
            &&& t.in_reply_to_screen_name == opt_str_value(vals[8])
            &&& t.in_reply_to_status_id == opt_u64_value(vals[9])
            &&& t.in_reply_to_user_id == opt_u64_value(vals[10])
            &&& t.is_quote_status == bool_value(vals[11])
            &&& t.lang == opt_str_value(vals[12])
            &&& match t.place {
                None => vals[13] is Null,
                Some(p) => !(vals[13] is Null) && spec_place(vals[13]) == Ok::<_, DecodeError>(
                    place_view(p),
                ),
            }
            &&& t.possibly_sensitive == opt_bool_value(vals[14])
            &&& t.quoted_status_id == opt_u64_value(vals[15])
            &&& match t.quoted_status {
                None => vals[16] is Null,
                Some(q) => !(vals[16] is Null) && tweet_matches(*q, vals[16]),
            }
            &&& match t.scopes {
                None => vals[17] is Null,
                Some(m) => vals[17] is Object && members_view(m@) == members_view(
                    vals[17]->Object_0@,
                ),
            }
            &&& t.retweet_count == u64_value(vals[18])
            &&& t.retweeted == bool_value(vals[19])
            &&& match t.retweeted_status {
                None => vals[20] is Null,
                Some(q) => !(vals[20] is Null) && tweet_matches(*q, vals[20]),
            }
            &&& t.source == str_value(vals[21])
            &&& t.text == str_value(vals[22])
            &&& t.truncated == bool_value(vals[23])
            &&& t.user == spec_user(vals[24])->Ok_0
            &&& t.withheld_copyright == default_bool_value(vals[25])
            &&& t.withheld_in_countries@ == default_texts(vals[26])
            &&& t.withheld_scope == opt_withheld_scope(vals[27])
        },
    }
}

/// A Tweet read from an object takes each of its fields from the member of that field's name,
/// in whatever order the members come, and `null` for an optional member that is missing:
/// `in_reply_to_status_id` from the member `in_reply_to_status_id`, `in_reply_to_user_id` from
/// the member `in_reply_to_user_id`, and so on for every field, the Tweets that it quotes or
/// retweets included.
pub proof fn tweet_fields_come_from_their_members(t: Tweet, v: JsonValue)
    requires
        v is Object,
        tweet_matches(t, v),
    ensures
        match t.coordinates {
            None => member_or_null(v, "coordinates"@) is Null,
            Some(g) => !(member_or_null(v, "coordinates"@) is Null) && spec_geometry(member_or_null(v, "coordinates"@)) == Ok::<_, DecodeError>(g@),
        },
        t.created_at == date_value(member_or_null(v, "created_at"@)),
        t.current_user_retweet == cur_value(member_or_null(v, "current_user_retweet"@)),
        entities_view(t.entities) == spec_entities(member_or_null(v, "entities"@))->Ok_0,
        t.favorite_count == opt_u64_value(member_or_null(v, "favorite_count"@)),
        t.favorited == opt_bool_value(member_or_null(v, "favorited"@)),
        t.filter_level == opt_filter_level(member_or_null(v, "filter_level"@)),
        t.id == u64_value(member_or_null(v, "id"@)),
        t.in_reply_to_screen_name == opt_str_value(member_or_null(v, "in_reply_to_screen_name"@)),
        t.in_reply_to_status_id == opt_u64_value(member_or_null(v, "in_reply_to_status_id"@)),
        t.in_reply_to_user_id == opt_u64_value(member_or_null(v, "in_reply_to_user_id"@)),
        t.is_quote_status == bool_value(member_or_null(v, "is_quote_status"@)),
        t.lang == opt_str_value(member_or_null(v, "lang"@)),
        match t.place {
            None => member_or_null(v, "place"@) is Null,
            Some(p) => !(member_or_null(v, "place"@) is Null) && spec_place(member_or_null(v, "place"@)) == Ok::<_, DecodeError>(
                place_view(p),
            ),
        },
        t.possibly_sensitive == opt_bool_value(member_or_null(v, "possibly_sensitive"@)),
        t.quoted_status_id == opt_u64_value(member_or_null(v, "quoted_status_id"@)),
        match t.quoted_status {
            None => member_or_null(v, "quoted_status"@) is Null,
            Some(q) => !(member_or_null(v, "quoted_status"@) is Null) && tweet_matches(*q, member_or_null(v, "quoted_status"@)),
        },
        match t.scopes {
            None => member_or_null(v, "scopes"@) is Null,
            Some(m) => member_or_null(v, "scopes"@) is Object && members_view(m@) == members_view(
                member_or_null(v, "scopes"@)->Object_0@,
            ),
        },
        t.retweet_count == u64_value(member_or_null(v, "retweet_count"@)),
        t.retweeted == bool_value(member_or_null(v, "retweeted"@)),
        match t.retweeted_status {
            None => member_or_null(v, "retweeted_status"@) is Null,
            Some(q) => !(member_or_null(v, "retweeted_status"@) is Null) && tweet_matches(*q, member_or_null(v, "retweeted_status"@)),
        },
        t.source == str_value(member_or_null(v, "source"@)),
        t.text == str_value(member_or_null(v, "text"@)),
        t.truncated == bool_value(member_or_null(v, "truncated"@)),
        t.user == spec_user(member_or_null(v, "user"@))->Ok_0,
        t.withheld_copyright == default_bool_value(member_or_null(v, "withheld_copyright"@)),
        t.withheld_in_countries@ == default_texts(member_or_null(v, "withheld_in_countries"@)),
        t.withheld_scope == opt_withheld_scope(member_or_null(v, "withheld_scope"@)),
{
    lemma_tweet_names_distinct();
    record_fields_come_from_their_members(v, tweet_fields());
}

fn read_cur(v: &JsonValue) -> (r: Option<u64>)
    requires
        value_ok(FieldType::CurRetweet, *v),
    ensures
        r == cur_value(*v),
{
    match v {
        JsonValue::Null => None,
        _ => match current_user_retweet(v) {
            Ok(x) => x,
            Err(_) => None,
        },
    }
}

fn read_default_bool(v: &JsonValue) -> (r: bool)
    ensures
        r == default_bool_value(*v),
{
    match v {
        JsonValue::Bool(b) => *b,
        _ => false,
    }
}

fn read_default_texts(v: &JsonValue) -> (r: Vec<String>)
    requires
        value_ok(FieldType::DefaultStrList, *v),
    ensures
        r@ == default_texts(*v),
{
    match v {
        JsonValue::Array(_) => match decode_string_vec(v) {
            Ok(x) => x,
            Err(_) => Vec::new(),
        },
        _ => Vec::new(),
    }
}

fn read_opt_filter_level(v: &JsonValue) -> (r: Option<FilterLevel>)
    ensures
        r == opt_filter_level(*v),
{
    match v {
        JsonValue::String(s) => Some(filter_level_from_text(s.clone())),
        _ => None,
    }
}

fn read_opt_withheld_scope(v: &JsonValue) -> (r: Option<WithheldScope>)
    ensures
        r == opt_withheld_scope(*v),
{
    match v {
        JsonValue::String(s) => Some(WithheldScope::from_text(s.clone())),
        _ => None,
    }
}

fn read_opt_geometry(v: &JsonValue) -> (r: Option<Geometry>)
    requires
        value_ok(FieldType::OptGeometry, *v),
    ensures
        match r {
            None => *v is Null,
            Some(g) => !(*v is Null) && spec_geometry(*v) == Ok::<_, DecodeError>(g@),
        },
{
    match v {
        JsonValue::Null => None,
        _ => match Geometry::from_json(v) {
            Ok(g) => Some(g),
            Err(_) => None,
        },
    }
}

fn read_opt_place(v: &JsonValue) -> (r: Option<Place>)
    requires
        value_ok(FieldType::OptPlace, *v),
    ensures
        match r {
            None => *v is Null,
            Some(p) => !(*v is Null) && spec_place(*v) == Ok::<_, DecodeError>(place_view(p)),
        },
{
    match v {
        JsonValue::Null => None,
        _ => match Place::from_json(v) {
            Ok(p) => Some(p),
            Err(_) => None,
        },
    }
}

fn read_opt_object(v: &JsonValue) -> (r: Option<Vec<(String, JsonValue)>>)
    requires
        value_ok(FieldType::OptObject, *v),
    ensures
        match r {
            None => *v is Null,
            Some(m) => *v is Object && members_view(m@) == members_view(v->Object_0@),
        },
{
    match v {
        JsonValue::Object(_) => match v.copy() {
            JsonValue::Object(m) => Some(m),
            _ => None,
        },
        _ => None,
    }
}

impl Tweet {
    /// Decodes a Tweet.
    pub fn from_json(v: &JsonValue) -> (r: Result<Tweet, DecodeError>)
        ensures
            match spec_record(*v, tweet_fields()) {
                Ok(_) => r matches Ok(t) && tweet_matches(t, *v),
                Err(e) => r matches Err(e2) && e2 == e,
            },
        decreases *v,
    {
        let null = JsonValue::Null;
        let fields = tweet_fields_vec();
        proof {
            lemma_record_ok(*v, tweet_fields());
        }
        match decode_record(v, &fields, &null) {
            Err(e) => Err(e),
            Ok(vals) => {
                let quoted_status = match vals[16] {
                    JsonValue::Null => None,
                    q => {
                        proof {
                            assert(decreases_to!(*v => *vals[16]));
                        }
                        match Tweet::from_json(q) {
                            Ok(t) => Some(Box::new(t)),
                            Err(_) => None,
                        }
                    },
                };
                let retweeted_status = match vals[20] {
                    JsonValue::Null => None,
                    q => {
                        proof {
                            assert(decreases_to!(*v => *vals[20]));
                        }
                        match Tweet::from_json(q) {
                            Ok(t) => Some(Box::new(t)),
                            Err(_) => None,
                        }
                    },
                };
                proof {
                    let svals = spec_record(*v, tweet_fields())->Ok_0;
                    assert(value_ok(tweet_fields()[0].1, svals[0]));
                    assert(value_ok(tweet_fields()[1].1, svals[1]));
                    assert(value_ok(tweet_fields()[2].1, svals[2]));
                    assert(value_ok(tweet_fields()[3].1, svals[3]));
                    assert(value_ok(tweet_fields()[4].1, svals[4]));
                    assert(value_ok(tweet_fields()[5].1, svals[5]));
                    assert(value_ok(tweet_fields()[6].1, svals[6]));
                    assert(value_ok(tweet_fields()[7].1, svals[7]));
                    assert(value_ok(tweet_fields()[8].1, svals[8]));
                    assert(value_ok(tweet_fields()[9].1, svals[9]));
                    assert(value_ok(tweet_fields()[10].1, svals[10]));
                    assert(value_ok(tweet_fields()[11].1, svals[11]));
                    assert(value_ok(tweet_fields()[12].1, svals[12]));
                    assert(value_ok(tweet_fields()[13].1, svals[13]));
                    assert(value_ok(tweet_fields()[14].1, svals[14]));
                    assert(value_ok(tweet_fields()[15].1, svals[15]));
                    assert(value_ok(tweet_fields()[16].1, svals[16]));
                    assert(value_ok(tweet_fields()[17].1, svals[17]));
                    assert(value_ok(tweet_fields()[18].1, svals[18]));
                    assert(value_ok(tweet_fields()[19].1, svals[19]));
                    assert(value_ok(tweet_fields()[20].1, svals[20]));
                    assert(value_ok(tweet_fields()[21].1, svals[21]));
                    assert(value_ok(tweet_fields()[22].1, svals[22]));
                    assert(value_ok(tweet_fields()[23].1, svals[23]));
                    assert(value_ok(tweet_fields()[24].1, svals[24]));
                    assert(value_ok(tweet_fields()[25].1, svals[25]));
                    assert(value_ok(tweet_fields()[26].1, svals[26]));
                    assert(value_ok(tweet_fields()[27].1, svals[27]));
                }
                let t = Tweet {
                    coordinates: read_opt_geometry(vals[0]),
                    created_at: read_date(vals[1]),
                    current_user_retweet: read_cur(vals[2]),
                    entities: read_entities(vals[3]),
                    favorite_count: read_opt_u64(vals[4]),
                    favorited: read_opt_bool(vals[5]),
                    filter_level: read_opt_filter_level(vals[6]),
                    id: read_u64(vals[7]),
                    in_reply_to_screen_name: read_opt_str(vals[8]),
                    in_reply_to_status_id: read_opt_u64(vals[9]),
                    in_reply_to_user_id: read_opt_u64(vals[10]),
                    is_quote_status: read_bool(vals[11]),
                    lang: read_opt_str(vals[12]),
                    place: read_opt_place(vals[13]),
                    possibly_sensitive: read_opt_bool(vals[14]),
                    quoted_status_id: read_opt_u64(vals[15]),
                    quoted_status,
                    scopes: read_opt_object(vals[17]),
                    retweet_count: read_u64(vals[18]),
                    retweeted: read_bool(vals[19]),
                    retweeted_status,
                    source: read_str(vals[21]),
                    text: read_str(vals[22]),
                    truncated: read_bool(vals[23]),
                    user: read_user(vals[24]),
                    withheld_copyright: read_default_bool(vals[25]),
                    withheld_in_countries: read_default_texts(vals[26]),
                    withheld_scope: read_opt_withheld_scope(vals[27]),
                };
                Ok(t)
            },
        }
    }
}

} // verus!
