//! A builder for a Stream at an endpoint and with a method chosen by hand, parameters
//! that are sent whenever they are set, and the parameters `replies` and `with` of the User
//! and Site Streams.

use vstd::prelude::*;

use crate::builder::{
    comma, flat_coords, fmt_follow, fmt_locations, lemma_key_le_trans, pair_if, BoundingBox,
    Pair, RequestParts,
};
use crate::json::str_eq;
use crate::oauth::{
    is_request_header, key_le, lemma_signed_data_push, lemma_signed_pairs_push, next_sep,
    oauth_signed, pct_text, request_header, same_signing, signed_data, signed_pairs, QueryBuilder,
    QueryOutcome,
};
use crate::text::{dec_int, join, texts, write_i32};

verus! {

/// The `filter_level` parameter: a known level, or any other text.
#[derive(Clone, Debug)]
pub enum FilterLevel {
    /// `"none"` (the variant's usual name, `None`, is a word that this crate cannot define)
    Off,
    /// `"low"`
    Low,
    /// `"medium"`
    Medium,
    /// Any other text.
    Custom(String),
}

/// The `with` parameter of the User and Site Streams.
#[derive(Clone, Debug)]
pub enum With {
    /// Messages from the user of the stream only: `"user"`.
    User,
    /// Messages from the accounts that the user follows too: `"following"`.
    Following,
    /// Any other text.
    Custom(String),
}

pub open spec fn filter_level_text(f: FilterLevel) -> Seq<char> {
    match f {
        FilterLevel::Off => "none"@,
        FilterLevel::Low => "low"@,
        FilterLevel::Medium => "medium"@,
        FilterLevel::Custom(s) => s@,
    }
}

pub open spec fn with_text(w: With) -> Seq<char> {
    match w {
        With::User => "user"@,
        With::Following => "following"@,
        With::Custom(s) => s@,
    }
}

impl FilterLevel {
    /// The text of the level.
    pub fn as_str(&self) -> (r: &str)
        ensures
            r@ == filter_level_text(*self),
    {
        match self {
            FilterLevel::Off => "none",
            FilterLevel::Low => "low",
            FilterLevel::Medium => "medium",
            FilterLevel::Custom(s) => s.as_str(),
        }
    }
}

impl With {
    /// The text of the value.
    pub fn as_str(&self) -> (r: &str)
        ensures
            r@ == with_text(*self),
    {
        match self {
            With::User => "user",
            With::Following => "following",
            With::Custom(s) => s.as_str(),
        }
    }
}

/// Two levels are equal when their texts are: a custom level equals the known level of the
/// same text.
impl PartialEq for FilterLevel {
    fn eq(&self, other: &Self) -> (r: bool) {
        str_eq(self.as_str(), other.as_str())
    }
}

impl vstd::std_specs::cmp::PartialEqSpecImpl for FilterLevel {
    open spec fn obeys_eq_spec() -> bool {
        true
    }

    open spec fn eq_spec(&self, other: &Self) -> bool {
        filter_level_text(*self) == filter_level_text(*other)
    }
}

impl Eq for FilterLevel {

}

/// Two values are equal when their texts are.
impl PartialEq for With {
    fn eq(&self, other: &Self) -> (r: bool) {
        str_eq(self.as_str(), other.as_str())
    }
}

impl vstd::std_specs::cmp::PartialEqSpecImpl for With {
    open spec fn obeys_eq_spec() -> bool {
        true
    }

    open spec fn eq_spec(&self, other: &Self) -> bool {
        with_text(*self) == with_text(*other)
    }
}

impl Eq for With {

}

impl Default for FilterLevel {
    fn default() -> (r: Self)
        ensures
            r == FilterLevel::Off,
    {
        FilterLevel::Off
    }
}

/// An HTTP request method.
#[derive(Clone, Debug)]
pub enum RequestMethod {
    Options,
    Get,
    Post,
    Put,
    Delete,
    Head,
    Trace,
    Connect,
    Patch,
    /// Any other method, by its name.
    Extension(String),
}

pub open spec fn method_text(m: RequestMethod) -> Seq<char> {
    match m {
        RequestMethod::Options => "OPTIONS"@,
        RequestMethod::Get => "GET"@,
        RequestMethod::Post => "POST"@,
        RequestMethod::Put => "PUT"@,
        RequestMethod::Delete => "DELETE"@,
        RequestMethod::Head => "HEAD"@,
        RequestMethod::Trace => "TRACE"@,
        RequestMethod::Connect => "CONNECT"@,
        RequestMethod::Patch => "PATCH"@,
        RequestMethod::Extension(s) => s@,
    }
}

impl RequestMethod {
    /// The name of the method.
    pub fn as_str(&self) -> (r: &str)
        ensures
            r@ == method_text(*self),
    {
        match self {
            RequestMethod::Options => "OPTIONS",
            RequestMethod::Get => "GET",
            RequestMethod::Post => "POST",
            RequestMethod::Put => "PUT",
            RequestMethod::Delete => "DELETE",
            RequestMethod::Head => "HEAD",
            RequestMethod::Trace => "TRACE",
            RequestMethod::Connect => "CONNECT",
            RequestMethod::Patch => "PATCH",
            RequestMethod::Extension(s) => s.as_str(),
        }
    }
}

/// The known values of `with` are the API's words: a value's text is "user" exactly when it
/// is `With::User` or a custom value of that text, and "following" exactly when it is
/// `With::Following` or a custom value of that text.
pub proof fn with_texts_are_the_api_words(w: With)
    ensures
        with_text(w) == "user"@ <==> (w is User || (w matches With::Custom(s) && s@ == "user"@)),
        with_text(w) == "following"@ <==> (w is Following || (w matches With::Custom(s) && s@
            == "following"@)),
{
    reveal_strlit("user");
    reveal_strlit("following");
    assert("user"@.len() == 4);
    assert("following"@.len() == 9);
    assert("following"@ != "user"@);
}

/// The known filter levels are the API's words: a level's text is "none", "low" or "medium"
/// exactly when it is `Off`, `Low` or `Medium` respectively, or a custom level of that text.
pub proof fn filter_level_texts_are_the_api_words(f: FilterLevel)
    ensures
        filter_level_text(f) == "none"@ <==> (f is Off || (f matches FilterLevel::Custom(s) && s@
            == "none"@)),
        filter_level_text(f) == "low"@ <==> (f is Low || (f matches FilterLevel::Custom(s) && s@
            == "low"@)),
        filter_level_text(f) == "medium"@ <==> (f is Medium || (f matches FilterLevel::Custom(s)
            && s@ == "medium"@)),
{
    reveal_strlit("none");
    reveal_strlit("low");
    reveal_strlit("medium");
    assert("none"@.len() == 4 && "low"@.len() == 3 && "medium"@.len() == 6);
}

/// The name of a known method is its name in HTTP: "GET" exactly for `Get` (or an extension
/// of that name), "POST" exactly for `Post`, and so on for each of them.
pub proof fn method_texts_are_the_http_names(m: RequestMethod)
    ensures
        method_text(m) == "OPTIONS"@ <==> (m is Options || (m matches RequestMethod::Extension(s)
            && s@ == "OPTIONS"@)),
        method_text(m) == "GET"@ <==> (m is Get || (m matches RequestMethod::Extension(s) && s@
            == "GET"@)),
        method_text(m) == "POST"@ <==> (m is Post || (m matches RequestMethod::Extension(s) && s@
            == "POST"@)),
        method_text(m) == "PUT"@ <==> (m is Put || (m matches RequestMethod::Extension(s) && s@
            == "PUT"@)),
        method_text(m) == "DELETE"@ <==> (m is Delete || (m matches RequestMethod::Extension(s)
            && s@ == "DELETE"@)),
        method_text(m) == "HEAD"@ <==> (m is Head || (m matches RequestMethod::Extension(s) && s@
            == "HEAD"@)),
        method_text(m) == "TRACE"@ <==> (m is Trace || (m matches RequestMethod::Extension(s) && s@
            == "TRACE"@)),
        method_text(m) == "CONNECT"@ <==> (m is Connect || (m matches RequestMethod::Extension(s)
            && s@ == "CONNECT"@)),
        method_text(m) == "PATCH"@ <==> (m is Patch || (m matches RequestMethod::Extension(s) && s@
            == "PATCH"@)),
{
    reveal_strlit("OPTIONS");
    reveal_strlit("GET");
    reveal_strlit("POST");
    reveal_strlit("PUT");
    reveal_strlit("DELETE");
    reveal_strlit("HEAD");
    reveal_strlit("TRACE");
    reveal_strlit("CONNECT");
    reveal_strlit("PATCH");
    assert("OPTIONS"@.len() == 7 && "GET"@.len() == 3 && "POST"@.len() == 4 && "PUT"@.len() == 3);
    assert("DELETE"@.len() == 6 && "HEAD"@.len() == 4 && "TRACE"@.len() == 5);
    assert("CONNECT"@.len() == 7 && "PATCH"@.len() == 5);
    assert("GET"@[0] != "PUT"@[0]);
    assert("POST"@[0] != "HEAD"@[0]);
    assert("TRACE"@[0] != "PATCH"@[0]);
    assert("OPTIONS"@[0] != "CONNECT"@[0]);
}

/// A character in ASCII upper case (other characters unchanged).
pub open spec fn ascii_upper(c: char) -> char {
    if 'a' <= c <= 'z' {
        ((c as u32) - 32) as char
    } else {
        c
    }
}

/// `str::to_ascii_uppercase`: a copy of the text with each ASCII letter `a` to `z` mapped to
/// `A` to `Z`, other characters unchanged.
#[verifier::external_body]
fn to_ascii_uppercase(s: &str) -> (r: String)
    ensures
        r@ == s@.map_values(|c: char| ascii_upper(c)),
{
    s.to_ascii_uppercase()
}

/// The method name that a request is signed with: an extension method in ASCII upper case,
/// the others by their name.
pub open spec fn signing_method(m: RequestMethod) -> Seq<char> {
    match m {
        RequestMethod::Extension(s) => s@.map_values(|c: char| ascii_upper(c)),
        _ => method_text(m),
    }
}

/// An OAuth token used to log into Twitter.
#[derive(Clone, Debug)]
pub struct Token {
    pub consumer_key: String,
    pub consumer_secret: String,
    pub access_key: String,
    pub access_secret: String,
}

impl Token {
    pub fn new(consumer_key: String, consumer_secret: String, access_key: String, access_secret: String) -> (r: Self)
        ensures
            r.consumer_key == consumer_key,
            r.consumer_secret == consumer_secret,
            r.access_key == access_key,
            r.access_secret == access_secret,
    {
        Token { consumer_key, consumer_secret, access_key, access_secret }
    }
}

/// The `filter` endpoint.
pub const EP_FILTER: &'static str = "https://stream.twitter.com/1.1/statuses/filter.json";

/// The `sample` endpoint.
pub const EP_SAMPLE: &'static str = "https://stream.twitter.com/1.1/statuses/sample.json";

/// The `user` endpoint (the User Streams).
pub const EP_USER: &'static str = "https://userstream.twitter.com/1.1/user.json";

/// A builder for a request to a Stream at an endpoint chosen by hand.
#[derive(Clone, Debug)]
pub struct TwitterStreamBuilder {
    pub method: RequestMethod,
    pub endpoint: String,
    pub token: Token,
    /// The timeout of the stream in milliseconds; `None` means none.
    pub timeout_ms: Option<u64>,
    pub stall_warnings: bool,
    pub filter_level: FilterLevel,
    pub language: Option<String>,
    pub follow: Option<Vec<u64>>,
    pub track: Option<String>,
    pub locations: Option<Vec<BoundingBox>>,
    pub count: Option<i32>,
    pub with: Option<With>,
    pub replies: bool,
    pub user_agent: Option<String>,
}

/// The parameters whose keys come before the `oauth_*` parameters: `count`, `filter_level`
/// (unless its text is `none`), `follow`, `language` and `locations`, each when it is set.
pub open spec fn pre_oauth_params(b: TwitterStreamBuilder) -> Seq<Pair> {
    pair_if(b.count is Some, "count"@, dec_int(b.count->0 as int)) + pair_if(
        filter_level_text(b.filter_level) != "none"@,
        "filter_level"@,
        pct_text(filter_level_text(b.filter_level)),
    ) + pair_if(b.follow is Some, "follow"@, join(texts(b.follow->0@), comma())) + pair_if(
        b.language is Some,
        "language"@,
        pct_text(b.language->0@),
    ) + pair_if(b.locations is Some, "locations"@, join(flat_coords(b.locations->0@), comma()))
}

/// The parameters whose keys come after the `oauth_*` parameters: `replies=all` and
/// `stall_warnings=true` when they are on, `track` and `with` when they are set.
pub open spec fn post_oauth_params(b: TwitterStreamBuilder) -> Seq<Pair> {
    pair_if(b.replies, "replies"@, "all"@) + pair_if(b.stall_warnings, "stall_warnings"@, "true"@)
        + pair_if(b.track is Some, "track"@, pct_text(b.track->0@)) + pair_if(
        b.with is Some,
        "with"@,
        pct_text(with_text(b.with->0)),
    )
}

/// All the parameters, in the order in which they are written.
pub open spec fn builder_pairs(b: TwitterStreamBuilder) -> Seq<Pair> {
    pre_oauth_params(b) + post_oauth_params(b)
}

/// `q` has built the string of the parameters `ps` on `base`, with `first` before the first.
pub open spec fn tracks(q: QueryBuilder, base: Seq<char>, first: Seq<char>, ps: Seq<Pair>) -> bool {
    q.state().data == signed_data(base, first, ps) && q.state().next == next_sep(first, ps)
}

fn add_encoded(
    q: &mut QueryBuilder,
    key: &str,
    value: &str,
    Ghost(base): Ghost<Seq<char>>,
    Ghost(first): Ghost<Seq<char>>,
    Ghost(ps): Ghost<Seq<Pair>>,
)
    requires
        tracks(*old(q), base, first, ps),
        key_le(old(q).state().last_key, key@),
    ensures
        tracks(*final(q), base, first, ps.push((key@, value@))),
        final(q).state().last_key == key@,
        final(q).state().signed == old(q).state().signed.push((key@, pct_text(value@))),
        same_signing(final(q).state(), old(q).state()),
        final(q).is_ready() == old(q).is_ready(),
{
    proof {
        lemma_signed_data_push(base, first, ps, key@, value@);
    }
    q.append_encoded(key, value);
}

fn add_text(
    q: &mut QueryBuilder,
    key: &str,
    value: &str,
    Ghost(base): Ghost<Seq<char>>,
    Ghost(first): Ghost<Seq<char>>,
    Ghost(ps): Ghost<Seq<Pair>>,
)
    requires
        tracks(*old(q), base, first, ps),
        key_le(old(q).state().last_key, key@),
    ensures
        tracks(*final(q), base, first, ps.push((key@, pct_text(value@)))),
        final(q).state().last_key == key@,
        final(q).state().signed == old(q).state().signed.push((key@, pct_text(pct_text(value@)))),
        same_signing(final(q).state(), old(q).state()),
        final(q).is_ready() == old(q).is_ready(),
{
    proof {
        lemma_signed_data_push(base, first, ps, key@, pct_text(value@));
    }
    q.append(key, value);
}

/// The keys of the parameters, in ascending order (with `oauth_consumer_key` and
/// `oauth_token` at their place).
proof fn lemma_builder_keys()
    ensures
        key_le("count"@, "filter_level"@),
        key_le("filter_level"@, "follow"@),
        key_le("follow"@, "language"@),
        key_le("language"@, "locations"@),
        key_le("locations"@, "oauth_consumer_key"@),
        key_le("oauth_token"@, "replies"@),
        key_le("replies"@, "stall_warnings"@),
        key_le("stall_warnings"@, "track"@),
        key_le("track"@, "with"@),
{
    reveal_strlit("count");
    reveal_strlit("filter_level");
    reveal_strlit("follow");
    reveal_strlit("language");
    reveal_strlit("locations");
    reveal_strlit("oauth_consumer_key");
    reveal_strlit("oauth_token");
    reveal_strlit("replies");
    reveal_strlit("stall_warnings");
    reveal_strlit("track");
    reveal_strlit("with");
    assert(key_le("filter_level"@.drop_first(), "follow"@.drop_first()));
    assert(key_le("language"@.drop_first(), "locations"@.drop_first()));
}

impl TwitterStreamBuilder {
    /// A builder for `method` at `endpoint`, with no parameter set and a timeout of 90 seconds.
    pub fn custom(method: RequestMethod, endpoint: String, token: Token) -> (r: Self)
        ensures
            is_fresh(r, method, endpoint@, token),
    {
        TwitterStreamBuilder {
            method,
            endpoint,
            token,
            timeout_ms: Some(90_000),
            stall_warnings: false,
            filter_level: FilterLevel::Off,
            language: None,
            follow: None,
            track: None,
            locations: None,
            count: None,
            with: None,
            replies: false,
            user_agent: None,
        }
    }

    /// A builder for `POST statuses/filter`.
    pub fn filter(token: Token) -> (r: Self)
        ensures
            is_fresh(r, RequestMethod::Post, EP_FILTER@, token),
    {
        Self::custom(RequestMethod::Post, String::from_str(EP_FILTER), token)
    }

    /// A builder for `GET statuses/sample`.
    pub fn sample(token: Token) -> (r: Self)
        ensures
            is_fresh(r, RequestMethod::Get, EP_SAMPLE@, token),
    {
        Self::custom(RequestMethod::Get, String::from_str(EP_SAMPLE), token)
    }

    /// A builder for `GET user` (the User Streams).
    pub fn user(token: Token) -> (r: Self)
        ensures
            is_fresh(r, RequestMethod::Get, EP_USER@, token),
    {
        Self::custom(RequestMethod::Get, String::from_str(EP_USER), token)
    }
}

/// `b` is a builder for `method` at `endpoint` with no parameter set and a timeout of 90
/// seconds.
pub open spec fn is_fresh(b: TwitterStreamBuilder, method: RequestMethod, endpoint: Seq<char>, token: Token) -> bool {
    &&& b.method == method
    &&& b.endpoint@ == endpoint
    &&& b.token == token
    &&& b.timeout_ms == Some(90_000u64)
    &&& !b.stall_warnings
    &&& b.filter_level == FilterLevel::Off
    &&& b.language is None
    &&& b.follow is None
    &&& b.track is None
    &&& b.locations is None
    &&& b.count is None
    &&& b.with is None
    &&& !b.replies
    &&& b.user_agent is None
}

/// The request that connecting to a Stream sends: the method, URI, `Authorization` header and
/// body, and the `User-Agent` header when one is set.
#[derive(Clone, Debug)]
pub struct ConnectRequest {
    pub parts: RequestParts,
    pub user_agent: Option<String>,
}

impl TwitterStreamBuilder {
    /// Appends the parameters that come before the `oauth_*` parameters.
    fn sign_pre_oauth(&self, q: &mut QueryBuilder, Ghost(base): Ghost<Seq<char>>, Ghost(first): Ghost<Seq<char>>)
        requires
            !old(q).is_ready(),
            old(q).state().last_key.len() == 0,
            old(q).state().signed.len() == 0,
            tracks(*old(q), base, first, Seq::empty()),
        ensures
            !final(q).is_ready(),
            tracks(*final(q), base, first, pre_oauth_params(*self)),
            key_le(final(q).state().last_key, "oauth_consumer_key"@),
            final(q).state().signed == signed_pairs(pre_oauth_params(*self)),
            same_signing(final(q).state(), old(q).state()),
    {
        let ghost mut ps: Seq<Pair> = Seq::empty();
        proof {
            lemma_builder_keys();
            assert(q.state().signed =~= signed_pairs(ps));
        }
        if let Some(n) = self.count {
            let mut s = String::new();
            write_i32(n, &mut s);
            add_encoded(q, "count", s.as_str(), Ghost(base), Ghost(first), Ghost(ps));
            proof {
                lemma_signed_pairs_push(ps, "count"@, s@);
                ps = ps.push(("count"@, s@));
            }
        }
        assert(ps =~= pair_if(self.count is Some, "count"@, dec_int(self.count->0 as int)));
        let is_none = self.filter_level == FilterLevel::Off;
        proof {
            reveal_strlit("none");
        }
        if !is_none {
            add_text(q, "filter_level", self.filter_level.as_str(), Ghost(base), Ghost(first), Ghost(ps));
            proof {
                lemma_signed_pairs_push(ps, "filter_level"@, pct_text(filter_level_text(self.filter_level)));
                ps = ps.push(("filter_level"@, pct_text(filter_level_text(self.filter_level))));
            }
        } else {
            proof {
                lemma_key_le_trans(q.state().last_key, "filter_level"@, "follow"@);
            }
        }
        if let Some(ids) = &self.follow {
            let mut s = String::new();
            fmt_follow(ids.as_slice(), &mut s);
            add_encoded(q, "follow", s.as_str(), Ghost(base), Ghost(first), Ghost(ps));
            proof {
                lemma_signed_pairs_push(ps, "follow"@, s@);
                ps = ps.push(("follow"@, s@));
            }
        } else {
            proof {
                lemma_key_le_trans(q.state().last_key, "follow"@, "language"@);
            }
        }
        if let Some(lang) = &self.language {
            add_text(q, "language", lang.as_str(), Ghost(base), Ghost(first), Ghost(ps));
            proof {
                lemma_signed_pairs_push(ps, "language"@, pct_text(lang@));
                ps = ps.push(("language"@, pct_text(lang@)));
            }
        } else {
            proof {
                lemma_key_le_trans(q.state().last_key, "language"@, "locations"@);
            }
        }
        if let Some(locs) = &self.locations {
            let mut s = String::new();
            fmt_locations(locs.as_slice(), &mut s);
            add_encoded(q, "locations", s.as_str(), Ghost(base), Ghost(first), Ghost(ps));
            proof {
                lemma_signed_pairs_push(ps, "locations"@, s@);
                ps = ps.push(("locations"@, s@));
            }
        } else {
            proof {
                lemma_key_le_trans(q.state().last_key, "locations"@, "oauth_consumer_key"@);
            }
        }
        proof {
            assert(ps =~= pre_oauth_params(*self));
        }
    }

    /// Signs the parameters that are set into `query`, in ascending key order with the
    /// `oauth_*` parameters at their place, and builds the request.
    #[verifier::rlimit(40)]
    pub fn build_query(&self, query: QueryBuilder) -> (r: QueryOutcome)
        requires
            !query.is_ready(),
            query.state().last_key.len() == 0,
            query.state().signed.len() == 0,
        ensures
            r.query@ == signed_data(query.state().data, query.state().next, builder_pairs(*self)),
            is_request_header(
                r.header@,
                query.state().method,
                query.state().uri,
                query.state().consumer_secret,
                query.state().token_secret,
                self.token.consumer_key@,
                self.token.access_key@,
                pre_oauth_params(*self),
                post_oauth_params(*self),
            ),
    {
        let ghost q0 = query.state();
        let ghost base = query.state().data;
        let ghost first = query.state().next;
        let mut query = query;
        proof {
            lemma_builder_keys();
            assert(signed_data(base, first, Seq::<Pair>::empty()) == base);
        }
        self.sign_pre_oauth(&mut query, Ghost(base), Ghost(first));
        let ghost mut ps: Seq<Pair> = pre_oauth_params(*self);
        let mut query = query.append_oauth_params(
            self.token.consumer_key.as_str(),
            self.token.access_key.as_str(),
        );
        let ghost oa = signed_pairs(pre_oauth_params(*self)) + oauth_signed(
            self.token.consumer_key@,
            query.state().nonce,
            query.state().timestamp,
            self.token.access_key@,
        );
        let ghost mut post: Seq<Pair> = Seq::empty();
        proof {
            assert(query.state().signed =~= oa + signed_pairs(post));
        }
        proof {
            reveal_strlit("all");
            reveal_strlit("true");
        }
        if self.replies {
            add_encoded(&mut query, "replies", "all", Ghost(base), Ghost(first), Ghost(ps));
            proof {
                lemma_signed_pairs_push(post, "replies"@, "all"@);
                assert(query.state().signed =~= oa + signed_pairs(post.push(("replies"@, "all"@))));
                post = post.push(("replies"@, "all"@));
                ps = ps.push(("replies"@, "all"@));
            }
        } else {
            proof {
                lemma_key_le_trans(query.state().last_key, "replies"@, "stall_warnings"@);
            }
        }
        if self.stall_warnings {
            add_encoded(&mut query, "stall_warnings", "true", Ghost(base), Ghost(first), Ghost(ps));
            proof {
                lemma_signed_pairs_push(post, "stall_warnings"@, "true"@);
                assert(query.state().signed =~= oa + signed_pairs(post.push(("stall_warnings"@, "true"@))));
                post = post.push(("stall_warnings"@, "true"@));
                ps = ps.push(("stall_warnings"@, "true"@));
            }
        } else {
            proof {
                lemma_key_le_trans(query.state().last_key, "stall_warnings"@, "track"@);
            }
        }
        if let Some(t) = &self.track {
            add_text(&mut query, "track", t.as_str(), Ghost(base), Ghost(first), Ghost(ps));
            proof {
                lemma_signed_pairs_push(post, "track"@, pct_text(t@));
                assert(query.state().signed =~= oa + signed_pairs(post.push(("track"@, pct_text(t@)))));
                post = post.push(("track"@, pct_text(t@)));
                ps = ps.push(("track"@, pct_text(t@)));
            }
        } else {
            proof {
                lemma_key_le_trans(query.state().last_key, "track"@, "with"@);
            }
        }
        if let Some(w) = &self.with {
            add_text(&mut query, "with", w.as_str(), Ghost(base), Ghost(first), Ghost(ps));
            proof {
                lemma_signed_pairs_push(post, "with"@, pct_text(with_text(*w)));
                assert(query.state().signed =~= oa + signed_pairs(post.push(("with"@, pct_text(with_text(*w))))));
                post = post.push(("with"@, pct_text(with_text(*w))));
                ps = ps.push(("with"@, pct_text(with_text(*w))));
            }
        }
        proof {
            assert(ps =~= builder_pairs(*self));
            assert(post =~= post_oauth_params(*self));
        }
        let ghost st = query.state();
        let r = query.build();
        proof {
            assert(r.header@ == request_header(
                q0.method,
                q0.uri,
                q0.consumer_secret,
                q0.token_secret,
                self.token.consumer_key@,
                self.token.access_key@,
                pre_oauth_params(*self),
                post_oauth_params(*self),
                st.nonce,
                st.timestamp,
            ));
        }
        r
    }

    /// The request that connecting sends. A `POST` carries the parameters in a form body;
    /// any other method carries them in the query string of the URI (signed with the method's
    /// name in upper case).
    pub fn connect_request(&self) -> (r: ConnectRequest)
        requires
            !self.endpoint@.contains('?'),
        ensures
            r.user_agent == self.user_agent,
            is_request_header(
                r.parts.authorization@,
                signing_method(self.method),
                self.endpoint@,
                self.token.consumer_secret@,
                self.token.access_secret@,
                self.token.consumer_key@,
                self.token.access_key@,
                pre_oauth_params(*self),
                post_oauth_params(*self),
            ),
            r.parts.method@ == method_text(self.method),
            r.parts.form == (self.method is Post),
            r.parts.form ==> r.parts.uri@ == self.endpoint@ && r.parts.body@ == signed_data(
                Seq::empty(),
                Seq::empty(),
                builder_pairs(*self),
            ),
            !r.parts.form ==> r.parts.uri@ == signed_data(self.endpoint@, seq!['?'], builder_pairs(*self))
                && r.parts.body@.len() == 0,
    {
        let user_agent = self.user_agent.clone();
        if let RequestMethod::Post = self.method {
            let q = QueryBuilder::new_form(
                self.token.consumer_secret.as_str(),
                self.token.access_secret.as_str(),
                "POST",
                self.endpoint.as_str(),
            );
            let outcome = self.build_query(q);
            let parts = RequestParts {
                method: String::from_str(self.method.as_str()),
                uri: self.endpoint.clone(),
                authorization: outcome.header,
                form: true,
                body: outcome.query,
            };
            ConnectRequest { parts, user_agent }
        } else {
            let name = match &self.method {
                RequestMethod::Extension(m) => to_ascii_uppercase(m.as_str()),
                m => String::from_str(m.as_str()),
            };
            let q = QueryBuilder::new(
                self.token.consumer_secret.as_str(),
                self.token.access_secret.as_str(),
                name.as_str(),
                self.endpoint.as_str(),
            );
            let outcome = self.build_query(q);
            let parts = RequestParts {
                method: String::from_str(self.method.as_str()),
                uri: outcome.query,
                authorization: outcome.header,
                form: false,
                body: String::new(),
            };
            ConnectRequest { parts, user_agent }
        }
    }
}

impl TwitterStreamBuilder {
    /// Sets the request method.
    pub fn method(&mut self, method: RequestMethod) -> (r: &mut Self)
        ensures
            *r == (TwitterStreamBuilder { method, ..*old(self) }),
            *final(self) == *final(r),
    {
        self.method = method;
        self
    }

    /// Sets the endpoint's URI.
    pub fn endpoint(&mut self, endpoint: String) -> (r: &mut Self)
        ensures
            *r == (TwitterStreamBuilder { endpoint, ..*old(self) }),
            *final(self) == *final(r),
    {
        self.endpoint = endpoint;
        self
    }

    /// Sets the endpoint's URI (another name of [`endpoint`](Self::endpoint)).
    pub fn end_point(&mut self, end_point: String) -> (r: &mut Self)
        ensures
            *r == (TwitterStreamBuilder { endpoint: end_point, ..*old(self) }),
            *final(self) == *final(r),
    {
        self.endpoint = end_point;
        self
    }

    /// Sets the token.
    pub fn token(&mut self, token: Token) -> (r: &mut Self)
        ensures
            *r == (TwitterStreamBuilder { token, ..*old(self) }),
            *final(self) == *final(r),
    {
        self.token = token;
        self
    }

    /// Sets the timeout of the stream in milliseconds (`None`: none).
    pub fn timeout(&mut self, timeout_ms: Option<u64>) -> (r: &mut Self)
        ensures
            *r == (TwitterStreamBuilder { timeout_ms, ..*old(self) }),
            *final(self) == *final(r),
    {
        self.timeout_ms = timeout_ms;
        self
    }

    /// Sets whether to receive stall warnings.
    pub fn stall_warnings(&mut self, stall_warnings: bool) -> (r: &mut Self)
        ensures
            *r == (TwitterStreamBuilder { stall_warnings, ..*old(self) }),
            *final(self) == *final(r),
    {
        self.stall_warnings = stall_warnings;
        self
    }

    /// Sets the minimum filter level of the Tweets.
    pub fn filter_level(&mut self, filter_level: FilterLevel) -> (r: &mut Self)
        ensures
            *r == (TwitterStreamBuilder { filter_level, ..*old(self) }),
            *final(self) == *final(r),
    {
        self.filter_level = filter_level;
        self
    }

    /// Sets the comma-separated languages of the Tweets.
    pub fn language(&mut self, language: Option<String>) -> (r: &mut Self)
        ensures
            *r == (TwitterStreamBuilder { language, ..*old(self) }),
            *final(self) == *final(r),
    {
        self.language = language;
        self
    }

    /// Sets the users whose Tweets to receive.
    pub fn follow(&mut self, follow: Option<Vec<u64>>) -> (r: &mut Self)
        ensures
            *r == (TwitterStreamBuilder { follow, ..*old(self) }),
            *final(self) == *final(r),
    {
        self.follow = follow;
        self
    }

    /// Sets the comma-separated phrases to filter Tweets by.
    pub fn track(&mut self, track: Option<String>) -> (r: &mut Self)
        ensures
            *r == (TwitterStreamBuilder { track, ..*old(self) }),
            *final(self) == *final(r),
    {
        self.track = track;
        self
    }

    /// Sets the boxes to filter Tweets by.
    pub fn locations(&mut self, locations: Option<Vec<BoundingBox>>) -> (r: &mut Self)
        ensures
            *r == (TwitterStreamBuilder { locations, ..*old(self) }),
            *final(self) == *final(r),
    {
        self.locations = locations;
        self
    }

    /// Sets the `count` parameter.
    pub fn count(&mut self, count: Option<i32>) -> (r: &mut Self)
        ensures
            *r == (TwitterStreamBuilder { count, ..*old(self) }),
            *final(self) == *final(r),
    {
        self.count = count;
        self
    }

    /// Sets the `with` parameter.
    pub fn with(&mut self, with: Option<With>) -> (r: &mut Self)
        ensures
            *r == (TwitterStreamBuilder { with, ..*old(self) }),
            *final(self) == *final(r),
    {
        self.with = with;
        self
    }

    /// Sets whether to receive all @replies.
    pub fn replies(&mut self, replies: bool) -> (r: &mut Self)
        ensures
            *r == (TwitterStreamBuilder { replies, ..*old(self) }),
            *final(self) == *final(r),
    {
        self.replies = replies;
        self
    }

    /// Sets the `User-Agent` header.
    pub fn user_agent(&mut self, user_agent: Option<String>) -> (r: &mut Self)
        ensures
            *r == (TwitterStreamBuilder { user_agent, ..*old(self) }),
            *final(self) == *final(r),
    {
        self.user_agent = user_agent;
        self
    }
}

} // verus!
