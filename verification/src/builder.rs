//! The request to the Streaming API: its parameters, the endpoint that they call for, and the
//! signed query or form that carries them.
//!
//! When the endpoint is not set, it is `POST statuses/filter` if any of `follow`, `track` and
//! `locations` is given, and `GET statuses/sample` otherwise. The parameters are signed in
//! ascending key order, with the `oauth_*` parameters at their place among them.

use vstd::prelude::*;

use crate::json::str_eq;
use crate::oauth::{
    is_request_header, key_le, lemma_signed_data_push, lemma_signed_pairs_push, next_sep,
    oauth_signed, pct_text, request_header, same_signing, signed_data, signed_pairs,
    QueryBuilder, QueryOutcome,
};
use crate::text::{dec_int, fmt_join, join, texts, write_i32, Text};

verus! {

/// The `filter_level` parameter.
#[derive(Clone, Copy, Debug, PartialEq, Eq, Hash, Structural)]
pub enum FilterLevel {
    /// `"none"` (the variant's usual name, `None`, is a word that this crate cannot define)
    Off,
    /// `"low"`
    Low,
    /// `"medium"`
    Medium,
}

/// The text of a filter level.
pub open spec fn filter_level_text(f: FilterLevel) -> Seq<char> {
    match f {
        FilterLevel::Off => "none"@,
        FilterLevel::Low => "low"@,
        FilterLevel::Medium => "medium"@,
    }
}

impl FilterLevel {
    /// The text of the level, as sent in requests.
    pub fn as_str(&self) -> (r: &'static str)
        ensures
            r@ == filter_level_text(*self),
    {
        match self {
            FilterLevel::Off => "none",
            FilterLevel::Low => "low",
            FilterLevel::Medium => "medium",
        }
    }
}

impl Default for FilterLevel {
    fn default() -> (r: Self)
        ensures
            r == FilterLevel::Off,
    {
        FilterLevel::Off
    }
}

/// A rectangle on the globe, given by the longitudes of its west and east sides and the
/// latitudes of its south and north sides, each as the decimal text that is sent.
#[derive(Clone, Debug, PartialEq)]
pub struct BoundingBox {
    pub west_longitude: String,
    pub south_latitude: String,
    pub east_longitude: String,
    pub north_latitude: String,
}

/// The coordinates of a box, in the order in which they are sent.
pub open spec fn box_coords(b: BoundingBox) -> Seq<Seq<char>> {
    seq![b.west_longitude@, b.south_latitude@, b.east_longitude@, b.north_latitude@]
}

/// The coordinates of the boxes, one box after the other.
pub open spec fn flat_coords(boxes: Seq<BoundingBox>) -> Seq<Seq<char>>
    decreases boxes.len(),
{
    if boxes.len() == 0 {
        Seq::empty()
    } else {
        flat_coords(boxes.drop_last()) + box_coords(boxes.last())
    }
}

impl BoundingBox {
    /// A box with the given sides.
    pub fn new(
        west_longitude: String,
        south_latitude: String,
        east_longitude: String,
        north_latitude: String,
    ) -> (r: Self)
        ensures
            r.west_longitude == west_longitude,
            r.south_latitude == south_latitude,
            r.east_longitude == east_longitude,
            r.north_latitude == north_latitude,
    {
        BoundingBox { west_longitude, south_latitude, east_longitude, north_latitude }
    }
}

/// A pair of an identifier and a secret (client credentials or token credentials).
#[derive(Clone, Debug)]
pub struct Credentials {
    pub identifier: String,
    pub secret: String,
}

impl Credentials {
    pub fn new(identifier: String, secret: String) -> (r: Self)
        ensures
            r.identifier == identifier,
            r.secret == secret,
    {
        Credentials { identifier, secret }
    }
}

/// An OAuth token: the client credentials and the token credentials.
#[derive(Clone, Debug)]
pub struct Token {
    pub client: Credentials,
    pub token: Credentials,
}

impl Token {
    /// A token from the four strings.
    pub fn new(
        client_identifier: String,
        client_secret: String,
        token_identifier: String,
        token_secret: String,
    ) -> (r: Self)
        ensures
            r.client.identifier == client_identifier,
            r.client.secret == client_secret,
            r.token.identifier == token_identifier,
            r.token.secret == token_secret,
    {
        let client = Credentials::new(client_identifier, client_secret);
        let token = Credentials::new(token_identifier, token_secret);
        Self::from_credentials(client, token)
    }

    /// A token from the two pairs of credentials.
    pub fn from_credentials(client: Credentials, token: Credentials) -> (r: Self)
        ensures
            r.client == client,
            r.token == token,
    {
        Token { client, token }
    }
}

/// The parameters of a request to the Streaming API.
#[derive(Clone, Debug)]
pub struct Parameters {
    pub stall_warnings: bool,
    pub filter_level: Option<FilterLevel>,
    pub language: String,
    pub follow: Vec<u64>,
    pub track: String,
    pub locations: Vec<BoundingBox>,
    pub count: Option<i32>,
}

/// No parameter is set.
pub open spec fn no_parameters(p: Parameters) -> bool {
    &&& !p.stall_warnings
    &&& p.filter_level is None
    &&& p.language@.len() == 0
    &&& p.follow@.len() == 0
    &&& p.track@.len() == 0
    &&& p.locations@.len() == 0
    &&& p.count is None
}

impl Parameters {
    /// No parameter set.
    pub fn new() -> (r: Self)
        ensures
            no_parameters(r),
    {
        Parameters {
            stall_warnings: false,
            filter_level: None,
            language: String::new(),
            follow: Vec::new(),
            track: String::new(),
            locations: Vec::new(),
            count: None,
        }
    }
}

/// A key and the value that is written for it.
pub type Pair = (Seq<char>, Seq<char>);

/// One pair if `cond` holds, none otherwise.
pub open spec fn pair_if(cond: bool, key: Seq<char>, value: Seq<char>) -> Seq<Pair> {
    if cond {
        seq![(key, value)]
    } else {
        Seq::empty()
    }
}

/// The separator written between the numbers of a list (`,`, percent-encoded).
pub open spec fn comma() -> Seq<char> {
    "%2C"@
}

/// The parameters whose keys come before the `oauth_*` parameters: `count`, `filter_level`,
/// `follow`, `language` and `locations`, each when it is set (a list or a text when it is not
/// empty).
pub open spec fn pre_oauth_pairs(p: Parameters) -> Seq<Pair> {
    pair_if(p.count is Some, "count"@, dec_int(p.count->0 as int)) + pair_if(
        p.filter_level is Some,
        "filter_level"@,
        pct_text(filter_level_text(p.filter_level->0)),
    ) + pair_if(p.follow@.len() > 0, "follow"@, join(texts(p.follow@), comma())) + pair_if(
        p.language@.len() > 0,
        "language"@,
        pct_text(p.language@),
    ) + pair_if(p.locations@.len() > 0, "locations"@, join(flat_coords(p.locations@), comma()))
}

/// The parameters whose keys come after the `oauth_*` parameters: `stall_warnings` when it is
/// `true`, and `track` when it is not empty.
pub open spec fn post_oauth_pairs(p: Parameters) -> Seq<Pair> {
    pair_if(p.stall_warnings, "stall_warnings"@, pct_text("true"@)) + pair_if(
        p.track@.len() > 0,
        "track"@,
        pct_text(p.track@),
    )
}

/// All the parameters of a request, in the order in which they are written.
pub open spec fn request_pairs(p: Parameters) -> Seq<Pair> {
    pre_oauth_pairs(p) + post_oauth_pairs(p)
}

/// Writes the user IDs of `follow`, separated by `%2C`.
pub fn fmt_follow(ids: &[u64], out: &mut String)
    ensures
        final(out)@ == old(out)@ + join(texts(ids@), comma()),
{
    fmt_join(ids, "%2C", out);
}

/// Writes the coordinates of the boxes, separated by `%2C`.
pub fn fmt_locations(locs: &[BoundingBox], out: &mut String)
    ensures
        final(out)@ == old(out)@ + join(flat_coords(locs@), comma()),
{
    let mut coords: Vec<String> = Vec::new();
    let mut i: usize = 0;
    while i < locs.len()
        invariant
            i <= locs@.len(),
            texts(coords@) == flat_coords(locs@.take(i as int)),
        decreases locs@.len() - i,
    {
        let b = &locs[i];
        let ghost before = coords@;
        coords.push(b.west_longitude.clone());
        coords.push(b.south_latitude.clone());
        coords.push(b.east_longitude.clone());
        coords.push(b.north_latitude.clone());
        proof {
            assert(locs@.take(i + 1).drop_last() =~= locs@.take(i as int));
            assert(locs@.take(i + 1).last() == *b);
            assert(texts(coords@) =~= texts(before) + box_coords(*b));
        }
        i = i + 1;
    }
    proof {
        assert(locs@.take(i as int) =~= locs@);
    }
    fmt_join(coords.as_slice(), "%2C", out);
}

/// `a <= b <= c` in byte order gives `a <= c`.
pub proof fn lemma_key_le_trans(a: Seq<char>, b: Seq<char>, c: Seq<char>)
    requires
        key_le(a, b),
        key_le(b, c),
    ensures
        key_le(a, c),
    decreases a.len(),
{
    if a.len() > 0 && b.len() > 0 && c.len() > 0 && (a[0] as u32) == (b[0] as u32) && (b[0] as u32)
        == (c[0] as u32) {
        lemma_key_le_trans(a.drop_first(), b.drop_first(), c.drop_first());
    }
}

/// The keys of the request parameters, in ascending order (with `oauth_consumer_key` and
/// `oauth_token` at their place).
proof fn lemma_request_keys()
    ensures
        key_le("count"@, "filter_level"@),
        key_le("filter_level"@, "follow"@),
        key_le("follow"@, "language"@),
        key_le("language"@, "locations"@),
        key_le("locations"@, "oauth_consumer_key"@),
        key_le("oauth_token"@, "stall_warnings"@),
        key_le("stall_warnings"@, "track"@),
{
    reveal_strlit("count");
    reveal_strlit("filter_level");
    reveal_strlit("follow");
    reveal_strlit("language");
    reveal_strlit("locations");
    reveal_strlit("oauth_consumer_key");
    reveal_strlit("oauth_token");
    reveal_strlit("stall_warnings");
    reveal_strlit("track");
    assert(key_le("filter_level"@.drop_first(), "follow"@.drop_first()));
    assert(key_le("language"@.drop_first(), "locations"@.drop_first()));
}

/// `q` has built the string of the parameters `ps` on `base`, with `first` before the first.
pub open spec fn tracks(q: QueryBuilder, base: Seq<char>, first: Seq<char>, ps: Seq<Pair>) -> bool {
    q.state().data == signed_data(base, first, ps) && q.state().next == next_sep(first, ps)
}

/// Appends a parameter whose value is written as it is.
fn add_encoded(
    q: &mut QueryBuilder,
    key: &str,
    value: &str,
    Ghost(base): Ghost<Seq<char>>,
    Ghost(first): Ghost<Seq<char>>,
    Ghost(ps): Ghost<Seq<Pair>>,
)
    requires
        tracks(*old(q), base, first, ps),
        key_le(old(q).state().last_key, key@),
    ensures
        tracks(*final(q), base, first, ps.push((key@, value@))),
        final(q).state().last_key == key@,
        final(q).state().signed == old(q).state().signed.push((key@, pct_text(value@))),
        same_signing(final(q).state(), old(q).state()),
        final(q).is_ready() == old(q).is_ready(),
{
    proof {
        lemma_signed_data_push(base, first, ps, key@, value@);
    }
    q.append_encoded(key, value);
}

/// Appends a parameter whose value is percent-encoded.
fn add_text(
    q: &mut QueryBuilder,
    key: &str,
    value: &str,
    Ghost(base): Ghost<Seq<char>>,
    Ghost(first): Ghost<Seq<char>>,
    Ghost(ps): Ghost<Seq<Pair>>,
)
    requires
        tracks(*old(q), base, first, ps),
        key_le(old(q).state().last_key, key@),
    ensures
        tracks(*final(q), base, first, ps.push((key@, pct_text(value@)))),
        final(q).state().last_key == key@,
        final(q).state().signed == old(q).state().signed.push((key@, pct_text(pct_text(value@)))),
        same_signing(final(q).state(), old(q).state()),
        final(q).is_ready() == old(q).is_ready(),
{
    proof {
        lemma_signed_data_push(base, first, ps, key@, pct_text(value@));
    }
    q.append(key, value);
}

/// Appends the parameters that come before the `oauth_*` parameters.
fn sign_pre_oauth(p: &Parameters, q: &mut QueryBuilder, Ghost(base): Ghost<Seq<char>>, Ghost(first): Ghost<Seq<char>>)
    requires
        !old(q).is_ready(),
        old(q).state().last_key.len() == 0,
        old(q).state().signed.len() == 0,
        tracks(*old(q), base, first, Seq::empty()),
    ensures
        !final(q).is_ready(),
        tracks(*final(q), base, first, pre_oauth_pairs(*p)),
        key_le(final(q).state().last_key, "oauth_consumer_key"@),
        final(q).state().signed == signed_pairs(pre_oauth_pairs(*p)),
        same_signing(final(q).state(), old(q).state()),
{
    let ghost mut ps: Seq<Pair> = Seq::empty();
    proof {
        lemma_request_keys();
        assert(q.state().signed =~= signed_pairs(ps));
    }
    if let Some(n) = p.count {
        let mut s = String::new();
        write_i32(n, &mut s);
        add_encoded(q, "count", s.as_str(), Ghost(base), Ghost(first), Ghost(ps));
        proof {
            lemma_signed_pairs_push(ps, "count"@, s@);
            ps = ps.push(("count"@, s@));
        }
    }
    assert(ps =~= pair_if(p.count is Some, "count"@, dec_int(p.count->0 as int)));
    if let Some(f) = p.filter_level {
        add_text(q, "filter_level", f.as_str(), Ghost(base), Ghost(first), Ghost(ps));
        proof {
            lemma_signed_pairs_push(ps, "filter_level"@, pct_text(filter_level_text(f)));
            ps = ps.push(("filter_level"@, pct_text(filter_level_text(f))));
        }
    } else {
        proof {
            lemma_key_le_trans(q.state().last_key, "filter_level"@, "follow"@);
        }
    }
    if p.follow.len() > 0 {
        let mut s = String::new();
        fmt_follow(p.follow.as_slice(), &mut s);
        add_encoded(q, "follow", s.as_str(), Ghost(base), Ghost(first), Ghost(ps));
        proof {
            lemma_signed_pairs_push(ps, "follow"@, s@);
            ps = ps.push(("follow"@, s@));
        }
    } else {
        proof {
            lemma_key_le_trans(q.state().last_key, "follow"@, "language"@);
        }
    }
    if !p.language.as_str().is_empty() {
        add_text(q, "language", p.language.as_str(), Ghost(base), Ghost(first), Ghost(ps));
        proof {
            lemma_signed_pairs_push(ps, "language"@, pct_text(p.language@));
            ps = ps.push(("language"@, pct_text(p.language@)));
        }
    } else {
        proof {
            lemma_key_le_trans(q.state().last_key, "language"@, "locations"@);
        }
    }
    if p.locations.len() > 0 {
        let mut s = String::new();
        fmt_locations(p.locations.as_slice(), &mut s);
        add_encoded(q, "locations", s.as_str(), Ghost(base), Ghost(first), Ghost(ps));
        proof {
            lemma_signed_pairs_push(ps, "locations"@, s@);
            ps = ps.push(("locations"@, s@));
        }
    } else {
        proof {
            lemma_key_le_trans(q.state().last_key, "locations"@, "oauth_consumer_key"@);
        }
    }
    proof {
        assert(ps =~= pre_oauth_pairs(*p));
    }
}

/// Signs the parameters: appends each one that is set to `q`, in ascending key order, with the
/// `oauth_*` parameters of `consumer_key` and `token` at their place, and builds the request.
pub fn authorize(p: &Parameters, q: QueryBuilder, consumer_key: &str, token: &str) -> (r:
    QueryOutcome)
    requires
        !q.is_ready(),
        q.state().last_key.len() == 0,
        q.state().signed.len() == 0,
    ensures
        r.query@ == signed_data(q.state().data, q.state().next, request_pairs(*p)),
        is_request_header(
            r.header@,
            q.state().method,
            q.state().uri,
            q.state().consumer_secret,
            q.state().token_secret,
            consumer_key@,
            token@,
            pre_oauth_pairs(*p),
            post_oauth_pairs(*p),
        ),
{
    let ghost q0 = q.state();
    let ghost base = q.state().data;
    let ghost first = q.state().next;
    let mut q = q;
    proof {
        lemma_request_keys();
        assert(signed_data(base, first, Seq::<Pair>::empty()) == base);
    }
    sign_pre_oauth(p, &mut q, Ghost(base), Ghost(first));
    let ghost mut ps: Seq<Pair> = pre_oauth_pairs(*p);
    let mut q = q.append_oauth_params(consumer_key, token);
    let ghost oa = signed_pairs(pre_oauth_pairs(*p)) + oauth_signed(
        consumer_key@,
        q.state().nonce,
        q.state().timestamp,
        token@,
    );
    let ghost mut post: Seq<Pair> = Seq::empty();
    proof {
        assert(q.state().signed =~= oa + signed_pairs(post));
    }
    if !crate::text::not(&p.stall_warnings) {
        add_text(&mut q, "stall_warnings", "true", Ghost(base), Ghost(first), Ghost(ps));
        proof {
            lemma_signed_pairs_push(post, "stall_warnings"@, pct_text("true"@));
            assert(q.state().signed =~= oa + signed_pairs(post.push(("stall_warnings"@, pct_text("true"@)))));
            post = post.push(("stall_warnings"@, pct_text("true"@)));
            ps = ps.push(("stall_warnings"@, pct_text("true"@)));
        }
    } else {
        proof {
            lemma_key_le_trans(q.state().last_key, "stall_warnings"@, "track"@);
        }
    }
    if !p.track.as_str().is_empty() {
        add_text(&mut q, "track", p.track.as_str(), Ghost(base), Ghost(first), Ghost(ps));
        proof {
            lemma_signed_pairs_push(post, "track"@, pct_text(p.track@));
            assert(q.state().signed =~= oa + signed_pairs(post.push(("track"@, pct_text(p.track@)))));
            post = post.push(("track"@, pct_text(p.track@)));
            ps = ps.push(("track"@, pct_text(p.track@)));
        }
    }
    proof {
        assert(ps =~= request_pairs(*p));
        assert(post =~= post_oauth_pairs(*p));
    }
    let ghost st = q.state();
    let r = q.build();
    proof {
        assert(r.header@ == request_header(
            q0.method,
            q0.uri,
            q0.consumer_secret,
            q0.token_secret,
            consumer_key@,
            token@,
            pre_oauth_pairs(*p),
            post_oauth_pairs(*p),
            st.nonce,
            st.timestamp,
        ));
    }
    r
}

/// The `POST statuses/filter` endpoint.
pub const FILTER: &'static str = "https://stream.twitter.com/1.1/statuses/filter.json";

/// The `GET statuses/sample` endpoint.
pub const SAMPLE: &'static str = "https://stream.twitter.com/1.1/statuses/sample.json";

/// An HTTP request to be sent: the method, the URI, the `Authorization` header, and, when
/// `form` holds, an `x-www-form-urlencoded` body (whose length in bytes is the
/// `Content-Length`).
#[derive(Clone, Debug)]
pub struct RequestParts {
    pub method: String,
    pub uri: String,
    pub authorization: String,
    pub form: bool,
    pub body: String,
}

/// Whether the parameters ask for the filter endpoint: `follow`, `track` or `locations` is set.
pub open spec fn uses_filter(p: Parameters) -> bool {
    p.follow@.len() > 0 || p.track@.len() > 0 || p.locations@.len() > 0
}

/// The method and URI of the request: the endpoint if one is given, else `POST
/// statuses/filter` when the parameters ask for it, else `GET statuses/sample`.
pub open spec fn chosen_endpoint(endpoint: Option<(String, String)>, p: Parameters) -> (Seq<char>, Seq<char>) {
    match endpoint {
        Some(e) => (e.0@, e.1@),
        None => if uses_filter(p) {
            ("POST"@, FILTER@)
        } else {
            ("GET"@, SAMPLE@)
        },
    }
}

/// The endpoint behind a reference.
pub open spec fn endpoint_value(endpoint: Option<&(String, String)>) -> Option<(String, String)> {
    match endpoint {
        Some(e) => Some(*e),
        None => None,
    }
}

/// The request `r` is the one for the endpoint and the parameters: a `POST` request carries
/// the parameters in its form body, any other in the query string of its URI.
pub open spec fn request_for(r: RequestParts, endpoint: Option<(String, String)>, p: Parameters) -> bool {
    let (method, uri) = chosen_endpoint(endpoint, p);
    &&& r.method@ == method
    &&& r.form == (method == "POST"@)
    &&& r.form ==> r.uri@ == uri && r.body@ == signed_data(Seq::empty(), Seq::empty(), request_pairs(p))
    &&& !r.form ==> r.uri@ == signed_data(uri, seq!['?'], request_pairs(p)) && r.body@.len() == 0
}

/// The `Authorization` header of the request for the endpoint and the parameters is signed
/// with `token` over the method, the URI and the parameters (under some nonce and timestamp).
pub open spec fn signed_with(authorization: Seq<char>, endpoint: Option<(String, String)>, token: Token, p: Parameters) -> bool {
    let (method, uri) = chosen_endpoint(endpoint, p);
    is_request_header(
        authorization,
        method,
        uri,
        token.client.secret@,
        token.token.secret@,
        token.client.identifier@,
        token.token.identifier@,
        pre_oauth_pairs(p),
        post_oauth_pairs(p),
    )
}

/// Whether two sets of parameters write the same: the same switches, filter level and count,
/// and each of `language`, `track`, `follow` and `locations` the same or empty in both, an
/// empty value (set so or never set) writing no parameter.
pub open spec fn write_the_same(p1: Parameters, p2: Parameters) -> bool {
    &&& p1.stall_warnings == p2.stall_warnings
    &&& p1.filter_level == p2.filter_level
    &&& p1.count == p2.count
    &&& (p1.language@ == p2.language@ || (p1.language@.len() == 0 && p2.language@.len() == 0))
    &&& (p1.track@ == p2.track@ || (p1.track@.len() == 0 && p2.track@.len() == 0))
    &&& (p1.follow@ == p2.follow@ || (p1.follow@.len() == 0 && p2.follow@.len() == 0))
    &&& (p1.locations@ == p2.locations@ || (p1.locations@.len() == 0 && p2.locations@.len() == 0))
}

/// Setting an empty value unsets the parameter: parameters that write the same send the same
/// request, with the same method and URI, the same parameters in the query or the body, and,
/// under the same nonce and timestamp, the same `Authorization` header.
pub proof fn empty_values_unset(
    endpoint: Option<(String, String)>,
    token: Token,
    p1: Parameters,
    p2: Parameters,
    nonce: Seq<char>,
    timestamp: u64,
)
    requires
        write_the_same(p1, p2),
    ensures
        chosen_endpoint(endpoint, p1) == chosen_endpoint(endpoint, p2),
        request_pairs(p1) == request_pairs(p2),
        request_header(
            chosen_endpoint(endpoint, p1).0,
            chosen_endpoint(endpoint, p1).1,
            token.client.secret@,
            token.token.secret@,
            token.client.identifier@,
            token.token.identifier@,
            pre_oauth_pairs(p1),
            post_oauth_pairs(p1),
            nonce,
            timestamp,
        ) == request_header(
            chosen_endpoint(endpoint, p2).0,
            chosen_endpoint(endpoint, p2).1,
            token.client.secret@,
            token.token.secret@,
            token.client.identifier@,
            token.token.identifier@,
            pre_oauth_pairs(p2),
            post_oauth_pairs(p2),
            nonce,
            timestamp,
        ),
{
    if p1.language@.len() == 0 && p2.language@.len() == 0 {
        assert(p1.language@ =~= p2.language@);
    }
    if p1.track@.len() == 0 && p2.track@.len() == 0 {
        assert(p1.track@ =~= p2.track@);
    }
    if p1.follow@.len() == 0 && p2.follow@.len() == 0 {
        assert(p1.follow@ =~= p2.follow@);
    }
    if p1.locations@.len() == 0 && p2.locations@.len() == 0 {
        assert(p1.locations@ =~= p2.locations@);
    }
    assert(pre_oauth_pairs(p1) =~= pre_oauth_pairs(p2));
    assert(post_oauth_pairs(p1) =~= post_oauth_pairs(p2));
    assert(request_pairs(p1) =~= request_pairs(p2));
}

/// Parameters that are all empty or off, whether set so or never set, send the same request:
/// the same method and URI, no parameter in the query or the body, and, under the same nonce
/// and timestamp, the same `Authorization` header.
pub proof fn empty_parameters_send_the_same_request(
    endpoint: Option<(String, String)>,
    token: Token,
    p1: Parameters,
    p2: Parameters,
    nonce: Seq<char>,
    timestamp: u64,
)
    requires
        no_parameters(p1),
        no_parameters(p2),
    ensures
        chosen_endpoint(endpoint, p1) == chosen_endpoint(endpoint, p2),
        request_pairs(p1) == Seq::<Pair>::empty(),
        request_pairs(p2) == Seq::<Pair>::empty(),
        request_header(
            chosen_endpoint(endpoint, p1).0,
            chosen_endpoint(endpoint, p1).1,
            token.client.secret@,
            token.token.secret@,
            token.client.identifier@,
            token.token.identifier@,
            pre_oauth_pairs(p1),
            post_oauth_pairs(p1),
            nonce,
            timestamp,
        ) == request_header(
            chosen_endpoint(endpoint, p2).0,
            chosen_endpoint(endpoint, p2).1,
            token.client.secret@,
            token.token.secret@,
            token.client.identifier@,
            token.token.identifier@,
            pre_oauth_pairs(p2),
            post_oauth_pairs(p2),
            nonce,
            timestamp,
        ),
{
    assert(pre_oauth_pairs(p1) =~= Seq::<Pair>::empty());
    assert(pre_oauth_pairs(p2) =~= Seq::<Pair>::empty());
    assert(post_oauth_pairs(p1) =~= Seq::<Pair>::empty());
    assert(post_oauth_pairs(p2) =~= Seq::<Pair>::empty());
    assert(request_pairs(p1) =~= Seq::<Pair>::empty());
    assert(request_pairs(p2) =~= Seq::<Pair>::empty());
}

/// The request for the given endpoint (or the one that the parameters call for), signed with
/// `token`. A `POST` request carries the parameters in a form body; any other method carries
/// them in the query string of the URI.
pub fn prepare_request(endpoint: Option<&(String, String)>, token: &Token, parameters: &Parameters) -> (r: RequestParts)
    requires
        !chosen_endpoint(endpoint_value(endpoint), *parameters).1.contains('?'),
    ensures
        request_for(r, endpoint_value(endpoint), *parameters),
        signed_with(r.authorization@, endpoint_value(endpoint), *token, *parameters),
{
    let (method, uri) = match endpoint {
        Some(e) => (e.0.clone(), e.1.clone()),
        None => if parameters.follow.len() == 0 && parameters.track.as_str().is_empty()
            && parameters.locations.len() == 0 {
            (String::from_str("GET"), String::from_str(SAMPLE))
        } else {
            (String::from_str("POST"), String::from_str(FILTER))
        },
    };
    if str_eq(method.as_str(), "POST") {
        let q = QueryBuilder::new_form(
            token.client.secret.as_str(),
            token.token.secret.as_str(),
            "POST",
            uri.as_str(),
        );
        let outcome = authorize(parameters, q, token.client.identifier.as_str(), token.token.identifier.as_str());
        RequestParts { method, uri, authorization: outcome.header, form: true, body: outcome.query }
    } else {
        let q = QueryBuilder::new(
            token.client.secret.as_str(),
            token.token.secret.as_str(),
            method.as_str(),
            uri.as_str(),
        );
        let outcome = authorize(parameters, q, token.client.identifier.as_str(), token.token.identifier.as_str());
        RequestParts {
            method,
            uri: outcome.query,
            authorization: outcome.header,
            form: false,
            body: String::new(),
        }
    }
}

/// Whether a text holds no `?` (a URI without a query part).
pub fn has_no_query(s: &str) -> (r: bool)
    ensures
        r == !s@.contains('?'),
{
    let n = s.unicode_len();
    let mut i: usize = 0;
    while i < n
        invariant
            n == s@.len(),
            i <= n,
            forall|j: int| 0 <= j < i ==> s@[j] != '?',
        decreases n - i,
    {
        if s.get_char(i) == '?' {
            return false;
        }
        i = i + 1;
    }
    true
}

/// A builder for a request to the Streaming API.
#[derive(Clone, Debug)]
pub struct Builder {
    token: Token,
    endpoint: Option<(String, String)>,
    parameters: Parameters,
}

impl Builder {
    /// The token that signs the request.
    pub closed spec fn token_spec(self) -> Token {
        self.token
    }

    /// The endpoint set by hand (method and URI), if any.
    pub closed spec fn endpoint_spec(self) -> Option<(String, String)> {
        self.endpoint
    }

    /// The parameters.
    pub closed spec fn params(self) -> Parameters {
        self.parameters
    }

    /// A builder with no parameter and no endpoint set.
    pub fn new(token: Token) -> (r: Self)
        ensures
            r.token_spec() == token,
            r.endpoint_spec() is None,
            no_parameters(r.params()),
    {
        Builder { token, endpoint: None, parameters: Parameters::new() }
    }

    /// A builder for `POST statuses/filter`.
    pub fn filter(token: Token) -> (r: Self)
        ensures
            r.token_spec() == token,
            r.endpoint_spec() matches Some(e) && e.0@ == "POST"@ && e.1@ == FILTER@,
            no_parameters(r.params()),
    {
        let mut ret = Self::new(token);
        ret.endpoint = Some((String::from_str("POST"), String::from_str(FILTER)));
        ret
    }

    /// A builder for `GET statuses/sample`.
    pub fn sample(token: Token) -> (r: Self)
        ensures
            r.token_spec() == token,
            r.endpoint_spec() matches Some(e) && e.0@ == "GET"@ && e.1@ == SAMPLE@,
            no_parameters(r.params()),
    {
        let mut ret = Self::new(token);
        ret.endpoint = Some((String::from_str("GET"), String::from_str(SAMPLE)));
        ret
    }

    /// Sets (or, with `None`, unsets) the endpoint: a method and a URI.
    pub fn endpoint(&mut self, endpoint: Option<(String, String)>) -> (r: &mut Self)
        ensures
            r.endpoint_spec() == endpoint,
            r.token_spec() == old(self).token_spec(),
            r.params() == old(self).params(),
            *final(self) == *final(r),
    {
        self.endpoint = endpoint;
        self
    }

    /// Sets the token.
    pub fn token(&mut self, token: Token) -> (r: &mut Self)
        ensures
            r.token_spec() == token,
            r.endpoint_spec() == old(self).endpoint_spec(),
            r.params() == old(self).params(),
            *final(self) == *final(r),
    {
        self.token = token;
        self
    }

    /// Sets whether to receive stall warnings.
    pub fn stall_warnings(&mut self, stall_warnings: bool) -> (r: &mut Self)
        ensures
            r.params() == (Parameters { stall_warnings, ..old(self).params() }),
            r.token_spec() == old(self).token_spec(),
            r.endpoint_spec() == old(self).endpoint_spec(),
            *final(self) == *final(r),
    {
        self.parameters.stall_warnings = stall_warnings;
        self
    }

    /// Sets (or unsets) the minimum filter level of the Tweets to receive.
    pub fn filter_level(&mut self, filter_level: Option<FilterLevel>) -> (r: &mut Self)
        ensures
            r.params() == (Parameters { filter_level, ..old(self).params() }),
            r.token_spec() == old(self).token_spec(),
            r.endpoint_spec() == old(self).endpoint_spec(),
            *final(self) == *final(r),
    {
        self.parameters.filter_level = filter_level;
        self
    }

    /// Sets the comma-separated languages of the Tweets to receive (empty: unset).
    pub fn language(&mut self, language: String) -> (r: &mut Self)
        ensures
            r.params() == (Parameters { language, ..old(self).params() }),
            r.token_spec() == old(self).token_spec(),
            r.endpoint_spec() == old(self).endpoint_spec(),
            *final(self) == *final(r),
    {
        self.parameters.language = language;
        self
    }

    /// Sets the users whose Tweets to receive (empty: unset).
    pub fn follow(&mut self, follow: Vec<u64>) -> (r: &mut Self)
        ensures
            r.params() == (Parameters { follow, ..old(self).params() }),
            r.token_spec() == old(self).token_spec(),
            r.endpoint_spec() == old(self).endpoint_spec(),
            *final(self) == *final(r),
    {
        self.parameters.follow = follow;
        self
    }

    /// Sets the comma-separated phrases to filter Tweets by (empty: unset).
    pub fn track(&mut self, track: String) -> (r: &mut Self)
        ensures
            r.params() == (Parameters { track, ..old(self).params() }),
            r.token_spec() == old(self).token_spec(),
            r.endpoint_spec() == old(self).endpoint_spec(),
            *final(self) == *final(r),
    {
        self.parameters.track = track;
        self
    }

    /// Sets the boxes to filter Tweets by (empty: unset).
    pub fn locations(&mut self, locations: Vec<BoundingBox>) -> (r: &mut Self)
        ensures
            r.params() == (Parameters { locations, ..old(self).params() }),
            r.token_spec() == old(self).token_spec(),
            r.endpoint_spec() == old(self).endpoint_spec(),
            *final(self) == *final(r),
    {
        self.parameters.locations = locations;
        self
    }

    /// Sets (or unsets) the `count` parameter.
    pub fn count(&mut self, count: Option<i32>) -> (r: &mut Self)
        ensures
            r.params() == (Parameters { count, ..old(self).params() }),
            r.token_spec() == old(self).token_spec(),
            r.endpoint_spec() == old(self).endpoint_spec(),
            *final(self) == *final(r),
    {
        self.parameters.count = count;
        self
    }

    /// Whether the URI of the request has no query part, as [`Builder::request`] requires.
    pub fn can_request(&self) -> (r: bool)
        ensures
            r == !chosen_endpoint(self.endpoint_spec(), self.params()).1.contains('?'),
    {
        match &self.endpoint {
            Some(e) => has_no_query(e.1.as_str()),
            None => if self.parameters.follow.len() == 0 && self.parameters.track.as_str().is_empty()
                && self.parameters.locations.len() == 0 {
                has_no_query(SAMPLE)
            } else {
                has_no_query(FILTER)
            },
        }
    }

    /// The request that listening sends: see [`prepare_request`].
    pub fn request(&self) -> (r: RequestParts)
        requires
            !chosen_endpoint(self.endpoint_spec(), self.params()).1.contains('?'),
        ensures
            request_for(r, self.endpoint_spec(), self.params()),
            signed_with(r.authorization@, self.endpoint_spec(), self.token_spec(), self.params()),
    {
        prepare_request(self.endpoint.as_ref(), &self.token, &self.parameters)
    }
}

} // verus!
