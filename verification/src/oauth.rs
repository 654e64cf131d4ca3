//! OAuth 1.0 signing of a request's parameters (`oauth1_request::signer::Signer`), and a
//! query builder that appends parameters to it in ascending key order.
//!
//! The signer keeps the query (or form) string that it builds up and the parameters of the
//! signature base string; its contents are named by [`pending_state`] and [`ready_state`], and
//! each wrapper below says how a call changes them. The `Authorization` header carries the
//! HMAC-SHA1 signature of the request (named by [`hmac_sha1_signature`]) under a random nonce
//! and the time of signing, which the state records.

use vstd::prelude::*;

use oauth1_request::signer::{NotReady, Ready, Signer};
use oauth1_request::HmacSha1;
use vstd::utf8::encode_utf8;

use crate::text::{dec_nat, join};

verus! {

/// A signer to which the `oauth_*` parameters have not been appended yet. Verus takes no
/// declaration of `Signer` (its bound is a trait of the outside crate), so the signer is held
/// in a field that Verus does not see.
#[verifier::external_body]
pub struct PendingSigner {
    inner: Signer<HmacSha1, NotReady>,
}

/// A signer to which the `oauth_*` parameters have been appended (held as [`PendingSigner`]).
#[verifier::external_body]
pub struct ReadySigner {
    inner: Signer<HmacSha1, Ready>,
}

/// What a signer has built up: the query (or form) string so far, what is written before the
/// next parameter (`?` before the first parameter of a query, nothing before the first of a
/// form, `&` after that), the last key appended, and the parameters of the signature base
/// string (keys with their values as the base string writes them); and what it signs with: the
/// request method and URI, the consumer secret and token secret, and, once the `oauth_*`
/// parameters are appended, the consumer key, the token, the nonce and the timestamp.
pub struct SignerState {
    pub data: Seq<char>,
    pub next: Seq<char>,
    pub last_key: Seq<char>,
    pub signed: Seq<(Seq<char>, Seq<char>)>,
    pub method: Seq<char>,
    pub uri: Seq<char>,
    pub consumer_secret: Seq<char>,
    pub token_secret: Seq<char>,
    pub consumer_key: Seq<char>,
    pub token: Seq<char>,
    pub nonce: Seq<char>,
    pub timestamp: u64,
}

/// The signature that `HmacSha1Signature` writes into the header: the HMAC-SHA1 of `text`
/// under `key`, in base64 (standard alphabet, padded), percent-encoded.
pub uninterp spec fn hmac_sha1_signature(key: Seq<u8>, text: Seq<u8>) -> Seq<char>;

/// The key of the signature: the consumer secret and the token secret, percent-encoded and
/// joined by `&`.
pub open spec fn signing_key(consumer_secret: Seq<char>, token_secret: Seq<char>) -> Seq<char> {
    pct_text(consumer_secret) + seq!['&'] + pct_text(token_secret)
}

/// A parameter as the signature base string writes it: `key%3Dvalue`.
pub open spec fn base_pair_text(p: (Seq<char>, Seq<char>)) -> Seq<char> {
    p.0 + "%3D"@ + p.1
}

/// The signature base string: the method, the percent-encoded URI and the parameters, joined
/// by `&` (the parameters among themselves by `%26`).
pub open spec fn signature_base(method: Seq<char>, uri: Seq<char>, signed: Seq<(Seq<char>, Seq<char>)>) -> Seq<char> {
    method + seq!['&'] + pct_text(uri) + seq!['&'] + join(
        signed.map_values(|p: (Seq<char>, Seq<char>)| base_pair_text(p)),
        "%26"@,
    )
}

/// The `oauth_*` parameters as the signature base string writes them.
pub open spec fn oauth_signed(ck: Seq<char>, nonce: Seq<char>, timestamp: u64, tk: Seq<char>) -> Seq<
    (Seq<char>, Seq<char>),
> {
    seq![
        ("oauth_consumer_key"@, pct_text(pct_text(ck))),
        ("oauth_nonce"@, pct_text(pct_text(nonce))),
        ("oauth_signature_method"@, "HMAC-SHA1"@),
        ("oauth_timestamp"@, dec_nat(timestamp as nat)),
        ("oauth_token"@, pct_text(pct_text(tk))),
    ]
}

/// The parameters of a query or form string as the signature base string writes them: each
/// value percent-encoded once more.
pub open spec fn signed_pairs(ps: Seq<(Seq<char>, Seq<char>)>) -> Seq<(Seq<char>, Seq<char>)> {
    ps.map_values(|p: (Seq<char>, Seq<char>)| (p.0, pct_text(p.1)))
}

/// The `Authorization` header of a signer.
pub open spec fn header_of(st: SignerState) -> Seq<char> {
    oauth_header(
        st.consumer_key,
        st.token,
        pct_text(st.nonce),
        dec_nat(st.timestamp as nat),
        hmac_sha1_signature(
            encode_utf8(signing_key(st.consumer_secret, st.token_secret)),
            encode_utf8(signature_base(st.method, st.uri, st.signed)),
        ),
    )
}

/// The `Authorization` header of a request with the method and URI, signed with the secrets
/// for the consumer key `ck` and the token `tk`, whose parameters are `pre` (the keys that
/// come before `oauth_*`) and `post` (the keys after), under the nonce and the timestamp.
pub open spec fn request_header(
    method: Seq<char>,
    uri: Seq<char>,
    cs: Seq<char>,
    ts: Seq<char>,
    ck: Seq<char>,
    tk: Seq<char>,
    pre: Seq<(Seq<char>, Seq<char>)>,
    post: Seq<(Seq<char>, Seq<char>)>,
    nonce: Seq<char>,
    timestamp: u64,
) -> Seq<char> {
    header_of(
        SignerState {
            data: Seq::empty(),
            next: Seq::empty(),
            last_key: Seq::empty(),
            signed: signed_pairs(pre) + oauth_signed(ck, nonce, timestamp, tk) + signed_pairs(post),
            method,
            uri,
            consumer_secret: cs,
            token_secret: ts,
            consumer_key: ck,
            token: tk,
            nonce,
            timestamp,
        },
    )
}

/// `h` is the `Authorization` header of such a request under some nonce and some timestamp.
pub open spec fn is_request_header(
    h: Seq<char>,
    method: Seq<char>,
    uri: Seq<char>,
    cs: Seq<char>,
    ts: Seq<char>,
    ck: Seq<char>,
    tk: Seq<char>,
    pre: Seq<(Seq<char>, Seq<char>)>,
    post: Seq<(Seq<char>, Seq<char>)>,
) -> bool {
    exists|nonce: Seq<char>, t: u64|
        h == #[trigger] request_header(method, uri, cs, ts, ck, tk, pre, post, nonce, t)
}

/// Appending a parameter to the string adds it, percent-encoded once more, to the signature.
pub proof fn lemma_signed_pairs_push(ps: Seq<(Seq<char>, Seq<char>)>, key: Seq<char>, value: Seq<char>)
    ensures
        signed_pairs(ps.push((key, value))) == signed_pairs(ps).push((key, pct_text(value))),
{
    assert(signed_pairs(ps.push((key, value))) =~= signed_pairs(ps).push((key, pct_text(value))));
}

/// The signing inputs of two states agree.
pub open spec fn same_signing(a: SignerState, b: SignerState) -> bool {
    &&& a.method == b.method
    &&& a.uri == b.uri
    &&& a.consumer_secret == b.consumer_secret
    &&& a.token_secret == b.token_secret
    &&& a.consumer_key == b.consumer_key
    &&& a.token == b.token
    &&& a.nonce == b.nonce
    &&& a.timestamp == b.timestamp
}

/// The `Authorization` header of a request signed with HMAC-SHA1 for the consumer key `ck`
/// and the token `tk`, given its nonce, its timestamp and its signature.
pub open spec fn oauth_header(
    ck: Seq<char>,
    tk: Seq<char>,
    nonce: Seq<char>,
    timestamp: Seq<char>,
    signature: Seq<char>,
) -> Seq<char> {
    "OAuth oauth_consumer_key=\""@ + pct_text(ck) + "\",oauth_nonce=\""@ + nonce
        + "\",oauth_signature_method=\"HMAC-SHA1\",oauth_timestamp=\""@ + timestamp
        + "\",oauth_token=\""@ + pct_text(tk) + "\",oauth_signature=\""@ + signature + "\""@
}

/// The state of a signer to which the `oauth_*` parameters have not been appended yet.
pub uninterp spec fn pending_state(s: PendingSigner) -> SignerState;

/// The state of a signer to which the `oauth_*` parameters have been appended.
pub uninterp spec fn ready_state(s: ReadySigner) -> SignerState;

/// Whether `a` comes before `b`, or equals it, in byte order (the order of `str`; for UTF-8
/// text it is the order of the code points).
pub open spec fn key_le(a: Seq<char>, b: Seq<char>) -> bool
    decreases a.len(),
{
    if a.len() == 0 {
        true
    } else if b.len() == 0 {
        false
    } else if (a[0] as u32) < (b[0] as u32) {
        true
    } else if (a[0] as u32) > (b[0] as u32) {
        false
    } else {
        key_le(a.drop_first(), b.drop_first())
    }
}

/// The bytes that percent-encoding leaves as they are: ASCII letters and digits, `-`, `.`,
/// `_` and `~` (the unreserved characters of RFC 3986).
pub open spec fn unreserved(b: u8) -> bool {
    (0x41 <= b <= 0x5A) || (0x61 <= b <= 0x7A) || (0x30 <= b <= 0x39) || b == 0x2D || b == 0x2E
        || b == 0x5F || b == 0x7E
}

/// An upper-case hexadecimal digit.
pub open spec fn hex_upper(n: int) -> char {
    if n < 10 {
        (48 + n) as char
    } else {
        (55 + n) as char
    }
}

/// One byte, percent-encoded.
pub open spec fn pct_byte(b: u8) -> Seq<char> {
    if unreserved(b) {
        seq![b as char]
    } else {
        seq!['%', hex_upper(b as int / 16), hex_upper(b as int % 16)]
    }
}

/// Bytes, percent-encoded.
pub open spec fn pct_encode(bytes: Seq<u8>) -> Seq<char>
    decreases bytes.len(),
{
    if bytes.len() == 0 {
        Seq::empty()
    } else {
        pct_byte(bytes[0]) + pct_encode(bytes.drop_first())
    }
}

/// The UTF-8 bytes of a text, percent-encoded.
pub open spec fn pct_text(s: Seq<char>) -> Seq<char> {
    pct_encode(encode_utf8(s))
}

/// `key=value`.
pub open spec fn pair_text(p: (Seq<char>, Seq<char>)) -> Seq<char> {
    p.0 + seq!['='] + p.1
}

/// The parameters `key=value`, joined by `&`.
pub open spec fn pairs_text(ps: Seq<(Seq<char>, Seq<char>)>) -> Seq<char> {
    join(ps.map_values(|p: (Seq<char>, Seq<char>)| pair_text(p)), seq!['&'])
}

/// The string that a signer builds from `base` (the URI, or nothing for a form), the
/// separator `first` written before the first parameter, and the parameters `ps` (keys with
/// their values as they are written).
pub open spec fn signed_data(base: Seq<char>, first: Seq<char>, ps: Seq<(Seq<char>, Seq<char>)>) -> Seq<char> {
    if ps.len() == 0 {
        base
    } else {
        base + first + pairs_text(ps)
    }
}

/// What is written before the next parameter, once `ps` have been appended.
pub open spec fn next_sep(first: Seq<char>, ps: Seq<(Seq<char>, Seq<char>)>) -> Seq<char> {
    if ps.len() == 0 {
        first
    } else {
        seq!['&']
    }
}

/// Appending one more parameter to the string built from `ps`.
pub proof fn lemma_signed_data_push(
    base: Seq<char>,
    first: Seq<char>,
    ps: Seq<(Seq<char>, Seq<char>)>,
    key: Seq<char>,
    value: Seq<char>,
)
    ensures
        signed_data(base, first, ps) + next_sep(first, ps) + key + seq!['='] + value
            == signed_data(base, first, ps.push((key, value))),
{
    let qs = ps.push((key, value));
    let parts = qs.map_values(|p: (Seq<char>, Seq<char>)| pair_text(p));
    let prev = ps.map_values(|p: (Seq<char>, Seq<char>)| pair_text(p));
    assert(parts.drop_last() =~= prev);
    assert(parts.last() == pair_text((key, value)));
    if ps.len() == 0 {
        assert(parts =~= seq![pair_text((key, value))]);
        assert(signed_data(base, first, qs) =~= base + first + (key + seq!['='] + value));
    } else {
        assert(pairs_text(qs) == pairs_text(ps) + seq!['&'] + pair_text((key, value)));
    }
    assert(signed_data(base, first, ps) + next_sep(first, ps) + key + seq!['='] + value
        =~= signed_data(base, first, qs));
}

/// `Signer::with_signature_method(HmacSha1, method, uri, consumer_secret, Some(token_secret))`:
/// a signer whose string starts as the URI, the parameters to follow after a `?`. The
/// constructor asserts (in debug builds) that the URI has no `?`.
#[verifier::external_body]
fn signer_for_query(method: &str, uri: &str, consumer_secret: &str, token_secret: &str) -> (s: PendingSigner)
    requires
        !uri@.contains('?'),
    ensures
        pending_state(s).data == uri@,
        pending_state(s).next == seq!['?'],
        pending_state(s).last_key == Seq::<char>::empty(),
        pending_state(s).signed == Seq::<(Seq<char>, Seq<char>)>::empty(),
        pending_state(s).method == method@,
        pending_state(s).uri == uri@,
        pending_state(s).consumer_secret == consumer_secret@,
        pending_state(s).token_secret == token_secret@,
{
    PendingSigner {
        inner: Signer::with_signature_method(HmacSha1, method, uri, consumer_secret, Some(token_secret)),
    }
}

/// `Signer::form_with_signature_method(HmacSha1, method, uri, consumer_secret,
/// Some(token_secret))`: a signer whose string starts empty, to be sent as an
/// `x-www-form-urlencoded` body. The constructor asserts (in debug builds) that the URI has no
/// `?`.
#[verifier::external_body]
fn signer_for_form(method: &str, uri: &str, consumer_secret: &str, token_secret: &str) -> (s: PendingSigner)
    requires
        !uri@.contains('?'),
    ensures
        pending_state(s).data == Seq::<char>::empty(),
        pending_state(s).next == Seq::<char>::empty(),
        pending_state(s).last_key == Seq::<char>::empty(),
        pending_state(s).signed == Seq::<(Seq<char>, Seq<char>)>::empty(),
        pending_state(s).method == method@,
        pending_state(s).uri == uri@,
        pending_state(s).consumer_secret == consumer_secret@,
        pending_state(s).token_secret == token_secret@,
{
    PendingSigner {
        inner: Signer::form_with_signature_method(
            HmacSha1,
            method,
            uri,
            consumer_secret,
            Some(token_secret),
        ),
    }
}

/// `Signer::parameter` before the `oauth_*` parameters: appends the separator, `key=` and the
/// value percent-encoded to the string, and `key` with the value percent-encoded twice to the
/// signature base string. It asserts (in debug builds) that the keys come in ascending order.
#[verifier::external_body]
fn pending_parameter(s: &mut PendingSigner, key: &str, value: &str)
    requires
        key_le(pending_state(*old(s)).last_key, key@),
    ensures
        pending_state(*final(s)) == (SignerState {
            data: pending_state(*old(s)).data + pending_state(*old(s)).next + key@ + seq!['=']
                + pct_text(value@),
            next: seq!['&'],
            last_key: key@,
            signed: pending_state(*old(s)).signed.push((key@, pct_text(pct_text(value@)))),
            ..pending_state(*old(s))
        }),
{
    s.inner.parameter(key, value);
}

/// `Signer::parameter_encoded` before the `oauth_*` parameters: appends the separator,
/// `key=` and the value as it is to the string, and `key` with the value percent-encoded to
/// the signature base string. It asserts (in debug builds) that the keys come in ascending
/// order.
#[verifier::external_body]
fn pending_parameter_encoded(s: &mut PendingSigner, key: &str, value: &str)
    requires
        key_le(pending_state(*old(s)).last_key, key@),
    ensures
        pending_state(*final(s)) == (SignerState {
            data: pending_state(*old(s)).data + pending_state(*old(s)).next + key@ + seq!['=']
                + value@,
            next: seq!['&'],
            last_key: key@,
            signed: pending_state(*old(s)).signed.push((key@, pct_text(value@))),
            ..pending_state(*old(s))
        }),
{
    s.inner.parameter_encoded(key, value);
}

/// `Signer::parameter` after the `oauth_*` parameters (same as [`pending_parameter`]).
#[verifier::external_body]
fn ready_parameter(s: &mut ReadySigner, key: &str, value: &str)
    requires
        key_le(ready_state(*old(s)).last_key, key@),
    ensures
        ready_state(*final(s)) == (SignerState {
            data: ready_state(*old(s)).data + ready_state(*old(s)).next + key@ + seq!['=']
                + pct_text(value@),
            next: seq!['&'],
            last_key: key@,
            signed: ready_state(*old(s)).signed.push((key@, pct_text(pct_text(value@)))),
            ..ready_state(*old(s))
        }),
{
    s.inner.parameter(key, value);
}

/// `Signer::parameter_encoded` after the `oauth_*` parameters (same as
/// [`pending_parameter_encoded`]).
#[verifier::external_body]
fn ready_parameter_encoded(s: &mut ReadySigner, key: &str, value: &str)
    requires
        key_le(ready_state(*old(s)).last_key, key@),
    ensures
        ready_state(*final(s)) == (SignerState {
            data: ready_state(*old(s)).data + ready_state(*old(s)).next + key@ + seq!['=']
                + value@,
            next: seq!['&'],
            last_key: key@,
            signed: ready_state(*old(s)).signed.push((key@, pct_text(value@))),
            ..ready_state(*old(s))
        }),
{
    s.inner.parameter_encoded(key, value);
}

/// `Signer::oauth_parameters` with the options holding only the token: writes the
/// `oauth_consumer_key`, `oauth_nonce`, `oauth_signature_method`, `oauth_timestamp` and
/// `oauth_token` parameters into the `Authorization` header and the signature base string,
/// leaving the string as it is. The nonce is random and the timestamp is the time of signing;
/// the state records them, and nothing else is stated of them. The first of those keys must
/// not come before the last key appended (asserted in debug builds); afterwards the last key
/// is `oauth_token`.
#[verifier::external_body]
fn signer_oauth_parameters(s: PendingSigner, consumer_key: &str, token: &str) -> (r: ReadySigner)
    requires
        key_le(pending_state(s).last_key, "oauth_consumer_key"@),
    ensures
        ready_state(r) == (SignerState {
            last_key: "oauth_token"@,
            signed: pending_state(s).signed + oauth_signed(
                consumer_key@,
                ready_state(r).nonce,
                ready_state(r).timestamp,
                token@,
            ),
            consumer_key: consumer_key@,
            token: token@,
            nonce: ready_state(r).nonce,
            timestamp: ready_state(r).timestamp,
            ..pending_state(s)
        }),
{
    let mut options = oauth1_request::Options::new();
    options.token(token);
    ReadySigner { inner: s.inner.oauth_parameters(consumer_key, &options) }
}

/// `Signer::finish`: the `Authorization` header and the string built up. The header names the
/// consumer key, the nonce and the token (percent-encoded), the signature method `HMAC-SHA1`
/// and the timestamp, and carries the signature of the signature base string under the key
/// made of the secrets.
#[verifier::external_body]
fn signer_finish(s: ReadySigner) -> (r: (String, String))
    ensures
        r.1@ == ready_state(s).data,
        r.0@ == oauth_header(
            ready_state(s).consumer_key,
            ready_state(s).token,
            pct_text(ready_state(s).nonce),
            dec_nat(ready_state(s).timestamp as nat),
            hmac_sha1_signature(
                encode_utf8(signing_key(ready_state(s).consumer_secret, ready_state(s).token_secret)),
                encode_utf8(
                    signature_base(ready_state(s).method, ready_state(s).uri, ready_state(s).signed),
                ),
            ),
        ),
{
    let request = s.inner.finish();
    (request.authorization, request.data)
}

/// The signer, before or after the `oauth_*` parameters.
enum Stage {
    Pending(PendingSigner),
    Ready(ReadySigner),
}

/// A query (or form) string under construction, with its OAuth signature. Parameters must be
/// appended in ascending key order, the `oauth_*` parameters among them at their place.
pub struct QueryBuilder {
    stage: Stage,
}

/// A signed request: the `Authorization` header, and the URI with its query string (or the
/// form body).
pub struct QueryOutcome {
    pub header: String,
    pub query: String,
}

impl QueryBuilder {
    /// The string built so far, the separator before the next parameter, the last key, and
    /// what the request is signed with.
    pub closed spec fn state(self) -> SignerState {
        match self.stage {
            Stage::Pending(s) => pending_state(s),
            Stage::Ready(s) => ready_state(s),
        }
    }

    /// Whether the `oauth_*` parameters have been appended.
    pub closed spec fn is_ready(self) -> bool {
        self.stage is Ready
    }

    /// A builder for a request whose parameters go into the query string of `uri`.
    pub fn new(consumer_secret: &str, token_secret: &str, method: &str, uri: &str) -> (q: Self)
        requires
            !uri@.contains('?'),
        ensures
            q.state().data == uri@,
            q.state().next == seq!['?'],
            q.state().last_key == Seq::<char>::empty(),
            q.state().signed == Seq::<(Seq<char>, Seq<char>)>::empty(),
            q.state().method == method@,
            q.state().uri == uri@,
            q.state().consumer_secret == consumer_secret@,
            q.state().token_secret == token_secret@,
            !q.is_ready(),
    {
        QueryBuilder { stage: Stage::Pending(signer_for_query(method, uri, consumer_secret, token_secret)) }
    }

    /// A builder for a request whose parameters go into an `x-www-form-urlencoded` body.
    pub fn new_form(consumer_secret: &str, token_secret: &str, method: &str, uri: &str) -> (q: Self)
        requires
            !uri@.contains('?'),
        ensures
            q.state().data == Seq::<char>::empty(),
            q.state().next == Seq::<char>::empty(),
            q.state().last_key == Seq::<char>::empty(),
            q.state().signed == Seq::<(Seq<char>, Seq<char>)>::empty(),
            q.state().method == method@,
            q.state().uri == uri@,
            q.state().consumer_secret == consumer_secret@,
            q.state().token_secret == token_secret@,
            !q.is_ready(),
    {
        QueryBuilder { stage: Stage::Pending(signer_for_form(method, uri, consumer_secret, token_secret)) }
    }

    /// Appends `key=value`, the value percent-encoded.
    pub fn append(&mut self, key: &str, value: &str)
        requires
            key_le(old(self).state().last_key, key@),
        ensures
            final(self).state() == (SignerState {
                data: old(self).state().data + old(self).state().next + key@ + seq!['=']
                    + pct_text(value@),
                next: seq!['&'],
                last_key: key@,
                signed: old(self).state().signed.push((key@, pct_text(pct_text(value@)))),
                ..old(self).state()
            }),
            final(self).is_ready() == old(self).is_ready(),
    {
        match &mut self.stage {
            Stage::Pending(s) => pending_parameter(s, key, value),
            Stage::Ready(s) => ready_parameter(s, key, value),
        }
    }

    /// Appends `key=value`, the value as it is (already percent-encoded).
    pub fn append_encoded(&mut self, key: &str, value: &str)
        requires
            key_le(old(self).state().last_key, key@),
        ensures
            final(self).state() == (SignerState {
                data: old(self).state().data + old(self).state().next + key@ + seq!['='] + value@,
                next: seq!['&'],
                last_key: key@,
                signed: old(self).state().signed.push((key@, pct_text(value@))),
                ..old(self).state()
            }),
            final(self).is_ready() == old(self).is_ready(),
    {
        match &mut self.stage {
            Stage::Pending(s) => pending_parameter_encoded(s, key, value),
            Stage::Ready(s) => ready_parameter_encoded(s, key, value),
        }
    }

    /// Signs the `oauth_*` parameters (consumer key, nonce, signature method, timestamp and
    /// token) into the header and the signature base string; the string is unchanged. The
    /// nonce is random and the timestamp is the time of signing.
    pub fn append_oauth_params(self, consumer_key: &str, token: &str) -> (q: Self)
        requires
            !self.is_ready(),
            key_le(self.state().last_key, "oauth_consumer_key"@),
        ensures
            q.is_ready(),
            q.state() == (SignerState {
                last_key: "oauth_token"@,
                signed: self.state().signed + oauth_signed(
                    consumer_key@,
                    q.state().nonce,
                    q.state().timestamp,
                    token@,
                ),
                consumer_key: consumer_key@,
                token: token@,
                nonce: q.state().nonce,
                timestamp: q.state().timestamp,
                ..self.state()
            }),
    {
        match self.stage {
            Stage::Pending(s) => QueryBuilder {
                stage: Stage::Ready(signer_oauth_parameters(s, consumer_key, token)),
            },
            Stage::Ready(s) => QueryBuilder { stage: Stage::Ready(s) },
        }
    }

    /// The header and the string: the header carries the signature of the parameters appended.
    pub fn build(self) -> (r: QueryOutcome)
        requires
            self.is_ready(),
        ensures
            r.query@ == self.state().data,
            r.header@ == header_of(self.state()),
    {
        match self.stage {
            Stage::Ready(s) => {
                let (header, query) = signer_finish(s);
                QueryOutcome { header, query }
            },
            Stage::Pending(_) => QueryOutcome { header: String::new(), query: String::new() },
        }
    }
}

} // verus!
