use twitter_stream::builder::BoundingBox;
use twitter_stream::stream_builder::{
    FilterLevel, RequestMethod, Token, TwitterStreamBuilder, With, EP_FILTER, EP_SAMPLE, EP_USER,
};
use twitter_stream::oauth::QueryBuilder;

fn token() -> Token {
    Token::new("ck".to_owned(), "cs".to_owned(), "ak".to_owned(), "as".to_owned())
}

#[test]
fn filter_sends_every_set_parameter() {
    let mut b = TwitterStreamBuilder::filter(token());
    b.track = Some("twitter".to_owned());
    b.follow = Some(vec![]);
    b.filter_level = FilterLevel::Custom("none".to_owned());
    b.replies = true;
    b.with = Some(With::User);
    let r = b.connect_request();
    assert_eq!(r.parts.method, "POST");
    assert_eq!(r.parts.uri, EP_FILTER);
    assert!(r.parts.form);
    assert_eq!(r.parts.body, "follow=&replies=all&track=twitter&with=user");
    assert!(r.user_agent.is_none());
}

#[test]
fn sample_query() {
    let r = TwitterStreamBuilder::sample(token()).connect_request();
    assert_eq!(r.parts.method, "GET");
    assert_eq!(r.parts.uri, EP_SAMPLE);
    let mut b = TwitterStreamBuilder::user(token());
    b.count = Some(100);
    b.filter_level = FilterLevel::Medium;
    b.language = Some("en".to_owned());
    b.locations = Some(vec![BoundingBox::new(
        "1.5".to_owned(),
        "2".to_owned(),
        "3".to_owned(),
        "4.25".to_owned(),
    )]);
    b.stall_warnings = true;
    b.with = Some(With::Custom("followings".to_owned()));
    b.user_agent = Some("agent".to_owned());
    let r = b.connect_request();
    assert_eq!(
        r.parts.uri,
        format!(
            "{}?count=100&filter_level=medium&language=en&locations=1.5%2C2%2C3%2C4.25&stall_warnings=true&with=followings",
            EP_USER
        )
    );
    assert_eq!(r.user_agent.as_deref(), Some("agent"));
}

#[test]
fn extension_method() {
    let mut b = TwitterStreamBuilder::custom(
        RequestMethod::Extension("get".to_owned()),
        "https://example.com/stream".to_owned(),
        token(),
    );
    b.follow = Some(vec![1, 2]);
    let r = b.connect_request();
    assert_eq!(r.parts.method, "get");
    assert_eq!(r.parts.uri, "https://example.com/stream?follow=1%2C2");
    assert!(!r.parts.form);
    // The request is signed with the method's name in upper case.
    let h = &r.parts.authorization;
    let field = |name: &str| {
        let start = h.find(&format!("{}=\"", name)).unwrap() + name.len() + 2;
        let end = start + h[start..].find('"').unwrap();
        h[start..end].to_string()
    };
    let nonce = field("oauth_nonce");
    let timestamp: u64 = field("oauth_timestamp").parse().unwrap();
    let sign = |method: &str| {
        let mut options = oauth1_request::Options::new();
        options.token("ak").nonce(nonce.as_str()).timestamp(timestamp);
        let mut s = oauth1_request::signer::Signer::with_signature_method(
            oauth1_request::HmacSha1,
            method,
            "https://example.com/stream",
            "cs",
            Some("as"),
        );
        s.parameter_encoded("follow", "1%2C2");
        s.oauth_parameters("ck", &options).finish()
    };
    let expected = sign("GET");
    assert_eq!(r.parts.authorization, expected.authorization);
    assert_eq!(r.parts.uri, expected.data);
    assert_ne!(r.parts.authorization, sign("get").authorization);
}

#[test]
fn build_query() {
    let mut b = TwitterStreamBuilder::sample(token());
    b.track = Some("a,b".to_owned());
    let q = QueryBuilder::new("cs", "as", "GET", "https://example.com/x");
    let out = b.build_query(q);
    assert_eq!(out.query, "https://example.com/x?track=a%2Cb");
    assert!(out.header.contains("oauth_token=\"ak\""));
}

#[test]
fn string_enums_compare_by_text() {
    assert!(FilterLevel::Custom("low".to_owned()) == FilterLevel::Low);
    assert!(FilterLevel::Low == FilterLevel::Custom("low".to_owned()));
    assert!(FilterLevel::Custom("x".to_owned()) != FilterLevel::Low);
    assert!(FilterLevel::Off != FilterLevel::Medium);
    assert!(With::Custom("user".to_owned()) == With::User);
    assert!(With::Following != With::User);
    assert_eq!(FilterLevel::default().as_str(), "none");
    assert_eq!(RequestMethod::Delete.as_str(), "DELETE");
}
