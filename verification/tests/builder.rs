use twitter_stream::builder::{has_no_query, BoundingBox, Builder, FilterLevel, Token, FILTER, SAMPLE};

fn token() -> Token {
    Token::new(
        "consumer_key".to_owned(),
        "consumer_secret".to_owned(),
        "access_key".to_owned(),
        "access_secret".to_owned(),
    )
}

#[test]
fn sample_when_nothing_is_filtered() {
    let r = Builder::new(token()).request();
    assert_eq!(r.method, "GET");
    assert_eq!(r.uri, SAMPLE);
    assert!(!r.form);
    assert_eq!(r.body, "");
    assert!(r.authorization.starts_with("OAuth "));
    assert!(r.authorization.contains("oauth_consumer_key=\"consumer_key\""));
    assert!(r.authorization.contains("oauth_token=\"access_key\""));
}

#[test]
fn sample_with_parameters_in_the_query() {
    let mut b = Builder::new(token());
    b.language("en,ja".to_owned()).stall_warnings(true);
    let r = b.request();
    assert_eq!(r.method, "GET");
    assert_eq!(r.uri, format!("{}?language=en%2Cja&stall_warnings=true", SAMPLE));
}

#[test]
fn filter_with_form_body() {
    let mut b = Builder::new(token());
    b.follow(vec![12, 34])
        .stall_warnings(true)
        .language("en".to_owned())
        .count(Some(-5))
        .filter_level(Some(FilterLevel::Low));
    let r = b.request();
    assert_eq!(r.method, "POST");
    assert_eq!(r.uri, FILTER);
    assert!(r.form);
    assert_eq!(r.body, "count=-5&filter_level=low&follow=12%2C34&language=en&stall_warnings=true");
}

#[test]
fn track_and_locations() {
    let mut b = Builder::new(token());
    b.track("@Twitter, rust".to_owned());
    assert_eq!(b.request().body, "track=%40Twitter%2C%20rust");
    let mut b = Builder::new(token());
    b.locations(vec![
        BoundingBox::new("-122.75".to_owned(), "36.8".to_owned(), "-121.75".to_owned(), "37.8".to_owned()),
        BoundingBox::new("-74".to_owned(), "40".to_owned(), "-73".to_owned(), "41".to_owned()),
    ]);
    let r = b.request();
    assert_eq!(r.uri, FILTER);
    assert_eq!(r.body, "locations=-122.75%2C36.8%2C-121.75%2C37.8%2C-74%2C40%2C-73%2C41");
}

#[test]
fn endpoint_set_by_hand() {
    let mut b = Builder::new(token());
    b.endpoint(Some(("GET".to_owned(), "https://example.com/s".to_owned())))
        .track("a b".to_owned())
        .filter_level(Some(FilterLevel::Off));
    let r = b.request();
    assert_eq!(r.method, "GET");
    assert_eq!(r.uri, "https://example.com/s?filter_level=none&track=a%20b");
    assert!(!r.form);
    let r = Builder::filter(token()).request();
    assert_eq!((r.method.as_str(), r.uri.as_str(), r.body.as_str()), ("POST", FILTER, ""));
    let r = Builder::sample(token()).request();
    assert_eq!((r.method.as_str(), r.uri.as_str()), ("GET", SAMPLE));
}

#[test]
fn filter_level_text() {
    assert_eq!(FilterLevel::default(), FilterLevel::Off);
    assert_eq!(FilterLevel::Off.as_str(), "none");
    assert_eq!(FilterLevel::Low.as_str(), "low");
    assert_eq!(FilterLevel::Medium.as_str(), "medium");
}

#[test]
fn endpoints_without_query() {
    assert!(has_no_query(FILTER));
    assert!(has_no_query(SAMPLE));
    assert!(!has_no_query("https://example.com/?a=1"));
    assert!(Builder::new(token()).can_request());
    let mut b = Builder::new(token());
    b.endpoint(Some(("GET".to_owned(), "https://example.com/s?x".to_owned())));
    assert!(!b.can_request());
}

#[test]
fn authorization_header_names_the_keys() {
    let r = Builder::new(token()).request();
    let h = r.authorization;
    assert!(h.starts_with("OAuth oauth_consumer_key=\"consumer_key\",oauth_nonce=\""));
    let rest = &h[h.find("\",oauth_signature_method=").unwrap()..];
    assert!(rest.starts_with("\",oauth_signature_method=\"HMAC-SHA1\",oauth_timestamp=\""));
    assert!(rest.contains("\",oauth_token=\"access_key\",oauth_signature=\""));
    assert!(rest.ends_with('"'));
}

/// The nonce and the timestamp of an `Authorization` header.
fn nonce_and_timestamp(h: &str) -> (String, u64) {
    let field = |name: &str| {
        let start = h.find(&format!("{}=\"", name)).unwrap() + name.len() + 2;
        let end = start + h[start..].find('"').unwrap();
        h[start..end].to_string()
    };
    (field("oauth_nonce"), field("oauth_timestamp").parse().unwrap())
}

#[test]
fn authorization_signs_the_request() {
    let mut b = Builder::new(token());
    b.follow(vec![12, 34]).track("a b".to_owned());
    let r = b.request();
    assert_eq!(r.method, "POST");
    let (nonce, timestamp) = nonce_and_timestamp(&r.authorization);
    // The same request signed by the signer itself, under the same nonce and timestamp.
    let mut options = oauth1_request::Options::new();
    options.token("access_key").nonce(nonce.as_str()).timestamp(timestamp);
    let mut s = oauth1_request::signer::Signer::form_with_signature_method(
        oauth1_request::HmacSha1,
        "POST",
        FILTER,
        "consumer_secret",
        Some("access_secret"),
    );
    s.parameter_encoded("follow", "12%2C34");
    let mut s = s.oauth_parameters("consumer_key", &options);
    s.parameter("track", "a b");
    let expected = s.finish();
    assert_eq!(r.authorization, expected.authorization);
    assert_eq!(r.body, expected.data);
    // The secrets swapped give another signature.
    let mut s = oauth1_request::signer::Signer::form_with_signature_method(
        oauth1_request::HmacSha1,
        "POST",
        FILTER,
        "access_secret",
        Some("consumer_secret"),
    );
    s.parameter_encoded("follow", "12%2C34");
    let mut s = s.oauth_parameters("consumer_key", &options);
    s.parameter("track", "a b");
    assert_ne!(r.authorization, s.finish().authorization);
}

#[test]
fn empty_values_unset_the_parameters() {
    let mut b1 = Builder::new(token());
    b1.language("en".to_owned()).language(String::new());
    b1.track("x".to_owned()).track(String::new());
    b1.follow(vec![1]).follow(vec![]);
    b1.locations(vec![BoundingBox::new("1".to_owned(), "2".to_owned(), "3".to_owned(), "4".to_owned())])
        .locations(vec![]);
    let r1 = b1.request();
    let r2 = Builder::new(token()).request();
    assert_eq!((r1.method.as_str(), r1.uri.as_str(), r1.body.as_str()), ("GET", SAMPLE, ""));
    assert_eq!((r2.method.as_str(), r2.uri.as_str(), r2.body.as_str()), ("GET", SAMPLE, ""));
    // Under the nonce and timestamp of the first request, the second signs the same.
    let (nonce, timestamp) = nonce_and_timestamp(&r1.authorization);
    let mut options = oauth1_request::Options::new();
    options.token("access_key").nonce(nonce.as_str()).timestamp(timestamp);
    let s = oauth1_request::signer::Signer::with_signature_method(
        oauth1_request::HmacSha1,
        "GET",
        SAMPLE,
        "consumer_secret",
        Some("access_secret"),
    );
    assert_eq!(r1.authorization, s.oauth_parameters("consumer_key", &options).finish().authorization);
}
