use twitter_stream::oauth::QueryBuilder;

#[test]
fn query_string_in_key_order() {
    let mut q = QueryBuilder::new("consumer_secret", "token_secret", "GET", "https://example.com/api");
    q.append("abc", "a b&c");
    q.append_encoded("lmn", "1%2C2");
    let mut q = q.append_oauth_params("consumer_key", "token");
    q.append("xyz", "~-._");
    let out = q.build();
    assert_eq!(out.query, "https://example.com/api?abc=a%20b%26c&lmn=1%2C2&xyz=~-._");
    assert!(out.header.starts_with("OAuth "));
    assert!(out.header.contains("oauth_consumer_key=\"consumer_key\""));
    assert!(out.header.contains("oauth_token=\"token\""));
    assert!(out.header.contains("oauth_signature_method=\"HMAC-SHA1\""));
}

#[test]
fn form_string() {
    let mut q = QueryBuilder::new_form("cs", "ts", "POST", "https://example.com/api");
    q.append("a", "\u{e9}");
    let mut q = q.append_oauth_params("ck", "tk");
    q.append_encoded("z", "1");
    assert_eq!(q.build().query, "a=%C3%A9&z=1");
}

#[test]
fn query_without_parameters_is_the_uri() {
    let q = QueryBuilder::new("cs", "ts", "GET", "https://example.com/api");
    let q = q.append_oauth_params("ck", "tk");
    assert_eq!(q.build().query, "https://example.com/api");
}
