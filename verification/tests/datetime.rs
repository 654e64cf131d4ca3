use twitter_stream::datetime::parse_datetime;

#[test]
fn test_parse_datetime() {
    let expected = chrono::NaiveDate::from_ymd_opt(2017, 5, 1)
        .unwrap()
        .and_hms_opt(0, 1, 2)
        .unwrap()
        .and_utc()
        .timestamp();
    assert_eq!(parse_datetime("Mon May 01 00:01:02 +0000 2017").unwrap(), expected);
    assert_eq!(expected, 1493596862);
    assert!(parse_datetime("2017-05-01T00:01:02Z").is_err());
}

#[test]
fn datetime_needs_utc_offset() {
    assert!(parse_datetime("Mon May 01 09:01:02 +0900 2017").is_err());
    assert_eq!(parse_datetime("Thu Jan 01 00:00:00 +0000 1970").unwrap(), 0);
}
