use twitter_stream::json::{DecodeError, JsonNumber, JsonValue};
use twitter_stream::message::event::{Event, TargetObject};
use twitter_stream::message::geometry::{Geometry, Position};
use twitter_stream::message::stream::{
    Delete, Disconnect, DisconnectCode, Limit, StreamMessage,
};
use twitter_stream::message::tweet::{current_user_retweet, nullable_string};
use twitter_stream::message::warning::{Warning, WarningCode};
use twitter_stream::stream_builder::FilterLevel;

fn to_json(v: &serde_json::Value) -> JsonValue {
    match v {
        serde_json::Value::Null => JsonValue::Null,
        serde_json::Value::Bool(b) => JsonValue::Bool(*b),
        serde_json::Value::Number(n) => {
            if let Some(u) = n.as_u64() {
                JsonValue::Number(JsonNumber::PosInt(u))
            } else if let Some(i) = n.as_i64() {
                JsonValue::Number(JsonNumber::NegInt(i))
            } else {
                JsonValue::Number(JsonNumber::Float(n.to_string()))
            }
        }
        serde_json::Value::String(s) => JsonValue::String(s.clone()),
        serde_json::Value::Array(a) => JsonValue::Array(a.iter().map(to_json).collect()),
        serde_json::Value::Object(o) => {
            JsonValue::Object(o.iter().map(|(k, v)| (k.clone(), to_json(v))).collect())
        }
    }
}

fn parse_json(text: &str) -> JsonValue {
    to_json(&serde_json::from_str::<serde_json::Value>(text).expect("invalid JSON: this is a test bug"))
}

fn num(n: &JsonNumber) -> f64 {
    match n {
        JsonNumber::PosInt(u) => *u as f64,
        JsonNumber::NegInt(i) => *i as f64,
        JsonNumber::Float(s) => s.parse().unwrap(),
    }
}

fn pos(p: &Position) -> (f64, f64) {
    (num(&p.0), num(&p.1))
}

fn geometry(text: &str) -> Result<Geometry, DecodeError> {
    Geometry::from_json(&parse_json(text))
}

#[test]
fn deserialize_pass() {
    let point = "[-75.14310264,40.05701649]";
    let polygon = "[[[2.2241006,48.8155414],[2.4699099,48.8155414],[2.4699099,48.9021461],[2.2241006,48.9021461]]]";
    for (typ, c) in [("Point", point), ("Polygon", polygon)] {
        let c = format!("\"coordinates\":{}", c);
        let t = format!("\"type\":\"{}\"", typ);
        let texts = [
            format!("{{{},{}}}", c, t),
            format!("{{{},{}}}", t, c),
            format!("{{\"1\":0,{},\"2\":[],{},\"3\":null}}", c, t),
            format!("{{\"1\":0,{},\"2\":[],{},\"3\":null}}", t, c),
        ];
        for text in texts.iter() {
            match (typ, geometry(text).unwrap()) {
                ("Point", Geometry::Point(p)) => {
                    assert_eq!(pos(&p), (-75.14310264, 40.05701649));
                }
                ("Polygon", Geometry::Polygon(rings)) => {
                    let got: Vec<Vec<(f64, f64)>> =
                        rings.iter().map(|r| r.iter().map(pos).collect()).collect();
                    assert_eq!(
                        got,
                        vec![vec![
                            (2.2241006, 48.8155414),
                            (2.4699099, 48.8155414),
                            (2.4699099, 48.9021461),
                            (2.2241006, 48.9021461),
                        ]]
                    );
                }
                (t, g) => panic!("{}: unexpected {:?}", t, g),
            }
        }
    }
}

#[test]
fn deserialize_fail() {
    assert!(geometry("{}").is_err());
    assert!(geometry("[0,1]").is_err());
    assert!(geometry("{\"coordinates\":[1],\"type\":\"Point\"}").is_err());
    assert!(geometry("{\"coordinates\":[1,2],\"type\":\"MultiPoint\"}").is_err());
    assert!(geometry("{\"coordinates\":[[[[[0,0]]]]],\"type\":\"MultiPolygon\"}").is_err());
    assert!(geometry("{\"coordinates\":[],\"type\":\"Foo\"}").is_err());
}

#[test]
fn deserialize() {
    let geo = geometry("{\"coordinates\":[-75.14310264,40.05701649],\"type\":\"Point\"}").unwrap();
    match geo {
        Geometry::Point(p) => assert_eq!(pos(&p), (-75.14310264, 40.05701649)),
        g => panic!("unexpected {:?}", g),
    }
}

#[test]
fn geometry_errors_name_the_cause() {
    assert_eq!(geometry("{\"type\":\"Point\"}").unwrap_err(), DecodeError::MissingField("coordinates"));
    assert_eq!(geometry("{\"coordinates\":[1,2]}").unwrap_err(), DecodeError::MissingField("type"));
    assert_eq!(geometry("{\"coordinates\":[],\"type\":\"Foo\"}").unwrap_err(), DecodeError::UnknownVariant);
    assert_eq!(geometry("[0,1]").unwrap_err(), DecodeError::InvalidType);
}

#[test]
fn warning() {
    let v = parse_json(
        r#"{"code":"FALLING_BEHIND","message":"Your connection is falling behind and messages are being queued for delivery to you. Your queue is now over 60% full. You will be disconnected when the queue is full.","percent_full":60}"#,
    );
    let w = Warning::from_json(&v).unwrap();
    assert_eq!(w.code, WarningCode::FallingBehind(60));
    assert!(w.message.starts_with("Your connection is falling behind"));
}

#[test]
fn warning_follows_over_limit_and_custom() {
    let v = parse_json(r#"{"code":"FOLLOWS_OVER_LIMIT","message":"m","user_id":1234}"#);
    assert_eq!(Warning::from_json(&v).unwrap().code, WarningCode::FollowsOverLimit(1234));
    let v = parse_json(r#"{"code":"SOMETHING_ELSE","message":"m"}"#);
    assert_eq!(
        Warning::from_json(&v).unwrap().code,
        WarningCode::Custom("SOMETHING_ELSE".to_owned())
    );
    let v = parse_json(r#"{"code":"FALLING_BEHIND","message":"m"}"#);
    assert_eq!(Warning::from_json(&v).unwrap_err(), DecodeError::MissingField("percent_full"));
    let v = parse_json(r#"{"message":"m","percent_full":1}"#);
    assert_eq!(Warning::from_json(&v).unwrap_err(), DecodeError::MissingField("code"));
}

#[test]
fn stream_message_kinds() {
    let m = StreamMessage::from_json(parse_json(r#"{"delete":{"status":{"id":1234,"id_str":"1234","user_id":3,"user_id_str":"3"}}}"#)).unwrap();
    match m {
        StreamMessage::Delete(d) => assert_eq!(d, Delete { id: 1234, user_id: 3 }),
        m => panic!("unexpected {:?}", m),
    }
    let m = StreamMessage::from_json(parse_json(r#"{"limit":{"track":1234}}"#)).unwrap();
    match m {
        StreamMessage::Limit(l) => assert_eq!(l, Limit { track: 1234 }),
        m => panic!("unexpected {:?}", m),
    }
    // The `id` member makes it a Tweet, which is then read as one.
    assert_eq!(
        StreamMessage::from_json(parse_json(r#"{"created_at":"x","id":1,"text":"hi"}"#)).unwrap_err(),
        DecodeError::InvalidDate
    );
    assert_eq!(
        StreamMessage::from_json(parse_json(r#"{"id":1}"#)).unwrap_err(),
        DecodeError::MissingField("created_at")
    );
    // The `event` member makes it an event, which is then read as one.
    assert_eq!(
        StreamMessage::from_json(parse_json(r#"{"event":"follow","source":{}}"#)).unwrap_err(),
        DecodeError::MissingField("contributors_enabled")
    );
    let m = StreamMessage::from_json(parse_json(r#"{"friends":[1,2,3]}"#)).unwrap();
    match m {
        StreamMessage::Friends(f) => assert_eq!(f, vec![1, 2, 3]),
        m => panic!("unexpected {:?}", m),
    }
    let m = StreamMessage::from_json(parse_json(r#"{"foo":1}"#)).unwrap();
    assert!(matches!(m, StreamMessage::Custom(_)));
    let m = StreamMessage::from_json(parse_json(r#"{"for_user":42,"message":{"limit":{"track":5}}}"#)).unwrap();
    match m {
        StreamMessage::ForUser(42, inner) => match *inner {
            StreamMessage::Limit(l) => assert_eq!(l.track, 5),
            m => panic!("unexpected {:?}", m),
        },
        m => panic!("unexpected {:?}", m),
    }
    assert_eq!(
        StreamMessage::from_json(parse_json(r#"{"for_user":42}"#)).unwrap_err(),
        DecodeError::MissingField("message")
    );
    assert_eq!(StreamMessage::from_json(parse_json("[1]")).unwrap_err(), DecodeError::InvalidType);
}

#[test]
fn disconnect_message_and_text() {
    let m = StreamMessage::from_json(parse_json(
        r#"{"disconnect":{"code":4,"stream_name":"my_stream","reason":"slow"}}"#,
    ))
    .unwrap();
    match m {
        StreamMessage::Disconnect(d) => {
            assert_eq!(d.code, DisconnectCode::Stall);
            assert_eq!(d.to_string(), "my_stream: 4 Stall: slow");
        }
        m => panic!("unexpected {:?}", m),
    }
    let d = Disconnect {
        code: DisconnectCode::ShedLoad,
        stream_name: "s".to_owned(),
        reason: "r".to_owned(),
    };
    assert_eq!(d.to_string(), "s: 12 ShedLoad: r");
    assert_eq!(DisconnectCode::from_number(8), None);
    assert_eq!(DisconnectCode::from_number(9), Some(DisconnectCode::MaxMessageLimit));
}

#[test]
fn tweet_fields() {
    assert_eq!(current_user_retweet(&parse_json(r#"{"id":7,"id_str":"7"}"#)), Ok(Some(7)));
    assert_eq!(current_user_retweet(&parse_json(r#"{"id_str":"7","id":7}"#)), Ok(Some(7)));
    assert_eq!(
        current_user_retweet(&parse_json(r#"{"id_str":"7"}"#)),
        Err(DecodeError::MissingField("id"))
    );
    assert_eq!(current_user_retweet(&parse_json("null")), Err(DecodeError::InvalidType));
    assert_eq!(nullable_string(&parse_json("null")), Ok(String::new()));
    assert_eq!(nullable_string(&parse_json("\"abc\"")), Ok("abc".to_owned()));
    assert_eq!(nullable_string(&parse_json("1")), Err(DecodeError::InvalidType));
}

#[test]
fn disconnect_codes_round_trip() {
    for n in 0u64..20 {
        match DisconnectCode::from_number(n) {
            Some(c) => assert_eq!(c.number() as u64, n),
            None => assert!(n == 0 || n == 8 || n > 12),
        }
    }
}

const USER: &str = r#"{"contributors_enabled":false,"created_at":"Tue Mar 21 20:50:14 +0000 2006","default_profile":true,"default_profile_image":false,"description":"","favourites_count":1,"follow_request_sent":null,"followers_count":2,"friends_count":3,"geo_enabled":true,"id":12,"id_str":"12","is_translator":false,"lang":"en","listed_count":4,"location":null,"name":"jack","profile_background_color":"C0DEED","profile_background_image_url":"http://a/bg.png","profile_background_image_url_https":"https://a/bg.png","profile_background_tile":false,"profile_image_url":"http://a/i.png","profile_image_url_https":"https://a/i.png","profile_link_color":"1DA1F2","profile_sidebar_border_color":"C0DEED","profile_sidebar_fill_color":"DDEEF6","profile_text_color":"333333","profile_use_background_image":true,"protected":false,"screen_name":"jack","statuses_count":5,"time_zone":null,"url":null,"utc_offset":null,"verified":true}"#;

fn tweet_text() -> String {
    format!(
        r#"{{"created_at":"Mon May 01 00:01:02 +0000 2017","id":859183435011055617,"id_str":"859183435011055617","text":"Hello, world!","source":"<a href=\"https://example.com\" rel=\"nofollow\">client</a>","truncated":false,"in_reply_to_status_id":null,"in_reply_to_user_id":null,"in_reply_to_screen_name":null,"user":{},"geo":null,"coordinates":{{"type":"Point","coordinates":[-75.14310264,40.05701649]}},"place":null,"is_quote_status":false,"retweet_count":0,"favorite_count":0,"entities":{{"hashtags":[],"urls":[],"user_mentions":[],"symbols":[]}},"favorited":false,"retweeted":false,"filter_level":"low","lang":"en","timestamp_ms":"1493596862000"}}"#,
        USER
    )
}

#[test]
fn parse() {
    match StreamMessage::from_json(parse_json(&tweet_text())).unwrap() {
        StreamMessage::Tweet(t) => {
            assert_eq!(t.id, 859183435011055617);
            assert_eq!(t.text, "Hello, world!");
            assert_eq!(t.created_at, 1493596862);
            assert_eq!(t.user.screen_name, "jack");
            assert_eq!(t.filter_level, Some(FilterLevel::Low));
            assert_eq!(t.lang.as_deref(), Some("en"));
            assert_eq!(t.favorite_count, Some(0));
            assert_eq!(t.in_reply_to_status_id, None);
            assert!(t.place.is_none() && t.quoted_status.is_none() && t.retweeted_status.is_none());
            assert!(!t.withheld_copyright && t.withheld_in_countries.is_empty());
            match t.coordinates.as_ref().unwrap() {
                Geometry::Point(p) => assert_eq!(pos(p), (-75.14310264, 40.05701649)),
                g => panic!("unexpected {:?}", g),
            }
        }
        m => panic!("unexpected {:?}", m),
    }
}

#[test]
fn retweet_and_scopes() {
    let inner = tweet_text();
    let text = inner.replacen(
        r#""id":859183435011055617,"#,
        &format!(r#""id":1,"retweeted_status":{},"scopes":{{"followers":false}},"current_user_retweet":{{"id":7,"id_str":"7"}},"withheld_in_countries":["DE"],"#, inner),
        1,
    );
    match StreamMessage::from_json(parse_json(&text)).unwrap() {
        StreamMessage::Tweet(t) => {
            assert_eq!(t.id, 1);
            assert_eq!(t.retweeted_status.as_ref().unwrap().id, 859183435011055617);
            assert_eq!(t.current_user_retweet, Some(7));
            assert_eq!(t.withheld_in_countries, vec!["DE".to_string()]);
            let scopes = t.scopes.as_ref().unwrap();
            assert_eq!(scopes.len(), 1);
            assert_eq!(scopes[0].0, "followers");
            assert!(matches!(scopes[0].1, JsonValue::Bool(false)));
        }
        m => panic!("unexpected {:?}", m),
    }
    // An error inside the retweeted Tweet is the error of the whole.
    let bad = text.replacen(r#""id":859183435011055617"#, r#""id":"859183435011055617""#, 1);
    assert_eq!(StreamMessage::from_json(parse_json(&bad)).unwrap_err(), DecodeError::InvalidType);
    // `withheld_copyright` may be missing but not null.
    let null_copyright = inner.replacen(r#""truncated":false,"#, r#""truncated":false,"withheld_copyright":null,"#, 1);
    assert_eq!(StreamMessage::from_json(parse_json(&null_copyright)).unwrap_err(), DecodeError::InvalidType);
}

#[test]
fn warning_message() {
    let text = r#"{"warning":{"code":"FALLING_BEHIND","message":"Your connection is falling behind and messages are being queued for delivery to you. Your queue is now over 60% full. You will be disconnected when the queue is full.","percent_full":60}}"#;
    match StreamMessage::from_json(parse_json(text)).unwrap() {
        StreamMessage::Warning(w) => assert_eq!(
            w,
            Warning {
                message: "Your connection is falling behind and messages are being queued for delivery to you. Your queue is now over 60% full. You will be disconnected when the queue is full.".to_owned(),
                code: WarningCode::FallingBehind(60),
            }
        ),
        m => panic!("unexpected {:?}", m),
    }
}

const DATE: &str = "Mon May 01 00:01:02 +0000 2017";

#[test]
fn follow_event() {
    let text = format!(r#"{{"created_at":"{}","event":"follow","source":{u},"target":{u}}}"#, DATE, u = USER);
    match StreamMessage::from_json(parse_json(&text)).unwrap() {
        StreamMessage::Event(e) => {
            assert!(matches!(e.target_object, TargetObject::Follow));
            assert_eq!(e.created_at, 1493596862);
            assert_eq!(e.source.screen_name, "jack");
            assert_eq!(e.target.id, 12);
        }
        m => panic!("unexpected {:?}", m),
    }
}

#[test]
fn favorite_event_reads_the_tweet() {
    let text = format!(
        r#"{{"created_at":"{}","event":"favorite","source":{u},"target":{u},"target_object":{t}}}"#,
        DATE,
        u = USER,
        t = tweet_text()
    );
    match StreamMessage::from_json(parse_json(&text)).unwrap() {
        StreamMessage::Event(e) => match &e.target_object {
            TargetObject::Favorite(t) => assert_eq!(t.id, 859183435011055617),
            o => panic!("unexpected {:?}", o),
        },
        m => panic!("unexpected {:?}", m),
    }
}

#[test]
fn event_object_before_its_kind() {
    // `target_object` comes first: it is kept until `event` tells how to read it.
    let members = vec![
        ("target_object".to_string(), parse_json(&tweet_text())),
        ("event".to_string(), JsonValue::String("unfavorite".to_string())),
        ("created_at".to_string(), JsonValue::String(DATE.to_string())),
        ("source".to_string(), parse_json(USER)),
        ("target".to_string(), parse_json(USER)),
    ];
    let e = Event::from_json(&JsonValue::Object(members)).unwrap();
    assert!(matches!(&e.target_object, TargetObject::Unfavorite(t) if t.text == "Hello, world!"));
    // Without `event`, the object is never read.
    let members = vec![
        ("target_object".to_string(), parse_json("{}")),
        ("created_at".to_string(), JsonValue::String(DATE.to_string())),
        ("source".to_string(), parse_json(USER)),
        ("target".to_string(), parse_json(USER)),
    ];
    assert_eq!(Event::from_json(&JsonValue::Object(members)).unwrap_err(), DecodeError::MissingField("event"));
}

#[test]
fn custom_event_and_errors() {
    let text = format!(
        r#"{{"created_at":"{}","event":"mute","source":{u},"target":{u},"target_object":{{"a":1}}}}"#,
        DATE,
        u = USER
    );
    match StreamMessage::from_json(parse_json(&text)).unwrap() {
        StreamMessage::Event(e) => match &e.target_object {
            TargetObject::Custom(kind, JsonValue::Object(members)) => {
                assert_eq!(kind, "mute");
                assert_eq!(members[0].0, "a");
            }
            o => panic!("unexpected {:?}", o),
        },
        m => panic!("unexpected {:?}", m),
    }
    let bad_kind = format!(r#"{{"created_at":"{}","event":1}}"#, DATE);
    assert_eq!(StreamMessage::from_json(parse_json(&bad_kind)).unwrap_err(), DecodeError::InvalidType);
    let no_source = format!(r#"{{"created_at":"{}","event":"block","target":{}}}"#, DATE, USER);
    assert_eq!(StreamMessage::from_json(parse_json(&no_source)).unwrap_err(), DecodeError::MissingField("source"));
    let bad_list = format!(
        r#"{{"created_at":"{}","event":"list_created","source":{u},"target":{u},"target_object":{{}}}}"#,
        DATE,
        u = USER
    );
    assert_eq!(StreamMessage::from_json(parse_json(&bad_list)).unwrap_err(), DecodeError::MissingField("slug"));
}

#[test]
fn custom_message_collects_members_into_a_map() {
    let num = |n: u64| JsonValue::Number(JsonNumber::PosInt(n));
    let members = vec![
        ("a".to_string(), num(1)),
        ("b".to_string(), num(2)),
        ("a".to_string(), num(3)),
    ];
    match StreamMessage::from_json(JsonValue::Object(members)).unwrap() {
        StreamMessage::Custom(m) => {
            assert_eq!(m.len(), 2);
            assert_eq!(m[0].0, "a");
            assert!(matches!(m[0].1, JsonValue::Number(JsonNumber::PosInt(3))));
            assert_eq!(m[1].0, "b");
            assert!(matches!(m[1].1, JsonValue::Number(JsonNumber::PosInt(2))));
        }
        m => panic!("unexpected {:?}", m),
    }
}
