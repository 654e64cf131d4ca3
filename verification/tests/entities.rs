use twitter_stream::json::{DecodeError, JsonNumber, JsonValue};
use twitter_stream::message::entities::{
    Entities, Hashtag, Media, Resize, Size, Sizes, Symbol, Url, UserMention,
};
use twitter_stream::message::direct_message::DirectMessage;
use twitter_stream::message::geometry::Geometry;
use twitter_stream::message::list::{List, Mode};
use twitter_stream::message::place::Place;
use twitter_stream::message::stream::StreamMessage;
use twitter_stream::message::user::User;

fn to_json(v: &serde_json::Value) -> JsonValue {
    match v {
        serde_json::Value::Null => JsonValue::Null,
        serde_json::Value::Bool(b) => JsonValue::Bool(*b),
        serde_json::Value::Number(n) => {
            if let Some(u) = n.as_u64() {
                JsonValue::Number(JsonNumber::PosInt(u))
            } else if let Some(i) = n.as_i64() {
                JsonValue::Number(JsonNumber::NegInt(i))
            } else {
                JsonValue::Number(JsonNumber::Float(n.to_string()))
            }
        }
        serde_json::Value::String(s) => JsonValue::String(s.clone()),
        serde_json::Value::Array(a) => JsonValue::Array(a.iter().map(to_json).collect()),
        serde_json::Value::Object(o) => {
            JsonValue::Object(o.iter().map(|(k, v)| (k.clone(), to_json(v))).collect())
        }
    }
}

fn parse_json(text: &str) -> JsonValue {
    to_json(&serde_json::from_str::<serde_json::Value>(text).expect("invalid JSON in a test"))
}

#[test]
fn hashtag_and_symbol() {
    let h = Hashtag::from_json(&parse_json(r#"{"indices":[32,36],"text":"lol"}"#)).unwrap();
    assert_eq!(h, Hashtag { indices: (32, 36), text: "lol".to_string() });
    let s = Symbol::from_json(&parse_json(r#"{"text":"TWTR","indices":[3,8]}"#)).unwrap();
    assert_eq!(s, Symbol { text: "TWTR".to_string(), indices: (3, 8) });
    // The array form lists the fields in their order.
    let h = Hashtag::from_json(&parse_json(r#"[[1,2],"x"]"#)).unwrap();
    assert_eq!(h, Hashtag { indices: (1, 2), text: "x".to_string() });
}

#[test]
fn indices_must_be_two_unsigned_integers() {
    let err = |t: &str| Hashtag::from_json(&parse_json(t)).unwrap_err();
    assert_eq!(err(r#"{"indices":[1],"text":"a"}"#), DecodeError::InvalidLength);
    assert_eq!(err(r#"{"indices":[1,2,3],"text":"a"}"#), DecodeError::InvalidLength);
    assert_eq!(err(r#"{"indices":[1,"2"],"text":"a"}"#), DecodeError::InvalidType);
    assert_eq!(err(r#"{"indices":[-1,2],"text":"a"}"#), DecodeError::InvalidValue);
    assert_eq!(err(r#"{"indices":{},"text":"a"}"#), DecodeError::InvalidType);
    assert_eq!(err(r#"{"text":"a"}"#), DecodeError::MissingField("indices"));
    assert_eq!(err(r#"{"indices":[1,2]}"#), DecodeError::MissingField("text"));
}

#[test]
fn url_display_and_expanded_may_be_null_or_missing() {
    let u = Url::from_json(&parse_json(
        r#"{"url":"https://t.co/x","indices":[0,23],"display_url":null}"#,
    ))
    .unwrap();
    assert_eq!(
        u,
        Url {
            display_url: String::new(),
            expanded_url: String::new(),
            indices: (0, 23),
            url: "https://t.co/x".to_string(),
        }
    );
    let u = Url::from_json(&parse_json(
        r#"{"url":"https://t.co/x","indices":[0,23],"display_url":"example.com","expanded_url":"http://example.com/"}"#,
    ))
    .unwrap();
    assert_eq!(u.display_url, "example.com");
    assert_eq!(u.expanded_url, "http://example.com/");
    assert_eq!(
        Url::from_json(&parse_json(r#"{"url":null,"indices":[0,23]}"#)).unwrap_err(),
        DecodeError::InvalidType
    );
    assert_eq!(
        Url::from_json(&parse_json(r#"{"display_url":1,"url":"u","indices":[0,1]}"#)).unwrap_err(),
        DecodeError::InvalidType
    );
}

#[test]
fn user_mention() {
    let m = UserMention::from_json(&parse_json(
        r#"{"screen_name":"twitter","name":"Twitter","id":783214,"id_str":"783214","indices":[0,8]}"#,
    ))
    .unwrap();
    assert_eq!(
        m,
        UserMention {
            id: 783214,
            indices: (0, 8),
            name: "Twitter".to_string(),
            screen_name: "twitter".to_string(),
        }
    );
}

#[test]
fn size_and_resize() {
    let s = Size::from_json(&parse_json(r#"{"w":150,"h":150,"resize":"crop"}"#)).unwrap();
    assert_eq!(s, Size { h: 150, resize: Resize::Crop, w: 150 });
    let s = Size::from_json(&parse_json(r#"{"w":1024,"h":768,"resize":"fit"}"#)).unwrap();
    assert_eq!(s.resize, Resize::Fit);
    let s = Size::from_json(&parse_json(r#"{"w":1,"h":2,"resize":"stretch"}"#)).unwrap();
    assert_eq!(s.resize, Resize::Custom("stretch".to_string()));
    assert_eq!(s.resize.as_str(), "stretch");
    // A custom value equals the known value of the same text.
    assert_eq!(Resize::Custom("fit".to_string()), Resize::Fit);
    assert_ne!(Resize::Crop, Resize::Fit);
    assert_eq!(
        Size::from_json(&parse_json(r#"{"w":1,"h":2}"#)).unwrap_err(),
        DecodeError::MissingField("resize")
    );
}

const USER: &str = r#"{
    "contributors_enabled": false,
    "created_at": "Wed Aug 27 13:08:45 +0000 2008",
    "default_profile": false,
    "default_profile_image": false,
    "description": "The Real Twitter API.",
    "favourites_count": 24,
    "follow_request_sent": null,
    "followers_count": 21,
    "friends_count": 32,
    "geo_enabled": true,
    "id": 6253282,
    "id_str": "6253282",
    "is_translator": false,
    "lang": "en",
    "listed_count": 1,
    "location": "San Francisco, CA",
    "name": "Twitter API",
    "profile_background_color": "C0DEED",
    "profile_background_image_url": "http://a0.twimg.com/bg.png",
    "profile_background_image_url_https": "https://si0.twimg.com/bg.png",
    "profile_background_tile": true,
    "profile_image_url": "http://a0.twimg.com/normal.png",
    "profile_image_url_https": "https://si0.twimg.com/normal.png",
    "profile_link_color": "0084B4",
    "profile_sidebar_border_color": "C0DEED",
    "profile_sidebar_fill_color": "DDEEF6",
    "profile_text_color": "333333",
    "profile_use_background_image": true,
    "protected": false,
    "screen_name": "twitterapi",
    "statuses_count": 3333,
    "time_zone": "Pacific Time (US & Canada)",
    "url": "http://dev.twitter.com",
    "utc_offset": -28800,
    "verified": true
}"#;

#[test]
fn user() {
    let u = User::from_json(&parse_json(USER)).unwrap();
    assert_eq!(u.id, 6253282);
    assert_eq!(u.screen_name, "twitterapi");
    assert_eq!(u.created_at, 1219842525);
    assert_eq!(u.description.as_deref(), Some("The Real Twitter API."));
    assert_eq!(u.follow_request_sent, None);
    assert_eq!(u.utc_offset, Some(-28800));
    assert!(u.geo_enabled && u.verified && !u.protected);
    assert_eq!(u.statuses_count, 3333);
    // Optional members that are missing read as `None`.
    assert_eq!(u.profile_banner_url, None);
    assert_eq!(u.withheld_in_countries, None);
    assert_eq!(u.withheld_scope, None);
}

#[test]
fn user_errors() {
    let with = |k: &str, v: &str| {
        let mut o: serde_json::Map<String, serde_json::Value> = serde_json::from_str(USER).unwrap();
        if v.is_empty() {
            o.remove(k);
        } else {
            o.insert(k.to_string(), serde_json::from_str(v).unwrap());
        }
        User::from_json(&to_json(&serde_json::Value::Object(o)))
    };
    assert_eq!(with("verified", "").unwrap_err(), DecodeError::MissingField("verified"));
    assert_eq!(with("created_at", "\"yesterday\"").unwrap_err(), DecodeError::InvalidDate);
    assert_eq!(with("created_at", "1").unwrap_err(), DecodeError::InvalidType);
    assert_eq!(with("utc_offset", "9223372036854775808").unwrap_err(), DecodeError::InvalidValue);
    assert_eq!(with("utc_offset", "null").unwrap().utc_offset, None);
    assert_eq!(with("description", "").unwrap().description, None);
    assert_eq!(with("lang", "null").unwrap_err(), DecodeError::InvalidType);
}

const MEDIA: &str = r#"{
    "id": 266031293949698048,
    "id_str": "266031293949698048",
    "indices": [17, 37],
    "media_url": "http://pbs.twimg.com/media/A7EiDWcCYAAZT1D.jpg",
    "media_url_https": "https://pbs.twimg.com/media/A7EiDWcCYAAZT1D.jpg",
    "url": "http://t.co/bAJE6Vom",
    "display_url": "pic.twitter.com/bAJE6Vom",
    "expanded_url": "http://twitter.com/BarackObama/status/266031293945503744/photo/1",
    "type": "photo",
    "sizes": {
        "medium": {"w": 600, "h": 399, "resize": "fit"},
        "thumb": {"w": 150, "h": 150, "resize": "crop"},
        "small": {"w": 340, "h": 226, "resize": "fit"},
        "large": {"w": 800, "h": 532, "resize": "fit"}
    },
    "source_status_id": 266031293945503744
}"#;

#[test]
fn media_and_sizes() {
    let m = Media::from_json(&parse_json(MEDIA)).unwrap();
    assert_eq!(m.id, 266031293949698048);
    assert_eq!(m.indices, (17, 37));
    assert_eq!(m.kind, "photo");
    assert_eq!(m.source_status_id, Some(266031293945503744));
    assert_eq!(
        m.sizes,
        Sizes {
            thumb: Size { h: 150, resize: Resize::Crop, w: 150 },
            large: Size { h: 532, resize: Resize::Fit, w: 800 },
            medium: Size { h: 399, resize: Resize::Fit, w: 600 },
            small: Size { h: 226, resize: Resize::Fit, w: 340 },
        }
    );
    // An error inside a nested size is the error of the whole.
    let bad = MEDIA.replace(r#""w": 150, "h": 150"#, r#""w": "150", "h": 150"#);
    assert_eq!(Media::from_json(&parse_json(&bad)).unwrap_err(), DecodeError::InvalidType);
    let missing = MEDIA.replace(r#""thumb": {"w": 150, "h": 150, "resize": "crop"},"#, "");
    assert_eq!(Media::from_json(&parse_json(&missing)).unwrap_err(), DecodeError::MissingField("thumb"));
}

#[test]
fn entities() {
    let text = format!(
        r#"{{"hashtags":[{{"indices":[32,36],"text":"lol"}}],"symbols":[],"urls":[{{"url":"https://t.co/x","indices":[0,23],"expanded_url":null}}],"user_mentions":[{{"screen_name":"twitter","name":"Twitter","id":783214,"indices":[0,8]}}],"media":[{}]}}"#,
        MEDIA
    );
    let e = Entities::from_json(&parse_json(&text)).unwrap();
    assert_eq!(e.hashtags, vec![Hashtag { indices: (32, 36), text: "lol".to_string() }]);
    assert!(e.symbols.is_empty());
    assert_eq!(e.urls.len(), 1);
    assert_eq!(e.urls[0].url, "https://t.co/x");
    assert_eq!(e.user_mentions[0].id, 783214);
    assert_eq!(e.media.as_ref().unwrap()[0].kind, "photo");
    // `media` may be missing or null; the other members may not.
    let e = Entities::from_json(&parse_json(r#"{"hashtags":[],"symbols":[],"urls":[],"user_mentions":[]}"#)).unwrap();
    assert_eq!(e.media, None);
    let e = Entities::from_json(&parse_json(r#"{"hashtags":[],"symbols":[],"urls":[],"user_mentions":[],"media":null}"#)).unwrap();
    assert_eq!(e.media, None);
    assert_eq!(
        Entities::from_json(&parse_json(r#"{"hashtags":[],"symbols":[],"urls":[]}"#)).unwrap_err(),
        DecodeError::MissingField("user_mentions")
    );
    assert_eq!(
        Entities::from_json(&parse_json(r#"{"hashtags":[{"text":"a"}],"symbols":[],"urls":[],"user_mentions":[]}"#)).unwrap_err(),
        DecodeError::MissingField("indices")
    );
    assert_eq!(
        Entities::from_json(&parse_json(r#"{"hashtags":{},"symbols":[],"urls":[],"user_mentions":[]}"#)).unwrap_err(),
        DecodeError::InvalidType
    );
}

#[test]
fn place() {
    let text = r#"{"attributes":{"street_address":"795 Folsom St"},"bounding_box":{"coordinates":[[[-77.119759,38.791645],[-76.909393,38.791645],[-76.909393,38.995548],[-77.119759,38.995548]]],"type":"Polygon"},"country":"United States","country_code":"US","full_name":"Washington, DC","id":"01fbe706f872cb32","name":"Washington","place_type":"city","url":"https://api.twitter.com/1.1/geo/id/01fbe706f872cb32.json"}"#;
    let p = Place::from_json(&parse_json(text)).unwrap();
    assert_eq!(p.attributes, vec![("street_address".to_string(), "795 Folsom St".to_string())]);
    assert!(matches!(&p.bounding_box, Geometry::Polygon(rings) if rings.len() == 1 && rings[0].len() == 4));
    assert_eq!(p.country_code, "US");
    assert_eq!(p.id, "01fbe706f872cb32");
    assert_eq!(p.place_type, "city");
    let bad = text.replace(r#""795 Folsom St""#, "795");
    assert_eq!(Place::from_json(&parse_json(&bad)).unwrap_err(), DecodeError::InvalidType);
    let no_box = text.replace(r#""type":"Polygon""#, r#""type":"Circle""#);
    assert_eq!(Place::from_json(&parse_json(&no_box)).unwrap_err(), DecodeError::UnknownVariant);
}

#[test]
fn list() {
    let text = format!(
        r#"{{"slug":"team","name":"Team","created_at":"Wed Aug 27 13:08:45 +0000 2008","uri":"/twitterapi/lists/team","subscriber_count":1,"member_count":2,"mode":"public","id":5,"full_name":"@twitterapi/team","description":"","user":{},"following":false}}"#,
        USER
    );
    let l = List::from_json(&parse_json(&text)).unwrap();
    assert_eq!(l.slug, "team");
    assert_eq!(l.mode, Mode::Public);
    assert_eq!(l.created_at, 1219842525);
    assert_eq!(l.user.id, 6253282);
    assert_eq!(Mode::Custom("private".to_string()), Mode::Private);
    let missing_user = text.replace(&format!(r#""user":{},"#, USER), "");
    assert_eq!(List::from_json(&parse_json(&missing_user)).unwrap_err(), DecodeError::MissingField("user"));
}

#[test]
fn direct_message() {
    let dm = format!(
        r#"{{"created_at":"Wed Aug 27 13:08:45 +0000 2008","entities":{{"hashtags":[],"symbols":[],"urls":[],"user_mentions":[]}},"id":9,"recipient":{u},"recipient_id":6253282,"recipient_screen_name":"twitterapi","sender":{u},"sender_id":6253282,"sender_screen_name":"twitterapi","text":"hi"}}"#,
        u = USER
    );
    let d = DirectMessage::from_json(&parse_json(&dm)).unwrap();
    assert_eq!(d.id, 9);
    assert_eq!(d.text, "hi");
    assert_eq!(d.sender.screen_name, "twitterapi");
    match StreamMessage::from_json(parse_json(&format!(r#"{{"direct_message":{}}}"#, dm))).unwrap() {
        StreamMessage::DirectMessage(d) => assert_eq!(d.recipient_id, 6253282),
        m => panic!("unexpected {:?}", m),
    }
    assert_eq!(
        StreamMessage::from_json(parse_json(r#"{"direct_message":{"id":1}}"#)).unwrap_err(),
        DecodeError::MissingField("created_at")
    );
}
