//! The users of the Twitter API.

use vstd::prelude::*;

use crate::json::{DecodeError, JsonValue};
use crate::message::record::{
    bool_value, date_value, decode_record, value_ok, lemma_record_ok, opt_bool_value, opt_i64_value,
    opt_str_value, read_bool, read_date, read_opt_bool, read_opt_i64, read_opt_str, read_str,
    read_u64, spec_record, str_value, u64_value, FieldType,
    member_or_null, record_fields_come_from_their_members,
};

verus! {

/// A Twitter user, as stream messages describe it.
#[derive(Clone, Debug, PartialEq, Eq)]
pub struct User {
    pub contributors_enabled: bool,
    /// When the account was created, in seconds since the Unix epoch.
    pub created_at: i64,
    pub default_profile: bool,
    pub default_profile_image: bool,
    pub description: Option<String>,
    pub favourites_count: u64,
    pub follow_request_sent: Option<bool>,
    pub followers_count: u64,
    pub friends_count: u64,
    pub geo_enabled: bool,
    pub id: u64,
    pub is_translator: bool,
    pub lang: String,
    pub listed_count: u64,
    pub location: Option<String>,
    pub name: String,
    pub profile_background_color: String,
    pub profile_background_image_url: String,
    pub profile_background_image_url_https: String,
    pub profile_background_tile: bool,
    pub profile_banner_url: Option<String>,
    pub profile_image_url: String,
    pub profile_image_url_https: String,
    pub profile_link_color: String,
    pub profile_sidebar_border_color: String,
    pub profile_sidebar_fill_color: String,
    pub profile_text_color: String,
    pub profile_use_background_image: bool,
    pub protected: bool,
    pub screen_name: String,
    pub statuses_count: u64,
    pub time_zone: Option<String>,
    pub url: Option<String>,
    pub utc_offset: Option<i64>,
    pub verified: bool,
    pub withheld_in_countries: Option<String>,
    pub withheld_scope: Option<String>,
}

/// The members of a user object, in the order in which they are declared.
pub open spec fn user_fields() -> Seq<(&'static str, FieldType)> {
    seq![
        ("contributors_enabled", FieldType::Bool),
        ("created_at", FieldType::DateTime),
        ("default_profile", FieldType::Bool),
        ("default_profile_image", FieldType::Bool),
        ("description", FieldType::OptStr),
        ("favourites_count", FieldType::U64),
        ("follow_request_sent", FieldType::OptBool),
        ("followers_count", FieldType::U64),
        ("friends_count", FieldType::U64),
        ("geo_enabled", FieldType::Bool),
        ("id", FieldType::U64),
        ("is_translator", FieldType::Bool),
        ("lang", FieldType::Str),
        ("listed_count", FieldType::U64),
        ("location", FieldType::OptStr),
        ("name", FieldType::Str),
        ("profile_background_color", FieldType::Str),
        ("profile_background_image_url", FieldType::Str),
        ("profile_background_image_url_https", FieldType::Str),
        ("profile_background_tile", FieldType::Bool),
        ("profile_banner_url", FieldType::OptStr),
        ("profile_image_url", FieldType::Str),
        ("profile_image_url_https", FieldType::Str),
        ("profile_link_color", FieldType::Str),
        ("profile_sidebar_border_color", FieldType::Str),
        ("profile_sidebar_fill_color", FieldType::Str),
        ("profile_text_color", FieldType::Str),
        ("profile_use_background_image", FieldType::Bool),
        ("protected", FieldType::Bool),
        ("screen_name", FieldType::Str),
        ("statuses_count", FieldType::U64),
        ("time_zone", FieldType::OptStr),
        ("url", FieldType::OptStr),
        ("utc_offset", FieldType::OptI64),
        ("verified", FieldType::Bool),
        ("withheld_in_countries", FieldType::OptStr),
        ("withheld_scope", FieldType::OptStr),
    ]
}

pub(crate) fn user_fields_vec() -> (r: Vec<(&'static str, FieldType)>)
    ensures
        r@ == user_fields(),
{
    let r = vec![
        ("contributors_enabled", FieldType::Bool),
        ("created_at", FieldType::DateTime),
        ("default_profile", FieldType::Bool),
        ("default_profile_image", FieldType::Bool),
        ("description", FieldType::OptStr),
        ("favourites_count", FieldType::U64),
        ("follow_request_sent", FieldType::OptBool),
        ("followers_count", FieldType::U64),
        ("friends_count", FieldType::U64),
        ("geo_enabled", FieldType::Bool),
        ("id", FieldType::U64),
        ("is_translator", FieldType::Bool),
        ("lang", FieldType::Str),
        ("listed_count", FieldType::U64),
        ("location", FieldType::OptStr),
        ("name", FieldType::Str),
        ("profile_background_color", FieldType::Str),
        ("profile_background_image_url", FieldType::Str),
        ("profile_background_image_url_https", FieldType::Str),
        ("profile_background_tile", FieldType::Bool),
        ("profile_banner_url", FieldType::OptStr),
        ("profile_image_url", FieldType::Str),
        ("profile_image_url_https", FieldType::Str),
        ("profile_link_color", FieldType::Str),
        ("profile_sidebar_border_color", FieldType::Str),
        ("profile_sidebar_fill_color", FieldType::Str),
        ("profile_text_color", FieldType::Str),
        ("profile_use_background_image", FieldType::Bool),
        ("protected", FieldType::Bool),
        ("screen_name", FieldType::Str),
        ("statuses_count", FieldType::U64),
        ("time_zone", FieldType::OptStr),
        ("url", FieldType::OptStr),
        ("utc_offset", FieldType::OptI64),
        ("verified", FieldType::Bool),
        ("withheld_in_countries", FieldType::OptStr),
        ("withheld_scope", FieldType::OptStr),
    ];
    proof {
        assert(r@ =~= user_fields());
    }
    r
}

/// The user that a JSON value describes.
pub open spec fn spec_user(v: JsonValue) -> Result<User, DecodeError> {
    match spec_record(v, user_fields()) {
        Ok(vals) => Ok(
            User {
                contributors_enabled: bool_value(vals[0]),
                created_at: date_value(vals[1]),
                default_profile: bool_value(vals[2]),
                default_profile_image: bool_value(vals[3]),
                description: opt_str_value(vals[4]),
                favourites_count: u64_value(vals[5]),
                follow_request_sent: opt_bool_value(vals[6]),
                followers_count: u64_value(vals[7]),
                friends_count: u64_value(vals[8]),
                geo_enabled: bool_value(vals[9]),
                id: u64_value(vals[10]),
                is_translator: bool_value(vals[11]),
                lang: str_value(vals[12]),
                listed_count: u64_value(vals[13]),
                location: opt_str_value(vals[14]),
                name: str_value(vals[15]),
                profile_background_color: str_value(vals[16]),
                profile_background_image_url: str_value(vals[17]),
                profile_background_image_url_https: str_value(vals[18]),
                profile_background_tile: bool_value(vals[19]),
                profile_banner_url: opt_str_value(vals[20]),
                profile_image_url: str_value(vals[21]),
                profile_image_url_https: str_value(vals[22]),
                profile_link_color: str_value(vals[23]),
                profile_sidebar_border_color: str_value(vals[24]),
                profile_sidebar_fill_color: str_value(vals[25]),
                profile_text_color: str_value(vals[26]),
                profile_use_background_image: bool_value(vals[27]),
                protected: bool_value(vals[28]),
                screen_name: str_value(vals[29]),
                statuses_count: u64_value(vals[30]),
                time_zone: opt_str_value(vals[31]),
                url: opt_str_value(vals[32]),
                utc_offset: opt_i64_value(vals[33]),
                verified: bool_value(vals[34]),
                withheld_in_countries: opt_str_value(vals[35]),
                withheld_scope: opt_str_value(vals[36]),
            },
        ),
        Err(e) => Err(e),
    }
}

impl User {
    /// Decodes a user object.
    pub fn from_json(v: &JsonValue) -> (r: Result<User, DecodeError>)
        ensures
            r == spec_user(*v),
    {
        let null = JsonValue::Null;
        let fields = user_fields_vec();
        proof {
            lemma_record_ok(*v, user_fields());
        }
        match decode_record(v, &fields, &null) {
            Ok(vals) => Ok(
                User {
                    contributors_enabled: read_bool(vals[0]),
                    created_at: read_date(vals[1]),
                    default_profile: read_bool(vals[2]),
                    default_profile_image: read_bool(vals[3]),
                    description: read_opt_str(vals[4]),
                    favourites_count: read_u64(vals[5]),
                    follow_request_sent: read_opt_bool(vals[6]),
                    followers_count: read_u64(vals[7]),
                    friends_count: read_u64(vals[8]),
                    geo_enabled: read_bool(vals[9]),
                    id: read_u64(vals[10]),
                    is_translator: read_bool(vals[11]),
                    lang: read_str(vals[12]),
                    listed_count: read_u64(vals[13]),
                    location: read_opt_str(vals[14]),
                    name: read_str(vals[15]),
                    profile_background_color: read_str(vals[16]),
                    profile_background_image_url: read_str(vals[17]),
                    profile_background_image_url_https: read_str(vals[18]),
                    profile_background_tile: read_bool(vals[19]),
                    profile_banner_url: read_opt_str(vals[20]),
                    profile_image_url: read_str(vals[21]),
                    profile_image_url_https: read_str(vals[22]),
                    profile_link_color: read_str(vals[23]),
                    profile_sidebar_border_color: read_str(vals[24]),
                    profile_sidebar_fill_color: read_str(vals[25]),
                    profile_text_color: read_str(vals[26]),
                    profile_use_background_image: read_bool(vals[27]),
                    protected: read_bool(vals[28]),
                    screen_name: read_str(vals[29]),
                    statuses_count: read_u64(vals[30]),
                    time_zone: read_opt_str(vals[31]),
                    url: read_opt_str(vals[32]),
                    utc_offset: read_opt_i64(vals[33]),
                    verified: read_bool(vals[34]),
                    withheld_in_countries: read_opt_str(vals[35]),
                    withheld_scope: read_opt_str(vals[36]),
                },
            ),
            Err(e) => Err(e),
        }
    }
}

pub(crate) fn read_user(v: &JsonValue) -> (r: User)
    requires
        value_ok(FieldType::UserRec, *v),
    ensures
        r == spec_user(*v)->Ok_0,
{
    match User::from_json(v) {
        Ok(u) => u,
        Err(_) => User {
            contributors_enabled: false,
            created_at: 0,
            default_profile: false,
            default_profile_image: false,
            description: None,
            favourites_count: 0,
            follow_request_sent: None,
            followers_count: 0,
            friends_count: 0,
            geo_enabled: false,
            id: 0,
            is_translator: false,
            lang: String::new(),
            listed_count: 0,
            location: None,
            name: String::new(),
            profile_background_color: String::new(),
            profile_background_image_url: String::new(),
            profile_background_image_url_https: String::new(),
            profile_background_tile: false,
            profile_banner_url: None,
            profile_image_url: String::new(),
            profile_image_url_https: String::new(),
            profile_link_color: String::new(),
            profile_sidebar_border_color: String::new(),
            profile_sidebar_fill_color: String::new(),
            profile_text_color: String::new(),
            profile_use_background_image: false,
            protected: false,
            screen_name: String::new(),
            statuses_count: 0,
            time_zone: None,
            url: None,
            utc_offset: None,
            verified: false,
            withheld_in_countries: None,
            withheld_scope: None,
        },
    }
}

/// A user read from an object takes each of its fields from the member of that field's name,
/// whatever the order of the members (and `null` for an optional member that is missing).
#[verifier::rlimit(100)]
pub proof fn user_reads_members_by_name(v: JsonValue)
    requires
        v is Object,
    ensures
        spec_user(v) matches Ok(m) ==> m == (User {
            contributors_enabled: bool_value(member_or_null(v, "contributors_enabled"@)),
            created_at: date_value(member_or_null(v, "created_at"@)),
            default_profile: bool_value(member_or_null(v, "default_profile"@)),
            default_profile_image: bool_value(member_or_null(v, "default_profile_image"@)),
            description: opt_str_value(member_or_null(v, "description"@)),
            favourites_count: u64_value(member_or_null(v, "favourites_count"@)),
            follow_request_sent: opt_bool_value(member_or_null(v, "follow_request_sent"@)),
            followers_count: u64_value(member_or_null(v, "followers_count"@)),
            friends_count: u64_value(member_or_null(v, "friends_count"@)),
            geo_enabled: bool_value(member_or_null(v, "geo_enabled"@)),
            id: u64_value(member_or_null(v, "id"@)),
            is_translator: bool_value(member_or_null(v, "is_translator"@)),
            lang: str_value(member_or_null(v, "lang"@)),
            listed_count: u64_value(member_or_null(v, "listed_count"@)),
            location: opt_str_value(member_or_null(v, "location"@)),
            name: str_value(member_or_null(v, "name"@)),
            profile_background_color: str_value(member_or_null(v, "profile_background_color"@)),
            profile_background_image_url: str_value(member_or_null(v, "profile_background_image_url"@)),
            profile_background_image_url_https: str_value(member_or_null(v, "profile_background_image_url_https"@)),
            profile_background_tile: bool_value(member_or_null(v, "profile_background_tile"@)),
            profile_banner_url: opt_str_value(member_or_null(v, "profile_banner_url"@)),
            profile_image_url: str_value(member_or_null(v, "profile_image_url"@)),
            profile_image_url_https: str_value(member_or_null(v, "profile_image_url_https"@)),
            profile_link_color: str_value(member_or_null(v, "profile_link_color"@)),
            profile_sidebar_border_color: str_value(member_or_null(v, "profile_sidebar_border_color"@)),
            profile_sidebar_fill_color: str_value(member_or_null(v, "profile_sidebar_fill_color"@)),
            profile_text_color: str_value(member_or_null(v, "profile_text_color"@)),
            profile_use_background_image: bool_value(member_or_null(v, "profile_use_background_image"@)),
            protected: bool_value(member_or_null(v, "protected"@)),
            screen_name: str_value(member_or_null(v, "screen_name"@)),
            statuses_count: u64_value(member_or_null(v, "statuses_count"@)),
            time_zone: opt_str_value(member_or_null(v, "time_zone"@)),
            url: opt_str_value(member_or_null(v, "url"@)),
            utc_offset: opt_i64_value(member_or_null(v, "utc_offset"@)),
            verified: bool_value(member_or_null(v, "verified"@)),
            withheld_in_countries: opt_str_value(member_or_null(v, "withheld_in_countries"@)),
            withheld_scope: opt_str_value(member_or_null(v, "withheld_scope"@)),
        }),
{
    reveal_strlit("contributors_enabled");
    reveal_strlit("created_at");
    reveal_strlit("default_profile");
    reveal_strlit("default_profile_image");
    reveal_strlit("description");
    reveal_strlit("favourites_count");
    reveal_strlit("follow_request_sent");
    reveal_strlit("followers_count");
    reveal_strlit("friends_count");
    reveal_strlit("geo_enabled");
    reveal_strlit("id");
    reveal_strlit("is_translator");
    reveal_strlit("lang");
    reveal_strlit("listed_count");
    reveal_strlit("location");
    reveal_strlit("name");
    reveal_strlit("profile_background_color");
    reveal_strlit("profile_background_image_url");
    reveal_strlit("profile_background_image_url_https");
    reveal_strlit("profile_background_tile");
    reveal_strlit("profile_banner_url");
    reveal_strlit("profile_image_url");
    reveal_strlit("profile_image_url_https");
    reveal_strlit("profile_link_color");
    reveal_strlit("profile_sidebar_border_color");
    reveal_strlit("profile_sidebar_fill_color");
    reveal_strlit("profile_text_color");
    reveal_strlit("profile_use_background_image");
    reveal_strlit("protected");
    reveal_strlit("screen_name");
    reveal_strlit("statuses_count");
    reveal_strlit("time_zone");
    reveal_strlit("url");
    reveal_strlit("utc_offset");
    reveal_strlit("verified");
    reveal_strlit("withheld_in_countries");
    reveal_strlit("withheld_scope");
    assert("contributors_enabled"@.len() == 20);
    assert("created_at"@.len() == 10 && "created_at"@[0] == 'c');
    assert("default_profile"@.len() == 15 && "default_profile"@[0] == 'd');
    assert("default_profile_image"@.len() == 21 && "default_profile_image"@[0] == 'd');
    assert("description"@.len() == 11 && "description"@[0] == 'd');
    assert("favourites_count"@.len() == 16);
    assert("follow_request_sent"@.len() == 19);
    assert("followers_count"@.len() == 15 && "followers_count"@[0] == 'f');
    assert("friends_count"@.len() == 13 && "friends_count"@[0] == 'f');
    assert("geo_enabled"@.len() == 11 && "geo_enabled"@[0] == 'g');
    assert("id"@.len() == 2);
    assert("is_translator"@.len() == 13 && "is_translator"@[0] == 'i');
    assert("lang"@.len() == 4 && "lang"@[0] == 'l');
    assert("listed_count"@.len() == 12);
    assert("location"@.len() == 8 && "location"@[0] == 'l');
    assert("name"@.len() == 4 && "name"@[0] == 'n');
    assert("profile_background_color"@.len() == 24);
    assert("profile_background_image_url"@.len() == 28 && "profile_background_image_url"@[8] == 'b');
    assert("profile_background_image_url_https"@.len() == 34);
    assert("profile_background_tile"@.len() == 23 && "profile_background_tile"@[8] == 'b');
    assert("profile_banner_url"@.len() == 18 && "profile_banner_url"@[8] == 'b');
    assert("profile_image_url"@.len() == 17);
    assert("profile_image_url_https"@.len() == 23 && "profile_image_url_https"@[8] == 'i');
    assert("profile_link_color"@.len() == 18 && "profile_link_color"@[8] == 'l');
    assert("profile_sidebar_border_color"@.len() == 28 && "profile_sidebar_border_color"@[8] == 's');
    assert("profile_sidebar_fill_color"@.len() == 26);
    assert("profile_text_color"@.len() == 18 && "profile_text_color"@[8] == 't');
    assert("profile_use_background_image"@.len() == 28 && "profile_use_background_image"@[8] == 'u');
    assert("protected"@.len() == 9 && "protected"@[0] == 'p');
    assert("screen_name"@.len() == 11 && "screen_name"@[0] == 's');
    assert("statuses_count"@.len() == 14 && "statuses_count"@[0] == 's');
    assert("time_zone"@.len() == 9 && "time_zone"@[0] == 't');
    assert("url"@.len() == 3);
    assert("utc_offset"@.len() == 10 && "utc_offset"@[0] == 'u');
    assert("verified"@.len() == 8 && "verified"@[0] == 'v');
    assert("withheld_in_countries"@.len() == 21 && "withheld_in_countries"@[0] == 'w');
    assert("withheld_scope"@.len() == 14 && "withheld_scope"@[0] == 'w');
    record_fields_come_from_their_members(v, user_fields());
}

} // verus!
