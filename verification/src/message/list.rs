//! Lists of users.

use vstd::prelude::*;

use crate::json::{str_eq, DecodeError, JsonValue};
use crate::message::record::{
    bool_value, date_value, decode_record, lemma_record_ok, read_bool, read_date, read_str,
    read_u64, spec_record, str_value, u64_value, FieldType,
    member_or_null, record_fields_come_from_their_members,
};
use crate::message::user::{read_user, spec_user, User};

verus! {

/// Who can see a list.
#[derive(Clone, Debug)]
pub enum Mode {
    Public,
    Private,
    /// Another value.
    Custom(String),
}

pub open spec fn mode_text(m: Mode) -> Seq<char> {
    match m {
        Mode::Public => "public"@,
        Mode::Private => "private"@,
        Mode::Custom(s) => s@,
    }
}

/// The value that a `mode` text stands for.
pub open spec fn spec_mode(s: String) -> Mode {
    if s@ == "public"@ {
        Mode::Public
    } else if s@ == "private"@ {
        Mode::Private
    } else {
        Mode::Custom(s)
    }
}

/// The known modes are the API's words: a mode's text is "public" exactly when it is `Public`
/// or a custom mode of that text, and "private" exactly when it is `Private` or a custom mode
/// of that text; and the mode read from a text has that text.
pub proof fn mode_texts_are_the_api_words(x: Mode, s: String)
    ensures
        mode_text(x) == "public"@ <==> (x is Public || (x matches Mode::Custom(c) && c@ == "public"@)),
        mode_text(x) == "private"@ <==> (x is Private || (x matches Mode::Custom(c) && c@ == "private"@)),
        mode_text(spec_mode(s)) == s@,
{
    reveal_strlit("public");
    reveal_strlit("private");
    assert("public"@.len() == 6 && "private"@.len() == 7);
}

impl Mode {
    /// The text of the value.
    pub fn as_str(&self) -> (r: &str)
        ensures
            r@ == mode_text(*self),
    {
        match self {
            Mode::Public => "public",
            Mode::Private => "private",
            Mode::Custom(s) => s.as_str(),
        }
    }

    /// The value that a text stands for.
    pub fn from_text(s: String) -> (r: Mode)
        ensures
            r == spec_mode(s),
    {
        if str_eq(s.as_str(), "public") {
            Mode::Public
        } else if str_eq(s.as_str(), "private") {
            Mode::Private
        } else {
            Mode::Custom(s)
        }
    }
}

/// Two values are equal when their texts are: a custom value equals the known value of the
/// same text.
impl PartialEq for Mode {
    fn eq(&self, other: &Self) -> (r: bool) {
        str_eq(self.as_str(), other.as_str())
    }
}

impl vstd::std_specs::cmp::PartialEqSpecImpl for Mode {
    open spec fn obeys_eq_spec() -> bool {
        true
    }

    open spec fn eq_spec(&self, other: &Self) -> bool {
        mode_text(*self) == mode_text(*other)
    }
}

impl Eq for Mode {

}

/// A list of users.
#[derive(Clone, Debug, PartialEq, Eq)]
pub struct List {
    pub slug: String,
    pub name: String,
    /// When the list was created, in seconds since the Unix epoch.
    pub created_at: i64,
    pub uri: String,
    pub subscriber_count: u64,
    pub member_count: u64,
    pub mode: Mode,
    pub id: u64,
    pub full_name: String,
    pub description: String,
    /// The owner of the list.
    pub user: User,
    pub following: bool,
}

/// The members of a list object, in the order in which they are declared.
pub open spec fn list_fields() -> Seq<(&'static str, FieldType)> {
    seq![
        ("slug", FieldType::Str),
        ("name", FieldType::Str),
        ("created_at", FieldType::DateTime),
        ("uri", FieldType::Str),
        ("subscriber_count", FieldType::U64),
        ("member_count", FieldType::U64),
        ("mode", FieldType::Str),
        ("id", FieldType::U64),
        ("full_name", FieldType::Str),
        ("description", FieldType::Str),
        ("user", FieldType::UserRec),
        ("following", FieldType::Bool),
    ]
}

fn list_fields_vec() -> (r: Vec<(&'static str, FieldType)>)
    ensures
        r@ == list_fields(),
{
    let r = vec![
        ("slug", FieldType::Str),
        ("name", FieldType::Str),
        ("created_at", FieldType::DateTime),
        ("uri", FieldType::Str),
        ("subscriber_count", FieldType::U64),
        ("member_count", FieldType::U64),
        ("mode", FieldType::Str),
        ("id", FieldType::U64),
        ("full_name", FieldType::Str),
        ("description", FieldType::Str),
        ("user", FieldType::UserRec),
        ("following", FieldType::Bool),
    ];
    proof {
        assert(r@ =~= list_fields());
    }
    r
}

pub open spec fn spec_list(v: JsonValue) -> Result<List, DecodeError> {
    match spec_record(v, list_fields()) {
        Ok(vals) => Ok(
            List {
                slug: str_value(vals[0]),
                name: str_value(vals[1]),
                created_at: date_value(vals[2]),
                uri: str_value(vals[3]),
                subscriber_count: u64_value(vals[4]),
                member_count: u64_value(vals[5]),
                mode: spec_mode(str_value(vals[6])),
                id: u64_value(vals[7]),
                full_name: str_value(vals[8]),
                description: str_value(vals[9]),
                user: spec_user(vals[10])->Ok_0,
                following: bool_value(vals[11]),
            },
        ),
        Err(e) => Err(e),
    }
}

impl List {
    /// Decodes a list.
    pub fn from_json(v: &JsonValue) -> (r: Result<List, DecodeError>)
        ensures
            r == spec_list(*v),
    {
        let null = JsonValue::Null;
        let fields = list_fields_vec();
        proof {
            lemma_record_ok(*v, list_fields());
        }
        match decode_record(v, &fields, &null) {
            Ok(vals) => Ok(
                List {
                    slug: read_str(vals[0]),
                    name: read_str(vals[1]),
                    created_at: read_date(vals[2]),
                    uri: read_str(vals[3]),
                    subscriber_count: read_u64(vals[4]),
                    member_count: read_u64(vals[5]),
                    mode: Mode::from_text(read_str(vals[6])),
                    id: read_u64(vals[7]),
                    full_name: read_str(vals[8]),
                    description: read_str(vals[9]),
                    user: read_user(vals[10]),
                    following: read_bool(vals[11]),
                },
            ),
            Err(e) => Err(e),
        }
    }
}

/// A list read from an object takes each of its fields from the member of that field's name,
/// whatever the order of the members (and `null` for an optional member that is missing).
pub proof fn list_reads_members_by_name(v: JsonValue)
    requires
        v is Object,
    ensures
        spec_list(v) matches Ok(m) ==> m == (List {
            slug: str_value(member_or_null(v, "slug"@)),
            name: str_value(member_or_null(v, "name"@)),
            created_at: date_value(member_or_null(v, "created_at"@)),
            uri: str_value(member_or_null(v, "uri"@)),
            subscriber_count: u64_value(member_or_null(v, "subscriber_count"@)),
            member_count: u64_value(member_or_null(v, "member_count"@)),
            mode: spec_mode(str_value(member_or_null(v, "mode"@))),
            id: u64_value(member_or_null(v, "id"@)),
            full_name: str_value(member_or_null(v, "full_name"@)),
            description: str_value(member_or_null(v, "description"@)),
            user: spec_user(member_or_null(v, "user"@))->Ok_0,
            following: bool_value(member_or_null(v, "following"@)),
        }),
{
    reveal_strlit("slug");
    reveal_strlit("name");
    reveal_strlit("created_at");
    reveal_strlit("uri");
    reveal_strlit("subscriber_count");
    reveal_strlit("member_count");
    reveal_strlit("mode");
    reveal_strlit("id");
    reveal_strlit("full_name");
    reveal_strlit("description");
    reveal_strlit("user");
    reveal_strlit("following");
    assert("slug"@.len() == 4 && "slug"@[0] == 's');
    assert("name"@.len() == 4 && "name"@[0] == 'n');
    assert("created_at"@.len() == 10);
    assert("uri"@.len() == 3);
    assert("subscriber_count"@.len() == 16);
    assert("member_count"@.len() == 12);
    assert("mode"@.len() == 4 && "mode"@[0] == 'm');
    assert("id"@.len() == 2);
    assert("full_name"@.len() == 9 && "full_name"@[1] == 'u');
    assert("description"@.len() == 11);
    assert("user"@.len() == 4 && "user"@[0] == 'u');
    assert("following"@.len() == 9 && "following"@[1] == 'o');
    record_fields_come_from_their_members(v, list_fields());
}

} // verus!
