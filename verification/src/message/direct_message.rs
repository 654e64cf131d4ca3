//! Direct messages.

use vstd::prelude::*;

use crate::json::{DecodeError, JsonValue};
use crate::message::entities::{
    entities_view, read_entities, spec_entities, Entities, EntitiesModel,
};
use crate::message::geometry::agrees;
use crate::message::record::{
    date_value, decode_record, lemma_record_ok, read_date, read_str, read_u64, spec_record,
    str_value, u64_value, FieldType,
    member_or_null, record_fields_come_from_their_members,
};
use crate::message::user::{read_user, spec_user, User};

verus! {

/// A direct message.
#[derive(Debug)]
pub struct DirectMessage {
    /// When the message was sent, in seconds since the Unix epoch.
    pub created_at: i64,
    pub entities: Entities,
    pub id: u64,
    pub recipient: User,
    pub recipient_id: u64,
    pub recipient_screen_name: String,
    pub sender: User,
    pub sender_id: u64,
    pub sender_screen_name: String,
    pub text: String,
}

/// [`DirectMessage`] with the model of its entities.
pub struct DirectMessageModel {
    pub created_at: i64,
    pub entities: EntitiesModel,
    pub id: u64,
    pub recipient: User,
    pub recipient_id: u64,
    pub recipient_screen_name: String,
    pub sender: User,
    pub sender_id: u64,
    pub sender_screen_name: String,
    pub text: String,
}

pub open spec fn direct_message_view(d: DirectMessage) -> DirectMessageModel {
    DirectMessageModel {
        created_at: d.created_at,
        entities: entities_view(d.entities),
        id: d.id,
        recipient: d.recipient,
        recipient_id: d.recipient_id,
        recipient_screen_name: d.recipient_screen_name,
        sender: d.sender,
        sender_id: d.sender_id,
        sender_screen_name: d.sender_screen_name,
        text: d.text,
    }
}

/// The members of a direct message object, in the order in which they are declared.
pub open spec fn direct_message_fields() -> Seq<(&'static str, FieldType)> {
    seq![
        ("created_at", FieldType::DateTime),
        ("entities", FieldType::EntitiesRec),
        ("id", FieldType::U64),
        ("recipient", FieldType::UserRec),
        ("recipient_id", FieldType::U64),
        ("recipient_screen_name", FieldType::Str),
        ("sender", FieldType::UserRec),
        ("sender_id", FieldType::U64),
        ("sender_screen_name", FieldType::Str),
        ("text", FieldType::Str),
    ]
}

pub(crate) fn direct_message_fields_vec() -> (r: Vec<(&'static str, FieldType)>)
    ensures
        r@ == direct_message_fields(),
{
    let r = vec![
        ("created_at", FieldType::DateTime),
        ("entities", FieldType::EntitiesRec),
        ("id", FieldType::U64),
        ("recipient", FieldType::UserRec),
        ("recipient_id", FieldType::U64),
        ("recipient_screen_name", FieldType::Str),
        ("sender", FieldType::UserRec),
        ("sender_id", FieldType::U64),
        ("sender_screen_name", FieldType::Str),
        ("text", FieldType::Str),
    ];
    proof {
        assert(r@ =~= direct_message_fields());
    }
    r
}

pub open spec fn spec_direct_message(v: JsonValue) -> Result<DirectMessageModel, DecodeError> {
    match spec_record(v, direct_message_fields()) {
        Ok(vals) => Ok(
            DirectMessageModel {
                created_at: date_value(vals[0]),
                entities: spec_entities(vals[1])->Ok_0,
                id: u64_value(vals[2]),
                recipient: spec_user(vals[3])->Ok_0,
                recipient_id: u64_value(vals[4]),
                recipient_screen_name: str_value(vals[5]),
                sender: spec_user(vals[6])->Ok_0,
                sender_id: u64_value(vals[7]),
                sender_screen_name: str_value(vals[8]),
                text: str_value(vals[9]),
            },
        ),
        Err(e) => Err(e),
    }
}

impl DirectMessage {
    /// Decodes a direct message.
    pub fn from_json(v: &JsonValue) -> (r: Result<DirectMessage, DecodeError>)
        ensures
            agrees(r, spec_direct_message(*v), |d: DirectMessage| direct_message_view(d)),
    {
        let null = JsonValue::Null;
        let fields = direct_message_fields_vec();
        proof {
            lemma_record_ok(*v, direct_message_fields());
        }
        match decode_record(v, &fields, &null) {
            Ok(vals) => Ok(
                DirectMessage {
                    created_at: read_date(vals[0]),
                    entities: read_entities(vals[1]),
                    id: read_u64(vals[2]),
                    recipient: read_user(vals[3]),
                    recipient_id: read_u64(vals[4]),
                    recipient_screen_name: read_str(vals[5]),
                    sender: read_user(vals[6]),
                    sender_id: read_u64(vals[7]),
                    sender_screen_name: read_str(vals[8]),
                    text: read_str(vals[9]),
                },
            ),
            Err(e) => Err(e),
        }
    }
}

/// A direct message read from an object takes each of its fields from the member of that field's name,
/// whatever the order of the members (and `null` for an optional member that is missing).
pub proof fn direct_message_reads_members_by_name(v: JsonValue)
    requires
        v is Object,
    ensures
        spec_direct_message(v) matches Ok(m) ==> m == (DirectMessageModel {
            created_at: date_value(member_or_null(v, "created_at"@)),
            entities: spec_entities(member_or_null(v, "entities"@))->Ok_0,
            id: u64_value(member_or_null(v, "id"@)),
            recipient: spec_user(member_or_null(v, "recipient"@))->Ok_0,
            recipient_id: u64_value(member_or_null(v, "recipient_id"@)),
            recipient_screen_name: str_value(member_or_null(v, "recipient_screen_name"@)),
            sender: spec_user(member_or_null(v, "sender"@))->Ok_0,
            sender_id: u64_value(member_or_null(v, "sender_id"@)),
            sender_screen_name: str_value(member_or_null(v, "sender_screen_name"@)),
            text: str_value(member_or_null(v, "text"@)),
        }),
{
    reveal_strlit("created_at");
    reveal_strlit("entities");
    reveal_strlit("id");
    reveal_strlit("recipient");
    reveal_strlit("recipient_id");
    reveal_strlit("recipient_screen_name");
    reveal_strlit("sender");
    reveal_strlit("sender_id");
    reveal_strlit("sender_screen_name");
    reveal_strlit("text");
    assert("created_at"@.len() == 10);
    assert("entities"@.len() == 8);
    assert("id"@.len() == 2);
    assert("recipient"@.len() == 9 && "recipient"@[0] == 'r');
    assert("recipient_id"@.len() == 12);
    assert("recipient_screen_name"@.len() == 21);
    assert("sender"@.len() == 6);
    assert("sender_id"@.len() == 9 && "sender_id"@[0] == 's');
    assert("sender_screen_name"@.len() == 18);
    assert("text"@.len() == 4);
    record_fields_come_from_their_members(v, direct_message_fields());
}

} // verus!
