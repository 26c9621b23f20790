use vstd::prelude::*;

use crate::json::{field, lookup_field, JsonValue};
use crate::message::{
    accent_colour, message_view, rgb, MessageView, OutboundMessage, ACCENT_BLUE, ACCENT_GREEN,
    ACCENT_RED,
};

verus! {

/// A chat line published by the game server.
#[derive(Debug, Clone, PartialEq, Eq)]
pub struct AsaySubscription {
    pub source: String,
    pub round_id: String,
    pub author: String,
    pub message: String,
    pub admin: u8,
    pub rank: String,
}

/// What a chat line holds, as mathematical values.
pub struct AsayView {
    pub source: Seq<char>,
    pub round_id: Seq<char>,
    pub author: Seq<char>,
    pub message: Seq<char>,
    pub admin: u8,
    pub rank: Seq<char>,
}

impl View for AsaySubscription {
    type V = AsayView;

    open spec fn view(&self) -> AsayView {
        AsayView {
            source: self.source@,
            round_id: self.round_id@,
            author: self.author@,
            message: self.message@,
            admin: self.admin,
            rank: self.rank@,
        }
    }
}

/// The view of an optional chat line.
pub open spec fn record_view(r: Option<AsaySubscription>) -> Option<AsayView> {
    match r {
        Some(x) => Some(x@),
        None => None,
    }
}

/// A required text member: present and a string.
pub open spec fn required_text(v: Option<JsonValue>) -> Option<Seq<char>> {
    match v {
        Some(JsonValue::Str(s)) => Some(s@),
        _ => None,
    }
}

/// An optional text member: a string, or empty where it is absent.
pub open spec fn text_or_empty(v: Option<JsonValue>) -> Option<Seq<char>> {
    match v {
        None => Some(Seq::empty()),
        Some(JsonValue::Str(s)) => Some(s@),
        _ => None,
    }
}

/// An optional byte member: an integer from 0 to 255, or 0 where it is absent.
pub open spec fn byte_or_zero(v: Option<JsonValue>) -> Option<u8> {
    match v {
        None => Some(0u8),
        Some(JsonValue::Number(Some(n))) => if n <= 255 {
            Some(n as u8)
        } else {
            None
        },
        _ => None,
    }
}

/// The chat line that a JSON document encodes: an object whose members
/// `source`, `author`, `message` and `rank` are strings, whose member `round_id`
/// is a string or absent, and whose member `admin` is a byte or absent. Other
/// members are ignored; anything else encodes no chat line.
pub open spec fn asay_record(payload: JsonValue) -> Option<AsayView> {
    match payload {
        JsonValue::Object(members) => {
            let source = required_text(field(members@, "source"@));
            let round_id = text_or_empty(field(members@, "round_id"@));
            let author = required_text(field(members@, "author"@));
            let message = required_text(field(members@, "message"@));
            let admin = byte_or_zero(field(members@, "admin"@));
            let rank = required_text(field(members@, "rank"@));
            if source is Some && round_id is Some && author is Some && message is Some
                && admin is Some && rank is Some {
                Some(
                    AsayView {
                        source: source.unwrap(),
                        round_id: round_id.unwrap(),
                        author: author.unwrap(),
                        message: message.unwrap(),
                        admin: admin.unwrap(),
                        rank: rank.unwrap(),
                    },
                )
            } else {
                None
            }
        },
        _ => None,
    }
}

/// The footer of a relayed chat line: `{rank}@{source}`.
pub open spec fn footer_text(rank: Seq<char>, source: Seq<char>) -> Seq<char> {
    rank + "@"@ + source
}

/// The message relayed for a chat line: none for a line that came from the chat
/// platform itself, else one titled by the author, with the line as its body.
pub open spec fn asay_line_message(rec: AsayView) -> Option<MessageView> {
    if rec.source == "discord"@ {
        None
    } else {
        Some(
            MessageView {
                title: rec.author,
                body: rec.message,
                footer: Some(footer_text(rec.rank, rec.source)),
                colour: accent_colour(),
            },
        )
    }
}

/// The message relayed for a payload (`None` where it is not JSON).
pub open spec fn asay_message(payload: Option<JsonValue>) -> Option<MessageView> {
    match payload {
        Some(j) => match asay_record(j) {
            Some(rec) => asay_line_message(rec),
            None => None,
        },
        None => None,
    }
}

fn text_member(members: &Vec<(String, JsonValue)>, key: &str) -> (r: Option<String>)
    ensures
        record_text(r) == required_text(field(members@, key@)),
{
    match lookup_field(members, key) {
        Some(i) => match &members[i].1 {
            JsonValue::Str(s) => Some(s.clone()),
            _ => None,
        },
        None => None,
    }
}

fn text_member_or_empty(members: &Vec<(String, JsonValue)>, key: &str) -> (r: Option<String>)
    ensures
        record_text(r) == text_or_empty(field(members@, key@)),
{
    match lookup_field(members, key) {
        Some(i) => match &members[i].1 {
            JsonValue::Str(s) => Some(s.clone()),
            _ => None,
        },
        None => Some(String::new()),
    }
}

fn byte_member_or_zero(members: &Vec<(String, JsonValue)>, key: &str) -> (r: Option<u8>)
    ensures
        r == byte_or_zero(field(members@, key@)),
{
    match lookup_field(members, key) {
        Some(i) => match &members[i].1 {
            JsonValue::Number(Some(n)) => if *n <= 255 {
                Some(*n as u8)
            } else {
                None
            },
            _ => None,
        },
        None => Some(0),
    }
}

/// The view of an optional string.
pub open spec fn record_text(s: Option<String>) -> Option<Seq<char>> {
    match s {
        Some(x) => Some(x@),
        None => None,
    }
}

/// Reads a chat line out of a JSON document.
pub fn decode_asay_subscription(payload: &JsonValue) -> (r: Option<AsaySubscription>)
    ensures
        record_view(r) == asay_record(*payload),
{
    match payload {
        JsonValue::Object(members) => {
            let source = text_member(members, "source");
            let round_id = text_member_or_empty(members, "round_id");
            let author = text_member(members, "author");
            let message = text_member(members, "message");
            let admin = byte_member_or_zero(members, "admin");
            let rank = text_member(members, "rank");
            match (source, round_id, author, message, admin, rank) {
                (Some(source), Some(round_id), Some(author), Some(message), Some(admin), Some(rank)) => {
                    Some(AsaySubscription { source, round_id, author, message, admin, rank })
                },
                _ => None,
            }
        },
        _ => None,
    }
}

/// Builds the message relayed for one chat line, or none where the line came
/// from the chat platform itself.
pub fn asay_line_to_message(line: AsaySubscription) -> (r: Option<OutboundMessage>)
    ensures
        message_view(r) == asay_line_message(line@),
{
    let discord = String::from_str("discord");
    if line.source == discord {
        return None;
    }
    let mut footer = line.rank;
    footer.append("@");
    footer.append(line.source.as_str());
    Some(
        OutboundMessage {
            title: line.author,
            body: line.message,
            footer: Some(footer),
            colour: rgb(ACCENT_RED, ACCENT_GREEN, ACCENT_BLUE),
        },
    )
}

/// The reference transform: relays a chat line from the game server.
///
/// `payload` is the parsed JSON document, or `None` where the payload was not
/// JSON. A payload that does not encode a chat line, or a line whose source is
/// the chat platform itself, yields no message.
pub fn handle_asay_subscription(payload: &Option<JsonValue>) -> (r: Option<OutboundMessage>)
    ensures
        message_view(r) == asay_message(*payload),
        match *payload {
            Some(j) => match asay_record(j) {
                Some(rec) => if rec.source == "discord"@ {
                    r is None
                } else {
                    r is Some && r.unwrap()@.title == rec.author && r.unwrap()@.body == rec.message
                        && r.unwrap()@.footer == Some(footer_text(rec.rank, rec.source))
                },
                None => r is None,
            },
            None => r is None,
        },
{
    match payload {
        Some(j) => match decode_asay_subscription(j) {
            Some(line) => asay_line_to_message(line),
            None => None,
        },
        None => None,
    }
}

/// The transform of admin access events: relays nothing yet.
pub fn handle_access_subscription(_payload: &Option<JsonValue>) -> (r: Option<OutboundMessage>)
    ensures
        r.is_none(),
{
    None
}

/// The transform of round events: relays nothing yet.
pub fn handle_round_subscription(_payload: &Option<JsonValue>) -> (r: Option<OutboundMessage>)
    ensures
        r.is_none(),
{
    None
}

/// The transform of server metadata events: relays nothing yet.
pub fn handle_meta_subscription(_payload: &Option<JsonValue>) -> (r: Option<OutboundMessage>)
    ensures
        r.is_none(),
{
    None
}

} // verus!
