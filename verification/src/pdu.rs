//! What the core reads of a persistent event.

use crate::json::{member_string, JsonObject};
use crate::text::opt_view;
use vstd::prelude::*;

verus! {

/// The members of an event that place it in a room and in its state.
#[derive(Debug)]
pub struct PduEvent {
    pub event_id: String,
    pub room_id: String,
    pub sender: String,
    /// The type of the event.
    pub kind: String,
    /// The state key; an event with a state key is a state event.
    pub state_key: Option<String>,
}

/// An event as a mathematical value.
pub struct Pdu {
    pub event_id: Seq<char>,
    pub room_id: Seq<char>,
    pub sender: Seq<char>,
    pub kind: Seq<char>,
    pub state_key: Option<Seq<char>>,
}

impl View for PduEvent {
    type V = Pdu;

    open spec fn view(&self) -> Pdu {
        Pdu {
            event_id: self.event_id@,
            room_id: self.room_id@,
            sender: self.sender@,
            kind: self.kind@,
            state_key: opt_view(self.state_key),
        }
    }
}

/// The event with the given id and members; `None` where `room_id`,
/// `sender` or `type` is missing or no string, or where there is a
/// `state_key` that is no string.
pub open spec fn pdu_of(event_id: Seq<char>, members: Map<Seq<char>, Seq<char>>) -> Option<Pdu> {
    match (
        member_string(members, "room_id"@),
        member_string(members, "sender"@),
        member_string(members, "type"@),
    ) {
        (Some(room_id), Some(sender), Some(kind)) => if members.contains_key("state_key"@) {
            match member_string(members, "state_key"@) {
                Some(state_key) => Some(
                    Pdu { event_id, room_id, sender, kind, state_key: Some(state_key) },
                ),
                None => None,
            }
        } else {
            Some(Pdu { event_id, room_id, sender, kind, state_key: None })
        },
        _ => None,
    }
}

impl PduEvent {
    /// Reads an event from its id and its members.
    pub fn from_id_val(event_id: &str, value: &JsonObject) -> (r: Option<PduEvent>)
        requires
            value.wf(),
        ensures
            r is Some <==> pdu_of(event_id@, value@) is Some,
            r matches Some(pdu) ==> Some(pdu@) == pdu_of(event_id@, value@),
    {
        let room_id = match value.get_string("room_id") {
            Some(s) => s,
            None => {
                return None;
            },
        };
        let sender = match value.get_string("sender") {
            Some(s) => s,
            None => {
                return None;
            },
        };
        let kind = match value.get_string("type") {
            Some(s) => s,
            None => {
                return None;
            },
        };
        let state_key = if value.contains_key("state_key") {
            match value.get_string("state_key") {
                Some(s) => Some(s),
                None => {
                    return None;
                },
            }
        } else {
            None
        };
        Some(PduEvent { event_id: event_id.to_owned(), room_id, sender, kind, state_key })
    }
}

} // verus!
