//! The outbound sender: destinations, queue entries, and what is queued for
//! whom.

pub mod edu;
pub mod handler;
pub mod service;
pub mod startup;
pub mod status;
pub mod transaction;

use crate::assoc::{bytes_eq, clone_bytes, Key};
use vstd::prelude::*;
use vstd::string::*;
use vstd::utf8::encode_utf8;

verus! {

/// Where outbound events go.
#[derive(Clone, Debug, PartialEq, Eq, Hash)]
pub enum OutgoingDestination {
    /// An appservice, by its registration id.
    Appservice(String),
    /// A push gateway, by user and pushkey.
    Push(String, String),
    /// Another homeserver, by its server name.
    Normal(String),
}

/// What is sent.
#[derive(Clone, Debug, PartialEq, Eq, Hash)]
pub enum SendingEventType {
    /// A persistent event, by its id in the timeline.
    Pdu(Vec<u8>),
    /// An ephemeral event, as JSON.
    Edu(Vec<u8>),
    /// Nothing: only a nudge to send what is queued.
    Flush,
}

/// A destination as a mathematical value.
pub enum Destination {
    Appservice(Seq<char>),
    Push(Seq<char>, Seq<char>),
    Normal(Seq<char>),
}

/// A queue entry as a mathematical value.
pub enum Payload {
    Pdu(Seq<u8>),
    Edu(Seq<u8>),
    Flush,
}

impl View for OutgoingDestination {
    type V = Destination;

    open spec fn view(&self) -> Destination {
        match self {
            OutgoingDestination::Appservice(id) => Destination::Appservice(id@),
            OutgoingDestination::Push(user, pushkey) => Destination::Push(user@, pushkey@),
            OutgoingDestination::Normal(server) => Destination::Normal(server@),
        }
    }
}

impl View for SendingEventType {
    type V = Payload;

    open spec fn view(&self) -> Payload {
        match self {
            SendingEventType::Pdu(id) => Payload::Pdu(id@),
            SendingEventType::Edu(json) => Payload::Edu(json@),
            SendingEventType::Flush => Payload::Flush,
        }
    }
}

/// The views of a list of queue entries.
pub open spec fn payloads(events: Seq<SendingEventType>) -> Seq<Payload> {
    events.map_values(|e: SendingEventType| e@)
}

/// The views of a list of requests.
pub open spec fn request_views(requests: Seq<(OutgoingDestination, SendingEventType)>) -> Seq<
    (Destination, Payload),
> {
    requests.map_values(|r: (OutgoingDestination, SendingEventType)| (r.0@, r.1@))
}

impl Key for OutgoingDestination {
    fn key_eq(&self, other: &Self) -> (r: bool) {
        match (self, other) {
            (OutgoingDestination::Appservice(a), OutgoingDestination::Appservice(b)) => *a == *b,
            (OutgoingDestination::Push(a, x), OutgoingDestination::Push(b, y)) => *a == *b && *x
                == *y,
            (OutgoingDestination::Normal(a), OutgoingDestination::Normal(b)) => *a == *b,
            _ => false,
        }
    }

    fn key_clone(&self) -> (r: Self) {
        match self {
            OutgoingDestination::Appservice(a) => OutgoingDestination::Appservice(a.clone()),
            OutgoingDestination::Push(a, x) => OutgoingDestination::Push(a.clone(), x.clone()),
            OutgoingDestination::Normal(a) => OutgoingDestination::Normal(a.clone()),
        }
    }
}

impl SendingEventType {
    /// A copy of this entry.
    pub fn duplicate(&self) -> (r: SendingEventType)
        ensures
            r@ == self@,
    {
        match self {
            SendingEventType::Pdu(b) => SendingEventType::Pdu(clone_bytes(b)),
            SendingEventType::Edu(b) => SendingEventType::Edu(clone_bytes(b)),
            SendingEventType::Flush => SendingEventType::Flush,
        }
    }

    /// Whether two entries are the same.
    pub fn same(&self, other: &SendingEventType) -> (r: bool)
        ensures
            r == (self@ == other@),
    {
        match (self, other) {
            (SendingEventType::Pdu(a), SendingEventType::Pdu(b)) => bytes_eq(a, b),
            (SendingEventType::Edu(a), SendingEventType::Edu(b)) => bytes_eq(a, b),
            (SendingEventType::Flush, SendingEventType::Flush) => true,
            _ => false,
        }
    }
}

/// The key prefix under which the queue rows of a destination are stored:
/// a tag byte (`+` for an appservice, `$` for a push gateway, none for a
/// server), the names in UTF-8, and the byte 0xFF after each name.
pub open spec fn prefix_of(d: Destination) -> Seq<u8> {
    match d {
        Destination::Appservice(id) => seq![0x2Bu8] + encode_utf8(id) + seq![0xFFu8],
        Destination::Push(user, pushkey) => seq![0x24u8] + encode_utf8(user) + seq![0xFFu8]
            + encode_utf8(pushkey) + seq![0xFFu8],
        Destination::Normal(server) => encode_utf8(server) + seq![0xFFu8],
    }
}

/// The text of a string in debug formatting: quoted and escaped.
pub uninterp spec fn debug_quoted(s: Seq<char>) -> Seq<char>;

/// Formats a string with `{:?}` through `format!`. The result is named: the
/// quoted and escaped text that the standard library writes for it.
#[verifier::external_body]
fn debug_format(s: &str) -> (r: String)
    ensures
        r@ == debug_quoted(s@),
{
    format!("{:?}", s)
}

/// How a destination is shown in logs.
pub open spec fn description_of(d: Destination) -> Seq<char> {
    match d {
        Destination::Appservice(id) => "Appservice (ID "@ + debug_quoted(id) + ")"@,
        Destination::Push(user, pushkey) => "User Push Service (for "@ + debug_quoted(user)
            + ", with key "@ + debug_quoted(pushkey) + ")"@,
        Destination::Normal(server) => "Matrix Server ("@ + debug_quoted(server) + ")"@,
    }
}

impl OutgoingDestination {
    /// The key prefix of this destination's rows in the queue tables.
    pub fn get_prefix(&self) -> (prefix: Vec<u8>)
        ensures
            prefix@ == prefix_of(self@),
    {
        let mut p: Vec<u8> = Vec::new();
        match self {
            OutgoingDestination::Appservice(id) => {
                p.push(0x2B);
                p.extend_from_slice(id.as_str().as_bytes());
                p.push(0xFF);
                assert(p@ =~= prefix_of(self@));
            },
            OutgoingDestination::Push(user, pushkey) => {
                p.push(0x24);
                p.extend_from_slice(user.as_str().as_bytes());
                p.push(0xFF);
                p.extend_from_slice(pushkey.as_str().as_bytes());
                p.push(0xFF);
                assert(p@ =~= prefix_of(self@));
            },
            OutgoingDestination::Normal(server) => {
                p.extend_from_slice(server.as_str().as_bytes());
                p.push(0xFF);
                assert(p@ =~= prefix_of(self@));
            },
        }
        p
    }

    /// The text that names this destination in logs.
    pub fn describe(&self) -> (text: String)
        ensures
            text@ == description_of(self@),
    {
        match self {
            OutgoingDestination::Appservice(id) => {
                let quoted = debug_format(id.as_str());
                let text = "Appservice (ID ".to_owned().concat(quoted.as_str()).concat(")");
                assert(text@ =~= description_of(self@));
                text
            },
            OutgoingDestination::Push(user, pushkey) => {
                let u = debug_format(user.as_str());
                let k = debug_format(pushkey.as_str());
                let text = "User Push Service (for ".to_owned().concat(u.as_str()).concat(
                    ", with key ",
                ).concat(k.as_str()).concat(")");
                assert(text@ =~= description_of(self@));
                text
            },
            OutgoingDestination::Normal(server) => {
                let quoted = debug_format(server.as_str());
                let text = "Matrix Server (".to_owned().concat(quoted.as_str()).concat(")");
                assert(text@ =~= description_of(self@));
                text
            },
        }
    }
}

} // verus!
