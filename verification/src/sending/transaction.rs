//! Composing a transaction: its id, and which of its events are what.

use crate::assoc::{byte_views, clone_bytes};
use crate::json::{has_member, json_has_member};
use crate::sending::{payloads, Payload, SendingEventType};
use base64::engine::general_purpose::URL_SAFE_NO_PAD;
use base64::Engine;
use sha2::{Digest, Sha256};
use vstd::prelude::*;

verus! {

/// The SHA-256 digest of a byte string.
pub uninterp spec fn sha256_of(bytes: Seq<u8>) -> Seq<u8>;

/// The URL-safe base64 text of a byte string, without padding.
pub uninterp spec fn base64_url_of(bytes: Seq<u8>) -> Seq<char>;

/// Calls `sha2::Sha256::digest`. The result is named; it has 32 bytes.
#[verifier::external_body]
fn sha256(bytes: &Vec<u8>) -> (r: Vec<u8>)
    ensures
        r@ == sha256_of(bytes@),
        r@.len() == 32,
{
    Sha256::digest(bytes).to_vec()
}

/// Calls `encode` of `base64::engine::general_purpose::URL_SAFE_NO_PAD`.
/// The result is named.
#[verifier::external_body]
fn base64_url(bytes: &Vec<u8>) -> (r: String)
    ensures
        r@ == base64_url_of(bytes@),
{
    URL_SAFE_NO_PAD.encode(bytes)
}

/// The parts joined, with the byte 0xFF between neighbours.
pub open spec fn joined(parts: Seq<Seq<u8>>) -> Seq<u8>
    decreases parts.len(),
{
    if parts.len() == 0 {
        Seq::empty()
    } else if parts.len() == 1 {
        parts[0]
    } else {
        joined(parts.drop_last()) + seq![0xFFu8] + parts.last()
    }
}

/// The hash of a list of byte strings: the SHA-256 of the strings joined
/// with 0xFF between them.
pub open spec fn hash_of(parts: Seq<Seq<u8>>) -> Seq<u8> {
    sha256_of(joined(parts))
}

/// Hashes a list of byte strings.
pub fn calculate_hash(keys: &Vec<Vec<u8>>) -> (hash: Vec<u8>)
    ensures
        hash@ == hash_of(byte_views(keys@)),
        hash@.len() == 32,
{
    let ghost parts = byte_views(keys@);
    let mut bytes: Vec<u8> = Vec::new();
    let mut i: usize = 0;
    assert(parts.subrange(0, 0) =~= Seq::<Seq<u8>>::empty());
    while i < keys.len()
        invariant
            i <= keys.len(),
            parts == byte_views(keys@),
            bytes@ == joined(parts.subrange(0, i as int)),
        decreases keys.len() - i,
    {
        proof {
            assert(parts.subrange(0, i + 1).drop_last() =~= parts.subrange(0, i as int));
            assert(parts.subrange(0, i + 1).last() == keys@[i as int]@);
            assert(parts.subrange(0, 1)[0] == parts[0]);
        }
        if i > 0 {
            bytes.push(0xFF);
        }
        let ghost before = bytes@;
        let key = &keys[i];
        let mut j: usize = 0;
        while j < key.len()
            invariant
                j <= key.len(),
                bytes@ == before + key@.subrange(0, j as int),
            decreases key.len() - j,
        {
            bytes.push(key[j]);
            j = j + 1;
            assert(bytes@ =~= before + key@.subrange(0, j as int));
        }
        assert(key@.subrange(0, key.len() as int) =~= key@);
        i = i + 1;
        assert(bytes@ =~= joined(parts.subrange(0, i as int)));
    }
    assert(parts.subrange(0, keys.len() as int) =~= parts);
    sha256(&bytes)
}

/// The bytes of a queue entry that go into the transaction id: the event
/// id or the JSON; nothing for a nudge.
pub open spec fn payload_bytes(p: Payload) -> Seq<u8> {
    match p {
        Payload::Pdu(b) => b,
        Payload::Edu(b) => b,
        Payload::Flush => Seq::empty(),
    }
}

/// The id of the transaction that carries `events`: the URL-safe base64 of
/// the hash of their bytes.
pub open spec fn transaction_id_of(events: Seq<Payload>) -> Seq<char> {
    base64_url_of(hash_of(events.map_values(|p: Payload| payload_bytes(p))))
}

/// The id of the transaction that carries `events`. It depends on what the
/// events hold and on nothing else, so that a transaction sent again has
/// the id it had before.
pub fn transaction_id(events: &Vec<SendingEventType>) -> (id: String)
    ensures
        id@ == transaction_id_of(payloads(events@)),
{
    let mut parts: Vec<Vec<u8>> = Vec::new();
    let mut i: usize = 0;
    while i < events.len()
        invariant
            i <= events.len(),
            parts@.len() == i,
            forall|j: int| 0 <= j < i ==> (#[trigger] parts@[j])@ == payload_bytes(events@[j]@),
        decreases events.len() - i,
    {
        let part = match &events[i] {
            SendingEventType::Pdu(b) => clone_bytes(b),
            SendingEventType::Edu(b) => clone_bytes(b),
            SendingEventType::Flush => Vec::new(),
        };
        parts.push(part);
        i = i + 1;
    }
    assert(byte_views(parts@) =~= payloads(events@).map_values(
        |p: Payload| payload_bytes(p),
    ));
    let hash = calculate_hash(&parts);
    base64_url(&hash)
}

/// Two transactions with the same events have the same id: sending a
/// transaction again does not change its id.
pub proof fn lemma_transaction_id_stable(a: Seq<SendingEventType>, b: Seq<SendingEventType>)
    requires
        payloads(a) == payloads(b),
    ensures
        transaction_id_of(payloads(a)) == transaction_id_of(payloads(b)),
{
}

/// The ids of the persistent events among `events`, in order.
pub open spec fn pdu_ids_of(events: Seq<Payload>) -> Seq<Seq<u8>>
    decreases events.len(),
{
    if events.len() == 0 {
        Seq::empty()
    } else {
        match events.last() {
            Payload::Pdu(id) => pdu_ids_of(events.drop_last()).push(id),
            _ => pdu_ids_of(events.drop_last()),
        }
    }
}

/// The ephemeral events among `events`, in order.
pub open spec fn edus_of(events: Seq<Payload>) -> Seq<Seq<u8>>
    decreases events.len(),
{
    if events.len() == 0 {
        Seq::empty()
    } else {
        match events.last() {
            Payload::Edu(json) => edus_of(events.drop_last()).push(json),
            _ => edus_of(events.drop_last()),
        }
    }
}

/// What a transaction to a server carries.
#[derive(Debug)]
pub struct TransactionParts {
    /// The ids of the persistent events to load and send.
    pub pdu_ids: Vec<Vec<u8>>,
    /// The ephemeral events, as JSON.
    pub edus: Vec<Vec<u8>>,
    /// The id of the transaction.
    pub transaction_id: String,
}

/// Sorts the events of a transaction to a server: persistent events by id,
/// ephemeral events as they are, nudges dropped; and gives the transaction
/// its id.
pub fn handle_events_kind_normal(events: &Vec<SendingEventType>) -> (r: TransactionParts)
    ensures
        byte_views(r.pdu_ids@) == pdu_ids_of(payloads(events@)),
        byte_views(r.edus@) == edus_of(payloads(events@)),
        r.transaction_id@ == transaction_id_of(payloads(events@)),
{
    let mut pdu_ids: Vec<Vec<u8>> = Vec::new();
    let mut edus: Vec<Vec<u8>> = Vec::new();
    let ghost all = payloads(events@);
    let mut i: usize = 0;
    assert(all.subrange(0, 0) =~= Seq::<Payload>::empty());
    assert(byte_views(pdu_ids@) =~= Seq::empty());
    assert(byte_views(edus@) =~= Seq::empty());
    while i < events.len()
        invariant
            i <= events.len(),
            all == payloads(events@),
            byte_views(pdu_ids@) == pdu_ids_of(all.subrange(0, i as int)),
            byte_views(edus@) == edus_of(all.subrange(0, i as int)),
        decreases events.len() - i,
    {
        proof {
            assert(all.subrange(0, i + 1).drop_last() =~= all.subrange(0, i as int));
            assert(all.subrange(0, i + 1).last() == events@[i as int]@);
        }
        match &events[i] {
            SendingEventType::Pdu(id) => {
                let ghost before = byte_views(pdu_ids@);
                pdu_ids.push(clone_bytes(id));
                assert(byte_views(pdu_ids@) =~= before.push(id@));
            },
            SendingEventType::Edu(json) => {
                let ghost before = byte_views(edus@);
                edus.push(clone_bytes(json));
                assert(byte_views(edus@) =~= before.push(json@));
            },
            SendingEventType::Flush => {},
        }
        i = i + 1;
    }
    assert(all.subrange(0, events.len() as int) =~= all);
    TransactionParts { pdu_ids, edus, transaction_id: transaction_id(events) }
}

/// Sorts the events of a transaction to an appservice: only persistent
/// events are sent; ephemeral events and nudges are dropped. The id of the
/// transaction still covers all of them.
pub fn handle_events_kind_appservice(events: &Vec<SendingEventType>) -> (r: TransactionParts)
    ensures
        byte_views(r.pdu_ids@) == pdu_ids_of(payloads(events@)),
        r.edus@.len() == 0,
        r.transaction_id@ == transaction_id_of(payloads(events@)),
{
    let parts = handle_events_kind_normal(events);
    TransactionParts {
        pdu_ids: parts.pdu_ids,
        edus: Vec::new(),
        transaction_id: parts.transaction_id,
    }
}

/// Whether an event with the given `unsigned` member has been redacted: the
/// member is JSON with a member `redacted_because`.
pub open spec fn redacted(unsigned: Option<Seq<char>>) -> bool {
    match unsigned {
        Some(text) => json_has_member(text, "redacted_because"@) == Some(true),
        None => false,
    }
}

/// Whether an event has been redacted. No push notice is sent for such an
/// event.
pub fn is_redacted(unsigned: &Option<String>) -> (r: bool)
    ensures
        r == redacted(crate::text::opt_view(*unsigned)),
{
    match unsigned {
        Some(text) => has_member(text.as_str(), "redacted_because"),
        None => false,
    }
}

/// An event on its way to a push gateway.
#[derive(Debug)]
pub struct PushCandidate {
    pub pdu_id: Vec<u8>,
    /// The `unsigned` member of the event, as JSON text.
    pub unsigned: Option<String>,
}

/// The events that a push gateway is told about: those that have not been
/// redacted, where the user has a pusher for the key.
pub open spec fn push_targets(candidates: Seq<PushCandidate>, has_pusher: bool) -> Seq<Seq<u8>>
    decreases candidates.len(),
{
    if candidates.len() == 0 {
        Seq::empty()
    } else {
        let c = candidates.last();
        if has_pusher && !redacted(crate::text::opt_view(c.unsigned)) {
            push_targets(candidates.drop_last(), has_pusher).push(c.pdu_id@)
        } else {
            push_targets(candidates.drop_last(), has_pusher)
        }
    }
}

/// Chooses the events of a transaction to a push gateway for which a
/// notice is sent.
pub fn handle_events_kind_push(candidates: &Vec<PushCandidate>, has_pusher: bool) -> (r: Vec<
    Vec<u8>,
>)
    ensures
        byte_views(r@) == push_targets(candidates@, has_pusher),
{
    let mut targets: Vec<Vec<u8>> = Vec::new();
    let mut i: usize = 0;
    assert(candidates@.subrange(0, 0) =~= Seq::<PushCandidate>::empty());
    assert(byte_views(targets@) =~= Seq::empty());
    while i < candidates.len()
        invariant
            i <= candidates.len(),
            byte_views(targets@) == push_targets(
                candidates@.subrange(0, i as int),
                has_pusher,
            ),
        decreases candidates.len() - i,
    {
        proof {
            assert(candidates@.subrange(0, i + 1).drop_last() =~= candidates@.subrange(
                0,
                i as int,
            ));
            assert(candidates@.subrange(0, i + 1).last() == candidates@[i as int]);
        }
        let c = &candidates[i];
        if has_pusher && !is_redacted(&c.unsigned) {
            let ghost before = byte_views(targets@);
            targets.push(clone_bytes(&c.pdu_id));
            assert(byte_views(targets@) =~= before.push(c.pdu_id@));
        }
        i = i + 1;
    }
    assert(candidates@.subrange(0, candidates.len() as int) =~= candidates@);
    targets
}

} // verus!
