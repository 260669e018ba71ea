//! Checking the events that a peer hands over, and backing off from events
//! that failed the check before.
//!
//! An event whose signatures did not verify is not looked at again for a
//! while: five minutes after the first failure, twice as long after each
//! further one, a day at most. An event that verifies is forgotten by the
//! ratelimiter.

use crate::assoc::{AssocMap, Key};
use crate::error::{Error, ErrorKind};
use crate::json::{json_object_of, json_string_of, JsonObject};
use crate::room_version::RoomVersion;
use crate::signing::{
    event_verifies, key_views, received_event_id, received_event_id_of, verify_event,
    version_text, PublicKey,
};
use vstd::arithmetic::power2::{lemma2_to64, lemma_pow2_strictly_increases, pow2};
use vstd::prelude::*;

verus! {

/// The shortest backoff: five minutes, in seconds.
pub const BACKOFF_MIN_SECS: u64 = 300;

/// The longest backoff: one day, in seconds.
pub const BACKOFF_MAX_SECS: u64 = 86400;

/// The seconds during which an event that has failed `attempts` times is
/// turned away: five minutes doubled with every failure after the first, a
/// day at most.
pub open spec fn backoff_window(attempts: nat) -> nat
    recommends
        attempts >= 1,
{
    if 300 * pow2((attempts - 1) as nat) < 86400 {
        300 * pow2((attempts - 1) as nat)
    } else {
        86400
    }
}

/// The window lies between five minutes and a day, and grows with the
/// failures until it is a day.
pub proof fn lemma_backoff_window(a: nat, b: nat)
    requires
        1 <= a <= b,
    ensures
        300 <= backoff_window(a) <= backoff_window(b) <= 86400,
        backoff_window(1) == 300,
        b >= 10 ==> backoff_window(b) == 86400,
{
    lemma2_to64();
    let x = (a - 1) as nat;
    let y = (b - 1) as nat;
    if x < y {
        lemma_pow2_strictly_increases(x, y);
    }
    if 0 < x {
        lemma_pow2_strictly_increases(0, x);
    }
    if 0 < y {
        lemma_pow2_strictly_increases(0, y);
    }
    if 9 < y {
        lemma_pow2_strictly_increases(9, y);
    }
    assert(300 * pow2(x) <= 300 * pow2(y)) by (nonlinear_arith)
        requires
            pow2(x) <= pow2(y),
    ;
    assert(300 * pow2(x) >= 300) by (nonlinear_arith)
        requires
            pow2(x) >= 1,
    ;
    if b >= 10 {
        assert(300 * pow2(y) >= 86400) by (nonlinear_arith)
            requires
                pow2(y) >= 512,
        ;
    }
}

/// The seconds during which an event that has failed `attempts` times is
/// turned away.
pub fn backoff_window_secs(attempts: u32) -> (secs: u64)
    requires
        attempts >= 1,
    ensures
        secs == backoff_window(attempts as nat),
        300 <= secs <= 86400,
{
    proof {
        lemma2_to64();
        lemma_backoff_window(attempts as nat, attempts as nat);
    }
    if attempts >= 10 {
        BACKOFF_MAX_SECS
    } else if attempts == 1 {
        300
    } else if attempts == 2 {
        600
    } else if attempts == 3 {
        1200
    } else if attempts == 4 {
        2400
    } else if attempts == 5 {
        4800
    } else if attempts == 6 {
        9600
    } else if attempts == 7 {
        19200
    } else if attempts == 8 {
        38400
    } else {
        76800
    }
}

/// When an event failed last, in milliseconds, and how often it has failed.
#[derive(Clone, Copy, Debug, PartialEq, Eq, Structural)]
pub struct BadEvent {
    pub last_attempt: u64,
    pub attempts: u32,
}

/// Whether an event is still turned away at the time `now`: less than the
/// window has passed since its last failure.
pub open spec fn still_backing_off(entry: BadEvent, now: u64) -> bool {
    let elapsed = if now >= entry.last_attempt {
        now - entry.last_attempt
    } else {
        0
    };
    elapsed < 1000 * backoff_window(entry.attempts as nat)
}

/// An event is turned away during the five minutes after a failure, and
/// never a day or more after it.
pub proof fn lemma_backoff_bounds(entry: BadEvent, now: u64)
    requires
        entry.attempts >= 1,
        now >= entry.last_attempt,
    ensures
        now - entry.last_attempt < 300_000 ==> still_backing_off(entry, now),
        now - entry.last_attempt >= 86_400_000 ==> !still_backing_off(entry, now),
{
    lemma_backoff_window(entry.attempts as nat, entry.attempts as nat);
}

/// The entry of an event after one more failure at the time `now`.
pub open spec fn after_bad_event(entry: Option<BadEvent>, now: u64) -> BadEvent {
    match entry {
        None => BadEvent { last_attempt: now, attempts: 1 },
        Some(e) => BadEvent {
            last_attempt: now,
            attempts: if e.attempts < u32::MAX {
                (e.attempts + 1) as u32
            } else {
                u32::MAX
            },
        },
    }
}

/// The events that failed verification, by event id.
#[derive(Debug)]
pub struct BadEventRatelimiter {
    pub entries: AssocMap<String, BadEvent>,
}

impl View for BadEventRatelimiter {
    type V = Map<Seq<char>, BadEvent>;

    open spec fn view(&self) -> Map<Seq<char>, BadEvent> {
        self.entries.map()
    }
}

impl BadEventRatelimiter {
    /// Every event in here has failed at least once.
    pub open spec fn wf(&self) -> bool {
        &&& self.entries.wf()
        &&& forall|id: Seq<char>| #[trigger] self@.contains_key(id) ==> self@[id].attempts >= 1
    }

    pub fn new() -> (r: BadEventRatelimiter)
        ensures
            r.wf(),
            r@ == Map::<Seq<char>, BadEvent>::empty(),
    {
        BadEventRatelimiter { entries: AssocMap::new() }
    }

    /// Whether the event is turned away at the time `now`.
    pub fn backing_off(&self, event_id: &String, now: u64) -> (r: bool)
        requires
            self.wf(),
        ensures
            r == (self@.contains_key(event_id@) && still_backing_off(self@[event_id@], now)),
    {
        match self.entries.get(event_id) {
            Some(entry) => {
                let elapsed: u64 = if now >= entry.last_attempt {
                    now - entry.last_attempt
                } else {
                    0
                };
                assert(self@.contains_key(event_id@));
                let window = backoff_window_secs(entry.attempts);
                elapsed < 1000 * window
            },
            None => false,
        }
    }

    /// Takes note that the event failed at the time `now`.
    pub fn record_failure(&mut self, event_id: &String, now: u64)
        requires
            old(self).wf(),
        ensures
            final(self).wf(),
            final(self)@ == old(self)@.insert(
                event_id@,
                after_bad_event(
                    if old(self)@.contains_key(event_id@) {
                        Some(old(self)@[event_id@])
                    } else {
                        None
                    },
                    now,
                ),
            ),
    {
        let attempts: u32 = match self.entries.get(event_id) {
            Some(entry) => if entry.attempts < u32::MAX {
                entry.attempts + 1
            } else {
                u32::MAX
            },
            None => 1,
        };
        let ghost before = self@;
        self.entries.insert(event_id.clone(), BadEvent { last_attempt: now, attempts });
        proof {
            assert forall|id: Seq<char>| #[trigger] self@.contains_key(id) implies self@[id].attempts
                >= 1 by {
                if id != event_id@ {
                    assert(before.contains_key(id));
                }
            }
        }
    }

    /// Forgets the event: it has verified.
    pub fn clear(&mut self, event_id: &String)
        requires
            old(self).wf(),
        ensures
            final(self).wf(),
            final(self)@ == old(self)@.remove(event_id@),
    {
        let ghost before = self@;
        let _ = self.entries.remove(event_id);
        proof {
            assert forall|id: Seq<char>| #[trigger] self@.contains_key(id) implies self@[id].attempts
                >= 1 by {
                assert(before.contains_key(id));
            }
        }
    }
}

/// What checking an event comes to.
pub enum Validation {
    /// The text is no event, or it has no id.
    Invalid,
    /// The event failed before and is still turned away.
    BackingOff,
    /// The signatures do not verify.
    Unverified,
    /// The event is good: its id, and its members with the id among them.
    Valid(Seq<char>, Map<Seq<char>, Seq<char>>),
}

/// What checking the event with the text `pdu` comes to.
pub open spec fn validation_of(
    pdu: Seq<char>,
    version: RoomVersion,
    keys: Seq<(Seq<char>, Seq<char>, Seq<char>)>,
    bad_events: Map<Seq<char>, BadEvent>,
    now: u64,
) -> Validation {
    match json_object_of(pdu) {
        None => Validation::Invalid,
        Some(members) => match received_event_id_of(members, version) {
            None => Validation::Invalid,
            Some(id) => if bad_events.contains_key(id) && still_backing_off(bad_events[id], now) {
                Validation::BackingOff
            } else if !event_verifies(keys, members, version_text(version)) {
                Validation::Unverified
            } else {
                Validation::Valid(id, members.insert("event_id"@, json_string_of(id)))
            },
        },
    }
}

/// The ratelimiter after checking the event: a failed verification is
/// noted, a good event is forgotten, and nothing changes otherwise.
pub open spec fn bad_events_after(
    pdu: Seq<char>,
    version: RoomVersion,
    keys: Seq<(Seq<char>, Seq<char>, Seq<char>)>,
    bad_events: Map<Seq<char>, BadEvent>,
    now: u64,
) -> Map<Seq<char>, BadEvent> {
    match validation_of(pdu, version, keys, bad_events, now) {
        Validation::Unverified => {
            let id = received_event_id_of(json_object_of(pdu)->0, version)->0;
            bad_events.insert(
                id,
                after_bad_event(
                    if bad_events.contains_key(id) {
                        Some(bad_events[id])
                    } else {
                        None
                    },
                    now,
                ),
            )
        },
        Validation::Valid(id, _) => bad_events.remove(id),
        _ => bad_events,
    }
}

/// The text of the error for an event that is not accepted.
pub open spec fn validation_error(v: Validation) -> Seq<char> {
    match v {
        Validation::Invalid => "Invalid PDU in server response"@,
        Validation::BackingOff => "bad event, still backing off"@,
        _ => "Event failed verification"@,
    }
}

/// Checks an event received from a peer: reads it, finds its id (carried
/// in the event in room versions 1 and 2, derived from its reference hash
/// from version 3 on), turns it away while it is backing off, verifies its
/// signatures under `keys`, and adds the id to it as the member `event_id`.
///
/// `now` is the time in milliseconds.
pub fn validate_and_add_event_id(
    pdu: &str,
    room_version: RoomVersion,
    keys: &Vec<PublicKey>,
    bad_events: &mut BadEventRatelimiter,
    now: u64,
) -> (r: Result<(String, JsonObject), Error>)
    requires
        old(bad_events).wf(),
    ensures
        final(bad_events).wf(),
        final(bad_events)@ == bad_events_after(
            pdu@,
            room_version,
            key_views(keys@),
            old(bad_events)@,
            now,
        ),
        ({
            let v = validation_of(pdu@, room_version, key_views(keys@), old(bad_events)@, now);
            match r {
                Ok(p) => p.1.wf() && v == Validation::Valid(p.0@, p.1@),
                Err(e) => !(v is Valid) && e.is(ErrorKind::BadServerResponse, validation_error(v)),
            }
        }),
{
    let mut value = match JsonObject::parse(pdu) {
        Some(object) => object,
        None => {
            return Err(Error::new(ErrorKind::BadServerResponse, "Invalid PDU in server response"));
        },
    };
    let id = match received_event_id(&value, room_version) {
        Some(id) => id,
        None => {
            return Err(Error::new(ErrorKind::BadServerResponse, "Invalid PDU in server response"));
        },
    };
    if bad_events.backing_off(&id, now) {
        return Err(Error::new(ErrorKind::BadServerResponse, "bad event, still backing off"));
    }
    if !verify_event(keys, &value, room_version) {
        bad_events.record_failure(&id, now);
        return Err(Error::new(ErrorKind::BadServerResponse, "Event failed verification"));
    }
    bad_events.clear(&id);
    value.insert_string("event_id", id.as_str());
    Ok((id, value))
}

} // verus!
