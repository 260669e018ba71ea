//! Taking in the state that a peer hands over with a join: every event is
//! checked, the good ones become outliers, and the state events among them
//! make up the state of the room before the join.

use crate::assoc::{AssocMap, Key};
use crate::error::{Error, ErrorKind};
use crate::json::JsonObject;
use crate::membership::validate::{
    bad_events_after, validate_and_add_event_id, validation_of, BadEvent, BadEventRatelimiter,
    Validation,
};
use crate::pdu::{pdu_of, PduEvent};
use crate::room_version::RoomVersion;
use crate::signing::{key_views, PublicKey};
use crate::state::resolve::{id_views, StateMap};
use crate::state::short::StateKey;
use vstd::prelude::*;

verus! {

/// An event that is stored without a place in the timeline.
#[derive(Debug)]
pub struct Outlier {
    pub event_id: String,
    pub event: JsonObject,
}

impl View for Outlier {
    type V = (Seq<char>, Map<Seq<char>, Seq<char>>);

    open spec fn view(&self) -> (Seq<char>, Map<Seq<char>, Seq<char>>) {
        (self.event_id@, self.event@)
    }
}

/// The views of a list of outliers.
pub open spec fn outlier_views(outliers: Seq<Outlier>) -> Seq<
    (Seq<char>, Map<Seq<char>, Seq<char>>),
> {
    outliers.map_values(|o: Outlier| o@)
}

/// What has been taken in so far.
pub struct Imported {
    /// The good events, in the order received.
    pub outliers: Seq<(Seq<char>, Map<Seq<char>, Seq<char>>)>,
    /// The state: for each `(type, state key)` the id of the last good
    /// state event received for it.
    pub state: Map<(Seq<char>, Seq<char>), Seq<char>>,
    /// The ratelimiter of bad events.
    pub bad_events: Map<Seq<char>, BadEvent>,
    /// Whether an event verified and still was no event of a room.
    pub invalid: bool,
}

/// What has been taken in after one more event.
///
/// An event that does not pass the check is passed over. A good event
/// becomes an outlier; with `with_state` it must also read as an event of a
/// room, and where it has a state key it becomes the entry of that key.
pub open spec fn import_step(
    acc: Imported,
    pdu: Seq<char>,
    version: RoomVersion,
    keys: Seq<(Seq<char>, Seq<char>, Seq<char>)>,
    now: u64,
    with_state: bool,
) -> Imported {
    if acc.invalid {
        acc
    } else {
        let bad_events = bad_events_after(pdu, version, keys, acc.bad_events, now);
        match validation_of(pdu, version, keys, acc.bad_events, now) {
            Validation::Valid(id, members) => if with_state {
                match pdu_of(id, members) {
                    None => Imported { bad_events, invalid: true, ..acc },
                    Some(event) => Imported {
                        outliers: acc.outliers.push((id, members)),
                        state: match event.state_key {
                            Some(state_key) => acc.state.insert((event.kind, state_key), id),
                            None => acc.state,
                        },
                        bad_events,
                        invalid: false,
                    },
                }
            } else {
                Imported { outliers: acc.outliers.push((id, members)), bad_events, ..acc }
            },
            _ => Imported { bad_events, ..acc },
        }
    }
}

/// What has been taken in after the events, in order.
pub open spec fn import_all(
    acc: Imported,
    pdus: Seq<Seq<char>>,
    version: RoomVersion,
    keys: Seq<(Seq<char>, Seq<char>, Seq<char>)>,
    now: u64,
    with_state: bool,
) -> Imported
    decreases pdus.len(),
{
    if pdus.len() == 0 {
        acc
    } else {
        import_step(
            import_all(acc, pdus.drop_last(), version, keys, now, with_state),
            pdus.last(),
            version,
            keys,
            now,
            with_state,
        )
    }
}

proof fn lemma_import_stop(
    acc: Imported,
    pdus: Seq<Seq<char>>,
    n: int,
    version: RoomVersion,
    keys: Seq<(Seq<char>, Seq<char>, Seq<char>)>,
    now: u64,
    with_state: bool,
)
    requires
        0 <= n <= pdus.len(),
        import_all(acc, pdus.subrange(0, n), version, keys, now, with_state).invalid,
    ensures
        import_all(acc, pdus, version, keys, now, with_state) == import_all(
            acc,
            pdus.subrange(0, n),
            version,
            keys,
            now,
            with_state,
        ),
    decreases pdus.len(),
{
    if n == pdus.len() {
        assert(pdus.subrange(0, n) =~= pdus);
    } else {
        assert(pdus.drop_last().subrange(0, n) =~= pdus.subrange(0, n));
        lemma_import_stop(acc, pdus.drop_last(), n, version, keys, now, with_state);
    }
}

/// Checks the events of `pdus` one by one and takes the good ones in:
/// each becomes an outlier, and with `with_state` each state event becomes
/// the entry of its `(type, state key)`.
///
/// Fails where an event passes the check and still does not read as an
/// event of a room.
pub fn import_events(
    pdus: &Vec<String>,
    version: RoomVersion,
    keys: &Vec<PublicKey>,
    bad_events: &mut BadEventRatelimiter,
    now: u64,
    with_state: bool,
    outliers: &mut Vec<Outlier>,
    state: &mut StateMap,
) -> (r: Result<(), Error>)
    requires
        old(bad_events).wf(),
        old(state).wf(),
    ensures
        final(bad_events).wf(),
        final(state).wf(),
        ({
            let start = Imported {
                outliers: outlier_views(old(outliers)@),
                state: id_views(old(state).map()),
                bad_events: old(bad_events)@,
                invalid: false,
            };
            let end = import_all(
                start,
                crate::text::views(pdus@),
                version,
                key_views(keys@),
                now,
                with_state,
            );
            &&& r is Err <==> end.invalid
            &&& r matches Err(e) ==> e.is(
                ErrorKind::BadServerResponse,
                "Invalid PDU in send_join response"@,
            )
            &&& final(bad_events)@ == end.bad_events
            &&& outlier_views(final(outliers)@) == end.outliers
            &&& id_views(final(state).map()) == end.state
        }),
        forall|j: int|
            old(outliers)@.len() <= j < final(outliers)@.len() ==> (#[trigger] final(outliers)@[j]).event.wf(),
{
    let ghost start = Imported {
        outliers: outlier_views(outliers@),
        state: id_views(state.map()),
        bad_events: bad_events@,
        invalid: false,
    };
    let ghost texts = crate::text::views(pdus@);
    let ghost k = key_views(keys@);
    let ghost initial = outliers@.len();
    let mut i: usize = 0;
    assert(texts.subrange(0, 0) =~= Seq::<Seq<char>>::empty());
    while i < pdus.len()
        invariant
            i <= pdus.len(),
            texts == crate::text::views(pdus@),
            k == key_views(keys@),
            bad_events.wf(),
            state.wf(),
            initial == old(outliers)@.len(),
            outliers@.len() >= initial,
            start == (Imported {
                outliers: outlier_views(old(outliers)@),
                state: id_views(old(state).map()),
                bad_events: old(bad_events)@,
                invalid: false,
            }),
            import_all(start, texts.subrange(0, i as int), version, k, now, with_state) == (
            Imported {
                outliers: outlier_views(outliers@),
                state: id_views(state.map()),
                bad_events: bad_events@,
                invalid: false,
            }),
            forall|j: int| initial <= j < outliers@.len() ==> (#[trigger] outliers@[j]).event.wf(),
        decreases pdus.len() - i,
    {
        proof {
            assert(texts.subrange(0, i + 1).drop_last() =~= texts.subrange(0, i as int));
            assert(texts.subrange(0, i + 1).last() == pdus@[i as int]@);
        }
        let checked = validate_and_add_event_id(pdus[i].as_str(), version, keys, bad_events, now);
        i = i + 1;
        match checked {
            Ok((event_id, value)) => {
                if with_state {
                    match PduEvent::from_id_val(event_id.as_str(), &value) {
                        None => {
                            proof {
                                lemma_import_stop(
                                    start,
                                    texts,
                                    i as int,
                                    version,
                                    k,
                                    now,
                                    with_state,
                                );
                            }
                            return Err(
                                Error::new(
                                    ErrorKind::BadServerResponse,
                                    "Invalid PDU in send_join response",
                                ),
                            );
                        },
                        Some(pdu) => {
                            match pdu.state_key {
                                Some(state_key) => {
                                    proof {
                                        crate::json::lemma_view_insert(
                                            state.map(),
                                            (pdu.kind@, state_key@),
                                            event_id,
                                        );
                                    }
                                    state.insert(
                                        StateKey { event_type: pdu.kind, state_key },
                                        event_id.clone(),
                                    );
                                },
                                None => {},
                            }
                        },
                    }
                }
                let ghost before = outlier_views(outliers@);
                let ghost entry = (event_id@, value@);
                outliers.push(Outlier { event_id, event: value });
                assert(outlier_views(outliers@) =~= before.push(entry));
            },
            Err(_) => {},
        }
    }
    assert(texts.subrange(0, pdus.len() as int) =~= texts);
    Ok(())
}

} // verus!
