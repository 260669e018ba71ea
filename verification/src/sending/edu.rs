//! Choosing the ephemeral events that ride along with a transaction to a
//! server: read receipts, device-list changes and one presence bundle.
//!
//! At most sixteen ephemeral events go into one transaction. They are taken
//! in this order: read receipts, room by room; device-list changes of local
//! users, each user once; the presence bundle. What does not fit is left
//! out. Presence is only looked at while there is room for the bundle, so
//! that no presence update is counted as sent without being sent.

use crate::assoc::{byte_views, clone_bytes};
use crate::error::{Error, ErrorKind};
use crate::text::{opt_view, server_name_of, server_part};
use ruma::api::federation::transactions::edu::{
    DeviceListUpdateContent, Edu, PresenceContent, PresenceUpdate as WirePresenceUpdate,
    ReceiptContent, ReceiptData, ReceiptMap,
};
use ruma::events::receipt::Receipt;
use ruma::{OwnedEventId, OwnedRoomId, OwnedUserId, UInt};
use std::collections::BTreeMap;
use vstd::prelude::*;

verus! {

/// How many ephemeral events one transaction carries at most, and how many
/// updates one presence bundle.
pub const SELECT_EDU_LIMIT: usize = 16;

/// What a stored read receipt turned out to be.
#[derive(Debug)]
pub enum ReceiptEvent {
    /// It could not be read as an event.
    Invalid,
    /// It is an ephemeral event of another kind.
    Other,
    /// A read receipt for `event_id`; `receipt` is the JSON text of its
    /// data (timestamp and thread).
    Read { event_id: String, receipt: String },
}

/// A read receipt of a room, as stored.
#[derive(Debug)]
pub struct ReceiptRow {
    pub user_id: String,
    /// The position of the receipt in the stream of ephemeral events.
    pub count: u64,
    pub event: ReceiptEvent,
}

/// What a room holds for a server since the last transaction.
#[derive(Debug)]
pub struct RoomEdus {
    pub room_id: String,
    /// The users whose device lists changed.
    pub keys_changed: Vec<String>,
    pub receipts: Vec<ReceiptRow>,
}

/// The presence of a user, as stored. A field that is not recorded is
/// `None`.
#[derive(Debug)]
pub struct PresenceItem {
    pub presence: String,
    pub currently_active: Option<bool>,
    pub last_active_ago: Option<u64>,
    pub status_msg: Option<String>,
}

/// A presence change since the last transaction.
#[derive(Debug)]
pub struct PresenceRow {
    pub user_id: String,
    /// The position of the change in the stream of ephemeral events.
    pub count: u64,
    /// Whether the destination shares a room with the user; `None` where
    /// that could not be found out.
    pub visible: Option<bool>,
    /// The stored presence; `None` where it could not be read.
    pub presence: Option<PresenceItem>,
}

/// One entry of a presence bundle.
#[derive(Debug)]
pub struct PresenceUpdate {
    pub user_id: String,
    pub presence: String,
    pub currently_active: bool,
    pub last_active_ago: u64,
    pub status_msg: Option<String>,
}

impl View for PresenceUpdate {
    type V = (Seq<char>, Seq<char>, bool, u64, Option<Seq<char>>);

    open spec fn view(&self) -> (Seq<char>, Seq<char>, bool, u64, Option<Seq<char>>) {
        (
            self.user_id@,
            self.presence@,
            self.currently_active,
            self.last_active_ago,
            opt_view(self.status_msg),
        )
    }
}

/// The views of a list of presence updates.
pub open spec fn update_views(updates: Seq<PresenceUpdate>) -> Seq<
    (Seq<char>, Seq<char>, bool, u64, Option<Seq<char>>),
> {
    updates.map_values(|u: PresenceUpdate| u@)
}

/// The JSON of the device-list update of a user for federation; `None`
/// where the user id is malformed.
pub uninterp spec fn device_list_update_edu(
    user_id: Seq<char>,
    device_id: Seq<char>,
    display_name: Seq<char>,
    stream_id: u32,
) -> Option<Seq<u8>>;

/// The JSON of the read receipt of a user in a room for federation; `None`
/// where an id or the receipt data is malformed.
pub uninterp spec fn receipt_edu(
    room_id: Seq<char>,
    user_id: Seq<char>,
    event_id: Seq<char>,
    receipt: Seq<char>,
) -> Option<Seq<u8>>;

/// The JSON of a presence bundle for federation; `None` where a user id or
/// a number is out of range.
pub uninterp spec fn presence_edu(
    updates: Seq<(Seq<char>, Seq<char>, bool, u64, Option<Seq<char>>)>,
) -> Option<Seq<u8>>;

/// Builds a `ruma` `Edu::DeviceListUpdate` with
/// `DeviceListUpdateContent::new` and serialises it with
/// `serde_json::to_vec`. The result is named.
#[verifier::external_body]
fn device_list_update_json(
    user_id: &str,
    device_id: &str,
    display_name: &str,
    stream_id: u32,
) -> (r: Option<Vec<u8>>)
    ensures
        r is Some <==> device_list_update_edu(user_id@, device_id@, display_name@, stream_id)
            is Some,
        r matches Some(b) ==> Some(b@) == device_list_update_edu(
            user_id@,
            device_id@,
            display_name@,
            stream_id,
        ),
{
    let user = OwnedUserId::try_from(user_id).ok()?;
    let mut content = DeviceListUpdateContent::new(user, device_id.into(), stream_id.into());
    content.device_display_name = Some(display_name.to_owned());
    serde_json::to_vec(&Edu::DeviceListUpdate(content)).ok()
}

/// Builds a `ruma` `Edu::Receipt` with `ReceiptContent::new`,
/// `ReceiptMap::new` and `ReceiptData::new`, the receipt data read with
/// `serde_json::from_str`, and serialises it with `serde_json::to_vec`.
/// The result is named.
#[verifier::external_body]
fn receipt_json(room_id: &str, user_id: &str, event_id: &str, receipt: &str) -> (r: Option<
    Vec<u8>,
>)
    ensures
        r is Some <==> receipt_edu(room_id@, user_id@, event_id@, receipt@) is Some,
        r matches Some(b) ==> Some(b@) == receipt_edu(room_id@, user_id@, event_id@, receipt@),
{
    let data: Receipt = serde_json::from_str(receipt).ok()?;
    let event = OwnedEventId::try_from(event_id).ok()?;
    let user = OwnedUserId::try_from(user_id).ok()?;
    let room = OwnedRoomId::try_from(room_id).ok()?;
    let read = BTreeMap::from([(user, ReceiptData::new(data, vec![event]))]);
    let receipts = BTreeMap::from([(room, ReceiptMap::new(read))]);
    serde_json::to_vec(&Edu::Receipt(ReceiptContent::new(receipts))).ok()
}

/// Builds a `ruma` `Edu::Presence` with `PresenceContent::new` and
/// `PresenceUpdate::new` and serialises it with `serde_json::to_vec`. The
/// result is named.
#[verifier::external_body]
fn presence_json(updates: &Vec<PresenceUpdate>) -> (r: Option<Vec<u8>>)
    ensures
        r is Some <==> presence_edu(update_views(updates@)) is Some,
        r matches Some(b) ==> Some(b@) == presence_edu(update_views(updates@)),
{
    let mut push = Vec::new();
    for u in updates.iter() {
        let user = OwnedUserId::try_from(u.user_id.as_str()).ok()?;
        let ago = UInt::try_from(u.last_active_ago).ok()?;
        let mut update = WirePresenceUpdate::new(user, u.presence.as_str().into(), ago);
        update.status_msg = u.status_msg.clone();
        update.currently_active = u.currently_active;
        push.push(update);
    }
    serde_json::to_vec(&Edu::Presence(PresenceContent::new(push))).ok()
}

/// Whether a user belongs to the server `own`.
pub open spec fn is_local(user_id: Seq<char>, own: Seq<char>) -> bool {
    server_part(user_id) == Some(own)
}

/// Whether a user belongs to the server `own`.
pub fn user_is_local(user_id: &str, own: &str) -> (r: bool)
    ensures
        r == is_local(user_id@, own@),
{
    match server_name_of(user_id) {
        Some(server) => server == own.to_owned(),
        None => false,
    }
}

/// What has been selected so far.
pub struct Selected {
    /// The ephemeral events, as JSON.
    pub events: Seq<Seq<u8>>,
    /// The highest stream position seen.
    pub max_count: u64,
    /// Whether something stored could not be used.
    pub failed: bool,
}

impl Selected {
    /// Whether nothing more is taken: the limit is reached or the
    /// selection has failed.
    pub open spec fn stopped(self) -> bool {
        self.failed || self.events.len() >= 16
    }
}

/// The greater of two stream positions.
pub open spec fn later(a: u64, b: u64) -> u64 {
    if a > b {
        a
    } else {
        b
    }
}

/// The selection after one more read receipt of a room.
pub open spec fn receipt_step(acc: Selected, room: Seq<char>, row: ReceiptRow, own: Seq<char>)
    -> Selected {
    if acc.stopped() {
        acc
    } else {
        let max_count = later(row.count, acc.max_count);
        if !is_local(row.user_id@, own) {
            Selected { max_count, ..acc }
        } else {
            match row.event {
                ReceiptEvent::Invalid => Selected { max_count, failed: true, ..acc },
                ReceiptEvent::Other => Selected { max_count, ..acc },
                ReceiptEvent::Read { event_id, receipt } => match receipt_edu(
                    room,
                    row.user_id@,
                    event_id@,
                    receipt@,
                ) {
                    Some(json) => Selected { events: acc.events.push(json), max_count, ..acc },
                    None => Selected { max_count, failed: true, ..acc },
                },
            }
        }
    }
}

/// The selection after the read receipts of a room, in order.
pub open spec fn receipts_scan(
    acc: Selected,
    room: Seq<char>,
    rows: Seq<ReceiptRow>,
    own: Seq<char>,
) -> Selected
    decreases rows.len(),
{
    if rows.len() == 0 {
        acc
    } else {
        receipt_step(receipts_scan(acc, room, rows.drop_last(), own), room, rows.last(), own)
    }
}

proof fn lemma_receipts_stop(
    acc: Selected,
    room: Seq<char>,
    rows: Seq<ReceiptRow>,
    n: int,
    own: Seq<char>,
)
    requires
        0 <= n <= rows.len(),
        receipts_scan(acc, room, rows.subrange(0, n), own).stopped(),
    ensures
        receipts_scan(acc, room, rows, own) == receipts_scan(acc, room, rows.subrange(0, n), own),
    decreases rows.len(),
{
    if n == rows.len() {
        assert(rows.subrange(0, n) =~= rows);
    } else {
        assert(rows.drop_last().subrange(0, n) =~= rows.subrange(0, n));
        lemma_receipts_stop(acc, room, rows.drop_last(), n, own);
    }
}

/// A selection never shrinks, and keeps its failure.
proof fn lemma_receipts_grow(acc: Selected, room: Seq<char>, rows: Seq<ReceiptRow>, own: Seq<char>)
    ensures
        receipts_scan(acc, room, rows, own).events.len() >= acc.events.len(),
        acc.events.len() <= 16 ==> receipts_scan(acc, room, rows, own).events.len() <= 16,
        acc.failed ==> receipts_scan(acc, room, rows, own).failed,
        acc.stopped() ==> receipts_scan(acc, room, rows, own) == acc,
    decreases rows.len(),
{
    if rows.len() > 0 {
        lemma_receipts_grow(acc, room, rows.drop_last(), own);
    }
}

/// Looks through the read receipts of a room and adds those of local users
/// to `events`, until sixteen are selected. `max_edu_count` follows the
/// highest position seen.
///
/// Returns `Ok(true)` where there is room for more, `Ok(false)` where the
/// limit is reached, and an error where a stored receipt could not be used.
pub fn select_edus_receipts(
    room_id: &str,
    rows: &Vec<ReceiptRow>,
    own: &str,
    max_edu_count: &mut u64,
    events: &mut Vec<Vec<u8>>,
) -> (r: Result<bool, Error>)
    ensures
        ({
            let start = Selected {
                events: byte_views(old(events)@),
                max_count: *old(max_edu_count),
                failed: false,
            };
            let end = receipts_scan(start, room_id@, rows@, own@);
            &&& byte_views(final(events)@) == end.events
            &&& *final(max_edu_count) == end.max_count
            &&& r is Err <==> end.failed
            &&& r matches Ok(more) ==> more == (end.events.len() < 16)
            &&& r matches Err(e) ==> e.is(
                ErrorKind::Database,
                "Invalid edu event in read_receipts."@,
            )
        }),
{
    let ghost start = Selected {
        events: byte_views(events@),
        max_count: *max_edu_count,
        failed: false,
    };
    let mut i: usize = 0;
    assert(rows@.subrange(0, 0) =~= Seq::<ReceiptRow>::empty());
    while i < rows.len()
        invariant
            i <= rows.len(),
            start == (Selected {
                events: byte_views(old(events)@),
                max_count: *old(max_edu_count),
                failed: false,
            }),
            receipts_scan(start, room_id@, rows@.subrange(0, i as int), own@) == (Selected {
                events: byte_views(events@),
                max_count: *max_edu_count,
                failed: false,
            }),
        decreases rows.len() - i,
    {
        let ghost acc = receipts_scan(start, room_id@, rows@.subrange(0, i as int), own@);
        proof {
            assert(rows@.subrange(0, i + 1).drop_last() =~= rows@.subrange(0, i as int));
            assert(rows@.subrange(0, i + 1).last() == rows@[i as int]);
        }
        if events.len() >= SELECT_EDU_LIMIT {
            proof {
                lemma_receipts_stop(start, room_id@, rows@, i as int, own@);
            }
            return Ok(false);
        }
        let row = &rows[i];
        if row.count > *max_edu_count {
            *max_edu_count = row.count;
        }
        i = i + 1;
        if user_is_local(row.user_id.as_str(), own) {
            match &row.event {
                ReceiptEvent::Invalid => {
                    proof {
                        lemma_receipts_stop(start, room_id@, rows@, i as int, own@);
                    }
                    return Err(
                        Error::new(ErrorKind::Database, "Invalid edu event in read_receipts."),
                    );
                },
                ReceiptEvent::Other => {},
                ReceiptEvent::Read { event_id, receipt } => {
                    match receipt_json(
                        room_id,
                        row.user_id.as_str(),
                        event_id.as_str(),
                        receipt.as_str(),
                    ) {
                        Some(json) => {
                            let ghost before = byte_views(events@);
                            events.push(json);
                            assert(byte_views(events@) =~= before.push(json@));
                        },
                        None => {
                            proof {
                                lemma_receipts_stop(start, room_id@, rows@, i as int, own@);
                            }
                            return Err(
                                Error::new(
                                    ErrorKind::Database,
                                    "Invalid edu event in read_receipts.",
                                ),
                            );
                        },
                    }
                },
            }
        }
    }
    assert(rows@.subrange(0, rows.len() as int) =~= rows@);
    Ok(events.len() < SELECT_EDU_LIMIT)
}

/// The update that a stored presence makes: what is not recorded counts as
/// not active, and as active just now.
pub open spec fn update_of(user_id: Seq<char>, item: PresenceItem) -> (
    Seq<char>,
    Seq<char>,
    bool,
    u64,
    Option<Seq<char>>,
) {
    (
        user_id,
        item.presence@,
        match item.currently_active {
            Some(b) => b,
            None => false,
        },
        match item.last_active_ago {
            Some(n) => n,
            None => 0,
        },
        opt_view(item.status_msg),
    )
}

/// The presence updates gathered so far.
pub struct Gathered {
    pub updates: Seq<(Seq<char>, Seq<char>, bool, u64, Option<Seq<char>>)>,
    pub max_count: u64,
    pub failed: bool,
}

impl Gathered {
    /// Whether nothing more is taken.
    pub open spec fn stopped(self) -> bool {
        self.failed || self.updates.len() >= 16
    }
}

/// The updates after one more presence change.
pub open spec fn presence_step(acc: Gathered, row: PresenceRow, own: Seq<char>) -> Gathered {
    if acc.stopped() {
        acc
    } else {
        let max_count = later(row.count, acc.max_count);
        if !is_local(row.user_id@, own) {
            Gathered { max_count, ..acc }
        } else {
            match row.visible {
                None => Gathered { max_count, failed: true, ..acc },
                Some(false) => Gathered { max_count, ..acc },
                Some(true) => match row.presence {
                    None => Gathered { max_count, failed: true, ..acc },
                    Some(item) => Gathered {
                        updates: acc.updates.push(update_of(row.user_id@, item)),
                        max_count,
                        ..acc
                    },
                },
            }
        }
    }
}

/// The updates after the presence changes, in order.
pub open spec fn presence_scan(acc: Gathered, rows: Seq<PresenceRow>, own: Seq<char>) -> Gathered
    decreases rows.len(),
{
    if rows.len() == 0 {
        acc
    } else {
        presence_step(presence_scan(acc, rows.drop_last(), own), rows.last(), own)
    }
}

proof fn lemma_presence_stop(acc: Gathered, rows: Seq<PresenceRow>, n: int, own: Seq<char>)
    requires
        0 <= n <= rows.len(),
        presence_scan(acc, rows.subrange(0, n), own).stopped(),
    ensures
        presence_scan(acc, rows, own) == presence_scan(acc, rows.subrange(0, n), own),
    decreases rows.len(),
{
    if n == rows.len() {
        assert(rows.subrange(0, n) =~= rows);
    } else {
        assert(rows.drop_last().subrange(0, n) =~= rows.subrange(0, n));
        lemma_presence_stop(acc, rows.drop_last(), n, own);
    }
}

/// The selection after the presence bundle: the bundle of the updates
/// gathered from `rows` is one more event.
pub open spec fn with_presence(acc: Selected, rows: Seq<PresenceRow>, own: Seq<char>)
    -> Selected {
    let gathered = presence_scan(
        Gathered { updates: Seq::empty(), max_count: acc.max_count, failed: false },
        rows,
        own,
    );
    if gathered.failed {
        Selected { max_count: gathered.max_count, failed: true, ..acc }
    } else {
        match presence_edu(gathered.updates) {
            Some(json) => Selected {
                events: acc.events.push(json),
                max_count: gathered.max_count,
                ..acc
            },
            None => Selected { max_count: gathered.max_count, failed: true, ..acc },
        }
    }
}

fn make_update(user_id: &String, item: &PresenceItem) -> (u: PresenceUpdate)
    ensures
        u@ == update_of(user_id@, *item),
{
    PresenceUpdate {
        user_id: user_id.clone(),
        presence: item.presence.clone(),
        currently_active: match item.currently_active {
            Some(b) => b,
            None => false,
        },
        last_active_ago: match item.last_active_ago {
            Some(n) => n,
            None => 0,
        },
        status_msg: crate::text::clone_opt(&item.status_msg),
    }
}

/// Gathers the presence changes of local users that the destination may
/// see, sixteen at most, and adds them to `events` as one bundle.
/// `max_edu_count` follows the highest position seen.
///
/// Returns an error where a stored presence could not be used; otherwise
/// `Ok(true)`.
pub fn select_edus_presence(
    rows: &Vec<PresenceRow>,
    own: &str,
    max_edu_count: &mut u64,
    events: &mut Vec<Vec<u8>>,
) -> (r: Result<bool, Error>)
    ensures
        ({
            let start = Selected {
                events: byte_views(old(events)@),
                max_count: *old(max_edu_count),
                failed: false,
            };
            let end = with_presence(start, rows@, own@);
            &&& byte_views(final(events)@) == end.events
            &&& *final(max_edu_count) == end.max_count
            &&& r is Err <==> end.failed
            &&& r matches Ok(b) ==> b
            &&& r matches Err(e) ==> e.is(ErrorKind::Database, "Invalid presence in database."@)
        }),
{
    let ghost first = Gathered {
        updates: Seq::empty(),
        max_count: *max_edu_count,
        failed: false,
    };
    let mut updates: Vec<PresenceUpdate> = Vec::new();
    let mut i: usize = 0;
    assert(rows@.subrange(0, 0) =~= Seq::<PresenceRow>::empty());
    assert(update_views(updates@) =~= Seq::empty());
    while i < rows.len() && updates.len() < SELECT_EDU_LIMIT
        invariant
            i <= rows.len(),
            events@ == old(events)@,
            first == (Gathered {
                updates: Seq::empty(),
                max_count: *old(max_edu_count),
                failed: false,
            }),
            presence_scan(first, rows@.subrange(0, i as int), own@) == (Gathered {
                updates: update_views(updates@),
                max_count: *max_edu_count,
                failed: false,
            }),
        decreases rows.len() - i,
    {
        proof {
            assert(rows@.subrange(0, i + 1).drop_last() =~= rows@.subrange(0, i as int));
            assert(rows@.subrange(0, i + 1).last() == rows@[i as int]);
        }
        let row = &rows[i];
        if row.count > *max_edu_count {
            *max_edu_count = row.count;
        }
        i = i + 1;
        if user_is_local(row.user_id.as_str(), own) {
            match row.visible {
                None => {
                    proof {
                        lemma_presence_stop(first, rows@, i as int, own@);
                    }
                    return Err(Error::new(ErrorKind::Database, "Invalid presence in database."));
                },
                Some(false) => {},
                Some(true) => match &row.presence {
                    None => {
                        proof {
                            lemma_presence_stop(first, rows@, i as int, own@);
                        }
                        return Err(
                            Error::new(ErrorKind::Database, "Invalid presence in database."),
                        );
                    },
                    Some(item) => {
                        let ghost before = update_views(updates@);
                        let update = make_update(&row.user_id, item);
                        updates.push(update);
                        assert(update_views(updates@) =~= before.push(
                            update_of(row.user_id@, *item),
                        ));
                    },
                },
            }
        }
    }
    proof {
        if i < rows.len() {
            lemma_presence_stop(first, rows@, i as int, own@);
        } else {
            assert(rows@.subrange(0, rows.len() as int) =~= rows@);
        }
    }
    match presence_json(&updates) {
        Some(json) => {
            let ghost before = byte_views(events@);
            events.push(json);
            assert(byte_views(events@) =~= before.push(json@));
            Ok(true)
        },
        None => Err(Error::new(ErrorKind::Database, "Invalid presence in database.")),
    }
}

/// The local users among `users` added to `changed`, each once, in the
/// order in which they are first seen.
pub open spec fn local_changes(changed: Seq<Seq<char>>, users: Seq<String>, own: Seq<char>)
    -> Seq<Seq<char>>
    decreases users.len(),
{
    if users.len() == 0 {
        changed
    } else {
        let earlier = local_changes(changed, users.drop_last(), own);
        let user = users.last()@;
        if is_local(user, own) && !earlier.contains(user) {
            earlier.push(user)
        } else {
            earlier
        }
    }
}

/// What the rooms gave: the selection and the users whose device lists
/// changed.
pub struct Visited {
    pub selected: Selected,
    pub changed: Seq<Seq<char>>,
}

/// The outcome after one more room: its device-list changes are noted and,
/// where receipts are sent at all, its read receipts are looked through.
/// Once the limit is reached or the selection has failed, no further room
/// is looked at.
pub open spec fn room_step(acc: Visited, room: RoomEdus, own: Seq<char>, receipts: bool)
    -> Visited {
    if acc.selected.stopped() {
        acc
    } else {
        Visited {
            selected: if receipts {
                receipts_scan(acc.selected, room.room_id@, room.receipts@, own)
            } else {
                acc.selected
            },
            changed: local_changes(acc.changed, room.keys_changed@, own),
        }
    }
}

/// The outcome after the rooms, in order.
pub open spec fn rooms_scan(acc: Visited, rooms: Seq<RoomEdus>, own: Seq<char>, receipts: bool)
    -> Visited
    decreases rooms.len(),
{
    if rooms.len() == 0 {
        acc
    } else {
        room_step(rooms_scan(acc, rooms.drop_last(), own, receipts), rooms.last(), own, receipts)
    }
}

proof fn lemma_rooms_stop(
    acc: Visited,
    rooms: Seq<RoomEdus>,
    n: int,
    own: Seq<char>,
    receipts: bool,
)
    requires
        0 <= n <= rooms.len(),
        rooms_scan(acc, rooms.subrange(0, n), own, receipts).selected.stopped(),
    ensures
        rooms_scan(acc, rooms, own, receipts) == rooms_scan(
            acc,
            rooms.subrange(0, n),
            own,
            receipts,
        ),
    decreases rooms.len(),
{
    if n == rooms.len() {
        assert(rooms.subrange(0, n) =~= rooms);
    } else {
        assert(rooms.drop_last().subrange(0, n) =~= rooms.subrange(0, n));
        lemma_rooms_stop(acc, rooms.drop_last(), n, own, receipts);
    }
}

/// The selection after the device-list updates of `users`, as far as they
/// fit.
pub open spec fn with_device_lists(acc: Selected, users: Seq<Seq<char>>) -> Selected
    decreases users.len(),
{
    if users.len() == 0 {
        acc
    } else {
        let earlier = with_device_lists(acc, users.drop_last());
        if earlier.stopped() {
            earlier
        } else {
            match device_list_update_edu(users.last(), "placeholder"@, "Placeholder"@, 1) {
                Some(json) => Selected { events: earlier.events.push(json), ..earlier },
                None => Selected { failed: true, ..earlier },
            }
        }
    }
}

proof fn lemma_device_lists_stop(acc: Selected, users: Seq<Seq<char>>, n: int)
    requires
        0 <= n <= users.len(),
        with_device_lists(acc, users.subrange(0, n)).stopped(),
    ensures
        with_device_lists(acc, users) == with_device_lists(acc, users.subrange(0, n)),
    decreases users.len(),
{
    if n == users.len() {
        assert(users.subrange(0, n) =~= users);
    } else {
        assert(users.drop_last().subrange(0, n) =~= users.subrange(0, n));
        lemma_device_lists_stop(acc, users.drop_last(), n);
    }
}

/// The ephemeral events for a server: read receipts, device-list updates
/// and the presence bundle, in this order and sixteen at most.
pub open spec fn selected_edus(
    since: u64,
    rooms: Seq<RoomEdus>,
    presence: Seq<PresenceRow>,
    own: Seq<char>,
    receipts: bool,
    send_presence: bool,
) -> Selected {
    let visited = rooms_scan(
        Visited {
            selected: Selected { events: Seq::empty(), max_count: since, failed: false },
            changed: Seq::empty(),
        },
        rooms,
        own,
        receipts,
    );
    let listed = with_device_lists(visited.selected, visited.changed);
    if send_presence && !listed.stopped() {
        with_presence(listed, presence, own)
    } else {
        listed
    }
}

/// The text of the error where the selection fails: what could not be
/// used was a read receipt, a user whose device list changed, or a
/// presence.
pub open spec fn selection_failure(
    since: u64,
    rooms: Seq<RoomEdus>,
    own: Seq<char>,
    receipts: bool,
) -> Seq<char> {
    let visited = rooms_scan(
        Visited {
            selected: Selected { events: Seq::empty(), max_count: since, failed: false },
            changed: Seq::empty(),
        },
        rooms,
        own,
        receipts,
    );
    if visited.selected.failed {
        "Invalid edu event in read_receipts."@
    } else if with_device_lists(visited.selected, visited.changed).failed {
        "Invalid user in device list changes."@
    } else {
        "Invalid presence in database."@
    }
}

fn note_changes(changed: &mut Vec<String>, users: &Vec<String>, own: &str)
    ensures
        crate::text::views(final(changed)@) == local_changes(
            crate::text::views(old(changed)@),
            users@,
            own@,
        ),
{
    let ghost start = crate::text::views(changed@);
    let mut i: usize = 0;
    assert(users@.subrange(0, 0) =~= Seq::<String>::empty());
    while i < users.len()
        invariant
            i <= users.len(),
            crate::text::views(changed@) == local_changes(
                start,
                users@.subrange(0, i as int),
                own@,
            ),
        decreases users.len() - i,
    {
        proof {
            assert(users@.subrange(0, i + 1).drop_last() =~= users@.subrange(0, i as int));
            assert(users@.subrange(0, i + 1).last() == users@[i as int]);
        }
        if user_is_local(users[i].as_str(), own) && !crate::text::contains_string(
            changed,
            &users[i],
        ) {
            let ghost before = crate::text::views(changed@);
            changed.push(users[i].clone());
            assert(crate::text::views(changed@) =~= before.push(users@[i as int]@));
        }
        i = i + 1;
    }
    assert(users@.subrange(0, users.len() as int) =~= users@);
}

/// Selects the ephemeral events for a server.
///
/// `since` is the count stored for the server after its last transaction,
/// `rooms` what the rooms shared with it hold since then, `presence` the
/// presence changes since then, `own` the name of this server.
///
/// Returns the events as JSON and the count to store once they are sent, or
/// an error where something stored could not be used.
pub fn select_edus(
    since: u64,
    rooms: &Vec<RoomEdus>,
    presence: &Vec<PresenceRow>,
    own: &str,
    allow_outgoing_read_receipts: bool,
    allow_outgoing_presence: bool,
) -> (r: Result<(Vec<Vec<u8>>, u64), Error>)
    ensures
        ({
            let end = selected_edus(
                since,
                rooms@,
                presence@,
                own@,
                allow_outgoing_read_receipts,
                allow_outgoing_presence,
            );
            &&& r is Err <==> end.failed
            &&& r matches Ok(p) ==> byte_views(p.0@) == end.events && p.1 == end.max_count
                && p.0@.len() <= 16
            &&& r matches Err(e) ==> e.is(
                ErrorKind::Database,
                selection_failure(since, rooms@, own@, allow_outgoing_read_receipts),
            )
        }),
{
    let mut events: Vec<Vec<u8>> = Vec::new();
    let mut max_edu_count: u64 = since;
    let mut changed: Vec<String> = Vec::new();
    let ghost start = Visited {
        selected: Selected { events: Seq::empty(), max_count: since, failed: false },
        changed: Seq::empty(),
    };
    let mut i: usize = 0;
    assert(rooms@.subrange(0, 0) =~= Seq::<RoomEdus>::empty());
    assert(byte_views(events@) =~= Seq::empty());
    assert(crate::text::views(changed@) =~= Seq::empty());
    let mut more: bool = true;
    while i < rooms.len() && more
        invariant
            i <= rooms.len(),
            start == (Visited {
                selected: Selected { events: Seq::empty(), max_count: since, failed: false },
                changed: Seq::empty(),
            }),
            rooms_scan(start, rooms@.subrange(0, i as int), own@, allow_outgoing_read_receipts)
                == (Visited {
                selected: Selected {
                    events: byte_views(events@),
                    max_count: max_edu_count,
                    failed: false,
                },
                changed: crate::text::views(changed@),
            }),
            more == (events@.len() < 16),
            events@.len() <= 16,
        decreases rooms.len() - i,
    {
        proof {
            assert(rooms@.subrange(0, i + 1).drop_last() =~= rooms@.subrange(0, i as int));
            assert(rooms@.subrange(0, i + 1).last() == rooms@[i as int]);
        }
        let room = &rooms[i];
        let ghost earlier = rooms_scan(
            start,
            rooms@.subrange(0, i as int),
            own@,
            allow_outgoing_read_receipts,
        );
        note_changes(&mut changed, &room.keys_changed, own);
        i = i + 1;
        assert(rooms_scan(start, rooms@.subrange(0, i as int), own@, allow_outgoing_read_receipts)
            == room_step(earlier, *room, own@, allow_outgoing_read_receipts));
        if allow_outgoing_read_receipts {
            proof {
                lemma_receipts_grow(
                    Selected {
                        events: byte_views(events@),
                        max_count: max_edu_count,
                        failed: false,
                    },
                    room.room_id@,
                    room.receipts@,
                    own@,
                );
            }
            match select_edus_receipts(
                room.room_id.as_str(),
                &room.receipts,
                own,
                &mut max_edu_count,
                &mut events,
            ) {
                Ok(m) => {
                    more = m;
                },
                Err(e) => {
                    proof {
                        assert(rooms_scan(
                            start,
                            rooms@.subrange(0, i as int),
                            own@,
                            allow_outgoing_read_receipts,
                        ).selected.failed);
                        lemma_rooms_stop(
                            start,
                            rooms@,
                            i as int,
                            own@,
                            allow_outgoing_read_receipts,
                        );
                        lemma_listing_keeps_failure(
                            rooms_scan(start, rooms@, own@, allow_outgoing_read_receipts).selected,
                            rooms_scan(start, rooms@, own@, allow_outgoing_read_receipts).changed,
                        );
                    }
                    return Err(e);
                },
            }
        }
    }
    proof {
        if i < rooms.len() {
            lemma_rooms_stop(start, rooms@, i as int, own@, allow_outgoing_read_receipts);
        } else {
            assert(rooms@.subrange(0, rooms.len() as int) =~= rooms@);
        }
    }
    let ghost visited = Selected {
        events: byte_views(events@),
        max_count: max_edu_count,
        failed: false,
    };
    let ghost users = crate::text::views(changed@);
    let mut j: usize = 0;
    assert(users.subrange(0, 0) =~= Seq::<Seq<char>>::empty());
    while j < changed.len() && events.len() < SELECT_EDU_LIMIT
        invariant
            j <= changed.len(),
            users == crate::text::views(changed@),
            events@.len() <= 16,
            start == (Visited {
                selected: Selected { events: Seq::empty(), max_count: since, failed: false },
                changed: Seq::empty(),
            }),
            !visited.failed,
            rooms_scan(start, rooms@, own@, allow_outgoing_read_receipts) == (Visited {
                selected: visited,
                changed: users,
            }),
            with_device_lists(visited, users.subrange(0, j as int)) == (Selected {
                events: byte_views(events@),
                max_count: max_edu_count,
                failed: false,
            }),
        decreases changed.len() - j,
    {
        proof {
            assert(users.subrange(0, j + 1).drop_last() =~= users.subrange(0, j as int));
            assert(users.subrange(0, j + 1).last() == changed@[j as int]@);
        }
        let user = &changed[j];
        j = j + 1;
        match device_list_update_json(user.as_str(), "placeholder", "Placeholder", 1) {
            Some(json) => {
                let ghost before = byte_views(events@);
                events.push(json);
                assert(byte_views(events@) =~= before.push(json@));
            },
            None => {
                proof {
                    lemma_device_lists_stop(visited, users, j as int);
                }
                return Err(Error::new(ErrorKind::Database, "Invalid user in device list changes."));
            },
        }
    }
    proof {
        if j < changed.len() {
            lemma_device_lists_stop(visited, users, j as int);
        } else {
            assert(users.subrange(0, changed.len() as int) =~= users);
        }
    }
    if allow_outgoing_presence && events.len() < SELECT_EDU_LIMIT {
        match select_edus_presence(presence, own, &mut max_edu_count, &mut events) {
            Ok(_) => {},
            Err(e) => {
                return Err(e);
            },
        }
    }
    Ok((events, max_edu_count))
}

/// A failed selection stays failed when device lists are added.
proof fn lemma_listing_keeps_failure(acc: Selected, users: Seq<Seq<char>>)
    requires
        acc.stopped(),
    ensures
        with_device_lists(acc, users) == acc,
    decreases users.len(),
{
    if users.len() > 0 {
        lemma_listing_keeps_failure(acc, users.drop_last());
    }
}

} // verus!
