//! The repairs that migrations make to stored data.

use crate::assoc::{bytes_eq, clone_bytes};
use crate::membership::content::MembershipState;
use crate::text::{opt_view, views};
use ruma::events::push_rules::PushRulesEvent;
use ruma::push::Ruleset;
use vstd::prelude::*;

verus! {

/// Whether `i` is the position of the first separator byte 0xFF of `key`.
pub open spec fn first_separator(key: Seq<u8>, i: int) -> bool {
    &&& 0 <= i < key.len()
    &&& key[i] == 0xFF
    &&& forall|j: int| 0 <= j < i ==> key[j] != 0xFF
}

/// The repaired key where the first separator of `key` is doubled: the key
/// without one of the two. `None` where the key needs no repair.
pub open spec fn fixed_key(key: Seq<u8>) -> Option<Seq<u8>> {
    if exists|i: int| first_separator(key, i) {
        let i = choose|i: int| first_separator(key, i);
        if i + 1 < key.len() && key[i + 1] == 0xFF {
            Some(key.remove(i))
        } else {
            None
        }
    } else {
        None
    }
}

/// Repairs a state-cache key whose first separator is doubled.
pub fn fix_double_separator(key: &Vec<u8>) -> (r: Option<Vec<u8>>)
    ensures
        r is Some <==> fixed_key(key@) is Some,
        r matches Some(fixed) ==> Some(fixed@) == fixed_key(key@),
{
    let mut i: usize = 0;
    while i < key.len()
        invariant
            i <= key.len(),
            forall|j: int| 0 <= j < i ==> key@[j] != 0xFF,
        decreases key.len() - i,
    {
        if key[i] == 0xFF {
            proof {
                assert(first_separator(key@, i as int));
                let c = choose|c: int| first_separator(key@, c);
                if c < i {
                    assert(key@[c] != 0xFF);
                } else if i < c {
                    assert(key@[i as int] != 0xFF);
                }
            }
            if i + 1 < key.len() && key[i + 1] == 0xFF {
                let mut fixed = clone_bytes(key);
                let _ = fixed.remove(i);
                return Some(fixed);
            }
            return None;
        }
        i = i + 1;
    }
    proof {
        if exists|c: int| first_separator(key@, c) {
            let c = choose|c: int| first_separator(key@, c);
            assert(key@[c] != 0xFF);
        }
    }
    None
}

/// A row whose key is replaced.
#[derive(Debug)]
pub struct KeyFix {
    pub old_key: Vec<u8>,
    pub new_key: Vec<u8>,
    pub value: Vec<u8>,
}

impl View for KeyFix {
    type V = (Seq<u8>, Seq<u8>, Seq<u8>);

    open spec fn view(&self) -> (Seq<u8>, Seq<u8>, Seq<u8>) {
        (self.old_key@, self.new_key@, self.value@)
    }
}

/// The replacements for a table: for each row whose key needs repair, the
/// key, the repaired key and the value, in the order of the rows.
pub open spec fn key_fixes(rows: Seq<(Vec<u8>, Vec<u8>)>) -> Seq<(Seq<u8>, Seq<u8>, Seq<u8>)>
    decreases rows.len(),
{
    if rows.len() == 0 {
        Seq::empty()
    } else {
        let earlier = key_fixes(rows.drop_last());
        let row = rows.last();
        match fixed_key(row.0@) {
            Some(fixed) => earlier.push((row.0@, fixed, row.1@)),
            None => earlier,
        }
    }
}

/// Finds the rows of the table of joined users whose key has a doubled
/// separator after the room id, and says what each is to be replaced with.
pub fn fix_bad_double_separator_in_state_cache(rows: &Vec<(Vec<u8>, Vec<u8>)>) -> (fixes: Vec<
    KeyFix,
>)
    ensures
        fixes@.map_values(|f: KeyFix| f@) == key_fixes(rows@),
{
    let mut fixes: Vec<KeyFix> = Vec::new();
    let mut i: usize = 0;
    assert(rows@.subrange(0, 0) =~= Seq::<(Vec<u8>, Vec<u8>)>::empty());
    assert(fixes@.map_values(|f: KeyFix| f@) =~= Seq::empty());
    while i < rows.len()
        invariant
            i <= rows.len(),
            fixes@.map_values(|f: KeyFix| f@) == key_fixes(rows@.subrange(0, i as int)),
        decreases rows.len() - i,
    {
        proof {
            assert(rows@.subrange(0, i + 1).drop_last() =~= rows@.subrange(0, i as int));
            assert(rows@.subrange(0, i + 1).last() == rows@[i as int]);
        }
        match fix_double_separator(&rows[i].0) {
            Some(new_key) => {
                let ghost before = fixes@.map_values(|f: KeyFix| f@);
                let fix = KeyFix {
                    old_key: clone_bytes(&rows[i].0),
                    new_key,
                    value: clone_bytes(&rows[i].1),
                };
                let ghost view = fix@;
                fixes.push(fix);
                assert(fixes@.map_values(|f: KeyFix| f@) =~= before.push(view));
            },
            None => {},
        }
        i = i + 1;
    }
    assert(rows@.subrange(0, rows.len() as int) =~= rows@);
    fixes
}

/// A user of a room with their membership according to the room state;
/// `None` where the state has no membership event for them.
#[derive(Debug)]
pub struct StoredMember {
    pub user_id: String,
    pub membership: Option<MembershipState>,
}

/// The users whose membership is `join` (with `joined`), or anything else
/// (without), in order.
pub open spec fn members_where(members: Seq<StoredMember>, joined: bool) -> Seq<Seq<char>>
    decreases members.len(),
{
    if members.len() == 0 {
        Seq::empty()
    } else {
        let earlier = members_where(members.drop_last(), joined);
        if (members.last().membership == Some(MembershipState::Join)) == joined {
            earlier.push(members.last().user_id@)
        } else {
            earlier
        }
    }
}

/// What the repair of the table of joined users does for one room.
#[derive(Debug)]
pub struct MembershipFix {
    /// The users to mark as joined.
    pub joined: Vec<String>,
    /// The users to mark as having left.
    pub left: Vec<String>,
}

/// Sorts the users that the state cache lists for a room by what the room
/// state says of them: those whose membership is `join` are marked as
/// joined, all others as having left.
pub fn retroactively_fix_bad_data_from_roomuserid_joined(members: &Vec<StoredMember>) -> (fix:
    MembershipFix)
    ensures
        views(fix.joined@) == members_where(members@, true),
        views(fix.left@) == members_where(members@, false),
{
    let mut joined: Vec<String> = Vec::new();
    let mut left: Vec<String> = Vec::new();
    let mut i: usize = 0;
    assert(members@.subrange(0, 0) =~= Seq::<StoredMember>::empty());
    assert(views(joined@) =~= Seq::empty());
    assert(views(left@) =~= Seq::empty());
    while i < members.len()
        invariant
            i <= members.len(),
            views(joined@) == members_where(members@.subrange(0, i as int), true),
            views(left@) == members_where(members@.subrange(0, i as int), false),
        decreases members.len() - i,
    {
        proof {
            assert(members@.subrange(0, i + 1).drop_last() =~= members@.subrange(0, i as int));
            assert(members@.subrange(0, i + 1).last() == members@[i as int]);
        }
        let is_joined = match members[i].membership {
            Some(MembershipState::Join) => true,
            _ => false,
        };
        if is_joined {
            let ghost before = views(joined@);
            joined.push(members[i].user_id.clone());
            assert(views(joined@) =~= before.push(members@[i as int].user_id@));
        } else {
            let ghost before = views(left@);
            left.push(members[i].user_id.clone());
            assert(views(left@) =~= before.push(members@[i as int].user_id@));
        }
        i = i + 1;
    }
    assert(members@.subrange(0, members.len() as int) =~= members@);
    MembershipFix { joined, left }
}

/// The push rules account data of a user brought up to the server's
/// defaults, as JSON text; `None` where the user id or the stored data is
/// malformed.
pub uninterp spec fn rules_with_server_default(user_id: Seq<char>, account_data: Seq<char>)
    -> Option<Seq<char>>;

/// Reads a `ruma` `PushRulesEvent` with `serde_json::from_str`, calls
/// `Ruleset::update_with_server_default` on its global rules with
/// `Ruleset::server_default` for the user, and writes it back with
/// `serde_json::to_string`. The result is named.
#[verifier::external_body]
fn update_rules_with_server_default(user_id: &str, account_data: &str) -> (r: Option<String>)
    ensures
        opt_view(r) == rules_with_server_default(user_id@, account_data@),
{
    let user = ruma::UserId::parse(user_id).ok()?;
    let mut data: PushRulesEvent = serde_json::from_str(account_data).ok()?;
    data.content.global.update_with_server_default(Ruleset::server_default(&user));
    serde_json::to_string(&data).ok()
}

/// The migration to schema version 13 for the push rules of one user: the
/// rules are brought up to the server's defaults. A user whose stored
/// rules cannot be read is passed over.
pub fn db_lt_13(user_id: &str, account_data: &str) -> (r: Option<String>)
    ensures
        opt_view(r) == rules_with_server_default(user_id@, account_data@),
{
    update_rules_with_server_default(user_id, account_data)
}

} // verus!
