//! Which servers are asked to help with a join.

use crate::ids::{is_user_id, valid_user_id};
use crate::text::{clone_strings, opt_view, server_name_of, server_part, views};
use vstd::prelude::*;

verus! {

/// The servers of the users who sent the events of an invite: for each
/// event with a `sender` that is a user id, the server of that user.
pub open spec fn sender_servers(senders: Seq<Option<String>>) -> Seq<Seq<char>>
    decreases senders.len(),
{
    if senders.len() == 0 {
        Seq::empty()
    } else {
        let earlier = sender_servers(senders.drop_last());
        match senders.last() {
            Some(sender) => if is_user_id(sender@) && server_part(sender@) is Some {
                earlier.push(server_part(sender@)->0)
            } else {
                earlier
            },
            None => earlier,
        }
    }
}

fn append_strings(into: &mut Vec<String>, from: &Vec<String>)
    ensures
        views(final(into)@) == views(old(into)@) + views(from@),
{
    let ghost start = views(into@);
    let mut i: usize = 0;
    while i < from.len()
        invariant
            i <= from.len(),
            views(into@) == start + views(from@).subrange(0, i as int),
        decreases from.len() - i,
    {
        let ghost before = views(into@);
        into.push(from[i].clone());
        i = i + 1;
        assert(views(into@) =~= before.push(from@[i - 1]@));
        assert(views(into@) =~= start + views(from@).subrange(0, i as int));
    }
    assert(views(from@).subrange(0, from.len() as int) =~= views(from@));
}

fn append_sender_servers(into: &mut Vec<String>, senders: &Vec<Option<String>>)
    ensures
        views(final(into)@) == views(old(into)@) + sender_servers(senders@),
{
    let ghost start = views(into@);
    let mut i: usize = 0;
    assert(senders@.subrange(0, 0) =~= Seq::<Option<String>>::empty());
    assert(views(into@) =~= start + Seq::<Seq<char>>::empty());
    while i < senders.len()
        invariant
            i <= senders.len(),
            views(into@) == start + sender_servers(senders@.subrange(0, i as int)),
        decreases senders.len() - i,
    {
        proof {
            assert(senders@.subrange(0, i + 1).drop_last() =~= senders@.subrange(0, i as int));
            assert(senders@.subrange(0, i + 1).last() == senders@[i as int]);
        }
        match &senders[i] {
            Some(sender) => {
                if valid_user_id(sender.as_str()) {
                    match server_name_of(sender.as_str()) {
                        Some(server) => {
                            let ghost before = views(into@);
                            into.push(server);
                            assert(views(into@) =~= before.push(server@));
                            assert(views(into@) =~= start + sender_servers(
                                senders@.subrange(0, i + 1),
                            ));
                        },
                        None => {},
                    }
                }
            },
            None => {},
        }
        i = i + 1;
    }
    assert(senders@.subrange(0, senders.len() as int) =~= senders@);
}

/// The candidates for a join by room id: the servers that the caller
/// named, the servers through which the room's invites came, the servers of
/// those who invited the user, and last the server in the room id.
pub open spec fn servers_for_room_id(
    via: Seq<Seq<char>>,
    invite_via: Seq<Seq<char>>,
    invite_senders: Seq<Option<String>>,
    room_id: Seq<char>,
) -> Seq<Seq<char>> {
    via + invite_via + sender_servers(invite_senders) + match server_part(room_id) {
        Some(server) => seq![server],
        None => Seq::empty(),
    }
}

/// The servers to ask when a user joins a room by its id.
pub fn join_room_by_id_route(
    via: &Vec<String>,
    invite_via: &Vec<String>,
    invite_senders: &Vec<Option<String>>,
    room_id: &str,
) -> (servers: Vec<String>)
    ensures
        views(servers@) == servers_for_room_id(
            views(via@),
            views(invite_via@),
            invite_senders@,
            room_id@,
        ),
{
    let mut servers = clone_strings(via);
    append_strings(&mut servers, invite_via);
    append_sender_servers(&mut servers, invite_senders);
    match server_name_of(room_id) {
        Some(server) => {
            let ghost before = views(servers@);
            servers.push(server);
            assert(views(servers@) =~= before + seq![server@]);
        },
        None => {
            assert(views(servers@) =~= views(servers@) + Seq::<Seq<char>>::empty());
        },
    }
    servers
}

/// The candidates for a join by alias: the servers that the caller named,
/// the servers that resolving the alias gave, the servers through which the
/// room's invites came, and the servers of those who invited the user.
pub open spec fn servers_for_alias(
    via: Seq<Seq<char>>,
    resolved: Option<Seq<Seq<char>>>,
    invite_via: Seq<Seq<char>>,
    invite_senders: Seq<Option<String>>,
) -> Seq<Seq<char>> {
    via + match resolved {
        Some(servers) => servers,
        None => Seq::empty(),
    } + invite_via + sender_servers(invite_senders)
}

/// The servers to ask when a user joins a room by an alias.
pub fn join_room_by_alias_servers(
    via: &Vec<String>,
    resolved: &Option<Vec<String>>,
    invite_via: &Vec<String>,
    invite_senders: &Vec<Option<String>>,
) -> (servers: Vec<String>)
    ensures
        views(servers@) == servers_for_alias(
            views(via@),
            match resolved {
                Some(list) => Some(views(list@)),
                None => None,
            },
            views(invite_via@),
            invite_senders@,
        ),
{
    let mut servers = clone_strings(via);
    match resolved {
        Some(list) => {
            append_strings(&mut servers, list);
        },
        None => {
            assert(views(servers@) =~= views(via@) + Seq::<Seq<char>>::empty());
        },
    }
    append_strings(&mut servers, invite_via);
    append_sender_servers(&mut servers, invite_senders);
    servers
}

/// How a room was named in a request to join.
#[derive(Debug)]
pub enum RoomTarget {
    /// By its id.
    Id(String),
    /// By an alias, which resolved to the id and perhaps to servers that
    /// know the room.
    Alias { room_id: String, resolved: Option<Vec<String>> },
}

/// The servers to ask when a user joins a room by id or alias. The server
/// in a room id is a candidate; the server in an alias is not.
pub fn join_room_by_id_or_alias_route(
    target: &RoomTarget,
    via: &Vec<String>,
    invite_via: &Vec<String>,
    invite_senders: &Vec<Option<String>>,
) -> (servers: Vec<String>)
    ensures
        views(servers@) == match target {
            RoomTarget::Id(room_id) => servers_for_room_id(
                views(via@),
                views(invite_via@),
                invite_senders@,
                room_id@,
            ),
            RoomTarget::Alias { resolved, .. } => servers_for_alias(
                views(via@),
                match resolved {
                    Some(list) => Some(views(list@)),
                    None => None,
                },
                views(invite_via@),
                invite_senders@,
            ),
        },
{
    match target {
        RoomTarget::Id(room_id) => join_room_by_id_route(
            via,
            invite_via,
            invite_senders,
            room_id.as_str(),
        ),
        RoomTarget::Alias { resolved, .. } => join_room_by_alias_servers(
            via,
            resolved,
            invite_via,
            invite_senders,
        ),
    }
}

/// The rooms that a user is taken out of when leaving everything: the
/// rooms they are in, then the rooms they are invited to.
pub fn leave_all_rooms(joined: &Vec<String>, invited: &Vec<String>) -> (rooms: Vec<String>)
    ensures
        views(rooms@) == views(joined@) + views(invited@),
{
    let mut rooms = clone_strings(joined);
    append_strings(&mut rooms, invited);
    rooms
}

} // verus!
