//! The content of `m.room.member` events, and how each membership change
//! rewrites it.

use crate::error::{Error, ErrorKind};
use crate::text::{clone_opt, opt_view};
use ruma::canonical_json::to_canonical_value;
use ruma::events::room::member::RoomMemberEventContent;
use ruma::OwnedUserId;
use vstd::prelude::*;

verus! {

/// The membership of a user in a room.
#[derive(Clone, Copy, Debug, PartialEq, Eq, Structural)]
pub enum MembershipState {
    Join,
    Leave,
    Invite,
    Ban,
    Knock,
}

/// The content of a membership event.
#[derive(Debug)]
pub struct MemberContent {
    pub membership: MembershipState,
    pub displayname: Option<String>,
    pub avatar_url: Option<String>,
    pub is_direct: Option<bool>,
    /// The third-party invite that led to the event, as JSON text.
    pub third_party_invite: Option<String>,
    pub blurhash: Option<String>,
    pub reason: Option<String>,
    /// The local user whose server vouches for a restricted join.
    pub join_authorized_via_users_server: Option<String>,
}

/// The content of a membership event as a mathematical value.
pub struct Content {
    pub membership: MembershipState,
    pub displayname: Option<Seq<char>>,
    pub avatar_url: Option<Seq<char>>,
    pub is_direct: Option<bool>,
    pub third_party_invite: Option<Seq<char>>,
    pub blurhash: Option<Seq<char>>,
    pub reason: Option<Seq<char>>,
    pub join_authorized_via_users_server: Option<Seq<char>>,
}

impl View for MemberContent {
    type V = Content;

    open spec fn view(&self) -> Content {
        Content {
            membership: self.membership,
            displayname: opt_view(self.displayname),
            avatar_url: opt_view(self.avatar_url),
            is_direct: self.is_direct,
            third_party_invite: opt_view(self.third_party_invite),
            blurhash: opt_view(self.blurhash),
            reason: opt_view(self.reason),
            join_authorized_via_users_server: opt_view(self.join_authorized_via_users_server),
        }
    }
}

/// The name of a membership on the wire.
pub open spec fn membership_name(m: MembershipState) -> Seq<char> {
    match m {
        MembershipState::Join => "join"@,
        MembershipState::Leave => "leave"@,
        MembershipState::Invite => "invite"@,
        MembershipState::Ban => "ban"@,
        MembershipState::Knock => "knock"@,
    }
}

/// The canonical JSON text of a membership content whose membership has
/// the given name on the wire; `None` where a user id or the third-party
/// invite in it is malformed.
pub uninterp spec fn member_content_text(membership: Seq<char>, content: Content) -> Option<
    Seq<char>,
>;

/// Builds a `ruma` `RoomMemberEventContent` with
/// `RoomMemberEventContent::new`, turns it into canonical JSON with
/// `ruma::canonical_json::to_canonical_value` and writes that with
/// `serde_json::to_string`. The result is named.
#[verifier::external_body]
fn member_content_json(membership: &str, content: &MemberContent) -> (r: Option<String>)
    ensures
        opt_view(r) == member_content_text(membership@, content@),
{
    let mut c = RoomMemberEventContent::new(membership.into());
    c.displayname = content.displayname.clone();
    c.avatar_url = content.avatar_url.clone().map(Into::into);
    c.is_direct = content.is_direct;
    c.third_party_invite =
        content.third_party_invite.as_deref().map(serde_json::from_str).transpose().ok()?;
    c.blurhash = content.blurhash.clone();
    c.reason = content.reason.clone();
    let user = content.join_authorized_via_users_server.as_deref();
    c.join_authorized_via_users_server = user.map(OwnedUserId::try_from).transpose().ok()?;
    serde_json::to_string(&to_canonical_value(c).ok()?).ok()
}

impl MembershipState {
    /// The name of the membership on the wire.
    pub fn as_str(self) -> (s: &'static str)
        ensures
            s@ == membership_name(self),
    {
        match self {
            MembershipState::Join => "join",
            MembershipState::Leave => "leave",
            MembershipState::Invite => "invite",
            MembershipState::Ban => "ban",
            MembershipState::Knock => "knock",
        }
    }
}

/// The content that says nothing but the membership.
pub open spec fn bare(membership: MembershipState) -> Content {
    Content {
        membership,
        displayname: None,
        avatar_url: None,
        is_direct: None,
        third_party_invite: None,
        blurhash: None,
        reason: None,
        join_authorized_via_users_server: None,
    }
}

impl MemberContent {
    /// The content that says nothing but the membership.
    pub fn new(membership: MembershipState) -> (c: MemberContent)
        ensures
            c@ == bare(membership),
    {
        MemberContent {
            membership,
            displayname: None,
            avatar_url: None,
            is_direct: None,
            third_party_invite: None,
            blurhash: None,
            reason: None,
            join_authorized_via_users_server: None,
        }
    }

    /// A copy of this content.
    pub fn duplicate(&self) -> (c: MemberContent)
        ensures
            c@ == self@,
    {
        MemberContent {
            membership: self.membership,
            displayname: clone_opt(&self.displayname),
            avatar_url: clone_opt(&self.avatar_url),
            is_direct: self.is_direct,
            third_party_invite: clone_opt(&self.third_party_invite),
            blurhash: clone_opt(&self.blurhash),
            reason: clone_opt(&self.reason),
            join_authorized_via_users_server: clone_opt(&self.join_authorized_via_users_server),
        }
    }

    /// The canonical JSON text of this content.
    pub fn to_json(&self) -> (r: Option<String>)
        ensures
            opt_view(r) == member_content_text(membership_name(self.membership), self@),
    {
        member_content_json(self.membership.as_str(), self)
    }
}

/// What a user's profile says about them.
#[derive(Debug)]
pub struct Profile {
    pub displayname: Option<String>,
    pub avatar_url: Option<String>,
    pub blurhash: Option<String>,
}

/// The content of a join: the user's profile, the reason given, and who
/// authorised a restricted join.
pub open spec fn join_content_of(
    profile: Profile,
    reason: Option<Seq<char>>,
    authorized_via: Option<Seq<char>>,
) -> Content {
    Content {
        displayname: opt_view(profile.displayname),
        avatar_url: opt_view(profile.avatar_url),
        blurhash: opt_view(profile.blurhash),
        reason,
        join_authorized_via_users_server: authorized_via,
        ..bare(MembershipState::Join)
    }
}

/// The content of the event by which a user joins a room.
pub fn join_content(
    profile: &Profile,
    reason: Option<String>,
    join_authorized_via_users_server: Option<String>,
) -> (c: MemberContent)
    ensures
        c@ == join_content_of(
            *profile,
            opt_view(reason),
            opt_view(join_authorized_via_users_server),
        ),
{
    MemberContent {
        membership: MembershipState::Join,
        displayname: clone_opt(&profile.displayname),
        avatar_url: clone_opt(&profile.avatar_url),
        is_direct: None,
        third_party_invite: None,
        blurhash: clone_opt(&profile.blurhash),
        reason,
        join_authorized_via_users_server,
    }
}

/// The content of an invite. An invite to a user of another server carries
/// only the avatar; an invite to a local user carries the whole profile.
pub open spec fn invite_content_of(
    profile: Profile,
    local: bool,
    is_direct: bool,
    reason: Option<Seq<char>>,
) -> Content {
    Content {
        displayname: if local {
            opt_view(profile.displayname)
        } else {
            None
        },
        avatar_url: opt_view(profile.avatar_url),
        blurhash: if local {
            opt_view(profile.blurhash)
        } else {
            None
        },
        is_direct: Some(is_direct),
        reason,
        ..bare(MembershipState::Invite)
    }
}

/// The content of the event by which a user is invited.
pub fn invite_content(profile: &Profile, local: bool, is_direct: bool, reason: Option<String>) -> (c:
    MemberContent)
    ensures
        c@ == invite_content_of(*profile, local, is_direct, opt_view(reason)),
{
    MemberContent {
        membership: MembershipState::Invite,
        displayname: if local {
            clone_opt(&profile.displayname)
        } else {
            None
        },
        avatar_url: clone_opt(&profile.avatar_url),
        is_direct: Some(is_direct),
        third_party_invite: None,
        blurhash: if local {
            clone_opt(&profile.blurhash)
        } else {
            None
        },
        reason,
        join_authorized_via_users_server: None,
    }
}

/// The content of the event by which a user leaves or is kicked: the
/// current content with the membership `leave` and the new reason.
pub fn leave_content(event: &MemberContent, reason: Option<String>) -> (c: MemberContent)
    ensures
        c@ == (Content { membership: MembershipState::Leave, reason: opt_view(reason), ..event@ }),
{
    let mut c = event.duplicate();
    c.membership = MembershipState::Leave;
    c.reason = reason;
    c
}

/// The content of a kick. Only a user with a membership event in the room
/// can be kicked.
pub fn kick_content(event: Option<&MemberContent>, reason: Option<String>) -> (r: Result<
    MemberContent,
    Error,
>)
    ensures
        event is None <==> r is Err,
        r matches Err(e) ==> e.is(
            ErrorKind::BadState,
            "Cannot kick member that's not in the room."@,
        ),
        r matches Ok(c) ==> c@ == (Content {
            membership: MembershipState::Leave,
            reason: opt_view(reason),
            ..event->0@
        }),
{
    match event {
        Some(current) => Ok(leave_content(current, reason)),
        None => Err(Error::new(ErrorKind::BadState, "Cannot kick member that's not in the room.")),
    }
}

/// The content of a ban: the membership `ban`, the given blurhash and
/// reason, no name, no avatar and no authorising user; the rest of the
/// current content stays.
pub open spec fn ban_content_of(
    event: Option<Content>,
    blurhash: Option<Seq<char>>,
    reason: Option<Seq<char>>,
) -> Content {
    match event {
        Some(current) => Content {
            membership: MembershipState::Ban,
            displayname: None,
            avatar_url: None,
            blurhash,
            reason,
            join_authorized_via_users_server: None,
            ..current
        },
        None => Content { blurhash, reason, ..bare(MembershipState::Ban) },
    }
}

/// The content of the event by which a user is banned.
pub fn ban_content(event: Option<&MemberContent>, blurhash: Option<String>, reason: Option<String>)
    -> (c: MemberContent)
    ensures
        c@ == ban_content_of(
            match event {
                Some(e) => Some(e@),
                None => None,
            },
            opt_view(blurhash),
            opt_view(reason),
        ),
{
    match event {
        Some(current) => MemberContent {
            membership: MembershipState::Ban,
            displayname: None,
            avatar_url: None,
            is_direct: current.is_direct,
            third_party_invite: clone_opt(&current.third_party_invite),
            blurhash,
            reason,
            join_authorized_via_users_server: None,
        },
        None => {
            let mut c = MemberContent::new(MembershipState::Ban);
            c.blurhash = blurhash;
            c.reason = reason;
            c
        },
    }
}

/// The content of an unban. Only a user with a membership event in the
/// room can be unbanned.
pub fn unban_content(event: Option<&MemberContent>, reason: Option<String>) -> (r: Result<
    MemberContent,
    Error,
>)
    ensures
        event is None <==> r is Err,
        r matches Err(e) ==> e.is(ErrorKind::BadState, "Cannot unban a user who is not banned."@),
        r matches Ok(c) ==> c@ == (Content {
            membership: MembershipState::Leave,
            reason: opt_view(reason),
            join_authorized_via_users_server: None,
            ..event->0@
        }),
{
    match event {
        Some(current) => {
            let mut c = leave_content(current, reason);
            c.join_authorized_via_users_server = None;
            Ok(c)
        },
        None => Err(Error::new(ErrorKind::BadState, "Cannot unban a user who is not banned.")),
    }
}

} // verus!
