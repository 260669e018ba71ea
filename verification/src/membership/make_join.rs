//! The first half of the federation handshake: asking the candidate
//! servers, one after the other, to prepare a join.
//!
//! The servers are asked in the order given, this server left out. The
//! search is given up once fifteen answers in a row have said that the room
//! version is not supported, or once fifty servers have failed.

use crate::error::{Error, ErrorKind};
use crate::text::views;
use vstd::prelude::*;
use vstd::string::*;

verus! {

/// How many answers "room version not supported" in a row end the search.
pub const INCOMPATIBLE_LIMIT: u8 = 15;

/// How many failed servers end the search.
pub const ATTEMPT_LIMIT: u16 = 50;

/// Whether `needle` occurs in `hay`.
pub open spec fn occurs_in(needle: Seq<char>, hay: Seq<char>) -> bool {
    exists|i: int|
        0 <= i && i + needle.len() <= hay.len() && #[trigger] hay.subrange(
            i,
            i + needle.len(),
        ) == needle
}

fn chars_of(s: &str) -> (v: Vec<char>)
    ensures
        v@ == s@,
{
    let n = s.unicode_len();
    let mut v: Vec<char> = Vec::new();
    let mut i: usize = 0;
    while i < n
        invariant
            n == s@.len(),
            i <= n,
            v@ == s@.subrange(0, i as int),
        decreases n - i,
    {
        v.push(s.get_char(i));
        i = i + 1;
        assert(v@ =~= s@.subrange(0, i as int));
    }
    assert(s@.subrange(0, n as int) =~= s@);
    v
}

/// Whether `needle` occurs in `hay`.
pub fn contains_text(hay: &str, needle: &str) -> (r: bool)
    ensures
        r == occurs_in(needle@, hay@),
{
    let h = chars_of(hay);
    let n = chars_of(needle);
    if n.len() > h.len() {
        assert(!occurs_in(needle@, hay@));
        return false;
    }
    let last = h.len() - n.len();
    let mut i: usize = 0;
    while i <= last
        invariant
            h@ == hay@,
            n@ == needle@,
            n.len() <= h.len(),
            last == h.len() - n.len(),
            i <= last + 1,
            forall|k: int| 0 <= k < i ==> #[trigger] hay@.subrange(k, k + needle@.len()) != needle@,
        decreases last + 1 - i,
    {
        let mut j: usize = 0;
        let mut same = true;
        while j < n.len() && same
            invariant
                h@ == hay@,
                n@ == needle@,
                i + n.len() <= h.len(),
                j <= n.len(),
                same ==> forall|k: int| 0 <= k < j ==> h@[i + k] == n@[k],
                !same ==> exists|k: int| 0 <= k < n.len() && h@[i + k] != n@[k],
            decreases
                    n.len() - j + if same {
                        1int
                    } else {
                        0int
                    },
        {
            if h[i + j] != n[j] {
                same = false;
            } else {
                j = j + 1;
            }
        }
        if same {
            assert(hay@.subrange(i as int, i + needle@.len()) =~= needle@);
            return true;
        }
        proof {
            let k = choose|k: int| 0 <= k < n.len() && h@[i + k] != n@[k];
            assert(hay@.subrange(i as int, i + needle@.len())[k] == h@[i + k]);
        }
        i = i + 1;
    }
    false
}

/// Whether an error code says that the room version is not supported.
pub open spec fn incompatible_version(code: Seq<char>) -> bool {
    occurs_in("M_INCOMPATIBLE_ROOM_VERSION"@, code) || occurs_in("M_UNSUPPORTED_ROOM_VERSION"@, code)
}

/// Whether an error code says that the room version is not supported.
pub fn is_incompatible_version(code: &str) -> (r: bool)
    ensures
        r == incompatible_version(code@),
{
    contains_text(code, "M_INCOMPATIBLE_ROOM_VERSION") || contains_text(
        code,
        "M_UNSUPPORTED_ROOM_VERSION",
    )
}

/// Why the search was given up.
#[derive(Clone, Copy, Debug, PartialEq, Eq, Structural)]
pub enum Abort {
    /// Too many servers said that the room version is not supported.
    VersionUnsupported,
    /// Too many servers failed.
    NoServer,
}

/// How many servers have failed, and how many of the last of them in a
/// row over the version.
#[derive(Clone, Copy, Debug, PartialEq, Eq, Structural)]
pub struct Counters {
    pub attempts: u16,
    pub incompatible: u8,
}

impl Counters {
    /// Neither limit is reached.
    pub open spec fn below_limits(self) -> bool {
        self.attempts < 50 && self.incompatible < 15
    }

    /// The counters after one more failure, and whether the search ends
    /// with it. A failure of another kind ends a run of failures over the
    /// version. The version limit is looked at first.
    pub open spec fn after_failure(self, incompatible: bool) -> (Counters, Option<Abort>) {
        let next = Counters {
            attempts: (self.attempts + 1) as u16,
            incompatible: if incompatible {
                (self.incompatible + 1) as u8
            } else {
                0
            },
        };
        if next.incompatible >= 15 {
            (next, Some(Abort::VersionUnsupported))
        } else if next.attempts >= 50 {
            (next, Some(Abort::NoServer))
        } else {
            (next, None)
        }
    }
}

/// The counters after a run of failures, each of them over the version or
/// not, and how the search ended if it did. Nothing is counted once the
/// search has ended.
pub open spec fn after_failures(kinds: Seq<bool>) -> (Counters, Option<Abort>)
    decreases kinds.len(),
{
    if kinds.len() == 0 {
        (Counters { attempts: 0, incompatible: 0 }, None)
    } else {
        let (counters, abort) = after_failures(kinds.drop_last());
        if abort is Some {
            (counters, abort)
        } else {
            counters.after_failure(kinds.last())
        }
    }
}

/// Fifteen answers in a row that the room version is not supported end the
/// search with exactly that, and not before the fifteenth.
pub proof fn lemma_fifteen_incompatible(kinds: Seq<bool>)
    requires
        kinds.len() <= 15,
        forall|i: int| 0 <= i < kinds.len() ==> kinds[i],
    ensures
        after_failures(kinds).0 == (Counters {
            attempts: kinds.len() as u16,
            incompatible: kinds.len() as u8,
        }),
        kinds.len() < 15 ==> after_failures(kinds).1 is None,
        kinds.len() == 15 ==> after_failures(kinds).1 == Some(Abort::VersionUnsupported),
    decreases kinds.len(),
{
    if kinds.len() > 0 {
        lemma_fifteen_incompatible(kinds.drop_last());
    }
}

/// How many failures over the version stand at the end of the run.
pub open spec fn trailing_incompatible(kinds: Seq<bool>) -> nat
    decreases kinds.len(),
{
    if kinds.len() == 0 {
        0
    } else if kinds.last() {
        trailing_incompatible(kinds.drop_last()) + 1
    } else {
        0
    }
}

/// Whether the run never holds fifteen failures over the version in a row.
pub open spec fn no_fifteen_in_a_row(kinds: Seq<bool>) -> bool {
    forall|k: int| 0 <= k <= kinds.len() ==> trailing_incompatible(#[trigger] kinds.subrange(0, k))
        < 15
}

/// Fifty failures without fifteen in a row over the version end the search
/// for want of a server, and not before the fiftieth.
pub proof fn lemma_fifty_attempts(kinds: Seq<bool>)
    requires
        kinds.len() <= 50,
        no_fifteen_in_a_row(kinds),
    ensures
        after_failures(kinds).0 == (Counters {
            attempts: kinds.len() as u16,
            incompatible: trailing_incompatible(kinds) as u8,
        }),
        kinds.len() < 50 ==> after_failures(kinds).1 is None,
        kinds.len() == 50 ==> after_failures(kinds).1 == Some(Abort::NoServer),
    decreases kinds.len(),
{
    assert(kinds.subrange(0, kinds.len() as int) =~= kinds);
    if kinds.len() > 0 {
        let earlier = kinds.drop_last();
        assert forall|k: int| 0 <= k <= earlier.len() implies trailing_incompatible(
            #[trigger] earlier.subrange(0, k),
        ) < 15 by {
            assert(earlier.subrange(0, k) =~= kinds.subrange(0, k));
        }
        lemma_fifty_attempts(earlier);
    }
}

/// The text of the error that ends the search.
pub open spec fn abort_message(abort: Abort) -> Seq<char> {
    match abort {
        Abort::VersionUnsupported => "Room version is not supported by Conduwuit"@,
        Abort::NoServer => "No server available to assist in joining."@,
    }
}

/// The error that ends the search.
pub fn abort_error(abort: Abort) -> (e: Error)
    ensures
        e.is(ErrorKind::BadServerResponse, abort_message(abort)),
{
    match abort {
        Abort::VersionUnsupported => Error::new(
            ErrorKind::BadServerResponse,
            "Room version is not supported by Conduwuit",
        ),
        Abort::NoServer => Error::new(
            ErrorKind::BadServerResponse,
            "No server available to assist in joining.",
        ),
    }
}

/// The first position from `from` on that holds another server than `own`;
/// the length of the list where there is none.
pub open spec fn next_remote(servers: Seq<Seq<char>>, own: Seq<char>, from: int) -> int
    decreases servers.len() - from,
{
    if from < 0 || from >= servers.len() {
        servers.len() as int
    } else if servers[from] != own {
        from
    } else {
        next_remote(servers, own, from + 1)
    }
}

/// The search for a server that prepares the join.
#[derive(Debug)]
pub struct MakeJoin {
    /// The position of the next server to look at.
    pub next: usize,
    pub counters: Counters,
    /// What the server asked last answered, if it failed.
    pub last_error: Option<Error>,
}

/// What the search does next.
#[derive(Debug)]
pub enum MakeJoinAction {
    /// Ask the server at this position of the list to prepare the join.
    Ask(usize),
    /// Give up with this error.
    Fail(Error),
}

impl MakeJoin {
    /// The search can go on.
    pub open spec fn wf(&self) -> bool {
        self.counters.below_limits()
    }

    /// The error when no server is left: what the last server answered, or
    /// that there was none to ask.
    pub open spec fn exhausted_message(&self) -> Seq<char> {
        match self.last_error {
            Some(e) => e.message@,
            None => "No server available to assist in joining."@,
        }
    }

    /// The kind of the error when no server is left.
    pub open spec fn exhausted_kind(&self) -> ErrorKind {
        match self.last_error {
            Some(e) => e.kind,
            None => ErrorKind::BadServerResponse,
        }
    }

    /// A search that has asked nobody yet.
    pub fn new() -> (s: MakeJoin)
        ensures
            s.wf(),
            s.next == 0,
            s.counters == (Counters { attempts: 0, incompatible: 0 }),
            s.last_error is None,
    {
        MakeJoin { next: 0, counters: Counters { attempts: 0, incompatible: 0 }, last_error: None }
    }

    /// Picks the next server to ask: the next one in the list that is not
    /// this server. Where none is left, the search fails with what the last
    /// server answered, or with "no server available" where none was asked.
    pub fn advance(&mut self, servers: &Vec<String>, own: &str) -> (action: MakeJoinAction)
        requires
            old(self).wf(),
        ensures
            final(self).wf(),
            final(self).counters == old(self).counters,
            ({
                let i = next_remote(views(servers@), own@, old(self).next as int);
                &&& 0 <= i <= servers@.len()
                &&& if i < servers@.len() {
                    &&& action == MakeJoinAction::Ask(i as usize)
                    &&& final(self).next == i + 1
                    &&& servers@[i]@ != own@
                    &&& final(self).last_error == old(self).last_error
                } else {
                    &&& action matches MakeJoinAction::Fail(e)
                    &&& e.is(old(self).exhausted_kind(), old(self).exhausted_message())
                }
            }),
    {
        let own_name = own.to_owned();
        let ghost list = views(servers@);
        let mut i: usize = self.next;
        while i < servers.len()
            invariant
                list == views(servers@),
                own_name@ == own@,
                old(self).wf(),
                next_remote(list, own@, old(self).next as int) == next_remote(list, own@, i as int),
                *self == *old(self),
            decreases servers.len() - i,
        {
            assert(list[i as int] == servers@[i as int]@);
            if servers[i] != own_name {
                self.next = i + 1;
                return MakeJoinAction::Ask(i);
            }
            i = i + 1;
        }
        match &self.last_error {
            Some(e) => MakeJoinAction::Fail(e.duplicate()),
            None => MakeJoinAction::Fail(
                Error::new(ErrorKind::BadServerResponse, "No server available to assist in joining."),
            ),
        }
    }

    /// Takes note that the server asked last has failed with the error
    /// code `code`, and picks the next server, unless a limit is reached.
    pub fn failed(&mut self, code: &str, error: Error, servers: &Vec<String>, own: &str) -> (action:
        MakeJoinAction)
        requires
            old(self).wf(),
        ensures
            ({
                let (counters, abort) = old(self).counters.after_failure(
                    incompatible_version(code@),
                );
                match abort {
                    Some(a) => {
                        &&& action matches MakeJoinAction::Fail(e)
                        &&& e.is(ErrorKind::BadServerResponse, abort_message(a))
                    },
                    None => {
                        let i = next_remote(views(servers@), own@, old(self).next as int);
                        &&& final(self).wf()
                        &&& final(self).counters == counters
                        &&& 0 <= i <= servers@.len()
                        &&& if i < servers@.len() {
                            &&& action == MakeJoinAction::Ask(i as usize)
                            &&& final(self).next == i + 1
                            &&& servers@[i]@ != own@
                        } else {
                            &&& action matches MakeJoinAction::Fail(e)
                            &&& e.is(error.kind, error.message@)
                        }
                    },
                }
            }),
    {
        let attempts = self.counters.attempts + 1;
        let incompatible = if is_incompatible_version(code) {
            self.counters.incompatible + 1
        } else {
            0
        };
        self.counters = Counters { attempts, incompatible };
        if incompatible >= INCOMPATIBLE_LIMIT {
            return MakeJoinAction::Fail(abort_error(Abort::VersionUnsupported));
        }
        if attempts >= ATTEMPT_LIMIT {
            return MakeJoinAction::Fail(abort_error(Abort::NoServer));
        }
        self.last_error = Some(error);
        self.advance(servers, own)
    }
}

} // verus!
