//! Schema migrations: what the server does to its database when it starts.
//!
//! The stored schema version gates the start. A database that is newer
//! than this server does not start; one that is older than the earliest
//! version supported does not either. In between, the migrations run in
//! rising order of version, each leaving the version it leads to. Fixes
//! that have a name run once, marked by a sentinel.

pub mod fixes;
pub mod rules;

use crate::error::{Error, ErrorKind};
use crate::text::{decimal, decimal_string};
use vstd::prelude::*;
use vstd::string::*;

verus! {

/// The schema version that this server works with.
pub const DATABASE_VERSION: u64 = 13;

/// The earliest schema version from which this server can migrate.
pub const EARLIEST_VERSION: u64 = 11;

/// How the server starts.
#[derive(Clone, Copy, Debug, PartialEq, Eq, Structural)]
pub enum Startup {
    /// The database is new: it is set up from nothing.
    Fresh,
    /// The database has users: it is migrated.
    Migrate,
}

/// Why the server does not start; `None` where it does.
pub open spec fn startup_refusal(stored_version: u64, users: nat, server_user_exists: bool)
    -> Option<Seq<char>> {
    if stored_version > 13 {
        Some("Database was last used by a newer version of the server."@)
    } else if users > 0 && !server_user_exists {
        Some(
            "Cannot reuse an existing database after changing the server name, please delete the old one first."@,
        )
    } else {
        None
    }
}

/// Decides how the server starts.
///
/// A database with a schema newer than `DATABASE_VERSION` is refused. So is
/// a database with users in which the server's own user is missing: the
/// server name has changed. A database without users is new; any other is
/// migrated.
pub fn migrations(stored_version: u64, users_count: usize, server_user_exists: bool) -> (r: Result<
    Startup,
    Error,
>)
    ensures
        r is Err <==> startup_refusal(stored_version, users_count as nat, server_user_exists)
            is Some,
        r matches Err(e) ==> e.is(
            ErrorKind::Database,
            startup_refusal(stored_version, users_count as nat, server_user_exists)->0,
        ),
        r matches Ok(s) ==> s == if users_count > 0 {
            Startup::Migrate
        } else {
            Startup::Fresh
        },
{
    if stored_version > DATABASE_VERSION {
        return Err(
            Error::new(
                ErrorKind::Database,
                "Database was last used by a newer version of the server.",
            ),
        );
    }
    if users_count > 0 && !server_user_exists {
        return Err(
            Error::new(
                ErrorKind::Database,
                "Cannot reuse an existing database after changing the server name, please delete the old one first.",
            ),
        );
    }
    if users_count > 0 {
        Ok(Startup::Migrate)
    } else {
        Ok(Startup::Fresh)
    }
}

/// One thing done to the database at startup.
#[derive(Clone, Copy, Debug, PartialEq, Eq, Structural)]
pub enum MigrationStep {
    /// Stamp the database with this schema version.
    BumpVersion(u64),
    /// Note that the fix for doubled separators in the state cache is done.
    MarkSeparatorFixDone,
    /// Note that the fix for memberships in the state cache is done.
    MarkMembershipFixDone,
    /// Create the admin room and the server's user.
    CreateAdminRoom,
    /// Rename the push rules that version 11 stored under their old names;
    /// leads to version 12.
    DbLt12,
    /// Bring the push rules up to the server's defaults; leads to version
    /// 13.
    DbLt13,
    /// Move the media to names made of their SHA-256; a successful run
    /// marks the database with the feature.
    MigrateSha256Media,
    /// Check that the media are where the database says.
    CheckupSha256Media,
    /// Repair state-cache keys with a doubled separator; a successful run
    /// marks the fix as done.
    FixBadDoubleSeparatorInStateCache,
    /// Repair memberships in the state cache from the room state; a
    /// successful run marks the fix as done.
    RetroactivelyFixBadDataFromRoomuseridJoined,
}

/// What a new database is given.
pub open spec fn fresh_steps() -> Seq<MigrationStep> {
    seq![
        MigrationStep::BumpVersion(13),
        MigrationStep::MarkSeparatorFixDone,
        MigrationStep::MarkMembershipFixDone,
        MigrationStep::CreateAdminRoom,
    ]
}

/// Sets a new database up: it is stamped with the current schema version,
/// the named fixes are marked as done, since a new database needs none, and
/// the admin room is created.
pub fn fresh() -> (steps: Vec<MigrationStep>)
    ensures
        steps@ == fresh_steps(),
{
    let mut steps: Vec<MigrationStep> = Vec::new();
    steps.push(MigrationStep::BumpVersion(DATABASE_VERSION));
    steps.push(MigrationStep::MarkSeparatorFixDone);
    steps.push(MigrationStep::MarkMembershipFixDone);
    steps.push(MigrationStep::CreateAdminRoom);
    assert(steps@ =~= fresh_steps());
    steps
}

/// Which named fixes and features the database is marked with.
#[derive(Clone, Copy, Debug, PartialEq, Eq, Structural)]
pub struct Sentinels {
    pub feat_sha256_media: bool,
    pub fix_bad_double_separator_in_state_cache: bool,
    pub retroactively_fix_bad_data_from_roomuserid_joined: bool,
}

/// The migrations that lead from the stored version to the current one, in
/// rising order.
pub open spec fn version_steps(stored_version: u64) -> Seq<MigrationStep> {
    (if stored_version < 12 {
        seq![MigrationStep::DbLt12]
    } else {
        Seq::empty()
    }) + (if stored_version < 13 {
        seq![MigrationStep::DbLt13]
    } else {
        Seq::empty()
    })
}

/// The steps that do not change the version: the media migration or
/// check, and the named fixes that are not marked as done.
pub open spec fn named_steps(sentinels: Sentinels, media_startup_check: bool) -> Seq<
    MigrationStep,
> {
    (if !sentinels.feat_sha256_media {
        seq![MigrationStep::MigrateSha256Media]
    } else if media_startup_check {
        seq![MigrationStep::CheckupSha256Media]
    } else {
        Seq::empty()
    }) + (if !sentinels.fix_bad_double_separator_in_state_cache {
        seq![MigrationStep::FixBadDoubleSeparatorInStateCache]
    } else {
        Seq::empty()
    }) + (if !sentinels.retroactively_fix_bad_data_from_roomuserid_joined {
        seq![MigrationStep::RetroactivelyFixBadDataFromRoomuseridJoined]
    } else {
        Seq::empty()
    })
}

/// The schema version after a step.
pub open spec fn version_after_step(version: u64, step: MigrationStep) -> u64 {
    match step {
        MigrationStep::BumpVersion(v) => v,
        MigrationStep::DbLt12 => 12,
        MigrationStep::DbLt13 => 13,
        _ => version,
    }
}

/// The schema version after the steps, in order.
pub open spec fn version_after(version: u64, steps: Seq<MigrationStep>) -> u64
    decreases steps.len(),
{
    if steps.len() == 0 {
        version
    } else {
        version_after_step(version_after(version, steps.drop_last()), steps.last())
    }
}

/// A mark in the database that a named fix or feature is in place.
#[derive(Clone, Copy, Debug, PartialEq, Eq, Structural)]
pub enum Sentinel {
    FeatSha256Media,
    FixBadDoubleSeparatorInStateCache,
    RetroactivelyFixBadDataFromRoomuseridJoined,
}

impl Sentinel {
    /// The key of the mark in the table of global values.
    pub fn key(self) -> (k: &'static str)
        ensures
            k@ == match self {
                Sentinel::FeatSha256Media => "feat_sha256_media"@,
                Sentinel::FixBadDoubleSeparatorInStateCache => "fix_bad_double_separator_in_state_cache"@,
                Sentinel::RetroactivelyFixBadDataFromRoomuseridJoined => "retroactively_fix_bad_data_from_roomuserid_joined"@,
            },
    {
        match self {
            Sentinel::FeatSha256Media => "feat_sha256_media",
            Sentinel::FixBadDoubleSeparatorInStateCache => "fix_bad_double_separator_in_state_cache",
            Sentinel::RetroactivelyFixBadDataFromRoomuseridJoined => "retroactively_fix_bad_data_from_roomuserid_joined",
        }
    }
}

impl Sentinels {
    /// The marks with one more set.
    pub open spec fn with(self, mark: Sentinel) -> Sentinels {
        match mark {
            Sentinel::FeatSha256Media => Sentinels { feat_sha256_media: true, ..self },
            Sentinel::FixBadDoubleSeparatorInStateCache => Sentinels {
                fix_bad_double_separator_in_state_cache: true,
                ..self
            },
            Sentinel::RetroactivelyFixBadDataFromRoomuseridJoined => Sentinels {
                retroactively_fix_bad_data_from_roomuserid_joined: true,
                ..self
            },
        }
    }

    /// Whether every named fix and feature is marked.
    pub open spec fn all_set(self) -> bool {
        self.feat_sha256_media && self.fix_bad_double_separator_in_state_cache
            && self.retroactively_fix_bad_data_from_roomuserid_joined
    }
}

/// The mark that a step sets when it has succeeded, if it sets one.
pub open spec fn mark_of_step(step: MigrationStep) -> Option<Sentinel> {
    match step {
        MigrationStep::MarkSeparatorFixDone => Some(Sentinel::FixBadDoubleSeparatorInStateCache),
        MigrationStep::FixBadDoubleSeparatorInStateCache => Some(
            Sentinel::FixBadDoubleSeparatorInStateCache,
        ),
        MigrationStep::MarkMembershipFixDone => Some(
            Sentinel::RetroactivelyFixBadDataFromRoomuseridJoined,
        ),
        MigrationStep::RetroactivelyFixBadDataFromRoomuseridJoined => Some(
            Sentinel::RetroactivelyFixBadDataFromRoomuseridJoined,
        ),
        MigrationStep::MigrateSha256Media => Some(Sentinel::FeatSha256Media),
        _ => None,
    }
}

/// The marks after a step.
pub open spec fn sentinels_after_step(sentinels: Sentinels, step: MigrationStep) -> Sentinels {
    match mark_of_step(step) {
        Some(mark) => sentinels.with(mark),
        None => sentinels,
    }
}

/// The marks after the steps, in order.
pub open spec fn sentinels_after(sentinels: Sentinels, steps: Seq<MigrationStep>) -> Sentinels
    decreases steps.len(),
{
    if steps.len() == 0 {
        sentinels
    } else {
        sentinels_after_step(sentinels_after(sentinels, steps.drop_last()), steps.last())
    }
}

/// What is written down once a step has succeeded.
#[derive(Clone, Copy, Debug, PartialEq, Eq, Structural)]
pub struct Completion {
    /// The schema version to stamp the database with.
    pub version: Option<u64>,
    /// The mark to set.
    pub sentinel: Option<Sentinel>,
}

/// What is written down once `step` has succeeded: the schema version that
/// the step leads to, and the mark of the fix or feature that it puts in
/// place. A step that has not succeeded leaves nothing behind, so that it
/// runs again at the next start.
pub fn completion(step: MigrationStep) -> (c: Completion)
    ensures
        c.sentinel == mark_of_step(step),
        forall|version: u64|
            #[trigger] version_after_step(version, step) == match c.version {
                Some(v) => v,
                None => version,
            },
{
    let version = match step {
        MigrationStep::BumpVersion(v) => Some(v),
        MigrationStep::DbLt12 => Some(12),
        MigrationStep::DbLt13 => Some(13),
        _ => None,
    };
    let sentinel = match step {
        MigrationStep::MarkSeparatorFixDone => Some(Sentinel::FixBadDoubleSeparatorInStateCache),
        MigrationStep::FixBadDoubleSeparatorInStateCache => Some(
            Sentinel::FixBadDoubleSeparatorInStateCache,
        ),
        MigrationStep::MarkMembershipFixDone => Some(
            Sentinel::RetroactivelyFixBadDataFromRoomuseridJoined,
        ),
        MigrationStep::RetroactivelyFixBadDataFromRoomuseridJoined => Some(
            Sentinel::RetroactivelyFixBadDataFromRoomuseridJoined,
        ),
        MigrationStep::MigrateSha256Media => Some(Sentinel::FeatSha256Media),
        _ => None,
    };
    Completion { version, sentinel }
}

/// The text of the refusal of a schema version that is too old.
pub open spec fn unsupported_message(stored_version: u64) -> Seq<char> {
    "Database schema version "@ + decimal(stored_version as nat) + " is no longer supported"@
}

/// Plans the migration of a database with users.
///
/// A schema version below 11 or above 13 is refused. Otherwise the
/// migrations to versions 12 and 13 run as far as they are still due, then
/// the media migration (or, if asked for, the media check), then the named
/// fixes that the database is not yet marked with.
pub fn migrate(stored_version: u64, sentinels: Sentinels, media_startup_check: bool) -> (r: Result<
    Vec<MigrationStep>,
    Error,
>)
    ensures
        r is Ok <==> 11 <= stored_version <= 13,
        r matches Ok(steps) ==> steps@ == version_steps(stored_version) + named_steps(
            sentinels,
            media_startup_check,
        ),
        r matches Err(e) ==> e.kind == ErrorKind::Database && e.message@ == (if stored_version
            < 11 {
            unsupported_message(stored_version)
        } else {
            "Database was last used by a newer version of the server."@
        }),
{
    if stored_version < EARLIEST_VERSION {
        let message = "Database schema version ".to_owned().concat(
            decimal_string(stored_version).as_str(),
        ).concat(" is no longer supported");
        assert(message@ =~= unsupported_message(stored_version));
        return Err(Error { kind: ErrorKind::Database, message });
    }
    if stored_version > DATABASE_VERSION {
        return Err(
            Error::new(
                ErrorKind::Database,
                "Database was last used by a newer version of the server.",
            ),
        );
    }
    let mut steps: Vec<MigrationStep> = Vec::new();
    if stored_version < 12 {
        steps.push(MigrationStep::DbLt12);
    }
    if stored_version < 13 {
        steps.push(MigrationStep::DbLt13);
    }
    assert(steps@ =~= version_steps(stored_version));
    if !sentinels.feat_sha256_media {
        steps.push(MigrationStep::MigrateSha256Media);
    } else if media_startup_check {
        steps.push(MigrationStep::CheckupSha256Media);
    }
    if !sentinels.fix_bad_double_separator_in_state_cache {
        steps.push(MigrationStep::FixBadDoubleSeparatorInStateCache);
    }
    if !sentinels.retroactively_fix_bad_data_from_roomuserid_joined {
        steps.push(MigrationStep::RetroactivelyFixBadDataFromRoomuseridJoined);
    }
    assert(steps@ =~= version_steps(stored_version) + named_steps(sentinels, media_startup_check));
    Ok(steps)
}

proof fn lemma_version_after_short(version: u64, step: MigrationStep)
    ensures
        version_after(version, Seq::<MigrationStep>::empty()) == version,
        version_after(version, seq![step]) == version_after_step(version, step),
{
    assert(seq![step].drop_last() =~= Seq::<MigrationStep>::empty());
    reveal_with_fuel(version_after, 2);
}

proof fn lemma_version_after_concat(
    version: u64,
    first: Seq<MigrationStep>,
    second: Seq<MigrationStep>,
)
    ensures
        version_after(version, first + second) == version_after(
            version_after(version, first),
            second,
        ),
    decreases second.len(),
{
    if second.len() == 0 {
        assert(first + second =~= first);
    } else {
        assert((first + second).drop_last() =~= first + second.drop_last());
        lemma_version_after_concat(version, first, second.drop_last());
    }
}

/// A planned migration ends at the current schema version, and so does
/// setting up a new database.
pub proof fn lemma_migration_reaches_current(
    stored_version: u64,
    sentinels: Sentinels,
    media_startup_check: bool,
)
    requires
        11 <= stored_version <= 13,
    ensures
        version_after(
            stored_version,
            version_steps(stored_version) + named_steps(sentinels, media_startup_check),
        ) == 13,
        version_after(stored_version, fresh_steps()) == 13,
{
    let lt12 = if stored_version < 12 {
        seq![MigrationStep::DbLt12]
    } else {
        Seq::empty()
    };
    let lt13 = if stored_version < 13 {
        seq![MigrationStep::DbLt13]
    } else {
        Seq::empty()
    };
    let media = if !sentinels.feat_sha256_media {
        seq![MigrationStep::MigrateSha256Media]
    } else if media_startup_check {
        seq![MigrationStep::CheckupSha256Media]
    } else {
        Seq::empty()
    };
    let separator = if !sentinels.fix_bad_double_separator_in_state_cache {
        seq![MigrationStep::FixBadDoubleSeparatorInStateCache]
    } else {
        Seq::empty()
    };
    let membership = if !sentinels.retroactively_fix_bad_data_from_roomuserid_joined {
        seq![MigrationStep::RetroactivelyFixBadDataFromRoomuseridJoined]
    } else {
        Seq::empty()
    };
    lemma_version_after_short(stored_version, MigrationStep::DbLt12);
    let v12 = version_after(stored_version, lt12);
    lemma_version_after_short(v12, MigrationStep::DbLt13);
    let v13 = version_after(v12, lt13);
    assert(v13 == 13);
    lemma_version_after_short(13, MigrationStep::MigrateSha256Media);
    lemma_version_after_short(13, MigrationStep::CheckupSha256Media);
    lemma_version_after_short(13, MigrationStep::FixBadDoubleSeparatorInStateCache);
    lemma_version_after_short(13, MigrationStep::RetroactivelyFixBadDataFromRoomuseridJoined);
    lemma_version_after_concat(stored_version, lt12, lt13);
    lemma_version_after_concat(13, media, separator);
    lemma_version_after_concat(13, media + separator, membership);
    lemma_version_after_concat(stored_version, lt12 + lt13, media + separator + membership);
    let three = seq![
        MigrationStep::BumpVersion(13),
        MigrationStep::MarkSeparatorFixDone,
        MigrationStep::MarkMembershipFixDone,
    ];
    let two = seq![MigrationStep::BumpVersion(13), MigrationStep::MarkSeparatorFixDone];
    let one = seq![MigrationStep::BumpVersion(13)];
    lemma_version_after_short(stored_version, MigrationStep::BumpVersion(13));
    assert(two.drop_last() =~= one);
    assert(three.drop_last() =~= two);
    assert(fresh_steps().drop_last() =~= three);
    assert(version_after(stored_version, two) == 13);
    assert(version_after(stored_version, three) == 13);
}

proof fn lemma_sentinels_after_short(sentinels: Sentinels, step: MigrationStep)
    ensures
        sentinels_after(sentinels, Seq::<MigrationStep>::empty()) == sentinels,
        sentinels_after(sentinels, seq![step]) == sentinels_after_step(sentinels, step),
{
    assert(seq![step].drop_last() =~= Seq::<MigrationStep>::empty());
    reveal_with_fuel(sentinels_after, 2);
}

proof fn lemma_sentinels_after_concat(
    sentinels: Sentinels,
    first: Seq<MigrationStep>,
    second: Seq<MigrationStep>,
)
    ensures
        sentinels_after(sentinels, first + second) == sentinels_after(
            sentinels_after(sentinels, first),
            second,
        ),
    decreases second.len(),
{
    if second.len() == 0 {
        assert(first + second =~= first);
    } else {
        assert((first + second).drop_last() =~= first + second.drop_last());
        lemma_sentinels_after_concat(sentinels, first, second.drop_last());
    }
}

/// A named fix is planned exactly while its mark is absent; after the plan
/// every mark is set, so that the next plan holds no named fix: each runs
/// once.
pub proof fn lemma_named_fixes_run_once(
    stored_version: u64,
    sentinels: Sentinels,
    media_startup_check: bool,
)
    ensures
        named_steps(sentinels, media_startup_check).contains(
            MigrationStep::FixBadDoubleSeparatorInStateCache,
        ) <==> !sentinels.fix_bad_double_separator_in_state_cache,
        named_steps(sentinels, media_startup_check).contains(
            MigrationStep::RetroactivelyFixBadDataFromRoomuseridJoined,
        ) <==> !sentinels.retroactively_fix_bad_data_from_roomuserid_joined,
        named_steps(sentinels, media_startup_check).contains(MigrationStep::MigrateSha256Media)
            <==> !sentinels.feat_sha256_media,
        sentinels_after(
            sentinels,
            version_steps(stored_version) + named_steps(sentinels, media_startup_check),
        ).all_set(),
        forall|marked: Sentinels|
            marked.all_set() ==> #[trigger] named_steps(marked, false) == Seq::<
                MigrationStep,
            >::empty(),
{
    let lt12 = if stored_version < 12 {
        seq![MigrationStep::DbLt12]
    } else {
        Seq::empty()
    };
    let lt13 = if stored_version < 13 {
        seq![MigrationStep::DbLt13]
    } else {
        Seq::empty()
    };
    let media = if !sentinels.feat_sha256_media {
        seq![MigrationStep::MigrateSha256Media]
    } else if media_startup_check {
        seq![MigrationStep::CheckupSha256Media]
    } else {
        Seq::empty()
    };
    let separator = if !sentinels.fix_bad_double_separator_in_state_cache {
        seq![MigrationStep::FixBadDoubleSeparatorInStateCache]
    } else {
        Seq::empty()
    };
    let membership = if !sentinels.retroactively_fix_bad_data_from_roomuserid_joined {
        seq![MigrationStep::RetroactivelyFixBadDataFromRoomuseridJoined]
    } else {
        Seq::empty()
    };
    let named = media + separator + membership;
    assert(named == named_steps(sentinels, media_startup_check));
    assert forall|step: MigrationStep| named.contains(step) <==> (media.contains(step)
        || separator.contains(step) || membership.contains(step)) by {
        if named.contains(step) {
            let i = choose|i: int| 0 <= i < named.len() && named[i] == step;
            if i < media.len() {
                assert(media[i] == step);
            } else if i < media.len() + separator.len() {
                assert(separator[i - media.len()] == step);
            } else {
                assert(membership[i - media.len() - separator.len()] == step);
            }
        }
        if media.contains(step) {
            let i = choose|i: int| 0 <= i < media.len() && media[i] == step;
            assert(named[i] == step);
        }
        if separator.contains(step) {
            let i = choose|i: int| 0 <= i < separator.len() && separator[i] == step;
            assert(named[media.len() + i] == step);
        }
        if membership.contains(step) {
            let i = choose|i: int| 0 <= i < membership.len() && membership[i] == step;
            assert(named[media.len() + separator.len() + i] == step);
        }
    }
    assert(seq![MigrationStep::MigrateSha256Media][0] == MigrationStep::MigrateSha256Media);
    assert(seq![MigrationStep::CheckupSha256Media][0] == MigrationStep::CheckupSha256Media);
    assert(seq![MigrationStep::FixBadDoubleSeparatorInStateCache][0]
        == MigrationStep::FixBadDoubleSeparatorInStateCache);
    assert(seq![MigrationStep::RetroactivelyFixBadDataFromRoomuseridJoined][0]
        == MigrationStep::RetroactivelyFixBadDataFromRoomuseridJoined);

    lemma_sentinels_after_short(sentinels, MigrationStep::DbLt12);
    let s1 = sentinels_after(sentinels, lt12);
    lemma_sentinels_after_short(s1, MigrationStep::DbLt13);
    let s2 = sentinels_after(s1, lt13);
    assert(s2 == sentinels);
    lemma_sentinels_after_short(sentinels, MigrationStep::MigrateSha256Media);
    lemma_sentinels_after_short(sentinels, MigrationStep::CheckupSha256Media);
    let s3 = sentinels_after(sentinels, media);
    lemma_sentinels_after_short(s3, MigrationStep::FixBadDoubleSeparatorInStateCache);
    let s4 = sentinels_after(s3, separator);
    lemma_sentinels_after_short(s4, MigrationStep::RetroactivelyFixBadDataFromRoomuseridJoined);
    let s5 = sentinels_after(s4, membership);
    assert(s5.all_set());
    lemma_sentinels_after_concat(sentinels, lt12, lt13);
    lemma_sentinels_after_concat(sentinels, media, separator);
    lemma_sentinels_after_concat(sentinels, media + separator, membership);
    lemma_sentinels_after_concat(sentinels, lt12 + lt13, named);
    assert forall|marked: Sentinels| marked.all_set() implies #[trigger] named_steps(
        marked,
        false,
    ) == Seq::<MigrationStep>::empty() by {
        assert(named_steps(marked, false) =~= Seq::<MigrationStep>::empty());
    }
}

} // verus!
