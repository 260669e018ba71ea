use conduwuit_core::error::ErrorKind;
use conduwuit_core::membership::content::MembershipState;
use conduwuit_core::migrations::fixes::{
    db_lt_13, fix_bad_double_separator_in_state_cache, fix_double_separator,
    retroactively_fix_bad_data_from_roomuserid_joined, StoredMember,
};
use conduwuit_core::migrations::rules::{db_lt_12, rename_rule};
use indexmap::IndexMap;
use conduwuit_core::migrations::{
    completion, fresh, migrate, migrations, Completion, MigrationStep, Sentinel, Sentinels, Startup,
    DATABASE_VERSION,
};

fn done() -> Sentinels {
    Sentinels {
        feat_sha256_media: true,
        fix_bad_double_separator_in_state_cache: true,
        retroactively_fix_bad_data_from_roomuserid_joined: true,
    }
}

fn rule(id: &str, body: &str) -> (String, String) {
    (id.to_owned(), body.to_owned())
}

fn rules(list: Vec<(String, String)>) -> IndexMap<String, String> {
    list.into_iter().collect()
}

fn ids(rules: &IndexMap<String, String>) -> Vec<(String, String)> {
    rules.iter().map(|(id, body)| (id.clone(), body.clone())).collect()
}

#[test]
fn schema_version_ten_is_no_longer_supported() {
    let error = migrate(10, done(), false).unwrap_err();
    assert_eq!(error.kind, ErrorKind::Database);
    assert_eq!(error.message, "Database schema version 10 is no longer supported");
    assert_eq!(migrate(0, done(), false).unwrap_err().message, "Database schema version 0 is no longer supported");
}

#[test]
fn schema_version_twelve_runs_only_the_last_migration() {
    assert_eq!(migrate(12, done(), false).unwrap(), vec![MigrationStep::DbLt13]);
}

#[test]
fn schema_version_eleven_runs_both_migrations_in_order() {
    assert_eq!(migrate(11, done(), false).unwrap(), vec![MigrationStep::DbLt12, MigrationStep::DbLt13]);
}

#[test]
fn current_schema_runs_only_what_is_not_marked() {
    assert_eq!(DATABASE_VERSION, 13);
    assert!(migrate(13, done(), false).unwrap().is_empty());
    assert_eq!(migrate(13, done(), true).unwrap(), vec![MigrationStep::CheckupSha256Media]);
    let nothing = Sentinels {
        feat_sha256_media: false,
        fix_bad_double_separator_in_state_cache: false,
        retroactively_fix_bad_data_from_roomuserid_joined: false,
    };
    assert_eq!(
        migrate(11, nothing, true).unwrap(),
        vec![
            MigrationStep::DbLt12,
            MigrationStep::DbLt13,
            MigrationStep::MigrateSha256Media,
            MigrationStep::FixBadDoubleSeparatorInStateCache,
            MigrationStep::RetroactivelyFixBadDataFromRoomuseridJoined,
        ]
    );
}

#[test]
fn newer_schema_does_not_start() {
    let error = migrate(14, done(), false).unwrap_err();
    assert_eq!(error.kind, ErrorKind::Database);
    assert_eq!(error.message, "Database was last used by a newer version of the server.");
    let error = migrations(14, 0, false).unwrap_err();
    assert_eq!(error.message, "Database was last used by a newer version of the server.");
}

#[test]
fn database_with_users_needs_the_server_user() {
    let error = migrations(13, 5, false).unwrap_err();
    assert_eq!(error.kind, ErrorKind::Database);
    assert_eq!(
        error.message,
        "Cannot reuse an existing database after changing the server name, please delete the old one first."
    );
    assert_eq!(migrations(13, 5, true).map_err(|e| e.kind), Ok(Startup::Migrate));
    assert_eq!(migrations(0, 0, false).map_err(|e| e.kind), Ok(Startup::Fresh));
    assert_eq!(migrations(10, 1, true).map_err(|e| e.kind), Ok(Startup::Migrate));
}

#[test]
fn new_database_is_stamped_and_marked() {
    assert_eq!(
        fresh(),
        vec![
            MigrationStep::BumpVersion(13),
            MigrationStep::MarkSeparatorFixDone,
            MigrationStep::MarkMembershipFixDone,
            MigrationStep::CreateAdminRoom,
        ]
    );
}

#[test]
fn doubled_separator_is_halved() {
    assert_eq!(fix_double_separator(&b"!room\xff\xff@user".to_vec()), Some(b"!room\xff@user".to_vec()));
    assert_eq!(fix_double_separator(&b"\xff\xff".to_vec()), Some(b"\xff".to_vec()));
    assert_eq!(fix_double_separator(&b"a\xff\xff\xffb".to_vec()), Some(b"a\xff\xffb".to_vec()));
}

#[test]
fn sound_keys_are_left_alone() {
    assert_eq!(fix_double_separator(&b"!room\xff@user".to_vec()), None);
    assert_eq!(fix_double_separator(&b"!room\xff@user\xff\xff".to_vec()), None);
    assert_eq!(fix_double_separator(&b"noseparator".to_vec()), None);
    assert_eq!(fix_double_separator(&b"end\xff".to_vec()), None);
    assert_eq!(fix_double_separator(&Vec::new()), None);
}

#[test]
fn table_fix_lists_the_rows_to_replace() {
    let rows = vec![
        (b"a\xffb".to_vec(), b"1".to_vec()),
        (b"c\xff\xffd".to_vec(), b"2".to_vec()),
        (b"e\xff\xfff".to_vec(), b"3".to_vec()),
    ];
    let fixes = fix_bad_double_separator_in_state_cache(&rows);
    assert_eq!(fixes.len(), 2);
    assert_eq!(fixes[0].old_key, b"c\xff\xffd".to_vec());
    assert_eq!(fixes[0].new_key, b"c\xffd".to_vec());
    assert_eq!(fixes[0].value, b"2".to_vec());
    assert_eq!(fixes[1].new_key, b"e\xfff".to_vec());
}

#[test]
fn members_are_sorted_into_joined_and_left() {
    let members = vec![
        StoredMember { user_id: "@a:x".to_owned(), membership: Some(MembershipState::Join) },
        StoredMember { user_id: "@b:x".to_owned(), membership: Some(MembershipState::Leave) },
        StoredMember { user_id: "@c:x".to_owned(), membership: None },
        StoredMember { user_id: "@d:x".to_owned(), membership: Some(MembershipState::Ban) },
        StoredMember { user_id: "@e:x".to_owned(), membership: Some(MembershipState::Join) },
        StoredMember { user_id: "@f:x".to_owned(), membership: Some(MembershipState::Invite) },
    ];
    let fix = retroactively_fix_bad_data_from_roomuserid_joined(&members);
    assert_eq!(fix.joined, vec!["@a:x".to_owned(), "@e:x".to_owned()]);
    assert_eq!(fix.left, vec!["@b:x".to_owned(), "@c:x".to_owned(), "@d:x".to_owned(), "@f:x".to_owned()]);
}

#[test]
fn no_member_is_marked_both_joined_and_left() {
    let members = vec![
        StoredMember { user_id: "@a:x".to_owned(), membership: Some(MembershipState::Join) },
        StoredMember { user_id: "@b:x".to_owned(), membership: Some(MembershipState::Leave) },
    ];
    let fix = retroactively_fix_bad_data_from_roomuserid_joined(&members);
    assert!(fix.joined.iter().all(|user| !fix.left.contains(user)));
    assert_eq!(fix.joined.len() + fix.left.len(), members.len());
}

#[test]
fn renamed_rule_moves_to_the_end() {
    let mut list = rules(vec![rule(".a", "1"), rule(".old", "2"), rule(".b", "3")]);
    rename_rule(&mut list, ".old", ".new");
    assert_eq!(
        ids(&list),
        vec![(".a".to_owned(), "1".to_owned()), (".b".to_owned(), "3".to_owned()), (".new".to_owned(), "2".to_owned())]
    );
    rename_rule(&mut list, ".missing", ".x");
    assert_eq!(list.len(), 3);
}

#[test]
fn renamed_rule_yields_to_one_that_has_the_name() {
    let mut list = rules(vec![rule(".old", "old body"), rule(".new", "new body")]);
    rename_rule(&mut list, ".old", ".new");
    assert_eq!(ids(&list), vec![(".new".to_owned(), "new body".to_owned())]);
}

#[test]
fn version_twelve_renames_the_predefined_rules() {
    let mut content = rules(vec![rule(".m.rules.contains_user_name", "c"), rule("custom", "x")]);
    let mut underride = rules(vec![
        rule(".m.rules.call", "1"),
        rule(".m.rule.message", "kept"),
        rule(".m.rules.room_one_to_one", "2"),
        rule(".m.rules.encrypted_room_one_to_one", "3"),
        rule(".m.rules.message", "dropped"),
        rule(".m.rules.encrypted", "5"),
    ]);
    db_lt_12(&mut content, &mut underride);
    assert_eq!(
        ids(&content),
        vec![("custom".to_owned(), "x".to_owned()), (".m.rule.contains_user_name".to_owned(), "c".to_owned())]
    );
    assert_eq!(
        ids(&underride),
        vec![
            (".m.rule.message".to_owned(), "kept".to_owned()),
            (".m.rule.call".to_owned(), "1".to_owned()),
            (".m.rule.room_one_to_one".to_owned(), "2".to_owned()),
            (".m.rule.encrypted_room_one_to_one".to_owned(), "3".to_owned()),
            (".m.rule.encrypted".to_owned(), "5".to_owned()),
        ]
    );
}

#[test]
fn version_thirteen_brings_rules_up_to_the_defaults() {
    let stored = r#"{"type":"m.push_rules","content":{"global":{"override":[],"content":[],"room":[],"sender":[],"underride":[]}}}"#;
    let updated = db_lt_13("@alice:x.example", stored).unwrap();
    assert_ne!(updated, stored);
    assert!(updated.contains(".m.rule.master"));
    assert!(updated.contains(".m.rule.contains_user_name"));
    assert!(updated.contains("alice"));
    assert_eq!(db_lt_13("@alice:x.example", &updated), Some(updated.clone()));
}

#[test]
fn version_thirteen_passes_over_what_it_cannot_read() {
    assert_eq!(db_lt_13("@alice:x.example", "{"), None);
    assert_eq!(db_lt_13("not a user", r#"{"type":"m.push_rules","content":{"global":{}}}"#), None);
}

#[test]
fn a_finished_step_leaves_its_version_and_its_mark() {
    assert_eq!(completion(MigrationStep::DbLt12), Completion { version: Some(12), sentinel: None });
    assert_eq!(completion(MigrationStep::DbLt13), Completion { version: Some(13), sentinel: None });
    assert_eq!(completion(MigrationStep::BumpVersion(13)), Completion { version: Some(13), sentinel: None });
    assert_eq!(
        completion(MigrationStep::FixBadDoubleSeparatorInStateCache),
        Completion { version: None, sentinel: Some(Sentinel::FixBadDoubleSeparatorInStateCache) }
    );
    assert_eq!(
        completion(MigrationStep::MarkSeparatorFixDone).sentinel,
        Some(Sentinel::FixBadDoubleSeparatorInStateCache)
    );
    assert_eq!(
        completion(MigrationStep::RetroactivelyFixBadDataFromRoomuseridJoined),
        Completion { version: None, sentinel: Some(Sentinel::RetroactivelyFixBadDataFromRoomuseridJoined) }
    );
    assert_eq!(
        completion(MigrationStep::MarkMembershipFixDone).sentinel,
        Some(Sentinel::RetroactivelyFixBadDataFromRoomuseridJoined)
    );
    assert_eq!(
        completion(MigrationStep::MigrateSha256Media),
        Completion { version: None, sentinel: Some(Sentinel::FeatSha256Media) }
    );
    assert_eq!(completion(MigrationStep::CheckupSha256Media), Completion { version: None, sentinel: None });
    assert_eq!(completion(MigrationStep::CreateAdminRoom), Completion { version: None, sentinel: None });
}

#[test]
fn named_fixes_run_once_over_two_starts() {
    let mut marks = Sentinels {
        feat_sha256_media: false,
        fix_bad_double_separator_in_state_cache: false,
        retroactively_fix_bad_data_from_roomuserid_joined: true,
    };
    let mut version = 12;
    let first = migrate(version, marks, false).unwrap();
    assert_eq!(
        first,
        vec![
            MigrationStep::DbLt13,
            MigrationStep::MigrateSha256Media,
            MigrationStep::FixBadDoubleSeparatorInStateCache
        ]
    );
    for step in first {
        let done = completion(step);
        if let Some(v) = done.version {
            version = v;
        }
        match done.sentinel {
            Some(Sentinel::FeatSha256Media) => marks.feat_sha256_media = true,
            Some(Sentinel::FixBadDoubleSeparatorInStateCache) => marks.fix_bad_double_separator_in_state_cache = true,
            Some(Sentinel::RetroactivelyFixBadDataFromRoomuseridJoined) => {
                marks.retroactively_fix_bad_data_from_roomuserid_joined = true
            },
            None => {},
        }
    }
    assert_eq!(version, DATABASE_VERSION);
    assert!(migrate(version, marks, false).unwrap().is_empty());
}

#[test]
fn sentinel_keys() {
    assert_eq!(Sentinel::FeatSha256Media.key(), "feat_sha256_media");
    assert_eq!(Sentinel::FixBadDoubleSeparatorInStateCache.key(), "fix_bad_double_separator_in_state_cache");
    assert_eq!(
        Sentinel::RetroactivelyFixBadDataFromRoomuseridJoined.key(),
        "retroactively_fix_bad_data_from_roomuserid_joined"
    );
}
