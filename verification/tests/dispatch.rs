use rusty_backup::configuration::command::CommandOutcome;
use rusty_backup::configuration::credential::Credential;
use rusty_backup::configuration::database::{Database, Kind};
use rusty_backup::configuration::directory::Directory;
use rusty_backup::configuration::program_parameter::ProgramParameter;
use rusty_backup::configuration::Configuration;
use rusty_backup::restore::{EntryAction, Restore};

fn app_dir() -> Directory {
    let mut dir = Directory::new();
    dir.name = String::from("/data/app");
    dir
}

fn mydb() -> Database {
    let mut db = Database::new();
    db.name = String::from("mydb");
    db
}

#[test]
fn entry_under_a_directory_unpacks_below_its_parent() {
    let dirs = vec![app_dir()];
    let dbs = vec![mydb()];
    match Restore::classify_entry("app/conf/settings.ini", &dirs, &dbs) {
        EntryAction::UnpackDirectory { dir_index, unpack_path } => {
            assert_eq!(dir_index, 0);
            assert_eq!(unpack_path, "/data/app/conf/settings.ini");
        },
        _ => panic!("expected a directory entry"),
    }
}

#[test]
fn directory_with_trailing_separator_matches_by_leaf() {
    let mut dir = Directory::new();
    dir.name = String::from("/data/app/");
    match Restore::classify_entry("app/x", &vec![dir], &vec![]) {
        EntryAction::UnpackDirectory { dir_index, unpack_path } => {
            assert_eq!(dir_index, 0);
            assert_eq!(unpack_path, "/data/app/x");
        },
        _ => panic!("expected a directory entry"),
    }
}

#[test]
fn first_matching_directory_wins() {
    let mut one = Directory::new();
    one.name = String::from("/first/app");
    let mut two = Directory::new();
    two.name = String::from("/second/app");
    match Restore::classify_entry("app/x", &vec![one, two], &vec![]) {
        EntryAction::UnpackDirectory { dir_index, .. } => assert_eq!(dir_index, 0),
        _ => panic!("expected a directory entry"),
    }
}

#[test]
fn database_dump_entry_restores_that_database() {
    let dirs = vec![app_dir()];
    let dbs = vec![mydb()];
    match Restore::classify_entry("mydb.sql", &dirs, &dbs) {
        EntryAction::RestoreDatabases { db_indices } => assert_eq!(db_indices, vec![0]),
        _ => panic!("expected a database entry"),
    }
}

#[test]
fn database_entry_matches_the_kind_extension() {
    let mut bson = mydb();
    bson.kind = Kind::MongoDB;
    let dbs = vec![mydb(), bson];
    match Restore::classify_entry("mydb.bson", &vec![], &dbs) {
        EntryAction::RestoreDatabases { db_indices } => assert_eq!(db_indices, vec![1]),
        _ => panic!("expected a database entry"),
    }
}

#[test]
fn unmatched_entries_are_ignored() {
    let dirs = vec![app_dir()];
    let dbs = vec![mydb()];
    match Restore::classify_entry("stray/file.txt", &dirs, &dbs) {
        EntryAction::Ignored => {},
        _ => panic!("expected the entry to be ignored"),
    }
}

#[test]
fn failed_import_skips_only_that_database() {
    let dirs = vec![app_dir()];
    let dbs = vec![mydb()];
    // The import command of the matched database exits non-zero: that
    // database's restore fails with a logged error ...
    let db = &dbs[0];
    assert!(db.import_database(&CommandOutcome::Exited(Some(1))).is_err());
    // ... and a later directory entry of the same archive still unpacks.
    match Restore::classify_entry("app/later.txt", &dirs, &dbs) {
        EntryAction::UnpackDirectory { unpack_path, .. } => {
            assert_eq!(unpack_path, "/data/app/later.txt");
        },
        _ => panic!("expected a directory entry"),
    }
}

#[test]
fn restore_error_wrapper() {
    assert_eq!(Restore::map_error("lost"), "error: lost");
}

#[test]
fn directory_without_owner_has_no_ids() {
    let dir = app_dir();
    assert_eq!(dir.get_uid(), None);
    assert_eq!(dir.get_gid(), None);
}

#[test]
fn directory_with_root_owner_resolves_ids() {
    let mut dir = app_dir();
    dir.user = Some(String::from("root"));
    dir.group = Some(String::from("root"));
    assert_eq!(dir.get_uid(), Some(0));
    assert_eq!(dir.get_gid(), Some(0));
}

#[test]
fn configuration_defaults() {
    let conf = Configuration::new();
    assert!(conf.archives.is_empty());
    assert!(conf.databases.is_empty());
    assert!(conf.credentials.is_empty());
    assert!(conf.destinations.is_empty());
    assert!(conf.encryptions.is_empty());
    assert_eq!(conf.working_directory, "");
}

#[test]
fn credential_and_parameter_defaults() {
    let cred = Credential::new();
    assert_eq!(cred.username, "");
    assert_eq!(cred.password, "");
    let param = ProgramParameter::new();
    assert_eq!(param.longname, None);
    assert_eq!(param.shortname, None);
    assert_eq!(param.value, None);
    assert_eq!(param.assign_sign, "=");
}
