use rusty_backup::backup::Backup;
use rusty_backup::configuration::destination::{
    parse_listing_time, select_latest_entry, sftp_entry_time, template_literal_prefix, Destination,
    Kind,
};
use rusty_backup::restore::Restore;

fn entries(raw: Vec<(&str, Option<i64>)>) -> Vec<(String, Option<i64>)> {
    raw.into_iter().map(|(k, t)| (String::from(k), t)).collect()
}

#[test]
fn newest_remote_entry_wins() {
    let list = entries(vec![
        ("weekly-Mon.tar", Some(100)),
        ("weekly-Tue.tar", Some(200)),
        ("weekly-Wed.tar", Some(150)),
    ]);
    assert_eq!(select_latest_entry(&list, None), Some(1));
}

#[test]
fn remote_tie_keeps_the_earlier_entry() {
    let list = entries(vec![("a", Some(5)), ("b", Some(5))]);
    assert_eq!(select_latest_entry(&list, None), Some(0));
}

#[test]
fn remote_entries_without_timestamp_are_skipped() {
    let list = entries(vec![("a", None), ("b", Some(1)), ("c", None)]);
    assert_eq!(select_latest_entry(&list, None), Some(1));
    let empty = entries(vec![("a", None)]);
    assert_eq!(select_latest_entry(&empty, None), None);
}

#[test]
fn remote_prefix_narrows_the_search() {
    let list = entries(vec![
        ("other-9.tar", Some(900)),
        ("weekly-Mon.tar", Some(100)),
        ("weekly-Tue.tar", Some(200)),
    ]);
    let prefix = String::from("weekly-");
    assert_eq!(select_latest_entry(&list, Some(&prefix)), Some(2));
    let unmatched = String::from("monthly-");
    assert_eq!(select_latest_entry(&list, Some(&unmatched)), None);
}

#[test]
fn newest_local_candidate_wins() {
    // Two candidates found on disk: the one created later is restored.
    let created = vec![Some(1709510400u64), Some(1709596800u64)];
    assert_eq!(Restore::get_newest_archive_name_in_directory(&created), Some(1));
}

#[test]
fn local_candidates_tie_keeps_the_earlier() {
    let created = vec![Some(7u64), Some(7u64), None];
    assert_eq!(Restore::get_newest_archive_name_in_directory(&created), Some(0));
}

#[test]
fn missing_local_candidates_are_no_error() {
    let created: Vec<Option<u64>> = vec![None, None];
    assert_eq!(Restore::get_newest_archive_name_in_directory(&created), None);
}

#[test]
fn template_prefix_stops_at_the_first_placeholder() {
    assert_eq!(template_literal_prefix("daily-{date:year}"), Some(String::from("daily-")));
    assert_eq!(template_literal_prefix("{date:year}-x"), None);
    assert_eq!(template_literal_prefix("plain"), None);
}

#[test]
fn listing_timestamps_parse_the_store_format() {
    assert_eq!(parse_listing_time(Some("2024-03-07T12:00:00.000Z")), Some(1709812800000));
    assert_eq!(parse_listing_time(Some("2024-03-07T12:00:00.500Z")), Some(1709812800500));
    assert_eq!(parse_listing_time(Some("not-a-date")), None);
    assert_eq!(parse_listing_time(None), None);
}

#[test]
fn sftp_times_keep_their_value() {
    assert_eq!(sftp_entry_time(Some(777)), Some(777));
    // The last second of year 9999 is still well inside the calendar.
    assert_eq!(sftp_entry_time(Some(253402300799)), Some(253402300799));
    assert_eq!(sftp_entry_time(None), None);
}

#[test]
fn only_local_store_failures_are_fatal() {
    let mut dest = Destination::new();
    dest.kind = Kind::Directory;
    assert!(dest.store_failure_is_fatal());
    // An object-store upload failure leaves the file and the run goes on.
    dest.kind = Kind::S3;
    assert!(!dest.store_failure_is_fatal());
    dest.kind = Kind::SSH;
    assert!(!dest.store_failure_is_fatal());
    dest.kind = Kind::Unset;
    assert!(!dest.store_failure_is_fatal());
}

#[test]
fn local_move_falls_back_to_copy() {
    assert!(Backup::judge_local_move("f", "t", true, false).is_ok());
    assert!(Backup::judge_local_move("f", "t", false, true).is_ok());
    assert_eq!(
        Backup::judge_local_move("daily.tar", "/backups/daily.tar", false, false),
        Err(String::from("unable to rename and copy 'daily.tar' to '/backups/daily.tar'!"))
    );
}

#[test]
fn local_target_paths() {
    let mut dest = Destination::new();
    dest.path = String::from("/backups");
    assert_eq!(dest.local_target_path("daily.tar"), "/backups/daily.tar");
}

#[test]
fn destination_defaults() {
    let dest = Destination::new();
    assert_eq!(dest.kind, Kind::Unset);
    assert_eq!(dest.s3_region, "eu-central-1");
    assert_eq!(dest.max_archive_age, None);
}
