use rusty_backup::backup::Backup;
use rusty_backup::restore::Restore;
use rusty_backup::template::{weekday_str, Date};

fn date(year: i32, month: u32, day: u32, weekday: u32) -> Date {
    Date::from_calendar(year, month, day, weekday).unwrap()
}

#[test]
fn resolves_full_date_template() {
    let d = date(2024, 3, 7, 3);
    let resolved = Backup::build_real_archive_name("daily-{date:year}-{date:month}-{date:day}", &d);
    assert_eq!(resolved, "daily-2024-03-07");
}

#[test]
fn resolves_literal_template_unchanged() {
    let d = date(2024, 3, 7, 3);
    assert_eq!(Backup::build_real_archive_name("plain-name", &d), "plain-name");
}

#[test]
fn resolves_weekday_template() {
    let d = date(2024, 3, 7, 3);
    assert_eq!(Backup::build_real_archive_name("w-{date:weekday}", &d), "w-Thu");
}

#[test]
fn resolves_fields_zero_padded() {
    let d = date(7, 3, 9, 0);
    assert_eq!(Backup::build_real_archive_name("{date:year}", &d), "0007");
    assert_eq!(Backup::build_real_archive_name("{date:month}", &d), "03");
    assert_eq!(Backup::build_real_archive_name("{date:day}", &d), "09");
}

#[test]
fn resolves_repeated_placeholders() {
    let d = date(2024, 3, 7, 3);
    assert_eq!(Backup::build_real_archive_name("a{date:day}b{date:day}", &d), "a07b07");
}

#[test]
fn resolves_today_for_literal_template() {
    let resolved = Backup::build_archive_name_today("plain-name").unwrap();
    assert_eq!(resolved, "plain-name");
}

#[test]
fn weekday_names_monday_first() {
    let names: Vec<&str> = (0u8..7).map(weekday_str).collect();
    assert_eq!(names, vec!["Mon", "Tue", "Wed", "Thu", "Fri", "Sat", "Sun"]);
}

#[test]
fn candidates_for_weekday_template() {
    let c = Restore::build_possible_archive_names("weekly-{date:weekday}");
    assert_eq!(
        c,
        vec![
            "weekly-Mon",
            "weekly-Tue",
            "weekly-Wed",
            "weekly-Thu",
            "weekly-Fri",
            "weekly-Sat",
            "weekly-Sun"
        ]
    );
    for i in 0..7 {
        for j in 0..7 {
            if i != j {
                assert_ne!(c[i], c[j]);
            }
        }
    }
}

#[test]
fn candidates_for_literal_template() {
    let c = Restore::build_possible_archive_names("plain");
    assert_eq!(c, vec!["plain"]);
}

#[test]
fn candidates_leave_other_placeholders_verbatim() {
    let c = Restore::build_possible_archive_names("x-{date:year}");
    assert_eq!(c, vec!["x-{date:year}"]);
}

#[test]
fn candidates_replace_first_weekday_occurrence_only() {
    let c = Restore::build_possible_archive_names("a-{date:weekday}-{date:weekday}");
    assert_eq!(c[0], "a-Mon-{date:weekday}");
    assert_eq!(c[6], "a-Sun-{date:weekday}");
}
