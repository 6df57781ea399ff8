use rusty_backup::helper::ProgressStats;

#[test]
fn cumulative_total_survives_window_eviction() {
    let mut stats = ProgressStats::new(0);
    stats.add_progressed_size(100, 1000);
    stats.add_progressed_size(200, 5000);
    stats.add_progressed_size(300, 12500);
    // The first sample is more than ten seconds old and is gone.
    assert_eq!(stats.time_series, vec![(5000, 200), (12500, 300)]);
    // The cumulative total still counts every byte.
    assert_eq!(stats.progressed_size, 600);
}

#[test]
fn window_speed_excludes_stale_samples() {
    let mut stats = ProgressStats::new(0);
    stats.add_progressed_size(100, 1000);
    stats.add_progressed_size(200, 5000);
    stats.add_progressed_size(300, 12500);
    // Ten-second window: 500 bytes over the 7.5s span since the oldest
    // fresh sample, rounded down to 7 whole seconds.
    assert_eq!(stats.get_average_speed_for_last_10_seconds(12500), 500 / 7);
    // One-second window: only the newest sample, over the 1s floor.
    assert_eq!(stats.get_average_speed_for_last_second(12500), 300);
}

#[test]
fn overall_average_speed() {
    let mut stats = ProgressStats::new(0);
    stats.add_progressed_size(600, 12500);
    assert_eq!(stats.get_average_speed(12500), 600 * 1000 / 12500);
    // Below one second of runtime the elapsed time is clamped to one
    // second.
    let mut quick = ProgressStats::new(0);
    quick.add_progressed_size(500, 200);
    assert_eq!(quick.get_average_speed(200), 500);
}

#[test]
fn projected_times() {
    let mut stats = ProgressStats::new(0);
    stats.total_length = Some(1200);
    stats.add_progressed_size(600, 12500);
    assert_eq!(stats.get_runtime(12500), 12500);
    assert_eq!(stats.get_total_duration(12500), Some(25000));
    assert_eq!(stats.get_ete(12500), Some(12500));
    assert_eq!(stats._get_eta(12500), Some(25000));
    assert_eq!(stats.get_formatted_ete(12500), Some(String::from("00:00:12")));
}

#[test]
fn projections_need_progress() {
    let mut stats = ProgressStats::new(0);
    stats.total_length = Some(1200);
    assert_eq!(stats.get_total_duration(500), None);
    assert_eq!(stats.get_ete(500), None);
    assert_eq!(stats.get_formatted_ete(500), None);
    let bare = ProgressStats::new(0);
    assert_eq!(bare.get_total_duration(500), None);
}

#[test]
fn formats_durations() {
    assert_eq!(ProgressStats::get_formatted_duration(0), "00:00:00");
    assert_eq!(ProgressStats::get_formatted_duration(3725000), "01:02:05");
    assert_eq!(ProgressStats::get_formatted_duration(359999000), "99:59:59");
    assert_eq!(ProgressStats::get_formatted_duration(360000000), "100:00:00");
}

#[test]
fn formatted_runtime_counts_from_start() {
    let stats = ProgressStats::new(1000);
    assert_eq!(stats.get_formatted_runtime(63000), "00:01:02");
    // A clock reading before the start counts as no elapsed time.
    assert_eq!(stats.get_runtime(500), 0);
}

#[test]
fn set_progressed_size_records_the_difference() {
    let mut stats = ProgressStats::new(0);
    stats.set_progressed_size(50, 100);
    stats.set_progressed_size(80, 200);
    assert_eq!(stats.progressed_size, 80);
    assert_eq!(stats.time_series, vec![(100, 50), (200, 30)]);
}

#[test]
fn finished_flag() {
    let mut stats = ProgressStats::new(0);
    assert!(!stats.is_finished());
    stats.set_finished();
    assert!(stats.is_finished());
}

#[test]
fn start_time_is_kept() {
    let stats = ProgressStats::new(777);
    assert_eq!(stats._get_start_time(), 777);
}
