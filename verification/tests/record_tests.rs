use uptime_monitor::record::SystemInfo;
use uptime_monitor::status::SystemStatus;

fn fields(record: &SystemInfo) -> (SystemStatus, u64, u64) {
    (record.status, record.created, record.updated)
}

#[test]
fn fresh_record_is_green_and_unset() {
    let record = SystemInfo::new("api");
    assert_eq!(record.id, "api");
    assert_eq!(record.status, SystemStatus::Green);
    assert_eq!(record.created, 0);
    assert_eq!(record.updated, 0);
}

#[test]
fn first_green_observation_sets_both_timestamps() {
    let mut record = SystemInfo::new("api");
    record.apply_observation(SystemStatus::Green, 100);
    assert_eq!(record.id, "api");
    assert_eq!(fields(&record), (SystemStatus::Green, 100, 100));
}

#[test]
fn change_to_red_resets_created() {
    let mut record = SystemInfo::new("api");
    record.apply_observation(SystemStatus::Green, 100);
    record.apply_observation(SystemStatus::Red, 130);
    assert_eq!(record.id, "api");
    assert_eq!(fields(&record), (SystemStatus::Red, 130, 130));
}

#[test]
fn repeated_red_advances_updated_alone() {
    let mut record = SystemInfo::new("api");
    record.apply_observation(SystemStatus::Green, 100);
    record.apply_observation(SystemStatus::Red, 130);
    record.apply_observation(SystemStatus::Red, 160);
    assert_eq!(record.id, "api");
    assert_eq!(fields(&record), (SystemStatus::Red, 130, 160));
}

#[test]
fn same_observation_at_the_same_instant_changes_nothing() {
    let mut record = SystemInfo::new("website");
    record.apply_observation(SystemStatus::Red, 50);
    let before = fields(&record);
    record.apply_observation(SystemStatus::Red, 50);
    assert_eq!(fields(&record), before);
}

#[test]
fn flip_flop_is_not_debounced() {
    let mut record = SystemInfo::new("website");
    record.apply_observation(SystemStatus::Green, 10);
    record.apply_observation(SystemStatus::Red, 40);
    assert_eq!(fields(&record), (SystemStatus::Red, 40, 40));
    record.apply_observation(SystemStatus::Green, 70);
    assert_eq!(fields(&record), (SystemStatus::Green, 70, 70));
    record.apply_observation(SystemStatus::Red, 100);
    assert_eq!(fields(&record), (SystemStatus::Red, 100, 100));
}

#[test]
fn updated_follows_the_clock_and_created_moves_on_transitions_only() {
    let checks = [
        (SystemStatus::Green, 5u64),
        (SystemStatus::Green, 35),
        (SystemStatus::Red, 65),
        (SystemStatus::Red, 65),
        (SystemStatus::Red, 95),
        (SystemStatus::Yellow, 125),
        (SystemStatus::Green, 155),
        (SystemStatus::Green, 185),
    ];
    let mut record = SystemInfo::new("api");
    for (observed, now) in checks {
        let (status, created, updated) = fields(&record);
        let transition = observed != status || created == 0;
        record.apply_observation(observed, now);
        assert_eq!(record.updated, now);
        assert!(record.updated >= updated);
        assert_eq!(record.updated == updated, now == updated);
        assert_eq!(record.created != created, transition);
        assert_eq!(record.status, observed);
        assert!(record.created <= record.updated);
        assert_eq!(record.id, "api");
    }
    assert_eq!(fields(&record), (SystemStatus::Green, 155, 185));
}

#[test]
fn yellow_is_recorded_like_any_other_status() {
    let mut record = SystemInfo::new("api");
    record.apply_observation(SystemStatus::Yellow, 7);
    assert_eq!(fields(&record), (SystemStatus::Yellow, 7, 7));
    record.apply_observation(SystemStatus::Yellow, 9);
    assert_eq!(fields(&record), (SystemStatus::Yellow, 7, 9));
}

#[test]
fn observation_at_time_zero_leaves_created_unset() {
    let mut record = SystemInfo::new("api");
    record.apply_observation(SystemStatus::Green, 0);
    assert_eq!(fields(&record), (SystemStatus::Green, 0, 0));
    record.apply_observation(SystemStatus::Green, 30);
    assert_eq!(fields(&record), (SystemStatus::Green, 30, 30));
}

#[test]
fn clock_running_back_is_recorded_as_it_reads() {
    let mut record = SystemInfo::new("api");
    record.apply_observation(SystemStatus::Green, 100);
    record.apply_observation(SystemStatus::Green, 40);
    assert_eq!(fields(&record), (SystemStatus::Green, 100, 40));
}

#[test]
fn largest_timestamp_is_recorded() {
    let mut record = SystemInfo::new("api");
    record.apply_observation(SystemStatus::Red, u64::MAX);
    assert_eq!(fields(&record), (SystemStatus::Red, u64::MAX, u64::MAX));
}

#[test]
fn status_tags_and_names() {
    assert_eq!(SystemStatus::Green.tag(), 1);
    assert_eq!(SystemStatus::Yellow.tag(), 2);
    assert_eq!(SystemStatus::Red.tag(), 3);
    assert_eq!(SystemStatus::Green.name(), "Green");
    assert_eq!(SystemStatus::Yellow.name(), "Yellow");
    assert_eq!(SystemStatus::Red.name(), "Red");
}
