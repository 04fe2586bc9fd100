use uptime_monitor::record::SystemInfo;
use uptime_monitor::status::SystemStatus;
use uptime_monitor::store::{path_of, render, update_status, update_status_at, STATUS_DIR};

#[test]
fn status_file_is_named_after_the_id() {
    assert_eq!(STATUS_DIR, "status");
    assert_eq!(path_of("api"), "status/api.json");
    assert_eq!(path_of("website"), "status/website.json");
    assert_eq!(path_of(""), "status/.json");
}

#[test]
fn rendered_file_holds_the_record_as_json() {
    let record = SystemInfo { id: String::from("api"), status: SystemStatus::Red, updated: 160, created: 130 };
    let file = render(&record).unwrap();
    assert_eq!(file.path, "status/api.json");
    assert_eq!(file.contents, "{\"id\":\"api\",\"status\":\"Red\",\"updated\":160,\"created\":130}");
}

#[test]
fn update_at_a_given_time_records_and_renders() {
    let mut record = SystemInfo::new("api");
    let file = update_status_at(&mut record, SystemStatus::Green, 100).unwrap();
    assert_eq!((record.status, record.created, record.updated), (SystemStatus::Green, 100, 100));
    assert_eq!(file.path, "status/api.json");
    assert_eq!(file.contents, "{\"id\":\"api\",\"status\":\"Green\",\"updated\":100,\"created\":100}");

    let file = update_status_at(&mut record, SystemStatus::Red, 130).unwrap();
    assert_eq!((record.status, record.created, record.updated), (SystemStatus::Red, 130, 130));
    assert_eq!(file.contents, "{\"id\":\"api\",\"status\":\"Red\",\"updated\":130,\"created\":130}");

    let file = update_status_at(&mut record, SystemStatus::Red, 160).unwrap();
    assert_eq!((record.status, record.created, record.updated), (SystemStatus::Red, 130, 160));
    assert_eq!(file.path, "status/api.json");
    assert_eq!(file.contents, "{\"id\":\"api\",\"status\":\"Red\",\"updated\":160,\"created\":130}");
}

#[test]
fn each_update_renders_the_whole_record_anew() {
    let mut record = SystemInfo::new("website");
    let first = update_status_at(&mut record, SystemStatus::Green, 1000000).unwrap();
    let second = update_status_at(&mut record, SystemStatus::Green, 5).unwrap();
    assert_eq!(first.path, second.path);
    assert_eq!(
        second.contents,
        "{\"id\":\"website\",\"status\":\"Green\",\"updated\":5,\"created\":1000000}"
    );
}

#[test]
fn update_now_stamps_the_record_with_the_clock() {
    let mut record = SystemInfo::new("website");
    let file = update_status(&mut record, SystemStatus::Red).unwrap();
    assert_eq!(record.status, SystemStatus::Red);
    assert!(record.updated > 1_600_000_000);
    assert_eq!(record.created, record.updated);
    assert_eq!(file.path, "status/website.json");
    assert_eq!(
        file.contents,
        format!(
            "{{\"id\":\"website\",\"status\":\"Red\",\"updated\":{},\"created\":{}}}",
            record.updated, record.created
        )
    );

    let created = record.created;
    let updated = record.updated;
    let file = update_status(&mut record, SystemStatus::Red).unwrap();
    assert_eq!(record.status, SystemStatus::Red);
    assert_eq!(record.created, created);
    assert!(record.updated >= updated);
    assert_eq!(file.contents, record.to_json().unwrap());
}
