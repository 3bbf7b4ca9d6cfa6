use disk_inventory::health::{HealthIndex, ProbeReport};
use disk_inventory::smartctl::{Device, SmartCtl, SmartCtlError};

fn record(reported: Option<&str>, model: &str) -> SmartCtl {
    SmartCtl {
        device: reported.map(|name| Device {
            _type: "sat".to_string(),
            protocol: "ATA".to_string(),
            name: name.to_string(),
        }),
        model_name: Some(model.to_string()),
        model_family: None,
        serial_number: None,
        firmware_version: None,
        nvme_smart_health_information_log: None,
        ata_smart_attributes: None,
    }
}

fn done(device: &str, reported: Option<&str>, model: &str) -> Result<ProbeReport, String> {
    Ok(ProbeReport { device: device.to_string(), result: Ok(record(reported, model)) })
}

fn failed(device: &str) -> Result<ProbeReport, String> {
    Ok(ProbeReport {
        device: device.to_string(),
        result: Err(SmartCtlError::Decode("EOF while parsing".to_string())),
    })
}

fn model_under<'a>(index: &'a HealthIndex, identity: &str) -> Option<&'a str> {
    index.lookup(identity).and_then(|r| r.model_name.as_deref())
}

#[test]
fn new_index_holds_nothing() {
    let index = HealthIndex::new();
    assert!(index.lookup("sda").is_none());
    assert!(index.lookup("").is_none());
}

#[test]
fn insert_then_lookup() {
    let mut index = HealthIndex::new();
    index.insert("sda".to_string(), record(None, "A"));
    index.insert("sdb".to_string(), record(None, "B"));
    assert_eq!(model_under(&index, "sda"), Some("A"));
    assert_eq!(model_under(&index, "sdb"), Some("B"));
    assert_eq!(model_under(&index, "sdc"), None);
    assert_eq!(model_under(&index, "sd"), None);
}

#[test]
fn insert_replaces_the_record_of_the_same_identity() {
    let mut index = HealthIndex::new();
    index.insert("sda".to_string(), record(None, "old"));
    index.insert("sdb".to_string(), record(None, "B"));
    index.insert("sda".to_string(), record(None, "new"));
    assert_eq!(model_under(&index, "sda"), Some("new"));
    assert_eq!(model_under(&index, "sdb"), Some("B"));
}

#[test]
fn collect_files_each_record_under_the_reported_identity() {
    let index = HealthIndex::collect(vec![
        done("sdb", Some("/dev/sdb"), "B"),
        done("sda", Some("/dev/sda"), "A"),
        done("sdc", None, "C"),
    ])
    .unwrap();
    assert_eq!(model_under(&index, "sda"), Some("A"));
    assert_eq!(model_under(&index, "sdb"), Some("B"));
    assert_eq!(model_under(&index, "sdc"), Some("C"));
    assert_eq!(model_under(&index, "/dev/sda"), None);
}

#[test]
fn collect_goes_by_what_the_probe_reports() {
    let index = HealthIndex::collect(vec![done("sda", Some("/dev/sdx"), "X")]).unwrap();
    assert_eq!(model_under(&index, "sdx"), Some("X"));
    assert_eq!(model_under(&index, "sda"), None);
}

#[test]
fn collect_leaves_a_failed_probe_without_a_record() {
    let index = HealthIndex::collect(vec![
        done("sda", Some("/dev/sda"), "A"),
        failed("sdb"),
        done("sdc", Some("/dev/sdc"), "C"),
    ])
    .unwrap();
    assert_eq!(model_under(&index, "sda"), Some("A"));
    assert!(index.lookup("sdb").is_none());
    assert_eq!(model_under(&index, "sdc"), Some("C"));
}

#[test]
fn collect_of_nothing() {
    let index = HealthIndex::collect(vec![]).unwrap();
    assert!(index.lookup("sda").is_none());
}

#[test]
fn collect_fails_on_a_task_that_could_not_be_joined() {
    let r = HealthIndex::collect(vec![
        done("sda", Some("/dev/sda"), "A"),
        Err("task 7 panicked".to_string()),
        done("sdc", Some("/dev/sdc"), "C"),
        Err("task 9 was cancelled".to_string()),
    ]);
    assert_eq!(r.err().as_deref(), Some("task 7 panicked"));
}

#[test]
fn collect_later_record_wins() {
    let index = HealthIndex::collect(vec![
        done("sda", Some("/dev/sda"), "first"),
        done("sdb", Some("/dev/sda"), "second"),
    ])
    .unwrap();
    assert_eq!(model_under(&index, "sda"), Some("second"));
    assert!(index.lookup("sdb").is_none());
}
