use disk_inventory::disk_info::{Disk, ListDiskError};
use disk_inventory::lsblk::{LsBlkDisk, LsBlkError};
use disk_inventory::pages::{Index, Smart};
use disk_inventory::smartctl::{SmartCtl, SmartCtlError};

fn flash() -> Option<(String, String)> {
    Some(("success".to_string(), "Saved".to_string()))
}

fn shown(name: &str) -> Disk {
    Disk::resolve(
        LsBlkDisk {
            hotplug: false,
            model: None,
            name: name.to_string(),
            rota: false,
            serial: Some("S".to_string()),
            size: 0,
            tran: None,
            vendor: None,
            wwn: None,
        },
        None,
    )
}

#[test]
fn index_of_a_listing_shows_the_disks() {
    let page = Index::from_listing(flash(), Ok(vec![shown("sda"), shown("sdb")]));
    assert_eq!(page.flash, flash());
    assert_eq!(page.disks.len(), 2);
    assert_eq!(page.disks[0].device, "sda");
    assert_eq!(page.disks[1].device, "sdb");
    let page = Index::from_listing(None, Ok(vec![]));
    assert_eq!(page.flash, None);
    assert!(page.disks.is_empty());
}

#[test]
fn index_of_a_failure_shows_the_error_and_no_disk() {
    let error = ListDiskError::LsBlk(LsBlkError::Io("No such file or directory".to_string()));
    let page = Index::from_listing(flash(), Err(error));
    assert!(page.disks.is_empty());
    assert_eq!(
        page.flash,
        Some((
            "error".to_string(),
            "Error listing disks: error finding disks with lsblk: io error: No such file or directory"
                .to_string()
        ))
    );
    let page = Index::from_listing(None, Err(ListDiskError::Join("task 1 panicked".to_string())));
    assert_eq!(
        page.flash,
        Some(("error".to_string(), "Error listing disks: join error: task 1 panicked".to_string()))
    );
}

#[test]
fn smart_of_a_record_shows_it() {
    let record = SmartCtl {
        device: None,
        model_name: Some("WDC".to_string()),
        model_family: None,
        serial_number: None,
        firmware_version: Some("1.0".to_string()),
        nvme_smart_health_information_log: None,
        ata_smart_attributes: None,
    };
    let page = Smart::from_probe(flash(), Ok(record));
    assert_eq!(page.flash, flash());
    let smart = page.smart.unwrap();
    assert_eq!(smart.model_name.as_deref(), Some("WDC"));
    assert_eq!(smart.firmware_version.as_deref(), Some("1.0"));
}

#[test]
fn smart_of_a_failure_shows_the_error_and_no_record() {
    let page = Smart::from_probe(flash(), Err(SmartCtlError::Decode("EOF".to_string())));
    assert!(page.smart.is_none());
    assert_eq!(page.flash, Some(("error".to_string(), "json error: EOF".to_string())));
    let page = Smart::from_probe(None, Err(SmartCtlError::Io("denied".to_string())));
    assert_eq!(page.flash, Some(("error".to_string(), "io error: denied".to_string())));
}
