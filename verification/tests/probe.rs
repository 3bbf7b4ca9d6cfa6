use disk_inventory::smartctl::{Device, SmartCtl, SmartCtlError};
use disk_inventory::tool::ToolOutcome;

fn record(reported: Option<&str>) -> SmartCtl {
    SmartCtl {
        device: reported.map(|name| Device {
            _type: "sat".to_string(),
            protocol: "ATA".to_string(),
            name: name.to_string(),
        }),
        model_name: Some("WDC WD10EZEX".to_string()),
        model_family: None,
        serial_number: Some("S123".to_string()),
        firmware_version: None,
        nvme_smart_health_information_log: None,
        ata_smart_attributes: None,
    }
}

#[test]
fn device_path_is_the_node_under_dev() {
    assert_eq!(SmartCtl::device_path("sda"), "/dev/sda");
    assert_eq!(SmartCtl::device_path("nvme0n1"), "/dev/nvme0n1");
    assert_eq!(SmartCtl::device_path(""), "/dev/");
}

#[test]
fn smartctl_arguments_ask_for_everything_as_json_permissively() {
    assert_eq!(SmartCtl::arguments("sdb"), vec!["-a", "-j", "-T", "verypermissive", "/dev/sdb"]);
}

#[test]
fn get_of_a_good_run_is_the_record() {
    let r = SmartCtl::get(ToolOutcome::Exited { success: true, decoded: Ok(record(Some("/dev/sda"))) });
    let got = r.unwrap();
    assert_eq!(got.model_name.as_deref(), Some("WDC WD10EZEX"));
    assert_eq!(got.device.unwrap().name, "/dev/sda");
}

#[test]
fn get_takes_good_output_of_a_tool_that_reported_failure() {
    let r = SmartCtl::get(ToolOutcome::Exited { success: false, decoded: Ok(record(None)) });
    assert_eq!(r.unwrap().serial_number.as_deref(), Some("S123"));
}

#[test]
fn get_of_a_tool_that_did_not_start_is_an_io_error() {
    let r = SmartCtl::get(ToolOutcome::NotStarted("permission denied".to_string()));
    match r {
        Err(SmartCtlError::Io(reason)) => assert_eq!(reason, "permission denied"),
        other => panic!("{:?}", other),
    }
}

#[test]
fn get_of_undecodable_output_is_a_decode_error() {
    for success in [true, false] {
        let r = SmartCtl::get(ToolOutcome::Exited {
            success,
            decoded: Err("missing field".to_string()),
        });
        match r {
            Err(SmartCtlError::Decode(reason)) => assert_eq!(reason, "missing field"),
            other => panic!("{:?}", other),
        }
    }
}

#[test]
fn smartctl_error_messages() {
    assert_eq!(SmartCtlError::Io("denied".to_string()).message(), "io error: denied");
    assert_eq!(SmartCtlError::Decode("EOF".to_string()).message(), "json error: EOF");
}

#[test]
fn correlation_key_of_a_reported_path() {
    assert_eq!(record(Some("/dev/sda")).correlation_key("sda"), "sda");
    assert_eq!(record(Some("/dev/nvme0")).correlation_key("nvme0n1"), "nvme0");
    assert_eq!(record(Some("/dev/bus/0")).correlation_key("sdc"), "0");
}

#[test]
fn correlation_key_of_a_reported_bare_name() {
    assert_eq!(record(Some("sdb")).correlation_key("sda"), "sdb");
}

#[test]
fn correlation_key_without_a_device_part() {
    assert_eq!(record(None).correlation_key("sdd"), "sdd");
    assert_eq!(record(None).correlation_key("/dev/sdd"), "sdd");
}
