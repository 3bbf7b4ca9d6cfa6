//! The health record that the probe tool reports for one device.

use vstd::prelude::*;
use crate::text::{short_name, strip_path};
use crate::tool::ToolOutcome;

verus! {

/// The health record of one device.
#[derive(Debug)]
pub struct SmartCtl {
    pub device: Option<Device>,
    pub model_name: Option<String>,
    pub model_family: Option<String>,
    pub serial_number: Option<String>,
    pub firmware_version: Option<String>,
    pub nvme_smart_health_information_log: Option<NvmeHealthInformation>,
    pub ata_smart_attributes: Option<AtaSmartAttributes>,
}

/// How the probe tool itself names and addresses the device.
#[derive(Debug)]
pub struct Device {
    pub _type: String,
    pub protocol: String,
    pub name: String,
}

/// The health log of an NVMe device.
#[derive(Debug)]
pub struct NvmeHealthInformation {
    pub critical_warning: u64,
    pub temperature: u64,
    pub available_spare: u64,
    pub available_spare_threshold: u64,
    pub percentage_used: u64,
    pub data_units_read: u64,
    pub data_units_written: u64,
    pub host_reads: u64,
    pub host_writes: u64,
    pub controller_busy_time: u64,
    pub power_cycles: u64,
    pub power_on_hours: u64,
    pub unsafe_shutdowns: u64,
    pub media_errors: u64,
    pub num_err_log_entries: u64,
    pub warning_temp_time: u64,
    pub critical_comp_time: u64,
    pub temperature_sensors: Vec<u64>,
}

/// The attribute table of an ATA device.
#[derive(Debug)]
pub struct AtaSmartAttributes {
    pub revision: u8,
    pub table: Vec<AtaAttribute>,
}

/// One row of the attribute table.
#[derive(Debug)]
pub struct AtaAttribute {
    pub id: u16,
    pub name: String,
    pub value: u8,
    pub worst: u8,
    pub thresh: u8,
    pub raw: RawValue,
}

/// The raw value of an attribute, as a number and as the tool prints it.
#[derive(Debug)]
pub struct RawValue {
    pub value: u32,
    pub string: String,
}

/// Why a device could not be probed.
#[derive(Debug)]
pub enum SmartCtlError {
    /// The tool could not be run.
    Io(String),
    /// The tool's output could not be decoded.
    Decode(String),
}

impl SmartCtlError {
    /// The error as text: what went wrong, then the reason.
    pub open spec fn text(self) -> Seq<char> {
        match self {
            SmartCtlError::Io(reason) => "io error: "@ + reason@,
            SmartCtlError::Decode(reason) => "json error: "@ + reason@,
        }
    }

    /// The error as a line of text for a person to read.
    pub fn message(&self) -> (r: String)
        ensures
            r@ == self.text(),
    {
        match self {
            SmartCtlError::Io(reason) => String::from_str("io error: ").concat(reason.as_str()),
            SmartCtlError::Decode(reason) => String::from_str("json error: ").concat(
                reason.as_str(),
            ),
        }
    }
}

impl SmartCtl {
    /// The identity under which the record is matched with an enumerated
    /// device: the name that the probe tool reports, without its leading path.
    /// A record without a device part goes by the name it was `asked` for.
    pub open spec fn identity(self, asked: Seq<char>) -> Seq<char> {
        match self.device {
            Some(device) => short_name(device.name@),
            None => short_name(asked),
        }
    }

    /// The path of the device node of the device named `device`.
    pub fn device_path(device: &str) -> (path: String)
        ensures
            path@ == "/dev/"@ + device@,
    {
        String::from_str("/dev/").concat(device)
    }

    /// The arguments that the probe tool is run with for `device`: all
    /// attributes, output as JSON, the most permissive tolerance, the device node.
    pub fn arguments(device: &str) -> (args: Vec<String>)
        ensures
            args@.len() == 5,
            args@[0]@ == "-a"@,
            args@[1]@ == "-j"@,
            args@[2]@ == "-T"@,
            args@[3]@ == "verypermissive"@,
            args@[4]@ == "/dev/"@ + device@,
    {
        let mut args: Vec<String> = Vec::new();
        args.push(String::from_str("-a"));
        args.push(String::from_str("-j"));
        args.push(String::from_str("-T"));
        args.push(String::from_str("verypermissive"));
        args.push(Self::device_path(device));
        args
    }

    /// What one run of the probe tool yields: the decoded record, or the reason
    /// why there is none.
    ///
    /// Only a tool that could not be started (`Io`) and output that could not be
    /// decoded (`Decode`) are errors. How the tool exited is not: it reports
    /// failure on mere warnings while its output is still good.
    pub fn get(outcome: ToolOutcome<SmartCtl>) -> (r: Result<SmartCtl, SmartCtlError>)
        ensures
            match outcome {
                ToolOutcome::NotStarted(reason) => r == Err::<SmartCtl, SmartCtlError>(
                    SmartCtlError::Io(reason),
                ),
                ToolOutcome::Exited { success, decoded: Err(reason) } => r == Err::<
                    SmartCtl,
                    SmartCtlError,
                >(SmartCtlError::Decode(reason)),
                ToolOutcome::Exited { success, decoded: Ok(record) } => r == Ok::<
                    SmartCtl,
                    SmartCtlError,
                >(record),
            },
    {
        match outcome {
            ToolOutcome::NotStarted(reason) => Err(SmartCtlError::Io(reason)),
            ToolOutcome::Exited { success, decoded } => match decoded {
                Err(reason) => Err(SmartCtlError::Decode(reason)),
                Ok(record) => Ok(record),
            },
        }
    }

    /// The identity under which the record is matched with an enumerated device.
    pub fn correlation_key(&self, asked: &str) -> (key: String)
        ensures
            key@ == self.identity(asked@),
    {
        match &self.device {
            Some(device) => strip_path(device.name.as_str()),
            None => strip_path(asked),
        }
    }
}

/// A record whose probe names its device by the path of its node is matched
/// under the bare name: where the tool reports `"/dev/"` followed by a `name`
/// without `'/'`, the identity of the record is `name`, which is also the short
/// name of `name` itself, whatever device the probe was `asked` for.
pub proof fn lemma_device_path_correlates(record: SmartCtl, name: Seq<char>, asked: Seq<char>)
    requires
        record.device matches Some(device) && device.name@ == "/dev/"@ + name,
        !name.contains('/'),
    ensures
        record.identity(asked) == name,
        short_name(name) == name,
{
    reveal_strlit("/dev/");
    assert("/dev/"@.last() == '/');
    crate::text::lemma_short_name_of_path("/dev/"@, name);
    crate::text::lemma_short_name_of_path(Seq::empty(), name);
    assert(Seq::<char>::empty() + name == name);
}

} // verus!
