//! The display record of a disk, and how the enumerated devices and their
//! health records are merged into a list of them.

use vstd::prelude::*;
use vstd::std_specs::convert::FromSpecImpl;
use crate::health::{
    files_under, first_abort, gathered, lemma_gathered_holds, lemma_gathered_without, HealthIndex,
    ProbeReport,
};
use crate::lsblk::{has_serial, reportable, LsBlkDisk, LsBlkError};
use crate::size::{
    formatted_size, push_two_places, GB, GIB, KB, KIB, MB, MIB, TB, TIB,
};
use crate::smartctl::{SmartCtl, SmartCtlError};
use crate::text::{
    contains, contains_text, lemma_trimmed_keeps_bare_text, opt_text, push_decimal, same_text,
    short_name, strip_path, trim, trimmed,
};

verus! {

/// A disk as it is shown.
#[derive(Debug)]
pub struct Disk {
    pub model: String,
    pub model_exact: Option<String>,
    pub serial: Option<String>,
    pub size_formated: String,
    pub device: String,
    pub removable: bool,
    pub disk_type: DiskType,
    pub connection_type: ConnectionType,
}

/// The kind of a disk. `Virtual` also holds the NVMe devices.
#[derive(Debug, Clone, Copy, PartialEq, Eq, Structural)]
pub enum DiskType {
    SSD,
    HDD,
    USB,
    Virtual,
}

/// How a disk is attached.
#[derive(Debug, Clone, Copy, PartialEq, Eq, Structural)]
pub enum ConnectionType {
    SATA,
    SCSI,
    NVMe,
    Unknown,
}

/// Why the disks could not be listed.
#[derive(Debug)]
pub enum ListDiskError {
    /// The devices could not be enumerated.
    LsBlk(LsBlkError),
    /// A probe task could not be joined.
    Join(String),
    /// A probe failed.
    SmartCtl(SmartCtlError),
}

/// The mathematical value of a [`Disk`].
pub struct DiskView {
    pub model: Seq<char>,
    pub model_exact: Option<Seq<char>>,
    pub serial: Option<Seq<char>>,
    pub size_formated: Seq<char>,
    pub device: Seq<char>,
    pub removable: bool,
    pub disk_type: DiskType,
    pub connection_type: ConnectionType,
}

impl View for Disk {
    type V = DiskView;

    open spec fn view(&self) -> DiskView {
        DiskView {
            model: self.model@,
            model_exact: opt_text(self.model_exact),
            serial: opt_text(self.serial),
            size_formated: self.size_formated@,
            device: self.device@,
            removable: self.removable,
            disk_type: self.disk_type,
            connection_type: self.connection_type,
        }
    }
}

/// The model shown for a disk of which nothing names one.
pub open spec fn placeholder_model() -> Seq<char> {
    "Unknown Disk Model"@
}

/// The text by which a model family is known to be junk that a vendor's
/// firmware wrote in place of a family.
pub open spec fn junk_marker() -> Seq<char> {
    "Samsung based"@
}

/// The first model that is there: the family, else the exact model, else the
/// declared one, else the placeholder.
pub open spec fn model_candidate(
    declared: Option<Seq<char>>,
    family: Option<Seq<char>>,
    exact: Option<Seq<char>>,
) -> Seq<char> {
    match family {
        Some(f) => f,
        None => match exact {
            Some(e) => e,
            None => match declared {
                Some(d) => d,
                None => placeholder_model(),
            },
        },
    }
}

/// The model shown for a disk: the first model that is there, trimmed; but where
/// that holds the junk marker, the declared model as it stands, or nothing.
pub open spec fn display_model(
    declared: Option<Seq<char>>,
    family: Option<Seq<char>>,
    exact: Option<Seq<char>>,
) -> Seq<char> {
    let shown = trimmed(model_candidate(declared, family, exact));
    if contains_text(shown, junk_marker()) {
        match declared {
            Some(d) => d,
            None => Seq::empty(),
        }
    } else {
        shown
    }
}

/// The connection that a protocol, as the probe tool names it, stands for.
pub open spec fn connection_of(protocol: Seq<char>) -> ConnectionType {
    if protocol == "SCSI"@ {
        ConnectionType::SCSI
    } else if protocol == "ATA"@ {
        ConnectionType::SATA
    } else {
        ConnectionType::Unknown
    }
}

/// The connection of a disk with the health record `health`, if it has one.
pub open spec fn connection_from(health: Option<SmartCtl>) -> ConnectionType {
    match health {
        Some(record) => match record.device {
            Some(device) => connection_of(device.protocol@),
            None => ConnectionType::Unknown,
        },
        None => ConnectionType::Unknown,
    }
}

/// The kind of a disk on the transport `tran`, as the enumeration tool names it.
pub open spec fn disk_type_of(tran: Option<Seq<char>>) -> DiskType {
    if tran == Some("nvme"@) {
        DiskType::Virtual
    } else {
        DiskType::HDD
    }
}

/// The model family that a health record names.
pub open spec fn family_in(health: Option<SmartCtl>) -> Option<Seq<char>> {
    match health {
        Some(record) => opt_text(record.model_family),
        None => None,
    }
}

/// The exact model that a health record names.
pub open spec fn exact_in(health: Option<SmartCtl>) -> Option<Seq<char>> {
    match health {
        Some(record) => opt_text(record.model_name),
        None => None,
    }
}

/// The display record of the device `disk` with the health record `health`, if
/// it has one.
pub open spec fn resolved(disk: LsBlkDisk, health: Option<SmartCtl>) -> DiskView {
    DiskView {
        model: display_model(opt_text(disk.model), family_in(health), exact_in(health)),
        model_exact: exact_in(health),
        serial: opt_text(disk.serial),
        size_formated: formatted_size(disk.size as nat),
        device: disk.name@,
        removable: disk.hotplug,
        disk_type: disk_type_of(opt_text(disk.tran)),
        connection_type: connection_from(health),
    }
}

/// The display records of `disks`, one for each and in their order, each with
/// the health record that `health` holds under the device's short name.
pub open spec fn merged(disks: Seq<LsBlkDisk>, health: Map<Seq<char>, SmartCtl>) -> Seq<DiskView> {
    disks.map_values(|disk: LsBlkDisk| resolved(disk, health.get(short_name(disk.name@))))
}

/// The mathematical values of a list of display records.
pub open spec fn views(disks: Seq<Disk>) -> Seq<DiskView> {
    disks.map_values(|disk: Disk| disk@)
}

/// The health record behind a reference, if there is one.
pub open spec fn owned(health: Option<&SmartCtl>) -> Option<SmartCtl> {
    match health {
        Some(record) => Some(*record),
        None => None,
    }
}

/// A copy of an optional text.
fn copy_text(text: &Option<String>) -> (r: Option<String>)
    ensures
        opt_text(r) == opt_text(*text),
{
    match text {
        Some(t) => Some(t.clone()),
        None => None,
    }
}

impl ConnectionType {
    /// The connection that `protocol` stands for: `"SCSI"` and `"ATA"` are
    /// known, letter for letter; anything else is not.
    pub fn from_protocol(protocol: &str) -> (r: ConnectionType)
        ensures
            r == connection_of(protocol@),
    {
        if same_text(protocol, "SCSI") {
            ConnectionType::SCSI
        } else if same_text(protocol, "ATA") {
            ConnectionType::SATA
        } else {
            ConnectionType::Unknown
        }
    }
}

impl DiskType {
    /// The kind of a disk on the transport `tran`: NVMe devices go with the
    /// virtual ones, every other disk counts as a hard disk.
    pub fn from_transport(tran: &Option<String>) -> (r: DiskType)
        ensures
            r == disk_type_of(opt_text(*tran)),
    {
        match tran {
            Some(t) => {
                if same_text(t.as_str(), "nvme") {
                    DiskType::Virtual
                } else {
                    DiskType::HDD
                }
            },
            None => DiskType::HDD,
        }
    }
}

impl Disk {
    /// The model to show, from the declared model of the enumeration and the
    /// family and exact model of the health record.
    pub fn model_to_show(
        declared: &Option<String>,
        family: &Option<String>,
        exact: &Option<String>,
    ) -> (model: String)
        ensures
            model@ == display_model(opt_text(*declared), opt_text(*family), opt_text(*exact)),
    {
        let candidate: &str = match family {
            Some(f) => f.as_str(),
            None => match exact {
                Some(e) => e.as_str(),
                None => match declared {
                    Some(d) => d.as_str(),
                    None => "Unknown Disk Model",
                },
            },
        };
        let shown = trim(candidate);
        if contains(shown.as_str(), "Samsung based") {
            match declared {
                Some(d) => d.clone(),
                None => String::new(),
            }
        } else {
            shown
        }
    }

    /// The display record of the device `disk` with its health record, if one
    /// was found. Without one the record is built from the enumeration alone.
    pub fn resolve(disk: LsBlkDisk, health: Option<&SmartCtl>) -> (shown: Disk)
        ensures
            shown@ == resolved(disk, owned(health)),
    {
        let no_text: Option<String> = None;
        let model = match health {
            Some(record) => Self::model_to_show(&disk.model, &record.model_family, &record.model_name),
            None => Self::model_to_show(&disk.model, &no_text, &no_text),
        };
        let model_exact = match health {
            Some(record) => copy_text(&record.model_name),
            None => None,
        };
        let connection_type = match health {
            Some(record) => match &record.device {
                Some(device) => ConnectionType::from_protocol(device.protocol.as_str()),
                None => ConnectionType::Unknown,
            },
            None => ConnectionType::Unknown,
        };
        let disk_type = DiskType::from_transport(&disk.tran);
        Disk {
            model,
            model_exact,
            serial: disk.serial,
            size_formated: Self::format_size(disk.size),
            device: disk.name,
            removable: disk.hotplug,
            disk_type,
            connection_type,
        }
    }

    /// The display records of `disks`, one for each and in their order. A device
    /// is matched with the health record filed under its short name; a device
    /// without one is shown all the same.
    pub fn merge(disks: Vec<LsBlkDisk>, health: &HealthIndex) -> (shown: Vec<Disk>)
        ensures
            shown@.len() == disks@.len(),
            views(shown@) == merged(disks@, health@),
    {
        let ghost all = disks@;
        let mut shown: Vec<Disk> = Vec::new();
        for disk in it: disks
            invariant
                it.seq() == all,
                shown@.len() == it.index(),
                forall|j: int|
                    0 <= j < it.index() ==> (#[trigger] shown@[j])@ == resolved(
                        all[j],
                        health@.get(short_name(all[j].name@)),
                    ),
        {
            let key = strip_path(disk.name.as_str());
            let found = health.lookup(key.as_str());
            shown.push(Self::resolve(disk, found));
        }
        assert(views(shown@) =~= merged(all, health@));
        shown
    }

    /// The display list of one round: the enumerated devices, each with what its
    /// probe reported.
    ///
    /// The round fails where the devices could not be enumerated, and where a
    /// probe task could not be joined. A probe that failed does not fail it: its
    /// device is shown from the enumeration alone.
    pub fn list(
        enumerated: Result<Vec<LsBlkDisk>, LsBlkError>,
        tasks: Vec<Result<ProbeReport, String>>,
    ) -> (r: Result<Vec<Disk>, ListDiskError>)
        ensures
            match enumerated {
                Err(error) => r == Err::<Vec<Disk>, ListDiskError>(ListDiskError::LsBlk(error)),
                Ok(disks) => match first_abort(tasks@) {
                    Some(reason) => r == Err::<Vec<Disk>, ListDiskError>(
                        ListDiskError::Join(reason),
                    ),
                    None => r matches Ok(shown) && shown@.len() == disks@.len() && views(shown@)
                        == merged(disks@, gathered(tasks@)),
                },
            },
    {
        match enumerated {
            Err(error) => Err(ListDiskError::LsBlk(error)),
            Ok(disks) => match HealthIndex::collect(tasks) {
                Err(reason) => Err(ListDiskError::Join(reason)),
                Ok(health) => Ok(Self::merge(disks, &health)),
            },
        }
    }

    /// The capacity `size`, in bytes, as text: in decimal units, whole, and above
    /// one kibibyte also in binary units, with two decimal places.
    ///
    /// A unit is used for sizes above it: exactly 1000 bytes are still bytes.
    pub fn format_size(size: u64) -> (text: String)
        ensures
            text@ == formatted_size(size as nat),
    {
        let mut text = String::new();
        if size > TB {
            push_decimal(&mut text, (size / TB) as u128);
            text.append(" TB");
        } else if size > GB {
            push_decimal(&mut text, (size / GB) as u128);
            text.append(" GB");
        } else if size > MB {
            push_decimal(&mut text, (size / MB) as u128);
            text.append(" MB");
        } else if size > KB {
            push_decimal(&mut text, (size / KB) as u128);
            text.append(" KB");
        } else {
            push_decimal(&mut text, size as u128);
            text.append(" B");
        }
        if size > KIB {
            text.append(" / ");
            if size > TIB {
                push_two_places(&mut text, size, TIB);
                text.append(" TiB");
            } else if size > GIB {
                push_two_places(&mut text, size, GIB);
                text.append(" GiB");
            } else if size > MIB {
                push_two_places(&mut text, size, MIB);
                text.append(" MiB");
            } else {
                push_two_places(&mut text, size, KIB);
                text.append(" KiB");
            }
        }
        assert(text@ =~= formatted_size(size as nat));
        text
    }
}

impl ListDiskError {
    /// The error as text: what could not be done, then the reason.
    pub open spec fn text(self) -> Seq<char> {
        match self {
            ListDiskError::LsBlk(error) => "error finding disks with lsblk: "@ + error.text(),
            ListDiskError::Join(reason) => "join error: "@ + reason@,
            ListDiskError::SmartCtl(error) => "error during smartctl: "@ + error.text(),
        }
    }

    /// The error as a line of text for a person to read.
    pub fn message(&self) -> (r: String)
        ensures
            r@ == self.text(),
    {
        match self {
            ListDiskError::LsBlk(error) => String::from_str(
                "error finding disks with lsblk: ",
            ).concat(error.message().as_str()),
            ListDiskError::Join(reason) => String::from_str("join error: ").concat(reason.as_str()),
            ListDiskError::SmartCtl(error) => String::from_str("error during smartctl: ").concat(
                error.message().as_str(),
            ),
        }
    }
}

impl From<LsBlkError> for ListDiskError {
    fn from(error: LsBlkError) -> (r: ListDiskError) {
        ListDiskError::LsBlk(error)
    }
}

impl FromSpecImpl<LsBlkError> for ListDiskError {
    open spec fn obeys_from_spec() -> bool {
        true
    }

    open spec fn from_spec(error: LsBlkError) -> ListDiskError {
        ListDiskError::LsBlk(error)
    }
}

impl From<SmartCtlError> for ListDiskError {
    fn from(error: SmartCtlError) -> (r: ListDiskError) {
        ListDiskError::SmartCtl(error)
    }
}

impl FromSpecImpl<SmartCtlError> for ListDiskError {
    open spec fn obeys_from_spec() -> bool {
        true
    }

    open spec fn from_spec(error: SmartCtlError) -> ListDiskError {
        ListDiskError::SmartCtl(error)
    }
}

/// The list that is shown has one record for each device that the enumeration
/// keeps, in the same order and under the same identity; and as the enumeration
/// keeps the devices with a serial number that is not empty, every record shows
/// such a serial number.
pub proof fn lemma_merged_keeps_devices(all: Seq<LsBlkDisk>, health: Map<Seq<char>, SmartCtl>)
    ensures
        merged(reportable(all), health).len() == reportable(all).len(),
        forall|i: int|
            0 <= i < reportable(all).len() ==> {
                &&& (#[trigger] merged(reportable(all), health)[i]).device == reportable(
                    all,
                )[i].name@
                &&& merged(reportable(all), health)[i].serial matches Some(serial)
                &&& serial.len() > 0
            },
{
    let kept = reportable(all);
    assert forall|i: int| 0 <= i < kept.len() implies {
        &&& (#[trigger] merged(kept, health)[i]).device == kept[i].name@
        &&& merged(kept, health)[i].serial matches Some(serial)
        &&& serial.len() > 0
    } by {
        all.lemma_filter_pred(|d: LsBlkDisk| has_serial(d), i);
    }
}

/// A device without a health record is shown all the same, degraded: its
/// connection is unknown, it has no exact model, and its model is what the
/// enumeration alone gives.
pub proof fn lemma_unmatched_is_degraded(disk: LsBlkDisk, health: Map<Seq<char>, SmartCtl>)
    requires
        !health.contains_key(short_name(disk.name@)),
    ensures
        resolved(disk, health.get(short_name(disk.name@))) == resolved(disk, None),
        resolved(disk, None).connection_type == ConnectionType::Unknown,
        resolved(disk, None).model_exact is None,
        resolved(disk, None).model == display_model(opt_text(disk.model), None, None),
{
}

/// A device whose probe failed appears in the list, degraded: where no task of
/// the round files a record under the short name of the enumerated device
/// `disks[at]`, the record shown for it is built from the enumeration alone.
pub proof fn lemma_failed_probe_is_degraded(
    disks: Seq<LsBlkDisk>,
    tasks: Seq<Result<ProbeReport, String>>,
    at: int,
)
    requires
        0 <= at < disks.len(),
        forall|i: int|
            0 <= i < tasks.len() ==> !files_under(#[trigger] tasks[i], short_name(disks[at].name@)),
    ensures
        merged(disks, gathered(tasks)).len() == disks.len(),
        merged(disks, gathered(tasks))[at] == resolved(disks[at], None),
        merged(disks, gathered(tasks))[at].connection_type == ConnectionType::Unknown,
        merged(disks, gathered(tasks))[at].model == display_model(
            opt_text(disks[at].model),
            None,
            None,
        ),
{
    lemma_gathered_without(tasks, short_name(disks[at].name@));
    lemma_unmatched_is_degraded(disks[at], gathered(tasks));
}

/// A device whose probe succeeded is shown with what the probe reported,
/// whatever became of the other probes: where the task `tasks[by]` files
/// `record` under the short name of the enumerated device `disks[at]`, and no
/// later task files another record there, the record shown for the device is
/// built from the device and `record`.
pub proof fn lemma_probed_disk_is_enriched(
    disks: Seq<LsBlkDisk>,
    tasks: Seq<Result<ProbeReport, String>>,
    at: int,
    by: int,
    report: ProbeReport,
    record: SmartCtl,
)
    requires
        0 <= at < disks.len(),
        0 <= by < tasks.len(),
        tasks[by] == Ok::<ProbeReport, String>(report),
        report.result == Ok::<SmartCtl, SmartCtlError>(record),
        record.identity(report.device@) == short_name(disks[at].name@),
        forall|i: int|
            by < i < tasks.len() ==> !files_under(#[trigger] tasks[i], short_name(disks[at].name@)),
    ensures
        merged(disks, gathered(tasks)).len() == disks.len(),
        merged(disks, gathered(tasks))[at] == resolved(disks[at], Some(record)),
        merged(disks, gathered(tasks))[at].model_exact == opt_text(record.model_name),
{
    lemma_gathered_holds(tasks, by, report, record);
}

/// A model family that holds the junk marker is never shown: the model is then
/// the declared model of the enumeration as it stands, or empty where the
/// enumeration declares none.
pub proof fn lemma_junk_family_falls_back(disk: LsBlkDisk, record: SmartCtl)
    requires
        record.model_family matches Some(family) && contains_text(family@, junk_marker()),
    ensures
        disk.model matches Some(declared) ==> resolved(disk, Some(record)).model == declared@,
        disk.model is None ==> resolved(disk, Some(record)).model == Seq::<char>::empty(),
{
    reveal_strlit("Samsung based");
    assert(junk_marker().first() == 'S');
    assert(junk_marker().last() == 'd');
    lemma_trimmed_keeps_bare_text(record.model_family->0@, junk_marker());
}

} // verus!
