//! The block devices that the enumeration tool reports.

use vstd::prelude::*;
use crate::tool::ToolOutcome;

verus! {

/// One block device as the enumeration tool reports it.
#[derive(Debug)]
pub struct LsBlkDisk {
    pub hotplug: bool,
    pub model: Option<String>,
    pub name: String,
    pub rota: bool,
    pub serial: Option<String>,
    pub size: u64,
    pub tran: Option<String>,
    pub vendor: Option<String>,
    pub wwn: Option<String>,
}

/// The decoded output of the enumeration tool.
#[derive(Debug)]
pub struct LsBlk {
    pub blockdevices: Vec<LsBlkDisk>,
}

/// Why the block devices could not be listed.
#[derive(Debug)]
pub enum LsBlkError {
    /// The tool could not be run, or reported failure on exit.
    Io(String),
    /// The tool's output could not be decoded.
    Decode(String),
}

/// Whether a device is a reportable physical disk: it has a serial number, and
/// that is not empty.
pub open spec fn has_serial(disk: LsBlkDisk) -> bool {
    disk.serial matches Some(serial) && serial@.len() > 0
}

/// The devices of `all` that have a serial number that is not empty, in their
/// order.
pub open spec fn reportable(all: Seq<LsBlkDisk>) -> Seq<LsBlkDisk> {
    all.filter(|d: LsBlkDisk| has_serial(d))
}

impl LsBlkError {
    /// The error as text: what went wrong, then the reason.
    pub open spec fn text(self) -> Seq<char> {
        match self {
            LsBlkError::Io(reason) => "io error: "@ + reason@,
            LsBlkError::Decode(reason) => "json error: "@ + reason@,
        }
    }

    /// The error as a line of text for a person to read.
    pub fn message(&self) -> (r: String)
        ensures
            r@ == self.text(),
    {
        match self {
            LsBlkError::Io(reason) => String::from_str("io error: ").concat(reason.as_str()),
            LsBlkError::Decode(reason) => String::from_str("json error: ").concat(reason.as_str()),
        }
    }
}

impl LsBlk {
    /// The arguments that the enumeration tool is run with: whole devices only,
    /// a fixed set of columns, sizes in bytes, output as JSON.
    pub fn arguments() -> (args: Vec<String>)
        ensures
            args@.len() == 5,
            args@[0]@ == "-d"@,
            args@[1]@ == "-o"@,
            args@[2]@ == "HOTPLUG,MODEL,NAME,ROTA,SERIAL,SIZE,TRAN,VENDOR,WWN"@,
            args@[3]@ == "--bytes"@,
            args@[4]@ == "--json"@,
    {
        let mut args: Vec<String> = Vec::new();
        args.push(String::from_str("-d"));
        args.push(String::from_str("-o"));
        args.push(String::from_str("HOTPLUG,MODEL,NAME,ROTA,SERIAL,SIZE,TRAN,VENDOR,WWN"));
        args.push(String::from_str("--bytes"));
        args.push(String::from_str("--json"));
        args
    }

    /// The text of the error reported where the tool ran and exited with failure.
    pub open spec fn exit_failure() -> Seq<char> {
        "lsblk exited with a failure status"@
    }

    /// What one run of the enumeration tool yields: the devices that have a
    /// serial number that is not empty, in the tool's order, or the reason why there is no list.
    ///
    /// A tool that could not be started, or that exited with failure, is an
    /// `Io` error; output that could not be decoded is a `Decode` error.
    pub fn list(outcome: ToolOutcome<LsBlk>) -> (r: Result<Vec<LsBlkDisk>, LsBlkError>)
        ensures
            match outcome {
                ToolOutcome::NotStarted(reason) => r == Err::<Vec<LsBlkDisk>, LsBlkError>(
                    LsBlkError::Io(reason),
                ),
                ToolOutcome::Exited { success: false, decoded } => r matches Err(LsBlkError::Io(reason))
                    && reason@ == Self::exit_failure(),
                ToolOutcome::Exited { success: true, decoded: Err(reason) } => r == Err::<
                    Vec<LsBlkDisk>,
                    LsBlkError,
                >(LsBlkError::Decode(reason)),
                ToolOutcome::Exited { success: true, decoded: Ok(listing) } => r matches Ok(disks)
                    && disks@ == reportable(listing.blockdevices@),
            },
    {
        match outcome {
            ToolOutcome::NotStarted(reason) => Err(LsBlkError::Io(reason)),
            ToolOutcome::Exited { success, decoded } => {
                if !success {
                    Err(LsBlkError::Io(String::from_str("lsblk exited with a failure status")))
                } else {
                    match decoded {
                        Err(reason) => Err(LsBlkError::Decode(reason)),
                        Ok(listing) => Ok(listing.with_serial()),
                    }
                }
            },
        }
    }

    /// The devices of the listing that have a serial number that is not empty,
    /// in their order.
    pub fn with_serial(self) -> (disks: Vec<LsBlkDisk>)
        ensures
            disks@ == reportable(self.blockdevices@),
    {
        let ghost all = self.blockdevices@;
        let mut disks: Vec<LsBlkDisk> = Vec::new();
        proof {
            reveal(Seq::filter);
            assert(all.take(0) =~= Seq::<LsBlkDisk>::empty());
        }
        for disk in it: self.blockdevices
            invariant
                it.seq() == all,
                disks@ == reportable(all.take(it.index() as int)),
        {
            proof {
                reveal(Seq::filter);
                assert(all.take(it.index() + 1).drop_last() == all.take(it.index() as int));
            }
            let kept = match &disk.serial {
                Some(serial) => !serial.as_str().is_empty(),
                None => false,
            };
            if kept {
                disks.push(disk);
            }
        }
        assert(all.take(all.len() as int) == all);
        disks
    }
}

} // verus!
