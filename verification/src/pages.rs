//! What the two pages show: the list of disks, and the health record of one
//! device. Each carries a flash message, a kind and a text, if there is one.

use vstd::prelude::*;
use crate::disk_info::{Disk, ListDiskError};
use crate::smartctl::{SmartCtl, SmartCtlError};

verus! {

/// The content of the page that lists the disks.
#[derive(Debug)]
pub struct Index {
    pub flash: Option<(String, String)>,
    pub disks: Vec<Disk>,
}

/// The content of the page of one device's health record.
#[derive(Debug)]
pub struct Smart {
    pub flash: Option<(String, String)>,
    pub smart: Option<SmartCtl>,
}

impl Index {
    /// The page for a round that `listing` is the result of. A round that
    /// succeeded shows its disks and the pending flash message `flash`; one that
    /// failed shows no disk, and the error as a flash message of kind `"error"`.
    pub fn from_listing(
        flash: Option<(String, String)>,
        listing: Result<Vec<Disk>, ListDiskError>,
    ) -> (page: Index)
        ensures
            match listing {
                Ok(disks) => page.flash == flash && page.disks == disks,
                Err(error) => {
                    &&& page.disks@.len() == 0
                    &&& page.flash matches Some(shown)
                    &&& shown.0@ == "error"@
                    &&& shown.1@ == "Error listing disks: "@ + error.text()
                },
            },
    {
        match listing {
            Ok(disks) => Index { flash, disks },
            Err(error) => {
                let text = String::from_str("Error listing disks: ").concat(
                    error.message().as_str(),
                );
                Index { flash: Some((String::from_str("error"), text)), disks: Vec::new() }
            },
        }
    }
}

impl Smart {
    /// The page for a probe that `probe` is the result of. A probe that
    /// succeeded shows its record and the pending flash message `flash`; one that
    /// failed shows no record, and the error as a flash message of kind `"error"`.
    pub fn from_probe(flash: Option<(String, String)>, probe: Result<SmartCtl, SmartCtlError>) -> (page:
        Smart)
        ensures
            match probe {
                Ok(record) => page.flash == flash && page.smart == Some(record),
                Err(error) => {
                    &&& page.smart is None
                    &&& page.flash matches Some(shown)
                    &&& shown.0@ == "error"@
                    &&& shown.1@ == error.text()
                },
            },
    {
        match probe {
            Ok(record) => Smart { flash, smart: Some(record) },
            Err(error) => Smart {
                flash: Some((String::from_str("error"), error.message())),
                smart: None,
            },
        }
    }
}

} // verus!
