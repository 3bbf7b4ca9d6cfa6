//! An inventory of the disks of a host: the block devices that `lsblk`
//! enumerates, each merged with the health record that `smartctl` reports for
//! it, as records that are ready to be shown.
//!
//! The library holds the rules and no I/O. Its caller runs the two tools and
//! hands over what came back: [`lsblk::LsBlk::list`] and
//! [`smartctl::SmartCtl::get`] judge one run each, [`disk_info::Disk::list`]
//! merges a round of them into the list of disks.

pub mod disk_info;
pub mod health;
pub mod lsblk;
pub mod pages;
pub mod size;
pub mod smartctl;
pub mod text;
pub mod tool;
