//! Verified core of a diskless network-boot client manager.
//!
//! The library holds the logic of the system: the configuration document and
//! its invariants, the derivation of storage/export/boot names from a client
//! id, the grammar of the boot-configuration file, and the step machines that
//! sequence each client lifecycle operation across the storage, export and
//! boot subsystems.  The surrounding binary performs the external commands
//! that the step machines request and feeds their outcomes back in.
use vstd::prelude::*;

pub mod client;
pub mod config;
pub mod dhcp;
pub mod iscsi;
pub mod machine;
pub mod naming;
pub mod text;
pub mod service;
pub mod time;
pub mod utils;
pub mod zfs;

verus! {

/// Name of the ZFS pool that holds masters and client clones.
pub const ZFS_POOL: &'static str = "diskless";

/// Path of the shared DHCP configuration file.
pub const DHCP_CONFIG_PATH: &'static str = "/etc/dhcp/dhcpd.conf";

} // verus!
