//! The library's version.
use vstd::prelude::*;
use crate::constants::{FTDI_MAJOR_VERSION, FTDI_MICRO_VERSION, FTDI_MINOR_VERSION};

verus! {

pub const FTDI_VERSION_STRING: &'static str = "1.5.0";
pub const FTDI_SNAPSHOT_VERSION: &'static str = "v1.5rc1";

/// The library's version: major, minor and micro numbers, the version as
/// text, and the snapshot it was built from.
#[derive(Debug)]
pub struct ftdi_version_info {
    pub major: u8,
    pub minor: u8,
    pub micro: u8,
    pub version_str: String,
    pub snapshot_str: String,
}

impl ftdi_version_info {
    /// The version of this library.
    pub fn ftdi_get_library_version() -> (r: ftdi_version_info)
        ensures
            r.major == FTDI_MAJOR_VERSION,
            r.minor == FTDI_MINOR_VERSION,
            r.micro == FTDI_MICRO_VERSION,
            r.version_str@ == FTDI_VERSION_STRING@,
            r.snapshot_str@ == FTDI_SNAPSHOT_VERSION@,
    {
        ftdi_version_info {
            major: FTDI_MAJOR_VERSION,
            minor: FTDI_MINOR_VERSION,
            micro: FTDI_MICRO_VERSION,
            version_str: FTDI_VERSION_STRING.to_owned(),
            snapshot_str: FTDI_SNAPSHOT_VERSION.to_owned(),
        }
    }
}

impl PartialEq for ftdi_version_info {
    fn eq(&self, other: &ftdi_version_info) -> (r: bool) {
        self.major == other.major && self.minor == other.minor && self.micro == other.micro
            && self.version_str == other.version_str && self.snapshot_str == other.snapshot_str
    }
}

impl vstd::std_specs::cmp::PartialEqSpecImpl for ftdi_version_info {
    open spec fn obeys_eq_spec() -> bool {
        true
    }

    open spec fn eq_spec(&self, other: &ftdi_version_info) -> bool {
        self.major == other.major && self.minor == other.minor && self.micro == other.micro
            && self.version_str@ == other.version_str@ && self.snapshot_str@
            == other.snapshot_str@
    }
}

} // verus!
