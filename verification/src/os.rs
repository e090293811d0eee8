//! Operating-system package families.

use vstd::prelude::*;
use crate::os::linux::LinuxPackageManager;

pub mod linux;

verus! {

/// The package management of the running system.
#[derive(Debug, Clone, Copy, PartialEq, Eq, Structural)]
pub struct Os {
    pub linux: LinuxPackageManager,
}

} // verus!
