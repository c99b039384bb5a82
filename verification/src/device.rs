//! Native device selection.
//!
//! A native device is obtained once per thread, preferring a hardware
//! adapter and falling back to a software or virtual device so headless
//! hosts still work; when neither is available, device creation fails and
//! every frame passes through. The probing itself is driver work; the
//! preference rule is decided here.

use vstd::prelude::*;

verus! {

/// Which kind of adapter a native device was created on.
#[derive(Debug, Clone, Copy, PartialEq, Eq, Structural)]
pub enum DriverKind {
    /// A hardware adapter.
    Hardware,
    /// A software or virtual adapter, for headless use.
    Software,
}

/// The adapter to create the device on, given which kinds the driver
/// reports as available: hardware when it is, else software, else none —
/// and then device creation fails.
pub fn select_driver(hardware_available: bool, software_available: bool) -> (r: Option<
    DriverKind>)
    ensures
        hardware_available ==> r == Some(DriverKind::Hardware),
        !hardware_available && software_available ==> r == Some(DriverKind::Software),
        !hardware_available && !software_available ==> r is None,
{
    if hardware_available {
        Some(DriverKind::Hardware)
    } else if software_available {
        Some(DriverKind::Software)
    } else {
        None
    }
}

} // verus!
