//! Front-end bridge decisions: what the presentation layer shows and
//! which controls it offers for a given observed state.
//!
//! The rendering itself stays outside the engine; these functions pin
//! down the decisions the widgets are drawn from.

use vstd::prelude::*;

use crate::power::{PowerState, PowerStateCommand};
use crate::store::ErrorState;

verus! {

/// What the header line reports.
#[derive(Clone, Copy, Debug, PartialEq, Eq, Structural)]
pub enum HeaderStatus {
    /// The last scan attempt failed to start.
    ScanFailed,
    /// A scan is running; show the activity spinner.
    Scanning,
    /// Idle: report how many devices were found.
    DeviceCount(usize),
}

/// Decide the header line from a snapshot's error slot, scan flag and
/// device count. An error takes precedence over everything; otherwise
/// an active scan shows as scanning; otherwise the device count.
pub fn header_status(error: Option<ErrorState>, scanning: bool, device_count: usize) -> (r:
    HeaderStatus)
    ensures
        r == if error is Some {
            HeaderStatus::ScanFailed
        } else if scanning {
            HeaderStatus::Scanning
        } else {
            HeaderStatus::DeviceCount(device_count)
        },
{
    match error {
        Some(ErrorState::StartFailed) => HeaderStatus::ScanFailed,
        None => if scanning {
            HeaderStatus::Scanning
        } else {
            HeaderStatus::DeviceCount(device_count)
        },
    }
}

/// Whether the "stand by" control is offered: not when the device is
/// already in standby, and never while its state is unobserved.
pub fn standby_enabled(state: PowerState) -> (r: bool)
    ensures
        r == (state != PowerState::Standby && state != PowerState::Unknown),
{
    !matches!(state, PowerState::Standby | PowerState::Unknown)
}

/// Whether the "sleep" control is offered: not when the device is
/// already asleep, and never while its state is unobserved.
pub fn sleep_enabled(state: PowerState) -> (r: bool)
    ensures
        r == (state != PowerState::Sleep && state != PowerState::Unknown),
{
    !matches!(state, PowerState::Sleep | PowerState::Unknown)
}

/// Whether the "on" control is offered: only from the two low-power
/// states a device can be woken from.
pub fn on_enabled(state: PowerState) -> (r: bool)
    ensures
        r == (state == PowerState::Sleep || state == PowerState::Standby),
{
    matches!(state, PowerState::Sleep | PowerState::Standby)
}

/// The state the presentation optimistically shows right after issuing
/// a command, before any telemetry confirms it: a power-on shows as
/// `Starting` (the device ramps up), the two low-power commands show as
/// their target state.
pub fn optimistic_state(cmd: PowerStateCommand) -> (r: PowerState)
    ensures
        r == match cmd {
            PowerStateCommand::On => PowerState::Starting,
            PowerStateCommand::Sleep => PowerState::Sleep,
            PowerStateCommand::Standby => PowerState::Standby,
        },
{
    match cmd {
        PowerStateCommand::On => PowerState::Starting,
        PowerStateCommand::Sleep => PowerState::Sleep,
        PowerStateCommand::Standby => PowerState::Standby,
    }
}

} // verus!
