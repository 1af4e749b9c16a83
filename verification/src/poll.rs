//! Poll loop decisions: what a freshly read telemetry payload does to
//! the state store.
//!
//! The application's poll loop walks a copy of the known addresses,
//! reads each device's power characteristic over the transport, and
//! hands every payload it obtained to `apply_poll_reading`. Polling is
//! the only writer of observed power state; a failed or garbled read
//! never degrades what is already known.

use vstd::prelude::*;

use crate::power::{spec_decode, PowerState};
use crate::store::{DeviceAddress, StateStore};

verus! {

/// Apply one telemetry payload read from a device.
///
/// The payload is decoded totally; a decode of `Unknown` carries no new
/// information and is never written, so a transient garbled read cannot
/// mask a previously known good state. A definite state is written to
/// the device's entry if the device is still known; an address cleared
/// by a concurrent restart is a benign no-op.
pub fn apply_poll_reading<H>(store: &mut StateStore<H>, addr: DeviceAddress, data: &[u8])
    requires
        old(store).wf(),
    ensures
        final(store).wf(),
        final(store).spec_scanning() == old(store).spec_scanning(),
        final(store).spec_error() == old(store).spec_error(),
        spec_decode(data@) == PowerState::Unknown ==> *final(store) == *old(store),
        spec_decode(data@) != PowerState::Unknown && old(store).contains_addr(addr) ==> {
            &&& final(store).same_devices_except(*old(store), addr)
            &&& final(store).entry_of(addr).power_state == spec_decode(data@)
            &&& final(store).entry_of(addr).name == old(store).entry_of(addr).name
            &&& final(store).handle_of(addr) == old(store).handle_of(addr)
        },
        !old(store).contains_addr(addr) ==> *final(store) == *old(store),
        // A poll write never replaces a known state by Unknown: any
        // device whose state was not Unknown before still has a
        // non-Unknown state afterwards.
        forall|a: DeviceAddress|
            old(store).contains_addr(a) && old(store).entry_of(a).power_state
                != PowerState::Unknown ==> final(store).contains_addr(a) && final(store).entry_of(
                a,
            ).power_state != PowerState::Unknown,
{
    let state = PowerState::decode(data);
    if !matches!(state, PowerState::Unknown) {
        store.update_power_state(addr, state);
    }
}

} // verus!
