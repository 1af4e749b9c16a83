//! Scan coordinator: the decisions that drive a discovery restart and
//! the ingestion of discovery events into the state store.
//!
//! The surrounding application performs the wireless calls (starting
//! discovery, pulling events off the live stream, looking up a device's
//! advertised name); every decision about what those results do to the
//! store is made here.

use vstd::prelude::*;

use crate::store::{DeviceAddress, ErrorState, StateStore};

verus! {

/// One event from the live discovery stream, reduced to the values the
/// engine reads: the device's stable address, its advertised name (if
/// the caller could look one up) and, for a discovery, the transport
/// handle to keep. Event kinds the engine ignores arrive as `Other`.
pub enum ScanEvent<H> {
    Discovered { addr: DeviceAddress, name: Option<String>, handle: H },
    Updated { addr: DeviceAddress, name: Option<String> },
    Other,
}

/// Begin a scan restart: drop every prior device (stale entries must
/// not survive a new scan) and reset the scan flag and error slot.
pub fn begin_scan<H>(store: &mut StateStore<H>)
    ensures
        final(store).wf(),
        final(store).device_count() == 0,
        forall|a: DeviceAddress| !final(store).contains_addr(a),
        !final(store).spec_scanning(),
        final(store).spec_error() is None,
{
    store.clear();
}

/// Record the outcome of the discovery-start call. Success clears the
/// error slot and marks scanning active; failure sets the single
/// "scan start failed" error and leaves scanning off. Devices are
/// untouched either way.
pub fn apply_scan_start<H>(store: &mut StateStore<H>, started: bool)
    requires
        old(store).wf(),
    ensures
        final(store).wf(),
        final(store).same_devices(*old(store)),
        final(store).spec_scanning() == started,
        final(store).spec_error() == if started {
            Option::<ErrorState>::None
        } else {
            Some(ErrorState::StartFailed)
        },
{
    if started {
        store.set_error(None);
        store.set_scanning(true);
    } else {
        store.set_error(Some(ErrorState::StartFailed));
        store.set_scanning(false);
    }
}

/// Ingest one discovery event.
///
/// A `Discovered` device is upserted (a re-discovered address keeps its
/// observed power state). An `Updated` device has only its name
/// refreshed, and only if it is still known — a name update never
/// implies fresh telemetry, and an update for a device cleared by a
/// concurrent restart is a benign no-op. Every other event kind is
/// ignored. Event handling never touches the scan flag or error slot.
pub fn handle_scan_event<H>(store: &mut StateStore<H>, event: ScanEvent<H>)
    requires
        old(store).wf(),
    ensures
        final(store).wf(),
        final(store).spec_scanning() == old(store).spec_scanning(),
        final(store).spec_error() == old(store).spec_error(),
        match event {
            ScanEvent::Discovered { addr, name, handle } => {
                &&& final(store).contains_addr(addr)
                &&& forall|a: DeviceAddress|
                    final(store).contains_addr(a) <==> (old(store).contains_addr(a) || a == addr)
                &&& final(store).entry_of(addr).name == name
                &&& final(store).handle_of(addr) == handle
                &&& final(store).entry_of(addr).power_state == if old(store).contains_addr(addr) {
                    old(store).entry_of(addr).power_state
                } else {
                    crate::power::PowerState::Unknown
                }
                &&& forall|a: DeviceAddress|
                    a != addr && old(store).contains_addr(a) ==> final(store).entry_of(a) == old(
                        store,
                    ).entry_of(a) && final(store).handle_of(a) == old(store).handle_of(a)
            },
            ScanEvent::Updated { addr, name } => {
                &&& old(store).contains_addr(addr) ==> {
                    &&& final(store).same_devices_except(*old(store), addr)
                    &&& final(store).entry_of(addr).name == name
                    &&& final(store).entry_of(addr).power_state == old(store).entry_of(
                        addr,
                    ).power_state
                    &&& final(store).handle_of(addr) == old(store).handle_of(addr)
                }
                &&& !old(store).contains_addr(addr) ==> *final(store) == *old(store)
            },
            ScanEvent::Other => *final(store) == *old(store),
        },
{
    match event {
        ScanEvent::Discovered { addr, name, handle } => {
            store.upsert_device(addr, name, handle);
        },
        ScanEvent::Updated { addr, name } => {
            store.update_name(addr, name);
        },
        ScanEvent::Other => {},
    }
}

} // verus!
