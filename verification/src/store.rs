//! The state store: the single source of truth about discovered devices.
//!
//! The store keeps one record per discovered device, keyed by its stable
//! transport address, holding the observed entry (name, power state) and
//! the live transport handle, together with the scan-activity flag and
//! the single error slot. Entry and handle are inserted and cleared
//! together, so the two "maps" always have exactly the same keys.
//!
//! The store is generic in the handle type `H`: the engine never looks
//! inside a handle, it only stores it and hands it back for the caller's
//! transport operations.

use vstd::prelude::*;

use crate::power::PowerState;

verus! {

/// Stable device address (a 48-bit transport address widened to 64 bits).
pub type DeviceAddress = u64;

/// The single-slot error state: overwritten, never accumulated.
#[derive(Clone, Copy, Debug, PartialEq, Eq, Structural)]
pub enum ErrorState {
    /// Discovery could not be started.
    StartFailed,
}

/// Observed per-device state: optional human-readable name and the
/// last power state learned from telemetry (defaults to `Unknown`).
#[derive(Debug)]
pub struct DeviceEntry {
    pub name: Option<String>,
    pub power_state: PowerState,
}

/// One device record: address, observed entry, transport handle.
struct Record<H> {
    addr: DeviceAddress,
    entry: DeviceEntry,
    handle: H,
}

/// A point-in-time, read-only copy of one device for presentation.
#[derive(Debug)]
pub struct SnapshotEntry {
    pub addr: DeviceAddress,
    pub name: Option<String>,
    pub power_state: PowerState,
}

/// A consistent, read-only copy of the whole store for presentation.
/// Holding it does not block any writer.
#[derive(Debug)]
pub struct Snapshot {
    pub devices: Vec<SnapshotEntry>,
    pub scanning: bool,
    pub error: Option<ErrorState>,
}

/// The shared aggregate of all device records, the scan-activity flag
/// and the error slot. Callers serialize access externally (one
/// exclusive owner at a time); every operation here is a single bounded
/// read or write.
pub struct StateStore<H> {
    records: Vec<Record<H>>,
    scanning: bool,
    error: Option<ErrorState>,
}

impl<H> StateStore<H> {
    /// Addresses of all known devices, in discovery order.
    pub closed spec fn addr_seq(self) -> Seq<DeviceAddress> {
        self.records@.map_values(|r: Record<H>| r.addr)
    }

    /// Well-formedness: addresses are unique, so each address denotes at
    /// most one record.
    pub closed spec fn wf(self) -> bool {
        forall|i: int, j: int|
            0 <= i < j < self.records@.len() ==> self.records@[i].addr != self.records@[j].addr
    }

    /// Whether a device with this address is known. A known address has
    /// both an entry and a handle: they are kept together by construction.
    pub closed spec fn contains_addr(self, a: DeviceAddress) -> bool {
        exists|i: int| 0 <= i < self.records@.len() && self.records@[i].addr == a
    }

    /// Position of the record for a known address.
    pub closed spec fn addr_index(self, a: DeviceAddress) -> int {
        choose|i: int| 0 <= i < self.records@.len() && self.records@[i].addr == a
    }

    /// The observed entry of a known address.
    pub closed spec fn entry_of(self, a: DeviceAddress) -> DeviceEntry {
        self.records@[self.addr_index(a)].entry
    }

    /// The transport handle of a known address.
    pub closed spec fn handle_of(self, a: DeviceAddress) -> H {
        self.records@[self.addr_index(a)].handle
    }

    /// Number of known devices.
    pub open spec fn device_count(self) -> nat {
        self.addr_seq().len()
    }

    /// The scan-activity flag.
    pub closed spec fn spec_scanning(self) -> bool {
        self.scanning
    }

    /// The error slot.
    pub closed spec fn spec_error(self) -> Option<ErrorState> {
        self.error
    }

    /// Both stores know the same devices, with the same entries, handles
    /// and discovery order.
    pub open spec fn same_devices(self, other: Self) -> bool {
        &&& other.addr_seq() == self.addr_seq()
        &&& forall|a: DeviceAddress| other.contains_addr(a) <==> self.contains_addr(a)
        &&& forall|a: DeviceAddress|
            self.contains_addr(a) ==> other.entry_of(a) == self.entry_of(a)
                && other.handle_of(a) == self.handle_of(a)
    }

    /// A record found at a position is the record its address denotes.
    proof fn lemma_index(self, a: DeviceAddress, i: int)
        requires
            self.wf(),
            0 <= i < self.records@.len(),
            self.records@[i].addr == a,
        ensures
            self.contains_addr(a),
            self.addr_index(a) == i,
            self.entry_of(a) == self.records@[i].entry,
            self.handle_of(a) == self.records@[i].handle,
    {
        assert(self.contains_addr(a));
        let j = self.addr_index(a);
        assert(0 <= j < self.records@.len() && self.records@[j].addr == a);
        if i < j {
            assert(self.records@[i].addr != self.records@[j].addr);
        } else if j < i {
            assert(self.records@[j].addr != self.records@[i].addr);
        }
    }

    /// A fresh store: no devices, not scanning, no error.
    pub fn new() -> (s: Self)
        ensures
            s.wf(),
            s.device_count() == 0,
            s.addr_seq() == Seq::<DeviceAddress>::empty(),
            forall|a: DeviceAddress| !s.contains_addr(a),
            !s.spec_scanning(),
            s.spec_error() is None,
    {
        let s = StateStore { records: Vec::new(), scanning: false, error: None };
        proof {
            assert(s.addr_seq() =~= Seq::<DeviceAddress>::empty());
        }
        s
    }

    /// Empty both device collections and reset the scan-activity flag and
    /// the error slot: the clean slate a scan restart begins with.
    pub fn clear(&mut self)
        ensures
            final(self).wf(),
            final(self).device_count() == 0,
            final(self).addr_seq() == Seq::<DeviceAddress>::empty(),
            forall|a: DeviceAddress| !final(self).contains_addr(a),
            !final(self).spec_scanning(),
            final(self).spec_error() is None,
    {
        self.records.clear();
        self.scanning = false;
        self.error = None;
        proof {
            assert(self.addr_seq() =~= Seq::<DeviceAddress>::empty());
        }
    }

    /// Position of the record for an address, if the device is known.
    fn find_index(&self, addr: DeviceAddress) -> (r: Option<usize>)
        ensures
            match r {
                Some(i) => i < self.records@.len() && self.records@[i as int].addr == addr,
                None => !self.contains_addr(addr),
            },
    {
        let mut i: usize = 0;
        while i < self.records.len()
            invariant
                i <= self.records@.len(),
                forall|j: int| 0 <= j < i ==> self.records@[j].addr != addr,
            decreases self.records@.len() - i,
        {
            if self.records[i].addr == addr {
                return Some(i);
            }
            i += 1;
        }
        None
    }

    /// Insert a newly discovered device, or refresh one already known.
    ///
    /// A new address gets a fresh entry with power state `Unknown`; an
    /// address already present keeps its observed power state untouched
    /// (discovery never overwrites telemetry) and only has its name and
    /// handle refreshed. Scan flag and error slot are untouched.
    pub fn upsert_device(&mut self, addr: DeviceAddress, name: Option<String>, handle: H)
        requires
            old(self).wf(),
        ensures
            final(self).wf(),
            final(self).contains_addr(addr),
            forall|a: DeviceAddress|
                final(self).contains_addr(a) <==> (old(self).contains_addr(a) || a == addr),
            final(self).entry_of(addr).name == name,
            final(self).handle_of(addr) == handle,
            final(self).entry_of(addr).power_state == if old(self).contains_addr(addr) {
                old(self).entry_of(addr).power_state
            } else {
                PowerState::Unknown
            },
            forall|a: DeviceAddress|
                a != addr && old(self).contains_addr(a) ==> final(self).entry_of(a) == old(
                    self,
                ).entry_of(a) && final(self).handle_of(a) == old(self).handle_of(a),
            final(self).addr_seq() == if old(self).contains_addr(addr) {
                old(self).addr_seq()
            } else {
                old(self).addr_seq().push(addr)
            },
            final(self).spec_scanning() == old(self).spec_scanning(),
            final(self).spec_error() == old(self).spec_error(),
    {
        let found = self.find_index(addr);
        match found {
            Some(i) => {
                proof {
                    old(self).lemma_index(addr, i as int);
                }
                let mut rec = self.records.remove(i);
                rec.entry.name = name;
                rec.handle = handle;
                let ghost grec = rec;
                self.records.insert(i, rec);
                proof {
                    self.lemma_after_replace(*old(self), i as int, grec);
                }
            },
            None => {
                let rec = Record {
                    addr,
                    entry: DeviceEntry { name, power_state: PowerState::Unknown },
                    handle,
                };
                let ghost grec = rec;
                self.records.push(rec);
                proof {
                    self.lemma_after_push(*old(self), grec);
                }
            },
        }
    }

    /// After replacing the record at position `i` (same address), the new
    /// store relates to the old one record-for-record.
    proof fn lemma_after_replace(self, pre: Self, i: int, rec: Record<H>)
        requires
            pre.wf(),
            0 <= i < pre.records@.len(),
            rec.addr == pre.records@[i].addr,
            self.records@ == pre.records@.remove(i).insert(i, rec),
            self.scanning == pre.scanning,
            self.error == pre.error,
        ensures
            self.wf(),
            self.records@.len() == pre.records@.len(),
            self.contains_addr(rec.addr),
            self.entry_of(rec.addr) == rec.entry,
            self.handle_of(rec.addr) == rec.handle,
            forall|a: DeviceAddress| self.contains_addr(a) <==> pre.contains_addr(a),
            forall|a: DeviceAddress|
                a != rec.addr && pre.contains_addr(a) ==> self.entry_of(a) == pre.entry_of(a)
                    && self.handle_of(a) == pre.handle_of(a),
            self.addr_seq() == pre.addr_seq(),
    {
        assert(self.records@ =~= pre.records@.update(i, rec));
        assert(forall|j: int|
            0 <= j < self.records@.len() ==> self.records@[j].addr == pre.records@[j].addr);
        assert(self.addr_seq() =~= pre.addr_seq());
        assert(self.wf());
        self.lemma_index(rec.addr, i);
        assert forall|a: DeviceAddress| self.contains_addr(a) implies pre.contains_addr(a) by {
            let j = choose|j: int|
                0 <= j < self.records@.len() && self.records@[j].addr == a;
            assert(pre.records@[j].addr == a);
        }
        assert forall|a: DeviceAddress| pre.contains_addr(a) implies self.contains_addr(a) by {
            let j = choose|j: int| 0 <= j < pre.records@.len() && pre.records@[j].addr == a;
            assert(self.records@[j].addr == a);
        }
        assert forall|a: DeviceAddress|
            a != rec.addr && pre.contains_addr(a) implies self.entry_of(a) == pre.entry_of(a)
            && self.handle_of(a) == pre.handle_of(a) by {
            let j = choose|j: int| 0 <= j < pre.records@.len() && pre.records@[j].addr == a;
            pre.lemma_index(a, j);
            assert(j != i);
            assert(self.records@[j].addr == a);
            self.lemma_index(a, j);
        }
    }

    /// After pushing a record with a fresh address, the new store extends
    /// the old one by exactly that device.
    proof fn lemma_after_push(self, pre: Self, rec: Record<H>)
        requires
            pre.wf(),
            !pre.contains_addr(rec.addr),
            self.records@ == pre.records@.push(rec),
            self.scanning == pre.scanning,
            self.error == pre.error,
        ensures
            self.wf(),
            self.records@.len() == pre.records@.len() + 1,
            self.contains_addr(rec.addr),
            self.entry_of(rec.addr) == rec.entry,
            self.handle_of(rec.addr) == rec.handle,
            forall|a: DeviceAddress|
                self.contains_addr(a) <==> (pre.contains_addr(a) || a == rec.addr),
            forall|a: DeviceAddress|
                a != rec.addr && pre.contains_addr(a) ==> self.entry_of(a) == pre.entry_of(a)
                    && self.handle_of(a) == pre.handle_of(a),
            self.addr_seq() == pre.addr_seq().push(rec.addr),
    {
        let n = pre.records@.len() as int;
        assert forall|i: int, j: int|
            0 <= i < j < self.records@.len() implies self.records@[i].addr
            != self.records@[j].addr by {
            if j < n {
                assert(pre.records@[i].addr != pre.records@[j].addr);
            } else {
                // j is the new record; its address is fresh.
                assert(self.records@[j].addr == rec.addr);
                assert(pre.records@[i].addr != rec.addr) by {
                    if pre.records@[i].addr == rec.addr {
                        assert(pre.contains_addr(rec.addr));
                    }
                }
            }
        }
        self.lemma_index(rec.addr, n);
        assert(self.addr_seq() =~= pre.addr_seq().push(rec.addr));
        assert forall|a: DeviceAddress|
            self.contains_addr(a) implies (pre.contains_addr(a) || a == rec.addr) by {
            let j = choose|j: int|
                0 <= j < self.records@.len() && self.records@[j].addr == a;
            if j < n {
                assert(pre.records@[j].addr == a);
            }
        }
        assert forall|a: DeviceAddress| pre.contains_addr(a) implies self.contains_addr(a) by {
            let j = choose|j: int| 0 <= j < pre.records@.len() && pre.records@[j].addr == a;
            assert(self.records@[j].addr == a);
        }
        assert forall|a: DeviceAddress|
            a != rec.addr && pre.contains_addr(a) implies self.entry_of(a) == pre.entry_of(a)
            && self.handle_of(a) == pre.handle_of(a) by {
            let j = choose|j: int| 0 <= j < pre.records@.len() && pre.records@[j].addr == a;
            pre.lemma_index(a, j);
            assert(self.records@[j].addr == a);
            self.lemma_index(a, j);
        }
    }

    /// Update the observed power state of a known device; an absent
    /// address is a benign no-op (the device may have been cleared by a
    /// concurrent scan restart), never an error.
    pub fn update_power_state(&mut self, addr: DeviceAddress, power: PowerState)
        requires
            old(self).wf(),
        ensures
            final(self).wf(),
            old(self).contains_addr(addr) ==> {
                &&& final(self).same_devices_except(*old(self), addr)
                &&& final(self).entry_of(addr).power_state == power
                &&& final(self).entry_of(addr).name == old(self).entry_of(addr).name
                &&& final(self).handle_of(addr) == old(self).handle_of(addr)
            },
            !old(self).contains_addr(addr) ==> *final(self) == *old(self),
            final(self).spec_scanning() == old(self).spec_scanning(),
            final(self).spec_error() == old(self).spec_error(),
    {
        let found = self.find_index(addr);
        match found {
            Some(i) => {
                proof {
                    old(self).lemma_index(addr, i as int);
                }
                let mut rec = self.records.remove(i);
                rec.entry.power_state = power;
                let ghost grec = rec;
                self.records.insert(i, rec);
                proof {
                    self.lemma_after_replace(*old(self), i as int, grec);
                }
            },
            None => {},
        }
    }

    /// Update the name of a known device; an absent address is a benign
    /// no-op, never an error.
    pub fn update_name(&mut self, addr: DeviceAddress, name: Option<String>)
        requires
            old(self).wf(),
        ensures
            final(self).wf(),
            old(self).contains_addr(addr) ==> {
                &&& final(self).same_devices_except(*old(self), addr)
                &&& final(self).entry_of(addr).name == name
                &&& final(self).entry_of(addr).power_state == old(self).entry_of(
                    addr,
                ).power_state
                &&& final(self).handle_of(addr) == old(self).handle_of(addr)
            },
            !old(self).contains_addr(addr) ==> *final(self) == *old(self),
            final(self).spec_scanning() == old(self).spec_scanning(),
            final(self).spec_error() == old(self).spec_error(),
    {
        let found = self.find_index(addr);
        match found {
            Some(i) => {
                proof {
                    old(self).lemma_index(addr, i as int);
                }
                let mut rec = self.records.remove(i);
                rec.entry.name = name;
                let ghost grec = rec;
                self.records.insert(i, rec);
                proof {
                    self.lemma_after_replace(*old(self), i as int, grec);
                }
            },
            None => {},
        }
    }

    /// Both stores know the same devices in the same order, and every
    /// device other than `except` has the same entry and handle.
    pub open spec fn same_devices_except(self, other: Self, except: DeviceAddress) -> bool {
        &&& self.addr_seq() == other.addr_seq()
        &&& forall|a: DeviceAddress| self.contains_addr(a) <==> other.contains_addr(a)
        &&& forall|a: DeviceAddress|
            a != except && other.contains_addr(a) ==> self.entry_of(a) == other.entry_of(a)
                && self.handle_of(a) == other.handle_of(a)
    }

    /// Whether a device with this address is currently known.
    pub fn contains_device(&self, addr: DeviceAddress) -> (r: bool)
        requires
            self.wf(),
        ensures
            r == self.contains_addr(addr),
    {
        let found = self.find_index(addr);
        match found {
            Some(i) => {
                proof {
                    self.lemma_index(addr, i as int);
                }
                true
            },
            None => false,
        }
    }

    /// The transport handle of a known device, for the caller's wireless
    /// operations; `None` if the device is not (or no longer) known.
    pub fn get_handle(&self, addr: DeviceAddress) -> (r: Option<&H>)
        requires
            self.wf(),
        ensures
            match r {
                Some(h) => self.contains_addr(addr) && *h == self.handle_of(addr),
                None => !self.contains_addr(addr),
            },
    {
        let found = self.find_index(addr);
        match found {
            Some(i) => {
                proof {
                    self.lemma_index(addr, i as int);
                }
                Some(&self.records[i].handle)
            },
            None => None,
        }
    }

    /// The last observed power state of a known device.
    pub fn get_power_state(&self, addr: DeviceAddress) -> (r: Option<PowerState>)
        requires
            self.wf(),
        ensures
            match r {
                Some(p) => self.contains_addr(addr) && p == self.entry_of(addr).power_state,
                None => !self.contains_addr(addr),
            },
    {
        let found = self.find_index(addr);
        match found {
            Some(i) => {
                proof {
                    self.lemma_index(addr, i as int);
                }
                Some(self.records[i].entry.power_state)
            },
            None => None,
        }
    }

    /// Addresses of all known devices, in discovery order. The caller
    /// can iterate this copy without further access to the store.
    pub fn addresses(&self) -> (r: Vec<DeviceAddress>)
        ensures
            r@ == self.addr_seq(),
    {
        let mut r: Vec<DeviceAddress> = Vec::new();
        let mut i: usize = 0;
        while i < self.records.len()
            invariant
                i <= self.records@.len(),
                r@ == self.addr_seq().subrange(0, i as int),
            decreases self.records@.len() - i,
        {
            r.push(self.records[i].addr);
            proof {
                assert(r@ =~= self.addr_seq().subrange(0, i + 1 as int));
            }
            i += 1;
        }
        proof {
            assert(r@ =~= self.addr_seq());
        }
        r
    }

    /// Number of known devices.
    pub fn len(&self) -> (r: usize)
        ensures
            r == self.device_count(),
    {
        self.records.len()
    }

    /// The scan-activity flag.
    pub fn is_scanning(&self) -> (r: bool)
        ensures
            r == self.spec_scanning(),
    {
        self.scanning
    }

    /// Set the scan-activity flag; devices and error slot are untouched.
    pub fn set_scanning(&mut self, scanning: bool)
        requires
            old(self).wf(),
        ensures
            final(self).wf(),
            final(self).same_devices(*old(self)),
            final(self).spec_scanning() == scanning,
            final(self).spec_error() == old(self).spec_error(),
    {
        self.scanning = scanning;
    }

    /// The error slot.
    pub fn error(&self) -> (r: Option<ErrorState>)
        ensures
            r == self.spec_error(),
    {
        self.error
    }

    /// Overwrite the error slot; devices and scan flag are untouched.
    pub fn set_error(&mut self, error: Option<ErrorState>)
        requires
            old(self).wf(),
        ensures
            final(self).wf(),
            final(self).same_devices(*old(self)),
            final(self).spec_scanning() == old(self).spec_scanning(),
            final(self).spec_error() == error,
    {
        self.error = error;
    }

    /// A read-only copy of every device entry plus the scan flag and the
    /// error slot, in discovery order. The caller renders from the copy
    /// without holding the store.
    pub fn snapshot(&self) -> (s: Snapshot)
        requires
            self.wf(),
        ensures
            s.devices@.len() == self.device_count(),
            forall|i: int|
                0 <= i < s.devices@.len() ==> {
                    let e = #[trigger] s.devices@[i];
                    &&& e.addr == self.addr_seq()[i]
                    &&& self.contains_addr(e.addr)
                    &&& e.name == self.entry_of(e.addr).name
                    &&& e.power_state == self.entry_of(e.addr).power_state
                },
            s.scanning == self.spec_scanning(),
            s.error == self.spec_error(),
    {
        let mut devices: Vec<SnapshotEntry> = Vec::new();
        let mut i: usize = 0;
        while i < self.records.len()
            invariant
                self.wf(),
                i <= self.records@.len(),
                devices@.len() == i,
                forall|j: int|
                    0 <= j < i ==> {
                        let e = #[trigger] devices@[j];
                        &&& e.addr == self.addr_seq()[j]
                        &&& self.contains_addr(e.addr)
                        &&& e.name == self.entry_of(e.addr).name
                        &&& e.power_state == self.entry_of(e.addr).power_state
                    },
            decreases self.records@.len() - i,
        {
            proof {
                self.lemma_index(self.records@[i as int].addr, i as int);
            }
            let name = match &self.records[i].entry.name {
                Some(n) => Some(n.clone()),
                None => None,
            };
            devices.push(
                SnapshotEntry {
                    addr: self.records[i].addr,
                    name,
                    power_state: self.records[i].entry.power_state,
                },
            );
            i += 1;
        }
        Snapshot { devices, scanning: self.scanning, error: self.error }
    }
}

} // verus!
