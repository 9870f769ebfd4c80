use vstd::prelude::*;

use crate::input::DeviceId;

verus! {

/// One backend handle the registry has seen, the identifier issued for
/// its current (or last) connection, and whether that connection is
/// still up.
#[derive(Clone, Copy, PartialEq, Eq, Structural, Debug)]
struct PadEntry {
    handle: u64,
    id_raw: u64,
    connected: bool,
}

/// Tracks gamepad connection lifecycle. The backend reports connections
/// under its own handles, which it may recycle; the registry issues a
/// fresh [`DeviceId`] for every connection, so an identifier retired by
/// a disconnect is never issued again, even when the backend reuses the
/// handle.
pub struct GamepadRegistry {
    entries: Vec<PadEntry>,
    next_raw: u64,
    issued: Ghost<Set<u64>>,
}

impl GamepadRegistry {
    /// The raw values of every identifier this registry has ever issued.
    pub closed spec fn spec_issued(self) -> Set<u64> {
        self.issued@
    }

    /// Whether the backend handle `handle` is currently connected.
    pub closed spec fn spec_has(self, handle: u64) -> bool {
        exists|i: int|
            0 <= i < self.entries@.len() && self.entries@[i].handle == handle
                && self.entries@[i].connected
    }

    /// The index of the entry for `handle`, when one exists.
    spec fn spec_idx_of(self, handle: u64) -> int {
        choose|i: int| 0 <= i < self.entries@.len() && self.entries@[i].handle == handle
    }

    /// The identifier issued for `handle`'s current connection.
    pub closed spec fn spec_id_of(self, handle: u64) -> DeviceId {
        DeviceId { raw: self.entries@[self.spec_idx_of(handle)].id_raw }
    }

    /// The raw value the next issued identifier will carry. Strictly
    /// larger than every raw value issued so far.
    pub closed spec fn spec_next_raw(self) -> u64 {
        self.next_raw
    }

    /// Internal consistency: one entry per backend handle, every issued
    /// raw value below the issue counter, every entry's identifier among
    /// the issued ones.
    pub closed spec fn wf(self) -> bool {
        &&& forall|i: int, j: int|
            0 <= i < self.entries@.len() && 0 <= j < self.entries@.len() && i != j
                ==> #[trigger] self.entries@[i].handle != #[trigger] self.entries@[j].handle
        &&& forall|x: u64| self.issued@.contains(x) ==> x < self.next_raw
        &&& forall|i: int|
            0 <= i < self.entries@.len() ==> self.issued@.contains(
                #[trigger] self.entries@[i].id_raw,
            )
    }

    /// An empty registry: nothing connected, nothing issued.
    pub fn new() -> (r: GamepadRegistry)
        ensures
            r.wf(),
            forall|h: u64| !r.spec_has(h),
            r.spec_issued() == Set::<u64>::empty(),
    {
        GamepadRegistry { entries: Vec::new(), next_raw: 0, issued: Ghost(Set::empty()) }
    }

    /// Whether another identifier can still be issued: the issue counter
    /// has not exhausted the 64-bit space.
    pub fn next_raw_in_range(&self) -> (r: bool)
        ensures
            r == (self.spec_next_raw() < u64::MAX),
    {
        self.next_raw < u64::MAX
    }

    /// The index of `handle`'s entry, connected or not.
    fn find(&self, handle: u64) -> (r: Option<usize>)
        requires
            self.wf(),
        ensures
            match r {
                Some(i) => i < self.entries@.len() && self.entries@[i as int].handle == handle
                    && i as int == self.spec_idx_of(handle),
                None => forall|i: int|
                    0 <= i < self.entries@.len() ==> (#[trigger] self.entries@[i]).handle
                        != handle,
            },
    {
        let mut i: usize = 0;
        while i < self.entries.len()
            invariant
                self.wf(),
                i <= self.entries.len(),
                forall|j: int| 0 <= j < i ==> (#[trigger] self.entries@[j]).handle != handle,
            decreases self.entries.len() - i,
        {
            if self.entries[i].handle == handle {
                proof {
                    assert(self.entries@[i as int].handle == handle);
                    assert(exists|k: int|
                        0 <= k < self.entries@.len() && self.entries@[k].handle == handle);
                    let c = self.spec_idx_of(handle);
                    assert(0 <= c < self.entries@.len() && self.entries@[c].handle == handle);
                    if c != i as int {
                        assert(self.entries@[c].handle != self.entries@[i as int].handle);
                    }
                }
                return Some(i);
            }
            i = i + 1;
        }
        None
    }

    /// Records a connection of the backend handle `handle` and issues a
    /// fresh identifier for it: one that this registry has never issued
    /// before, so no identifier retired by an earlier disconnect is ever
    /// seen again on a new connection.
    pub fn connect(&mut self, handle: u64) -> (r: DeviceId)
        requires
            old(self).wf(),
            old(self).spec_next_raw() < u64::MAX,
        ensures
            final (self).wf(),
            r.raw == old(self).spec_next_raw(),
            !old(self).spec_issued().contains(r.raw),
            final (self).spec_issued() == old(self).spec_issued().insert(r.raw),
            final (self).spec_next_raw() == old(self).spec_next_raw() + 1,
            final (self).spec_has(handle),
            final (self).spec_id_of(handle) == r,
            forall|h: u64|
                h != handle ==> final (self).spec_has(h) == old(self).spec_has(h),
            forall|h: u64|
                h != handle && old(self).spec_has(h) ==> final (self).spec_id_of(h) == old(self).spec_id_of(h),
    {
        let id_raw = self.next_raw;
        let entry = PadEntry { handle, id_raw, connected: true };
        let found = self.find(handle);
        match found {
            Some(i) => {
                self.entries.set(i, entry);
            },
            None => {
                self.entries.push(entry);
            },
        }
        self.next_raw = self.next_raw + 1;
        proof {
            self.issued@ = self.issued@.insert(id_raw);
            let n0 = old(self).entries@.len() as int;
            let ei: int = match found {
                Some(i) => i as int,
                None => n0,
            };
            assert(self.entries@[ei] == entry);
            assert(forall|k: int|
                0 <= k < self.entries@.len() && k != ei ==> #[trigger] self.entries@[k] == old(
                    self,
                ).entries@[k]);
            assert(forall|k: int|
                0 <= k < self.entries@.len() && k != ei ==> (#[trigger] self.entries@[k]).handle
                    != handle);
            // The new table is well formed and `handle` maps to the fresh entry.
            assert(self.wf());
            let ci = self.spec_idx_of(handle);
            assert(0 <= ci < self.entries@.len() && self.entries@[ci].handle == handle);
            assert(ci == ei);
            assert(self.spec_has(handle));
            assert(self.spec_id_of(handle) == DeviceId { raw: id_raw });
            // Other handles keep their connection state and identifier.
            assert forall|h: u64| h != handle implies self.spec_has(h) == old(self).spec_has(
                h,
            ) by {
                if self.spec_has(h) {
                    let k = choose|k: int|
                        0 <= k < self.entries@.len() && self.entries@[k].handle == h
                            && self.entries@[k].connected;
                    assert(k != ei);
                    assert(old(self).entries@[k].handle == h && old(self).entries@[k].connected);
                }
                if old(self).spec_has(h) {
                    let k = choose|k: int|
                        0 <= k < n0 && old(self).entries@[k].handle == h && old(
                            self,
                        ).entries@[k].connected;
                    assert(k != ei);
                    assert(self.entries@[k].handle == h && self.entries@[k].connected);
                }
            }
            assert forall|h: u64| h != handle && old(self).spec_has(h) implies self.spec_id_of(h)
                == old(self).spec_id_of(h) by {
                let c0 = old(self).spec_idx_of(h);
                let c1 = self.spec_idx_of(h);
                let k = choose|k: int|
                    0 <= k < n0 && old(self).entries@[k].handle == h && old(
                        self,
                    ).entries@[k].connected;
                assert(0 <= c0 < n0 && old(self).entries@[c0].handle == h);
                assert(k != ei);
                assert(self.entries@[k].handle == h);
                assert(0 <= c1 < self.entries@.len() && self.entries@[c1].handle == h);
                assert(c1 != ei);
                assert(old(self).entries@[c1].handle == h);
                if c0 != c1 {
                    assert(old(self).entries@[c0].handle != old(self).entries@[c1].handle);
                }
            }
        }
        DeviceId { raw: id_raw }
    }

    /// Records a disconnect of `handle` and returns the identifier that
    /// is thereby retired, or `None` when the handle was not connected
    /// (the report is then dropped).
    pub fn disconnect(&mut self, handle: u64) -> (r: Option<DeviceId>)
        requires
            old(self).wf(),
        ensures
            final (self).wf(),
            r == if old(self).spec_has(handle) {
                Some(old(self).spec_id_of(handle))
            } else {
                None::<DeviceId>
            },
            r is Some ==> old(self).spec_issued().contains(r->Some_0.raw),
            !old(self).spec_has(handle) ==> *final (self) == *old(self),
            !final (self).spec_has(handle),
            final (self).spec_issued() == old(self).spec_issued(),
            final (self).spec_next_raw() == old(self).spec_next_raw(),
            forall|h: u64|
                h != handle ==> final (self).spec_has(h) == old(self).spec_has(h),
            forall|h: u64|
                h != handle && old(self).spec_has(h) ==> final (self).spec_id_of(h) == old(self).spec_id_of(h),
    {
        let found = self.find(handle);
        match found {
            Some(i) => {
                let e = self.entries[i];
                if e.connected {
                    self.entries.set(
                        i,
                        PadEntry { handle, id_raw: e.id_raw, connected: false },
                    );
                    proof {
                        assert(old(self).spec_has(handle));
                        assert(old(self).spec_idx_of(handle) == i as int);
                        assert forall|h: u64| h != handle && old(self).spec_has(h) implies final (self).spec_has(h) && final (self).spec_id_of(h) == old(self).spec_id_of(
                            h,
                        ) by {
                            let j = choose|j: int|
                                0 <= j < old(self).entries@.len() && old(self).entries@[j].handle
                                    == h && old(self).entries@[j].connected;
                            assert(self.entries@[j].handle == h && self.entries@[j].connected);
                            let c0 = old(self).spec_idx_of(h);
                            let c1 = self.spec_idx_of(h);
                            assert(0 <= c1 < self.entries@.len() && self.entries@[c1].handle == h);
                            assert(old(self).entries@[c1].handle == h);
                            assert(0 <= c0 < old(self).entries@.len() && old(self).entries@[c0].handle == h);
                        }
                        assert forall|h: u64| h != handle && self.spec_has(h) implies old(self).spec_has(h) by {
                            let j = choose|j: int|
                                0 <= j < self.entries@.len() && self.entries@[j].handle == h
                                    && self.entries@[j].connected;
                            assert(old(self).entries@[j].handle == h && old(self).entries@[j].connected);
                        }
                    }
                    Some(DeviceId { raw: e.id_raw })
                } else {
                    proof {
                        assert(!old(self).spec_has(handle)) by {
                            assert forall|j: int|
                                0 <= j < self.entries@.len() && self.entries@[j].handle == handle
                                    implies !self.entries@[j].connected by {
                                assert(j == i as int);
                            }
                        }
                    }
                    None
                }
            },
            None => {
                None
            },
        }
    }

    /// The identifier under which `handle` is currently connected, used
    /// to attribute button and axis reports; `None` when the handle is
    /// unknown or disconnected, in which case the report is dropped.
    pub fn lookup(&self, handle: u64) -> (r: Option<DeviceId>)
        requires
            self.wf(),
        ensures
            r == if self.spec_has(handle) {
                Some(self.spec_id_of(handle))
            } else {
                None::<DeviceId>
            },
    {
        let found = self.find(handle);
        match found {
            Some(i) => {
                let e = self.entries[i];
                if e.connected {
                    Some(DeviceId { raw: e.id_raw })
                } else {
                    proof {
                        assert forall|j: int|
                            0 <= j < self.entries@.len() && self.entries@[j].handle == handle
                                implies !self.entries@[j].connected by {
                            assert(j == i as int);
                        }
                    }
                    None
                }
            },
            None => {
                None
            },
        }
    }
}

} // verus!
