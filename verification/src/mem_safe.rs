//! Scoped access to a secure cell through read and write guards.
//!
//! A guard takes the container over wholly while the access lasts: only one
//! guard over a given cell can exist at a time, and while it exists the
//! container itself cannot be touched.  Releasing the guard restores the
//! platform's least-privilege floor and hands the container back.

use vstd::prelude::*;

use crate::cell::Cell;
use crate::error::MemoryError;
use crate::prot::{Platform, Prot};

verus! {

/// A protected container holding one value at the platform's
/// least-privilege floor.  Access goes through [`MemSafe::read`] and
/// [`MemSafe::write`], each of which yields a guard; the value rests at the
/// floor whenever no guard is outstanding.
pub struct MemSafe<T> {
    cell: Cell<T>,
}

/// A guard granting read access to the protected value.
pub struct MemSafeRead<T> {
    cell: Cell<T>,
}

/// A guard granting read and write access to the protected value.
pub struct MemSafeWrite<T> {
    cell: Cell<T>,
}

impl<T> MemSafe<T> {
    /// The underlying cell.
    pub closed spec fn cell(self) -> Cell<T> {
        self.cell
    }

    /// The protected value.
    pub open spec fn value(self) -> T {
        self.cell().value()
    }

    /// The platform capabilities the container was constructed for.
    pub open spec fn platform(self) -> Platform {
        self.cell().platform()
    }

    /// The protection state of the backing allocation.
    pub open spec fn prot(self) -> Prot {
        self.cell().prot()
    }

    /// While no guard is outstanding the container's allocation is well
    /// formed and rests at the platform's least-privilege floor.
    pub open spec fn wf(self) -> bool {
        &&& self.cell().wf()
        &&& self.prot() == self.platform().floor()
    }

    /// The protection state currently applied to the backing allocation.
    pub fn current_prot(&self) -> (p: Prot)
        ensures
            p == self.prot(),
    {
        self.cell.current_prot()
    }

    /// Place `value` in a protected allocation on the default platform,
    /// with the least-privilege floor applied.
    pub fn new(value: T) -> (r: Result<MemSafe<T>, MemoryError>)
        ensures
            r is Ok,
            r->Ok_0.wf(),
            r->Ok_0.value() == value,
            r->Ok_0.platform() == crate::prot::default_platform(),
    {
        match Cell::new(value) {
            Ok(cell) => Ok(MemSafe { cell }),
            Err(e) => Err(e),
        }
    }

    /// Place `value` in a protected allocation for the given platform, with
    /// its least-privilege floor applied.
    pub fn new_on(value: T, platform: Platform) -> (r: Result<MemSafe<T>, MemoryError>)
        ensures
            r is Ok,
            r->Ok_0.wf(),
            r->Ok_0.value() == value,
            r->Ok_0.platform() == platform,
    {
        match Cell::new_on(value, platform) {
            Ok(cell) => Ok(MemSafe { cell }),
            Err(e) => Err(e),
        }
    }

    /// Obtain read access: the allocation becomes read-only and the
    /// container is consumed by the returned guard, so no second guard can
    /// exist beside it.
    pub fn read(self) -> (r: Result<MemSafeRead<T>, MemoryError>)
        requires
            self.wf(),
        ensures
            r is Ok,
            r->Ok_0.wf(),
            r->Ok_0.value() == self.value(),
            r->Ok_0.platform() == self.platform(),
    {
        let MemSafe { mut cell } = self;
        match cell.read_only() {
            Ok(_) => Ok(MemSafeRead { cell }),
            Err(e) => Err(e),
        }
    }

    /// Obtain write access: the allocation becomes readable and writable
    /// and the container is consumed by the returned guard, so no second
    /// guard can exist beside it.
    pub fn write(self) -> (r: Result<MemSafeWrite<T>, MemoryError>)
        requires
            self.wf(),
        ensures
            r is Ok,
            r->Ok_0.wf(),
            r->Ok_0.value() == self.value(),
            r->Ok_0.platform() == self.platform(),
    {
        let MemSafe { mut cell } = self;
        match cell.read_write() {
            Ok(_) => Ok(MemSafeWrite { cell }),
            Err(e) => Err(e),
        }
    }
}

impl<T> MemSafeRead<T> {
    /// The protected value.
    pub closed spec fn value(self) -> T {
        self.cell.value()
    }

    /// The platform capabilities the container was constructed for.
    pub closed spec fn platform(self) -> Platform {
        self.cell.platform()
    }

    /// While the guard lives, the allocation is well formed and read-only.
    pub closed spec fn wf(self) -> bool {
        &&& self.cell.wf()
        &&& self.cell.prot() == Prot::ReadOnly
    }

    /// Read the protected value.
    pub fn get(&self) -> (v: &T)
        requires
            self.wf(),
        ensures
            *v == self.value(),
    {
        self.cell.borrow()
    }

    /// End the access: the allocation returns to the platform's
    /// least-privilege floor and the container comes back, its value
    /// untouched.
    pub fn release(self) -> (r: Result<MemSafe<T>, MemoryError>)
        requires
            self.wf(),
        ensures
            r is Ok,
            r->Ok_0.wf(),
            r->Ok_0.value() == self.value(),
            r->Ok_0.platform() == self.platform(),
            r->Ok_0.prot() == self.platform().floor(),
    {
        let MemSafeRead { mut cell } = self;
        match cell.low_priv() {
            Ok(_) => Ok(MemSafe { cell }),
            Err(e) => Err(e),
        }
    }
}

impl<T> MemSafeWrite<T> {
    /// The protected value.
    pub closed spec fn value(self) -> T {
        self.cell.value()
    }

    /// The platform capabilities the container was constructed for.
    pub closed spec fn platform(self) -> Platform {
        self.cell.platform()
    }

    /// While the guard lives, the allocation is well formed, readable and
    /// writable.
    pub closed spec fn wf(self) -> bool {
        &&& self.cell.wf()
        &&& self.cell.prot() == Prot::ReadWrite
    }

    /// Read the protected value.
    pub fn get(&self) -> (v: &T)
        requires
            self.wf(),
        ensures
            *v == self.value(),
    {
        self.cell.borrow()
    }

    /// Gain mutable access to the protected value.
    pub fn get_mut(&mut self) -> (v: &mut T)
        requires
            old(self).wf(),
        ensures
            *v == old(self).value(),
            final(self).value() == *final(v),
            final(self).platform() == old(self).platform(),
            final(self).wf(),
    {
        self.cell.borrow_mut()
    }

    /// End the access: the allocation returns to the platform's
    /// least-privilege floor and the container comes back holding whatever
    /// was last written.
    pub fn release(self) -> (r: Result<MemSafe<T>, MemoryError>)
        requires
            self.wf(),
        ensures
            r is Ok,
            r->Ok_0.wf(),
            r->Ok_0.value() == self.value(),
            r->Ok_0.platform() == self.platform(),
            r->Ok_0.prot() == self.platform().floor(),
    {
        let MemSafeWrite { mut cell } = self;
        match cell.low_priv() {
            Ok(_) => Ok(MemSafe { cell }),
            Err(e) => Err(e),
        }
    }
}

/// Least privilege at rest: whenever the container stands on its own — as
/// every constructor and every guard release leaves it — the allocation's
/// protection equals the platform's least-privilege floor.
pub proof fn lemma_at_rest_least_privilege<T>(m: MemSafe<T>)
    requires
        m.wf(),
    ensures
        m.prot() == m.platform().floor(),
{
}

/// Round trip: writing `x` through a write guard, releasing the guard, and
/// reading again yields exactly `x`, for every container state and every
/// `x`.  The hypotheses are precisely what the contracts of the write
/// access, the release and the renewed read access establish; no further
/// assumption is needed for the value read to be the value written.
pub proof fn lemma_guard_round_trip<T>(
    writer: MemSafeWrite<T>,
    released: MemSafe<T>,
    reader: MemSafeRead<T>,
    x: T,
)
    requires
        writer.value() == x,
        released.value() == writer.value(),
        reader.value() == released.value(),
    ensures
        reader.value() == x,
{
}

} // verus!
