//! A typed-state front end over the secure cell: the current protection
//! state is part of the handle's static type, so an access attempted in the
//! wrong state is rejected before the program runs.
//!
//! Every transition consumes its input and yields a handle of the new type;
//! the stale handle cannot be used afterwards.  This trades the flexibility
//! of the guard API for compile-time rejection of illegal accesses.

use core::convert::Infallible;

use vstd::prelude::*;

use crate::cell::Cell;
use crate::error::MemoryError;
use crate::mem::Event;
use crate::prot::{Platform, Prot};

verus! {

/// The static tag of a handle whose allocation is fully inaccessible.
pub struct NoAccess;

/// The static tag of a handle whose allocation is readable.
pub struct ReadOnly;

/// The static tag of a handle whose allocation is readable and writable.
pub struct ReadWrite;

/// A protected container whose protection state is carried in its type:
/// exactly one of [`NoAccess`], [`ReadOnly`] or [`ReadWrite`].  Only the
/// transitions and accessors valid in the current state exist on the
/// corresponding type.
pub struct MemSafe<T, State = NoAccess> {
    cell: Cell<T>,
    state: State,
}

impl<T> MemSafe<T, NoAccess> {
    /// The underlying cell.
    pub closed spec fn cell(self) -> Cell<T> {
        self.cell
    }

    /// The protected value.
    pub open spec fn value(self) -> T {
        self.cell().value()
    }

    /// The platform capabilities the handle was constructed for.
    pub open spec fn platform(self) -> Platform {
        self.cell().platform()
    }

    /// The allocation is well formed and fully inaccessible, on a platform
    /// whose locked pages may be made inaccessible.
    pub open spec fn wf(self) -> bool {
        &&& self.cell().wf()
        &&& self.cell().prot() == Prot::NoAccess
        &&& self.platform().no_access_lockable
    }

    /// Place `value` in a protected, pinned allocation with no access
    /// permissions: the floor state of a platform that can keep an
    /// inaccessible page locked.
    pub fn new(value: T) -> (r: Result<MemSafe<T, NoAccess>, MemoryError>)
        ensures
            r is Ok,
            r->Ok_0.wf(),
            r->Ok_0.value() == value,
            r->Ok_0.platform() == crate::prot::default_platform(),
    {
        match Cell::new_on(value, Platform::with_no_access_floor()) {
            Ok(cell) => Ok(MemSafe { cell, state: NoAccess }),
            Err(e) => Err(e),
        }
    }

    /// The identity transition: does nothing and returns the handle itself.
    /// It invokes no protection primitive, so the allocation's trace is
    /// exactly as it was.
    pub fn no_access(self) -> (r: Result<MemSafe<T, NoAccess>, Infallible>)
        requires
            self.wf(),
        ensures
            r is Ok,
            r->Ok_0 == self,
    {
        Ok(self)
    }

    /// Make the allocation readable: consumes this handle and yields the
    /// read-only typed handle.
    pub fn read_only(self) -> (r: Result<MemSafe<T, ReadOnly>, MemoryError>)
        requires
            self.wf(),
        ensures
            r is Ok,
            r->Ok_0.wf(),
            r->Ok_0.value() == self.value(),
            r->Ok_0.platform() == self.platform(),
            r->Ok_0.cell().region().events() == self.cell().region().events().push(
                Event::Protect(Prot::ReadOnly),
            ),
    {
        let MemSafe { mut cell, state: _ } = self;
        match cell.read_only() {
            Ok(_) => Ok(MemSafe { cell, state: ReadOnly }),
            Err(e) => Err(e),
        }
    }

    /// Make the allocation readable and writable: consumes this handle and
    /// yields the read-write typed handle.
    pub fn read_write(self) -> (r: Result<MemSafe<T, ReadWrite>, MemoryError>)
        requires
            self.wf(),
        ensures
            r is Ok,
            r->Ok_0.wf(),
            r->Ok_0.value() == self.value(),
            r->Ok_0.platform() == self.platform(),
            r->Ok_0.cell().region().events() == self.cell().region().events().push(
                Event::Protect(Prot::ReadWrite),
            ),
    {
        let MemSafe { mut cell, state: _ } = self;
        match cell.read_write() {
            Ok(_) => Ok(MemSafe { cell, state: ReadWrite }),
            Err(e) => Err(e),
        }
    }
}

impl<T> MemSafe<T, ReadOnly> {
    /// The underlying cell.
    pub closed spec fn cell(self) -> Cell<T> {
        self.cell
    }

    /// The protected value.
    pub open spec fn value(self) -> T {
        self.cell().value()
    }

    /// The platform capabilities the handle was constructed for.
    pub open spec fn platform(self) -> Platform {
        self.cell().platform()
    }

    /// The allocation is well formed and read-only.
    pub open spec fn wf(self) -> bool {
        &&& self.cell().wf()
        &&& self.cell().prot() == Prot::ReadOnly
    }

    /// Place `value` in a protected, pinned allocation with read-only
    /// permission: the floor state of a platform that cannot keep an
    /// inaccessible page locked.
    pub fn new(value: T) -> (r: Result<MemSafe<T, ReadOnly>, MemoryError>)
        ensures
            r is Ok,
            r->Ok_0.wf(),
            r->Ok_0.value() == value,
            (r->Ok_0.platform() == Platform { no_access_lockable: false }),
    {
        match Cell::new_on(value, Platform::with_read_only_floor()) {
            Ok(cell) => Ok(MemSafe { cell, state: ReadOnly }),
            Err(e) => Err(e),
        }
    }

    /// Make the allocation fully inaccessible: consumes this handle and
    /// yields the no-access typed handle.  Available only where the
    /// platform can keep an inaccessible page locked.
    pub fn no_access(self) -> (r: Result<MemSafe<T, NoAccess>, MemoryError>)
        requires
            self.wf(),
            self.platform().no_access_lockable,
        ensures
            r is Ok,
            r->Ok_0.wf(),
            r->Ok_0.value() == self.value(),
            r->Ok_0.platform() == self.platform(),
            r->Ok_0.cell().region().events() == self.cell().region().events().push(
                Event::Protect(Prot::NoAccess),
            ),
    {
        let MemSafe { mut cell, state: _ } = self;
        match cell.no_access() {
            Ok(_) => Ok(MemSafe { cell, state: NoAccess }),
            Err(e) => Err(e),
        }
    }

    /// The identity transition: does nothing and returns the handle itself.
    /// It invokes no protection primitive, so the allocation's trace is
    /// exactly as it was.
    pub fn read_only(self) -> (r: Result<MemSafe<T, ReadOnly>, Infallible>)
        requires
            self.wf(),
        ensures
            r is Ok,
            r->Ok_0 == self,
    {
        Ok(self)
    }

    /// Make the allocation readable and writable: consumes this handle and
    /// yields the read-write typed handle.
    pub fn read_write(self) -> (r: Result<MemSafe<T, ReadWrite>, MemoryError>)
        requires
            self.wf(),
        ensures
            r is Ok,
            r->Ok_0.wf(),
            r->Ok_0.value() == self.value(),
            r->Ok_0.platform() == self.platform(),
            r->Ok_0.cell().region().events() == self.cell().region().events().push(
                Event::Protect(Prot::ReadWrite),
            ),
    {
        let MemSafe { mut cell, state: _ } = self;
        match cell.read_write() {
            Ok(_) => Ok(MemSafe { cell, state: ReadWrite }),
            Err(e) => Err(e),
        }
    }

    /// Read the protected value.
    pub fn as_ref(&self) -> (v: &T)
        requires
            self.wf(),
        ensures
            *v == self.value(),
    {
        self.cell.borrow()
    }
}

/// Round trip through the typed-state API: after `x` is written through a
/// read-write handle, every chain of transitions that ends in a readable
/// handle yields exactly `x`, since transitions never touch the value.  The
/// hypotheses are precisely what the contracts of the write access and of
/// the transitions establish.
pub proof fn lemma_typed_state_round_trip<T>(
    writer: MemSafe<T, ReadWrite>,
    reader: MemSafe<T, ReadOnly>,
    x: T,
)
    requires
        writer.value() == x,
        reader.value() == writer.value(),
    ensures
        reader.value() == x,
{
}

impl<T: Clone> MemSafe<T, ReadOnly> {
    /// Construct a second, independent protected container over a clone of
    /// the value, for the same platform, itself read-only.  The two
    /// containers share nothing: each owns its own allocation.
    pub fn try_clone(&self) -> (r: Result<MemSafe<T, ReadOnly>, MemoryError>)
        requires
            self.wf(),
        ensures
            r is Ok,
            r->Ok_0.wf(),
            vstd::pervasive::cloned::<T>(self.value(), r->Ok_0.value()),
            r->Ok_0.platform() == self.platform(),
    {
        let copy = self.cell.borrow().clone();
        let platform = self.cell.current_platform();
        let mut cell = match Cell::new_on(copy, platform) {
            Ok(cell) => cell,
            Err(e) => {
                return Err(e);
            },
        };
        match cell.read_only() {
            Ok(_) => Ok(MemSafe { cell, state: ReadOnly }),
            Err(e) => Err(e),
        }
    }
}

impl<T> MemSafe<T, ReadWrite> {
    /// The underlying cell.
    pub closed spec fn cell(self) -> Cell<T> {
        self.cell
    }

    /// The protected value.
    pub open spec fn value(self) -> T {
        self.cell().value()
    }

    /// The platform capabilities the handle was constructed for.
    pub open spec fn platform(self) -> Platform {
        self.cell().platform()
    }

    /// The allocation is well formed, readable and writable.
    pub open spec fn wf(self) -> bool {
        &&& self.cell().wf()
        &&& self.cell().prot() == Prot::ReadWrite
    }

    /// Make the allocation fully inaccessible: consumes this handle and
    /// yields the no-access typed handle.  Available only where the
    /// platform can keep an inaccessible page locked.
    pub fn no_access(self) -> (r: Result<MemSafe<T, NoAccess>, MemoryError>)
        requires
            self.wf(),
            self.platform().no_access_lockable,
        ensures
            r is Ok,
            r->Ok_0.wf(),
            r->Ok_0.value() == self.value(),
            r->Ok_0.platform() == self.platform(),
            r->Ok_0.cell().region().events() == self.cell().region().events().push(
                Event::Protect(Prot::NoAccess),
            ),
    {
        let MemSafe { mut cell, state: _ } = self;
        match cell.no_access() {
            Ok(_) => Ok(MemSafe { cell, state: NoAccess }),
            Err(e) => Err(e),
        }
    }

    /// Make the allocation read-only: consumes this handle and yields the
    /// read-only typed handle.
    pub fn read_only(self) -> (r: Result<MemSafe<T, ReadOnly>, MemoryError>)
        requires
            self.wf(),
        ensures
            r is Ok,
            r->Ok_0.wf(),
            r->Ok_0.value() == self.value(),
            r->Ok_0.platform() == self.platform(),
            r->Ok_0.cell().region().events() == self.cell().region().events().push(
                Event::Protect(Prot::ReadOnly),
            ),
    {
        let MemSafe { mut cell, state: _ } = self;
        match cell.read_only() {
            Ok(_) => Ok(MemSafe { cell, state: ReadOnly }),
            Err(e) => Err(e),
        }
    }

    /// The identity transition: does nothing and returns the handle itself.
    /// It invokes no protection primitive, so the allocation's trace is
    /// exactly as it was.
    pub fn read_write(self) -> (r: Result<MemSafe<T, ReadWrite>, Infallible>)
        requires
            self.wf(),
        ensures
            r is Ok,
            r->Ok_0 == self,
    {
        Ok(self)
    }

    /// Read the protected value.
    pub fn as_ref(&self) -> (v: &T)
        requires
            self.wf(),
        ensures
            *v == self.value(),
    {
        self.cell.borrow()
    }

    /// Gain mutable access to the protected value.
    pub fn as_mut(&mut self) -> (v: &mut T)
        requires
            old(self).wf(),
        ensures
            *v == old(self).value(),
            final(self).value() == *final(v),
            final(self).platform() == old(self).platform(),
            final(self).wf(),
    {
        self.cell.borrow_mut()
    }
}

} // verus!
