//! The secure cell: one protected allocation owning one value, driven
//! through the access-protection state machine.

use vstd::prelude::*;

use crate::error::MemoryError;
use crate::mem::{
    mem_alloc, mem_dealloc, mem_lock, mem_no_dump, mem_noaccess, mem_readonly, mem_readwrite,
    mem_unlock, Event, Region,
};
use crate::prot::{Platform, Prot};

verus! {

/// The trace a freshly constructed cell's region carries: allocate, pin,
/// request dump exclusion, move the value in, then drop to the platform's
/// least-privilege floor.
pub open spec fn construct_trace(platform: Platform) -> Seq<Event> {
    seq![
        Event::Alloc,
        Event::Lock,
        Event::DumpExcluded,
        Event::Store,
        Event::Protect(platform.floor()),
    ]
}

/// The trace suffix a cell's destruction appends: make the region writable,
/// run the value's destructor in place, overwrite every byte with zero, then
/// unpin and release.  The destructor runs before the zeroing, the zeroing
/// happens while the page is writable, and unpinning and release come last.
pub open spec fn destroy_trace() -> Seq<Event> {
    seq![
        Event::Protect(Prot::ReadWrite),
        Event::Destruct,
        Event::Zeroed,
        Event::Unlock,
        Event::Dealloc,
    ]
}

/// A container that owns one allocation and the single value stored inside
/// it, and that tracks the allocation's protection state.
pub struct Cell<T> {
    value: T,
    region: Region,
    platform: Platform,
}

/// Change the region's protection to `target` by the matching primitive.
fn protect_region(region: &mut Region, target: Prot) -> (r: Result<(), MemoryError>)
    requires
        old(region).is_allocated(),
    ensures
        r is Ok,
        final(region).events() == old(region).events().push(Event::Protect(target)),
        old(region).consistent() ==> final(region).consistent(),
        final(region).prot() == target,
        final(region).len() == old(region).len(),
        final(region).is_locked() == old(region).is_locked(),
        final(region).is_dump_excluded() == old(region).is_dump_excluded(),
        final(region).is_allocated(),
{
    match target {
        Prot::NoAccess => mem_noaccess(region),
        Prot::ReadOnly => mem_readonly(region),
        Prot::ReadWrite => mem_readwrite(region),
    }
}

/// Perform the construction sequence on a fresh region of `len` bytes:
/// allocate, pin, request dump exclusion, record the value's arrival, and
/// drop to the platform's floor.  Should any step fail, the completed steps
/// are unwound (unpin, release) before the error propagates, so no
/// allocation leaks from a failed construction.
fn build_region(len: usize, platform: Platform) -> (r: Result<Region, MemoryError>)
    ensures
        r is Ok,
        r->Ok_0.len() == len,
        r->Ok_0.prot() == platform.floor(),
        r->Ok_0.is_locked(),
        r->Ok_0.is_dump_excluded(),
        r->Ok_0.is_allocated(),
        r->Ok_0.consistent(),
        r->Ok_0.events() == construct_trace(platform),
{
    let mut region = match mem_alloc(len) {
        Ok(region) => region,
        Err(e) => {
            return Err(e);
        },
    };
    match mem_lock(&mut region) {
        Ok(_) => (),
        Err(e) => {
            let _ = mem_dealloc(&mut region);
            return Err(e);
        },
    }
    match mem_no_dump(&mut region) {
        Ok(_) => (),
        Err(e) => {
            let _ = mem_unlock(&mut region);
            let _ = mem_dealloc(&mut region);
            return Err(e);
        },
    }
    region.store();
    match protect_region(&mut region, platform.floor_prot()) {
        Ok(_) => (),
        Err(e) => {
            let _ = mem_unlock(&mut region);
            let _ = mem_dealloc(&mut region);
            return Err(e);
        },
    }
    Ok(region)
}

impl<T> Cell<T> {
    /// The value the cell protects.
    pub closed spec fn value(self) -> T {
        self.value
    }

    /// The model of the cell's backing allocation.
    pub closed spec fn region(self) -> Region {
        self.region
    }

    /// The platform capabilities the cell was constructed for.
    pub closed spec fn platform(self) -> Platform {
        self.platform
    }

    /// The protection state currently applied to the cell's allocation.
    pub open spec fn prot(self) -> Prot {
        self.region().prot()
    }

    /// The cell's invariant: its allocation is mapped, pinned against
    /// swapping, requested out of core dumps, and in a protection state the
    /// platform allows.  Every constructor establishes it and every
    /// transition preserves it.
    pub open spec fn wf(self) -> bool {
        &&& self.region().is_allocated()
        &&& self.region().is_locked()
        &&& self.region().is_dump_excluded()
        &&& self.region().consistent()
        &&& self.platform().allows(self.prot())
    }

    /// The protection state currently applied to the cell's allocation.
    pub fn current_prot(&self) -> (p: Prot)
        ensures
            p == self.prot(),
    {
        self.region.current_prot()
    }

    /// The platform capabilities the cell was constructed for.
    pub fn current_platform(&self) -> (p: Platform)
        ensures
            p == self.platform(),
    {
        self.platform
    }

    /// Construct a cell protecting `value` on the default platform, whose
    /// least-privilege floor is `NoAccess`.
    pub fn new(value: T) -> (r: Result<Cell<T>, MemoryError>)
        ensures
            r is Ok,
            r->Ok_0.wf(),
            r->Ok_0.value() == value,
            r->Ok_0.platform() == crate::prot::default_platform(),
            r->Ok_0.prot() == Prot::NoAccess,
            r->Ok_0.region().events() == construct_trace(crate::prot::default_platform()),
    {
        Cell::new_on(value, Platform::default())
    }

    /// Construct a cell protecting `value` for the given platform:
    /// allocate a region sized for the value, pin it, request dump
    /// exclusion, move the value in, and drop to the platform's floor.
    ///
    /// Should any step fail, the completed steps are unwound (unpin,
    /// release) before the error propagates, so no allocation leaks from a
    /// failed construction.
    pub fn new_on(value: T, platform: Platform) -> (r: Result<Cell<T>, MemoryError>)
        ensures
            r is Ok,
            r->Ok_0.wf(),
            r->Ok_0.value() == value,
            r->Ok_0.platform() == platform,
            r->Ok_0.prot() == platform.floor(),
            r->Ok_0.region().len() as nat == vstd::layout::size_of::<T>(),
            r->Ok_0.region().events() == construct_trace(platform),
    {
        let len = core::mem::size_of::<T>();
        let region = match build_region(len, platform) {
            Ok(region) => region,
            Err(e) => {
                return Err(e);
            },
        };
        Ok(Cell { value, region, platform })
    }

    /// Change the allocation's protection to `target`.  A transition to the
    /// state already held succeeds trivially without invoking the protection
    /// primitive, which the unchanged trace records.
    pub fn transition(&mut self, target: Prot) -> (r: Result<(), MemoryError>)
        requires
            old(self).wf(),
            old(self).platform().allows(target),
        ensures
            r is Ok,
            final(self).wf(),
            final(self).value() == old(self).value(),
            final(self).platform() == old(self).platform(),
            final(self).region().len() == old(self).region().len(),
            final(self).prot() == target,
            old(self).prot() == target ==> final(self).region() == old(self).region(),
            old(self).prot() != target ==> final(self).region().events() == old(
                self,
            ).region().events().push(Event::Protect(target)),
    {
        if self.region.current_prot() == target {
            return Ok(());
        }
        protect_region(&mut self.region, target)
    }

    /// Restore the platform's least-privilege floor; used after any
    /// temporary elevation.
    pub fn low_priv(&mut self) -> (r: Result<(), MemoryError>)
        requires
            old(self).wf(),
        ensures
            r is Ok,
            final(self).wf(),
            final(self).value() == old(self).value(),
            final(self).platform() == old(self).platform(),
            final(self).region().len() == old(self).region().len(),
            final(self).prot() == old(self).platform().floor(),
            old(self).prot() == old(self).platform().floor() ==> final(self).region() == old(
                self,
            ).region(),
            old(self).prot() != old(self).platform().floor() ==> final(self).region().events()
                == old(self).region().events().push(Event::Protect(old(self).platform().floor())),
    {
        let floor = self.platform.floor_prot();
        self.transition(floor)
    }

    /// Make the allocation fully inaccessible.  Available only where the
    /// platform can keep an inaccessible page locked.
    pub fn no_access(&mut self) -> (r: Result<(), MemoryError>)
        requires
            old(self).wf(),
            old(self).platform().no_access_lockable,
        ensures
            r is Ok,
            final(self).wf(),
            final(self).value() == old(self).value(),
            final(self).platform() == old(self).platform(),
            final(self).region().len() == old(self).region().len(),
            final(self).prot() == Prot::NoAccess,
            old(self).prot() == Prot::NoAccess ==> final(self).region() == old(self).region(),
            old(self).prot() != Prot::NoAccess ==> final(self).region().events() == old(
                self,
            ).region().events().push(Event::Protect(Prot::NoAccess)),
    {
        self.transition(Prot::NoAccess)
    }

    /// Make the allocation readable but not writable.
    pub fn read_only(&mut self) -> (r: Result<(), MemoryError>)
        requires
            old(self).wf(),
        ensures
            r is Ok,
            final(self).wf(),
            final(self).value() == old(self).value(),
            final(self).platform() == old(self).platform(),
            final(self).region().len() == old(self).region().len(),
            final(self).prot() == Prot::ReadOnly,
            old(self).prot() == Prot::ReadOnly ==> final(self).region() == old(self).region(),
            old(self).prot() != Prot::ReadOnly ==> final(self).region().events() == old(
                self,
            ).region().events().push(Event::Protect(Prot::ReadOnly)),
    {
        self.transition(Prot::ReadOnly)
    }

    /// Make the allocation readable and writable.
    pub fn read_write(&mut self) -> (r: Result<(), MemoryError>)
        requires
            old(self).wf(),
        ensures
            r is Ok,
            final(self).wf(),
            final(self).value() == old(self).value(),
            final(self).platform() == old(self).platform(),
            final(self).region().len() == old(self).region().len(),
            final(self).prot() == Prot::ReadWrite,
            old(self).prot() == Prot::ReadWrite ==> final(self).region() == old(self).region(),
            old(self).prot() != Prot::ReadWrite ==> final(self).region().events() == old(
                self,
            ).region().events().push(Event::Protect(Prot::ReadWrite)),
    {
        self.transition(Prot::ReadWrite)
    }

    /// Read the protected value.  Defined only while the allocation is
    /// readable.
    pub fn borrow(&self) -> (v: &T)
        requires
            self.wf(),
            self.prot().is_readable(),
        ensures
            *v == self.value(),
    {
        &self.value
    }

    /// Gain mutable access to the protected value.  Defined only while the
    /// allocation is writable.
    pub fn borrow_mut(&mut self) -> (v: &mut T)
        requires
            old(self).wf(),
            old(self).prot().is_writable(),
        ensures
            *v == old(self).value(),
            final(self).value() == *final(v),
            final(self).region() == old(self).region(),
            final(self).platform() == old(self).platform(),
            final(self).wf(),
    {
        &mut self.value
    }

    /// Destroy the cell: make the region writable, run the value's
    /// destructor in place, overwrite the backing bytes with zero, unpin and
    /// release.  The spent allocation record is returned so the order of
    /// those steps stays inspectable.  A failure of an intermediate step
    /// would not suppress the remaining ones.
    pub fn destroy(self) -> (spent: Region)
        requires
            self.wf(),
        ensures
            spent.events() == self.region().events() + destroy_trace(),
            !spent.is_allocated(),
            !spent.is_locked(),
            self.region().consistent() ==> spent.consistent(),
            spent.len() == self.region().len(),
    {
        let Cell { value, mut region, platform } = self;
        let _ = mem_readwrite(&mut region);
        region.destruct();
        let _ = value;
        region.zero();
        let _ = mem_unlock(&mut region);
        let _ = mem_dealloc(&mut region);
        region
    }
}

impl Cell<Vec<u8>> {
    /// Construct a cell over the bytes of `donor` on the default platform.
    /// The donor buffer — the caller-side location that held the secret — is
    /// overwritten with zero as part of construction, so that when this
    /// returns, the only live copy of the bytes is the protected one.
    pub fn new_from(donor: &mut Vec<u8>) -> (r: Result<Cell<Vec<u8>>, MemoryError>)
        ensures
            r is Ok,
            r->Ok_0.wf(),
            r->Ok_0.value()@ == old(donor)@,
            r->Ok_0.platform() == crate::prot::default_platform(),
            r->Ok_0.prot() == Prot::NoAccess,
            final(donor)@.len() == old(donor)@.len(),
            forall|i: int| 0 <= i < final(donor)@.len() ==> final(donor)@[i] == 0u8,
    {
        Cell::new_from_on(donor, Platform::default())
    }

    /// Construct a cell over the bytes of `donor` for the given platform.
    /// Unlike [`Cell::new_on`], the region is sized for the bytes
    /// themselves, so the zero-on-destroy guarantee of [`Cell::retire`]
    /// covers the whole secret.  The donor buffer is overwritten with zero
    /// as part of construction.
    pub fn new_from_on(donor: &mut Vec<u8>, platform: Platform) -> (r: Result<
        Cell<Vec<u8>>,
        MemoryError,
    >)
        ensures
            r is Ok,
            r->Ok_0.wf(),
            r->Ok_0.value()@ == old(donor)@,
            r->Ok_0.platform() == platform,
            r->Ok_0.prot() == platform.floor(),
            r->Ok_0.region().len() as nat == old(donor)@.len(),
            r->Ok_0.region().events() == construct_trace(platform),
            final(donor)@.len() == old(donor)@.len(),
            forall|i: int| 0 <= i < final(donor)@.len() ==> final(donor)@[i] == 0u8,
    {
        let n = donor.len();
        let mut taken: Vec<u8> = Vec::new();
        let mut i: usize = 0;
        while i < n
            invariant
                i <= n,
                donor@ == old(donor)@,
                n == donor@.len(),
                taken@ == old(donor)@.subrange(0, i as int),
            decreases n - i,
        {
            let b = donor[i];
            taken.push(b);
            i += 1;
        }
        assert(taken@ =~= old(donor)@);
        let mut i: usize = 0;
        while i < n
            invariant
                i <= n,
                n == donor@.len(),
                taken@ == old(donor)@,
                forall|j: int| 0 <= j < i ==> donor@[j] == 0u8,
            decreases n - i,
        {
            donor[i] = 0u8;
            i += 1;
        }
        let region = match build_region(n, platform) {
            Ok(region) => region,
            Err(e) => {
                return Err(e);
            },
        };
        Ok(Cell { value: taken, region, platform })
    }

    /// Destroy a byte-buffer cell, handing back the scrubbed backing buffer
    /// so it can be inspected before the caller lets go of it: every byte is
    /// zero, whatever the buffer held.  The region's trace shows the
    /// destruction order, with the zeroing done while the region was still
    /// writable and before it was unpinned and released.
    pub fn retire(self) -> (out: (Vec<u8>, Region))
        requires
            self.wf(),
        ensures
            out.0@.len() == self.value()@.len(),
            forall|i: int| 0 <= i < out.0@.len() ==> out.0@[i] == 0u8,
            out.1.events() == self.region().events() + destroy_trace(),
            !out.1.is_allocated(),
            !out.1.is_locked(),
            self.region().consistent() ==> out.1.consistent(),
            out.1.len() == self.region().len(),
    {
        let Cell { mut value, mut region, platform } = self;
        let _ = mem_readwrite(&mut region);
        region.destruct();
        let n = value.len();
        let mut i: usize = 0;
        while i < n
            invariant
                i <= n,
                n == value@.len(),
                forall|j: int| 0 <= j < i ==> value@[j] == 0u8,
            decreases n - i,
        {
            value[i] = 0u8;
            i += 1;
        }
        region.zero();
        let _ = mem_unlock(&mut region);
        let _ = mem_dealloc(&mut region);
        (value, region)
    }
}

} // verus!
