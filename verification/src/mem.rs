//! A model of one page-aligned allocation and of the platform memory
//! primitives that act on it.
//!
//! The real primitives are thin system-call wrappers; everything the state
//! machine relies on is which calls were made, in which order, and how each
//! changes the allocation's protection, locking and dump-exclusion state.
//! `Region` carries exactly that: the runtime state of the allocation plus a
//! ghost trace of every operation performed on it.  Each operation appends
//! its own event, so a contract over the trace pins the order in which the
//! operations were performed.

use vstd::prelude::*;

use crate::error::MemoryError;
use crate::prot::Prot;

verus! {

/// One operation performed on a region, as recorded in its trace.
#[derive(Clone, Copy, Debug, PartialEq, Eq, Structural)]
pub enum Event {
    /// The region was allocated, zero-filled and writable.
    Alloc,
    /// The region was pinned against swapping.
    Lock,
    /// The region was requested to be omitted from core dumps.
    DumpExcluded,
    /// The value's representation was moved into the region.
    Store,
    /// The hardware page protection was changed to the named state.
    Protect(Prot),
    /// The value's destructor ran in place inside the region.
    Destruct,
    /// Every byte of the region was overwritten with zero.
    Zeroed,
    /// The region was unpinned.
    Unlock,
    /// The region was released back to the platform.
    Dealloc,
}

/// The protection a mapping holds after the trace `events`: what the last
/// protection change set, or the writable state a fresh mapping starts in.
pub open spec fn trace_prot(events: Seq<Event>) -> Prot
    decreases events.len(),
{
    if events.len() == 0 {
        Prot::ReadWrite
    } else {
        match events.last() {
            Event::Protect(p) => p,
            _ => trace_prot(events.drop_last()),
        }
    }
}

/// Whether a mapping is pinned after the trace `events`: what the last pin
/// or unpin call left, an unpinned mapping to begin with.
pub open spec fn trace_locked(events: Seq<Event>) -> bool
    decreases events.len(),
{
    if events.len() == 0 {
        false
    } else {
        match events.last() {
            Event::Lock => true,
            Event::Unlock => false,
            _ => trace_locked(events.drop_last()),
        }
    }
}

/// Whether a mapping still exists after the trace `events`: allocated until
/// released.
pub open spec fn trace_allocated(events: Seq<Event>) -> bool
    decreases events.len(),
{
    if events.len() == 0 {
        false
    } else {
        match events.last() {
            Event::Alloc => true,
            Event::Dealloc => false,
            _ => trace_allocated(events.drop_last()),
        }
    }
}

/// Whether dump exclusion has been requested somewhere in the trace
/// `events`; nothing revokes the request.
pub open spec fn trace_dump_excluded(events: Seq<Event>) -> bool
    decreases events.len(),
{
    if events.len() == 0 {
        false
    } else {
        match events.last() {
            Event::DumpExcluded => true,
            _ => trace_dump_excluded(events.drop_last()),
        }
    }
}

/// Replaying a trace extended by one event: the event either sets the
/// property it governs or leaves the replay of the shorter trace in force.
proof fn lemma_trace_push(events: Seq<Event>, e: Event)
    ensures
        trace_prot(events.push(e)) == (match e {
            Event::Protect(p) => p,
            _ => trace_prot(events),
        }),
        trace_locked(events.push(e)) == (match e {
            Event::Lock => true,
            Event::Unlock => false,
            _ => trace_locked(events),
        }),
        trace_allocated(events.push(e)) == (match e {
            Event::Alloc => true,
            Event::Dealloc => false,
            _ => trace_allocated(events),
        }),
        trace_dump_excluded(events.push(e)) == (match e {
            Event::DumpExcluded => true,
            _ => trace_dump_excluded(events),
        }),
{
    assert(events.push(e).drop_last() =~= events);
    assert(events.push(e).last() == e);
}

/// The model of one allocation: its observable state and the trace of the
/// operations performed on it.
pub struct Region {
    len: usize,
    prot: Prot,
    locked: bool,
    dump_excluded: bool,
    allocated: bool,
    events: Ghost<Seq<Event>>,
}

impl Region {
    /// The region's size in bytes.
    pub closed spec fn len(self) -> usize {
        self.len
    }

    /// The hardware protection currently applied to the region.
    pub closed spec fn prot(self) -> Prot {
        self.prot
    }

    /// Whether the region is pinned against swapping.
    pub closed spec fn is_locked(self) -> bool {
        self.locked
    }

    /// Whether omission from core dumps has been requested for the region.
    pub closed spec fn is_dump_excluded(self) -> bool {
        self.dump_excluded
    }

    /// Whether the region is still mapped.  Every operation but inspection
    /// of this record demands it; a released region accepts none.
    pub closed spec fn is_allocated(self) -> bool {
        self.allocated
    }

    /// The trace of the operations performed on this region, oldest first.
    pub closed spec fn events(self) -> Seq<Event> {
        self.events@
    }

    /// The tracked state never drifts from the state the performed
    /// operations imply: protection, pinning, existence and dump exclusion
    /// each equal the replay of the region's own trace.  A fresh region
    /// establishes this and every operation preserves it.
    pub open spec fn consistent(self) -> bool {
        &&& self.prot() == trace_prot(self.events())
        &&& self.is_locked() == trace_locked(self.events())
        &&& self.is_allocated() == trace_allocated(self.events())
        &&& self.is_dump_excluded() == trace_dump_excluded(self.events())
    }

    /// The hardware protection currently applied to the region.
    pub fn current_prot(&self) -> (p: Prot)
        ensures
            p == self.prot(),
    {
        self.prot
    }

    /// Whether the region is currently pinned against swapping.
    pub fn currently_locked(&self) -> (l: bool)
        ensures
            l == self.is_locked(),
    {
        self.locked
    }

    /// Whether the region is still mapped.
    pub fn currently_allocated(&self) -> (a: bool)
        ensures
            a == self.is_allocated(),
    {
        self.allocated
    }

    /// The value's representation is moved into the region.
    pub fn store(&mut self)
        requires
            old(self).is_allocated(),
            old(self).prot().is_writable(),
        ensures
            final(self).events() == old(self).events().push(Event::Store),
            old(self).consistent() ==> final(self).consistent(),
            final(self).len() == old(self).len(),
            final(self).prot() == old(self).prot(),
            final(self).is_locked() == old(self).is_locked(),
            final(self).is_dump_excluded() == old(self).is_dump_excluded(),
            final(self).is_allocated(),
    {
        proof {
            lemma_trace_push(self.events@, Event::Store);
        }
        self.events = Ghost(self.events@.push(Event::Store));
    }

    /// The value's destructor runs in place inside the region, while the
    /// region is still writable and its contents are still intact.
    pub fn destruct(&mut self)
        requires
            old(self).is_allocated(),
            old(self).prot().is_writable(),
        ensures
            final(self).events() == old(self).events().push(Event::Destruct),
            old(self).consistent() ==> final(self).consistent(),
            final(self).len() == old(self).len(),
            final(self).prot() == old(self).prot(),
            final(self).is_locked() == old(self).is_locked(),
            final(self).is_dump_excluded() == old(self).is_dump_excluded(),
            final(self).is_allocated(),
    {
        proof {
            lemma_trace_push(self.events@, Event::Destruct);
        }
        self.events = Ghost(self.events@.push(Event::Destruct));
    }

    /// Every byte of the region is overwritten with zero, while the region
    /// is writable.
    pub fn zero(&mut self)
        requires
            old(self).is_allocated(),
            old(self).prot().is_writable(),
        ensures
            final(self).events() == old(self).events().push(Event::Zeroed),
            old(self).consistent() ==> final(self).consistent(),
            final(self).len() == old(self).len(),
            final(self).prot() == old(self).prot(),
            final(self).is_locked() == old(self).is_locked(),
            final(self).is_dump_excluded() == old(self).is_dump_excluded(),
            final(self).is_allocated(),
    {
        proof {
            lemma_trace_push(self.events@, Event::Zeroed);
        }
        self.events = Ghost(self.events@.push(Event::Zeroed));
    }
}

/// Allocate a zero-filled, page-aligned, anonymous region of `len` bytes,
/// initially writable, unpinned and not yet excluded from dumps.
pub fn mem_alloc(len: usize) -> (r: Result<Region, MemoryError>)
    ensures
        r is Ok,
        r->Ok_0.len() == len,
        r->Ok_0.prot() == Prot::ReadWrite,
        !r->Ok_0.is_locked(),
        !r->Ok_0.is_dump_excluded(),
        r->Ok_0.is_allocated(),
        r->Ok_0.events() == seq![Event::Alloc],
        r->Ok_0.consistent(),
{
    let ghost trace: Seq<Event> = seq![Event::Alloc];
    proof {
        lemma_trace_push(Seq::empty(), Event::Alloc);
        assert(trace =~= Seq::<Event>::empty().push(Event::Alloc));
    }
    Ok(
        Region {
            len,
            prot: Prot::ReadWrite,
            locked: false,
            dump_excluded: false,
            allocated: true,
            events: Ghost(trace),
        },
    )
}

/// Release a region back to the platform.  The region accepts no further
/// operation afterwards, so a release can never happen twice.
pub fn mem_dealloc(region: &mut Region) -> (r: Result<(), MemoryError>)
    requires
        old(region).is_allocated(),
    ensures
        r is Ok,
        final(region).events() == old(region).events().push(Event::Dealloc),
        old(region).consistent() ==> final(region).consistent(),
        !final(region).is_allocated(),
        final(region).len() == old(region).len(),
        final(region).prot() == old(region).prot(),
        final(region).is_locked() == old(region).is_locked(),
        final(region).is_dump_excluded() == old(region).is_dump_excluded(),
{
    region.allocated = false;
    proof {
        lemma_trace_push(region.events@, Event::Dealloc);
    }
    region.events = Ghost(region.events@.push(Event::Dealloc));
    Ok(())
}

/// Pin the region against swapping.  On at least one target platform a
/// region must be readable (not `NoAccess`) for the pin to succeed, so that
/// is demanded here portably.
pub fn mem_lock(region: &mut Region) -> (r: Result<(), MemoryError>)
    requires
        old(region).is_allocated(),
        old(region).prot() != Prot::NoAccess,
    ensures
        r is Ok,
        final(region).events() == old(region).events().push(Event::Lock),
        old(region).consistent() ==> final(region).consistent(),
        final(region).is_locked(),
        final(region).len() == old(region).len(),
        final(region).prot() == old(region).prot(),
        final(region).is_dump_excluded() == old(region).is_dump_excluded(),
        final(region).is_allocated(),
{
    region.locked = true;
    proof {
        lemma_trace_push(region.events@, Event::Lock);
    }
    region.events = Ghost(region.events@.push(Event::Lock));
    Ok(())
}

/// Unpin the region, allowing it to be paged out again.
pub fn mem_unlock(region: &mut Region) -> (r: Result<(), MemoryError>)
    requires
        old(region).is_allocated(),
    ensures
        r is Ok,
        final(region).events() == old(region).events().push(Event::Unlock),
        old(region).consistent() ==> final(region).consistent(),
        !final(region).is_locked(),
        final(region).len() == old(region).len(),
        final(region).prot() == old(region).prot(),
        final(region).is_dump_excluded() == old(region).is_dump_excluded(),
        final(region).is_allocated(),
{
    region.locked = false;
    proof {
        lemma_trace_push(region.events@, Event::Unlock);
    }
    region.events = Ghost(region.events@.push(Event::Unlock));
    Ok(())
}

/// Request that the region be omitted from process core dumps; a no-op
/// where the platform offers no such facility.
pub fn mem_no_dump(region: &mut Region) -> (r: Result<(), MemoryError>)
    requires
        old(region).is_allocated(),
    ensures
        r is Ok,
        final(region).events() == old(region).events().push(Event::DumpExcluded),
        old(region).consistent() ==> final(region).consistent(),
        final(region).is_dump_excluded(),
        final(region).len() == old(region).len(),
        final(region).prot() == old(region).prot(),
        final(region).is_locked() == old(region).is_locked(),
        final(region).is_allocated(),
{
    region.dump_excluded = true;
    proof {
        lemma_trace_push(region.events@, Event::DumpExcluded);
    }
    region.events = Ghost(region.events@.push(Event::DumpExcluded));
    Ok(())
}

/// Make the region fully inaccessible.
pub fn mem_noaccess(region: &mut Region) -> (r: Result<(), MemoryError>)
    requires
        old(region).is_allocated(),
    ensures
        r is Ok,
        final(region).events() == old(region).events().push(Event::Protect(Prot::NoAccess)),
        old(region).consistent() ==> final(region).consistent(),
        final(region).prot() == Prot::NoAccess,
        final(region).len() == old(region).len(),
        final(region).is_locked() == old(region).is_locked(),
        final(region).is_dump_excluded() == old(region).is_dump_excluded(),
        final(region).is_allocated(),
{
    region.prot = Prot::NoAccess;
    proof {
        lemma_trace_push(region.events@, Event::Protect(Prot::NoAccess));
    }
    region.events = Ghost(region.events@.push(Event::Protect(Prot::NoAccess)));
    Ok(())
}

/// Make the region readable but not writable.
pub fn mem_readonly(region: &mut Region) -> (r: Result<(), MemoryError>)
    requires
        old(region).is_allocated(),
    ensures
        r is Ok,
        final(region).events() == old(region).events().push(Event::Protect(Prot::ReadOnly)),
        old(region).consistent() ==> final(region).consistent(),
        final(region).prot() == Prot::ReadOnly,
        final(region).len() == old(region).len(),
        final(region).is_locked() == old(region).is_locked(),
        final(region).is_dump_excluded() == old(region).is_dump_excluded(),
        final(region).is_allocated(),
{
    region.prot = Prot::ReadOnly;
    proof {
        lemma_trace_push(region.events@, Event::Protect(Prot::ReadOnly));
    }
    region.events = Ghost(region.events@.push(Event::Protect(Prot::ReadOnly)));
    Ok(())
}

/// Make the region readable and writable.
pub fn mem_readwrite(region: &mut Region) -> (r: Result<(), MemoryError>)
    requires
        old(region).is_allocated(),
    ensures
        r is Ok,
        final(region).events() == old(region).events().push(Event::Protect(Prot::ReadWrite)),
        old(region).consistent() ==> final(region).consistent(),
        final(region).prot() == Prot::ReadWrite,
        final(region).len() == old(region).len(),
        final(region).is_locked() == old(region).is_locked(),
        final(region).is_dump_excluded() == old(region).is_dump_excluded(),
        final(region).is_allocated(),
{
    region.prot = Prot::ReadWrite;
    proof {
        lemma_trace_push(region.events@, Event::Protect(Prot::ReadWrite));
    }
    region.events = Ghost(region.events@.push(Event::Protect(Prot::ReadWrite)));
    Ok(())
}

} // verus!
