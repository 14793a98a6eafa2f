//! The fixed order of the allocation's lifecycle steps, and what must be
//! undone when a step fails.
//!
//! Construction and destruction are bracket operations whose step order is
//! load-bearing: the destructor must run before the zeroing, the zeroing
//! must happen while the page is writable, and unpinning and release come
//! last.  These planners name that order once; an implementation over the
//! raw platform primitives follows them step by step, unwinding a failed
//! construction and never skipping a destruction step.

use vstd::prelude::*;

use crate::mem::Event;
use crate::prot::Prot;

verus! {

/// One step of constructing a cell, in the order performed.
#[derive(Clone, Copy, Debug, PartialEq, Eq, Structural)]
pub enum SetupStep {
    /// Allocate the backing region.
    Allocate,
    /// Pin the region against swapping.
    Lock,
    /// Request that the region be omitted from core dumps.
    ExcludeDump,
    /// Move the value's representation into the region and zero the donor
    /// location.
    Store,
    /// Drop the region to the platform's least-privilege floor.
    Lower,
}

/// One step of tearing a cell down, in the order performed.
#[derive(Clone, Copy, Debug, PartialEq, Eq, Structural)]
pub enum TeardownStep {
    /// Make the region writable again.
    Elevate,
    /// Run the value's destructor in place.
    DropValue,
    /// Overwrite every byte of the region with zero.
    Zero,
    /// Unpin the region.
    Unlock,
    /// Release the region back to the platform.
    Release,
}

/// The full teardown order: elevate, destruct, zero, unpin, release.
pub open spec fn teardown_plan() -> Seq<TeardownStep> {
    seq![
        TeardownStep::Elevate,
        TeardownStep::DropValue,
        TeardownStep::Zero,
        TeardownStep::Unlock,
        TeardownStep::Release,
    ]
}

/// The steps that undo a partial construction when `failed` is the step
/// that failed: everything completed before it is reversed, newest first,
/// so that no allocation outlives a failed construction.
pub open spec fn unwind_plan(failed: SetupStep) -> Seq<TeardownStep> {
    match failed {
        SetupStep::Allocate => seq![],
        SetupStep::Lock => seq![TeardownStep::Release],
        SetupStep::ExcludeDump => seq![TeardownStep::Unlock, TeardownStep::Release],
        SetupStep::Store => seq![TeardownStep::Unlock, TeardownStep::Release],
        SetupStep::Lower => seq![
            TeardownStep::DropValue,
            TeardownStep::Zero,
            TeardownStep::Unlock,
            TeardownStep::Release,
        ],
    }
}

/// The region-trace event that each teardown step leaves behind.
pub open spec fn step_event(step: TeardownStep) -> Event {
    match step {
        TeardownStep::Elevate => Event::Protect(Prot::ReadWrite),
        TeardownStep::DropValue => Event::Destruct,
        TeardownStep::Zero => Event::Zeroed,
        TeardownStep::Unlock => Event::Unlock,
        TeardownStep::Release => Event::Dealloc,
    }
}

/// The full teardown order as a list an implementation can walk.  When an
/// intermediate step fails, the remaining steps are still attempted, one
/// after the other: skipping the zero step on any exit path is the one
/// unacceptable outcome.
pub fn teardown_steps() -> (steps: Vec<TeardownStep>)
    ensures
        steps@ == teardown_plan(),
{
    let mut steps: Vec<TeardownStep> = Vec::new();
    steps.push(TeardownStep::Elevate);
    steps.push(TeardownStep::DropValue);
    steps.push(TeardownStep::Zero);
    steps.push(TeardownStep::Unlock);
    steps.push(TeardownStep::Release);
    assert(steps@ =~= teardown_plan());
    steps
}

/// The unwind steps for a construction that failed at `failed`, as a list
/// an implementation can walk before propagating the error.
pub fn unwind_steps(failed: SetupStep) -> (steps: Vec<TeardownStep>)
    ensures
        steps@ == unwind_plan(failed),
{
    let mut steps: Vec<TeardownStep> = Vec::new();
    match failed {
        SetupStep::Allocate => (),
        SetupStep::Lock => {
            steps.push(TeardownStep::Release);
        },
        SetupStep::ExcludeDump => {
            steps.push(TeardownStep::Unlock);
            steps.push(TeardownStep::Release);
        },
        SetupStep::Store => {
            steps.push(TeardownStep::Unlock);
            steps.push(TeardownStep::Release);
        },
        SetupStep::Lower => {
            steps.push(TeardownStep::DropValue);
            steps.push(TeardownStep::Zero);
            steps.push(TeardownStep::Unlock);
            steps.push(TeardownStep::Release);
        },
    }
    assert(steps@ =~= unwind_plan(failed));
    steps
}

/// The teardown plan's order is the one the secure cell's destruction is
/// proved to record: step for step, its events are the destruction trace.
pub proof fn lemma_teardown_matches_destroy_trace()
    ensures
        teardown_plan().map_values(|step: TeardownStep| step_event(step))
            == crate::cell::destroy_trace(),
{
    assert(teardown_plan().map_values(|step: TeardownStep| step_event(step))
        =~= crate::cell::destroy_trace());
}

/// Once an allocation exists, every unwind plan ends by releasing it: no
/// allocation outlives a failed construction.
pub proof fn lemma_unwind_never_leaks(failed: SetupStep)
    ensures
        failed != SetupStep::Allocate ==> unwind_plan(failed).last() == TeardownStep::Release,
        failed == SetupStep::Allocate ==> unwind_plan(failed).len() == 0,
{
}

/// The teardown never skips the zero step, and performs it after the
/// destructor has run, while the region is still writable — before the
/// unpinning and the release.
pub proof fn lemma_teardown_zeroes()
    ensures
        teardown_plan()[2] == TeardownStep::Zero,
        teardown_plan()[0] == TeardownStep::Elevate,
        teardown_plan()[1] == TeardownStep::DropValue,
        teardown_plan()[3] == TeardownStep::Unlock,
        teardown_plan()[4] == TeardownStep::Release,
        teardown_plan().len() == 5,
{
}

} // verus!
