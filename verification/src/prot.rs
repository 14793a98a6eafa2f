//! Hardware page-protection states and the platform's least-privilege floor.

use vstd::prelude::*;

verus! {

/// The protection level currently enforced on a cell's allocation.
#[derive(Clone, Copy, Debug, PartialEq, Eq, Structural)]
pub enum Prot {
    /// The page can be neither read nor written.
    NoAccess,
    /// The page can be read but not written.
    ReadOnly,
    /// The page can be read and written.
    ReadWrite,
}

impl Prot {
    /// Whether the stored value may be read under this protection.
    pub open spec fn is_readable(self) -> bool {
        self == Prot::ReadOnly || self == Prot::ReadWrite
    }

    /// Whether the stored value may be written under this protection.
    pub open spec fn is_writable(self) -> bool {
        self == Prot::ReadWrite
    }
}

/// The capabilities of the target platform's memory primitives, resolved once
/// and carried by every cell.
///
/// The one capability the state machine depends on is whether a fully
/// inaccessible page can stay locked in memory.  Where it can, the
/// least-privilege floor is `NoAccess`; where it cannot, the floor is
/// `ReadOnly` and `NoAccess` is never entered.
#[derive(Clone, Copy, Debug, PartialEq, Eq, Structural)]
pub struct Platform {
    /// Whether a locked page may be placed under `NoAccess` protection.
    pub no_access_lockable: bool,
}

impl Platform {
    /// A platform whose locked pages may be made fully inaccessible, so the
    /// least-privilege floor is `NoAccess`.
    pub fn with_no_access_floor() -> (p: Platform)
        ensures
            p.no_access_lockable,
            p.floor() == Prot::NoAccess,
    {
        Platform { no_access_lockable: true }
    }

    /// A platform that cannot keep an inaccessible page locked, so the
    /// least-privilege floor is `ReadOnly`.
    pub fn with_read_only_floor() -> (p: Platform)
        ensures
            !p.no_access_lockable,
            p.floor() == Prot::ReadOnly,
    {
        Platform { no_access_lockable: false }
    }

    /// The most restrictive protection state this platform supports while the
    /// page stays locked: the state a cell rests in whenever no access is in
    /// progress.
    pub open spec fn floor(self) -> Prot {
        if self.no_access_lockable {
            Prot::NoAccess
        } else {
            Prot::ReadOnly
        }
    }

    /// Executable twin of [`Self::floor`].
    #[verifier::when_used_as_spec(floor)]
    pub fn floor_prot(self) -> (f: Prot)
        ensures
            f == self.floor(),
    {
        if self.no_access_lockable {
            Prot::NoAccess
        } else {
            Prot::ReadOnly
        }
    }

    /// Whether this platform allows a cell to hold protection state `p`.
    /// `NoAccess` is available exactly where the floor is `NoAccess`.
    pub open spec fn allows(self, p: Prot) -> bool {
        p == Prot::NoAccess ==> self.no_access_lockable
    }
}

/// The platform this library assumes when none is named: its floor is
/// `NoAccess`.
pub open spec fn default_platform() -> Platform {
    Platform { no_access_lockable: true }
}

impl Default for Platform {
    /// The platform this library assumes when none is named, whose floor is
    /// `NoAccess`.
    fn default() -> (p: Platform)
        ensures
            p == default_platform(),
            p.floor() == Prot::NoAccess,
    {
        Platform { no_access_lockable: true }
    }
}

/// The floor state is least-privileged among the states the platform allows:
/// it grants no capability that any other allowed state withholds.
pub proof fn lemma_floor_is_least_privilege(platform: Platform, p: Prot)
    requires
        platform.allows(p),
    ensures
        platform.floor().is_readable() ==> p.is_readable(),
        platform.floor().is_writable() ==> p.is_writable(),
        platform.allows(platform.floor()),
{
}

/// From the floor state, the states reachable by a single protection change
/// are exactly the two non-floor states the platform allows; every other
/// target coincides with the floor itself, where the transition is the
/// identity.
pub proof fn lemma_floor_transitions(platform: Platform, target: Prot)
    ensures
        platform.floor() == Prot::NoAccess ==> (target != platform.floor() <==> (
            target == Prot::ReadOnly || target == Prot::ReadWrite)),
        platform.floor() == Prot::ReadOnly ==> (target != platform.floor() && platform.allows(
            target,
        ) <==> (target == Prot::ReadWrite)),
{
}

} // verus!
