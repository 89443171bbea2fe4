use vstd::prelude::*;
use crate::domain::Precision;

verus! {

/// The native call guard: plan creation mutates hidden global planner
/// state inside the native engine and must never run concurrently with
/// itself for the same precision domain. This type is the model of the
/// per-domain creation lock: `creating(d)` says a creation call for
/// domain `d` is in flight, and the contracts of [`NativeCallGuard::acquire`]
/// and [`NativeCallGuard::release`] make a second acquisition for the same
/// domain impossible while one is held, while leaving the other domain
/// untouched.
///
/// Plan *execution* never goes through the guard: the engine defines
/// execution to be reentrant across threads as long as concurrent calls
/// use disjoint buffers.
pub struct NativeCallGuard {
    single_creating: bool,
    double_creating: bool,
}

impl NativeCallGuard {
    /// Whether a plan-creation call for domain `d` is in flight.
    pub closed spec fn creating(self, d: Precision) -> bool {
        match d {
            Precision::Single => self.single_creating,
            Precision::Double => self.double_creating,
        }
    }

    /// Whether a new creation call for domain `d` may begin.
    pub open spec fn can_begin_creation(self, d: Precision) -> bool {
        !self.creating(d)
    }

    /// How many creation calls for domain `d` are in flight.
    pub open spec fn creations_in_flight(self, d: Precision) -> nat {
        if self.creating(d) {
            1
        } else {
            0
        }
    }

    /// The guard state after the lock for `d` has been taken.
    pub closed spec fn acquired(self, d: Precision) -> NativeCallGuard {
        match d {
            Precision::Single => NativeCallGuard { single_creating: true, ..self },
            Precision::Double => NativeCallGuard { double_creating: true, ..self },
        }
    }

    /// The guard state after the lock for `d` has been given back.
    pub closed spec fn released(self, d: Precision) -> NativeCallGuard {
        match d {
            Precision::Single => NativeCallGuard { single_creating: false, ..self },
            Precision::Double => NativeCallGuard { double_creating: false, ..self },
        }
    }

    /// Whether a creation call for domain `d` is in flight, as a
    /// run-time query: what [`NativeCallGuard::creating`] says of this
    /// guard.
    pub fn is_creating(&self, d: Precision) -> (b: bool)
        ensures
            b == self.creating(d),
    {
        match d {
            Precision::Single => self.single_creating,
            Precision::Double => self.double_creating,
        }
    }

    /// A guard with neither domain's lock held.
    pub fn new() -> (g: NativeCallGuard)
        ensures
            forall|d: Precision| !g.creating(d),
    {
        NativeCallGuard { single_creating: false, double_creating: false }
    }

    /// Take the creation lock for domain `d`. A caller can only do so
    /// while no creation for `d` is in flight; creations in the other
    /// domain are unaffected and never block.
    pub fn acquire(&mut self, d: Precision)
        requires
            old(self).can_begin_creation(d),
        ensures
            *final(self) == old(self).acquired(d),
            final(self).creating(d),
            forall|e: Precision| e != d ==> final(self).creating(e) == old(self).creating(e),
    {
        match d {
            Precision::Single => self.single_creating = true,
            Precision::Double => self.double_creating = true,
        }
    }

    /// Give the creation lock for domain `d` back.
    pub fn release(&mut self, d: Precision)
        requires
            old(self).creating(d),
        ensures
            *final(self) == old(self).released(d),
            !final(self).creating(d),
            forall|e: Precision| e != d ==> final(self).creating(e) == old(self).creating(e),
    {
        match d {
            Precision::Single => self.single_creating = false,
            Precision::Double => self.double_creating = false,
        }
    }
}

/// Acquiring and then releasing the lock for one domain hands the guard
/// back exactly as it was found.
pub proof fn lemma_release_after_acquire(g: NativeCallGuard, d: Precision)
    requires
        !g.creating(d),
    ensures
        g.acquired(d).released(d) == g,
{
}

/// Mutual exclusion of plan creation. Once the lock for a domain is
/// taken, no further creation for that domain can begin until it is
/// released, so the number of creation calls in flight for a domain
/// never exceeds one — and taking or holding one domain's lock does not
/// affect the other domain at all.
pub proof fn lemma_creation_mutual_exclusion(g: NativeCallGuard, d: Precision, e: Precision)
    ensures
        g.creations_in_flight(d) <= 1,
        g.acquired(d).creating(d),
        !g.acquired(d).can_begin_creation(d),
        g.acquired(d).creations_in_flight(d) == 1,
        !g.released(d).creating(d),
        e != d ==> g.acquired(d).creating(e) == g.creating(e),
        e != d ==> g.released(d).creating(e) == g.creating(e),
{
}

} // verus!
