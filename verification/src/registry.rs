//! The record of the units that were provisioned in full.
//!
//! Entries are appended in the order in which provisioning completed and are
//! never removed or changed. Only the provisioning flow appends.

use vstd::prelude::*;
use crate::identity::UnitIdentity;

verus! {

/// The ordered collection of provisioned units.
#[derive(Debug, Default)]
pub struct Registry {
    units: Vec<UnitIdentity>,
}

impl View for Registry {
    type V = Seq<UnitIdentity>;

    /// The entries, oldest first.
    closed spec fn view(&self) -> Seq<UnitIdentity> {
        self.units@
    }
}

impl Registry {
    /// A registry without entries.
    pub fn new() -> (registry: Registry)
        ensures
            registry@ == Seq::<UnitIdentity>::empty(),
    {
        Registry { units: Vec::new() }
    }

    /// Adds an entry after all others.
    pub(crate) fn append(&mut self, unit: UnitIdentity)
        ensures
            final(self)@ == old(self)@.push(unit),
    {
        self.units.push(unit);
    }

    /// The number of entries.
    pub fn len(&self) -> (n: usize)
        ensures
            n == self@.len(),
    {
        self.units.len()
    }

    /// A copy of the entries, oldest first. The registry itself is not
    /// touched, and later appends do not show in the copy.
    pub fn list(&self) -> (snapshot: Vec<UnitIdentity>)
        ensures
            snapshot@ == self@,
    {
        let mut snapshot: Vec<UnitIdentity> = Vec::with_capacity(self.units.len());
        let mut i: usize = 0;
        while i < self.units.len()
            invariant
                i <= self.units@.len(),
                snapshot@ == self.units@.subrange(0, i as int),
            decreases self.units@.len() - i,
        {
            snapshot.push(self.units[i]);
            assert(snapshot@ =~= self.units@.subrange(0, i + 1));
            i += 1;
        }
        assert(snapshot@ =~= self.units@);
        snapshot
    }
}

} // verus!
