//! The instance inventory.
//!
//! Installed instances are whatever the instances directory holds; the
//! inventory is recomputed from a directory listing on each refresh, never
//! cached or persisted. A driver supplies the listing.

use vstd::prelude::*;

verus! {

/// The instance inventory a user interface shows.
#[derive(Debug)]
pub struct InstancesView {
    pub instances: Vec<String>,
}

impl InstancesView {
    /// An empty inventory: nothing listed yet.
    pub fn new() -> (r: Self)
        ensures
            r.instances@ == Seq::<String>::empty(),
    {
        InstancesView { instances: Vec::new() }
    }

    /// Replace the inventory with a fresh directory listing.
    pub fn refresh(&mut self, names: Vec<String>)
        ensures
            final(self).instances == names,
    {
        self.instances = names;
    }

    /// How many instances are installed.
    pub fn count(&self) -> (r: usize)
        ensures
            r == self.instances@.len(),
    {
        self.instances.len()
    }
}

} // verus!
