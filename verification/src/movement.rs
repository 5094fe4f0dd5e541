//! The freeze counter that suspends player input while dialogue or a cutscene
//! plays.

use vstd::prelude::*;

verus! {

/// A reentrant counter: every freeze must be undone by one unfreeze before
/// input is processed again.
pub struct ActionsFrozen {
    freeze_count: usize,
}

impl Default for ActionsFrozen {
    /// Nothing is frozen to begin with.
    fn default() -> (actions_frozen: ActionsFrozen)
        ensures
            actions_frozen.count() == 0,
    {
        ActionsFrozen { freeze_count: 0 }
    }
}

impl ActionsFrozen {
    /// The number of freezes that have not been undone yet.
    pub closed spec fn count(&self) -> nat {
        self.freeze_count as nat
    }

    /// Suspends input once more. The count must have room for it.
    pub fn freeze(&mut self)
        requires
            old(self).count() < usize::MAX,
        ensures
            final(self).count() == old(self).count() + 1,
    {
        self.freeze_count += 1;
    }

    /// Undoes one freeze. There must be one to undo: to unfreeze more often
    /// than to freeze is a mistake of the caller.
    pub fn unfreeze(&mut self)
        requires
            old(self).count() > 0,
        ensures
            final(self).count() == old(self).count() - 1,
    {
        self.freeze_count -= 1;
    }

    /// The number of freezes that have not been undone yet.
    pub fn freeze_count(&self) -> (count: usize)
        ensures
            count == self.count(),
    {
        self.freeze_count
    }

    /// Whether input is suspended.
    pub fn is_frozen(&self) -> (frozen: bool)
        ensures
            frozen == (self.count() > 0),
    {
        self.freeze_count > 0
    }
}

} // verus!
