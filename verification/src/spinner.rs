use vstd::prelude::*;

verus! {

/// The low-level busy-wait primitive: a single exclusion flag.
///
/// `false` means unlocked, `true` means locked.  The flag knows nothing of
/// any protected data; it only records whether a critical section is open.
/// Acquisition is a compare-and-set of the flag from unlocked to locked,
/// release stores unlocked again.
pub struct InnerSpinner {
    spinner: bool,
}

impl InnerSpinner {
    /// Whether the flag is currently held.
    pub closed spec fn locked(&self) -> bool {
        self.spinner
    }

    /// A fresh flag starts unlocked.
    pub fn new() -> (r: InnerSpinner)
        ensures
            !r.locked(),
    {
        InnerSpinner { spinner: false }
    }

    /// One compare-and-set attempt: it succeeds exactly when the flag was
    /// free, and the flag is held afterwards either way.  A failed attempt
    /// leaves the flag untouched.
    pub fn try_lock(&mut self) -> (r: bool)
        ensures
            r == !old(self).locked(),
            final(self).locked(),
            old(self).locked() ==> *final(self) == *old(self),
    {
        if self.spinner {
            false
        } else {
            self.spinner = true;
            true
        }
    }

    /// Acquire the flag, retrying the compare-and-set until it succeeds.
    ///
    /// The flag must be free: this crate models a single holder at a time,
    /// so with nobody else to release a held flag, an attempt on one would
    /// retry forever.
    pub fn lock(&mut self)
        requires
            !old(self).locked(),
        ensures
            final(self).locked(),
    {
        loop
            invariant
                !self.locked(),
            decreases 1nat,
        {
            if self.try_lock() {
                return;
            }
        }
    }

    /// Release the flag.  Callers must hold it: releasing a free flag is a
    /// logic error, so it is excluded outright.
    pub fn unlock(&mut self)
        requires
            old(self).locked(),
        ensures
            !final(self).locked(),
    {
        self.spinner = false;
    }
}

} // verus!
