use vstd::prelude::*;

use crate::protocol::FlagStep;
use crate::protocol::step_enabled;
use crate::protocol::step_state;
use crate::spinner::InnerSpinner;

verus! {

/// A mutual-exclusion cell: one value bound to one spin flag.
///
/// All access to the value goes through a [`LockGuard`] produced by a
/// successful acquisition, or through the consuming [`Lock::into_inner`].
/// The flag is locked exactly while a guard is outstanding, and for that
/// whole time the cell itself holds no value: the value lives in the guard.
pub struct Lock<T> {
    inner: InnerSpinner,
    data: Option<T>,
}

/// Scoped, exclusive access to the value of one [`Lock`].
///
/// A guard is created only by a successful acquisition and carries the
/// protected value itself, so while it is alive nothing else can reach the
/// value.  Handing the guard back to [`Lock::unlock`] returns the value to
/// the cell and releases the flag.
pub struct LockGuard<T> {
    data: T,
}

impl<T> Lock<T> {
    /// Whether the cell's flag is held, that is, whether a guard is out.
    pub closed spec fn locked(&self) -> bool {
        self.inner.locked()
    }

    /// The protected value, meaningful only while the cell is unlocked:
    /// while a guard is out the value lives in the guard, not here.
    pub closed spec fn value(&self) -> T {
        self.data->0
    }

    /// Well-formedness: the flag is held exactly while the value is out
    /// with a guard.
    pub closed spec fn wf(&self) -> bool {
        self.locked() <==> self.data is None
    }

    /// Construct a cell with the flag unlocked and the value stored.
    pub fn new(value: T) -> (r: Lock<T>)
        ensures
            fresh_cell(r, value),
    {
        Lock { inner: InnerSpinner::new(), data: Some(value) }
    }

    /// Acquire the flag and hand the value out in a guard.
    ///
    /// The cell must be unlocked: this crate models a single holder at a
    /// time, so an acquisition on a held cell would spin forever with
    /// nobody to release it.
    pub fn lock(&mut self) -> (g: LockGuard<T>)
        requires
            old(self).wf(),
            !old(self).locked(),
        ensures
            acquire_transition(*old(self), *final(self), g),
    {
        self.inner.lock();
        let v = self.data.take();
        LockGuard::new(v.unwrap())
    }

    /// One non-blocking acquisition attempt: a guard exactly when the flag
    /// was free, and no change at all when it was held.
    pub fn try_lock(&mut self) -> (g: Option<LockGuard<T>>)
        requires
            old(self).wf(),
        ensures
            try_acquire_transition(*old(self), *final(self), g),
    {
        if self.inner.try_lock() {
            let v = self.data.take();
            Some(LockGuard::new(v.unwrap()))
        } else {
            None
        }
    }

    /// Return a guard's value to the cell and release the flag.
    ///
    /// The cell must be locked: releasing a cell that holds no guard is a
    /// logic error, so it is excluded outright.
    pub fn unlock(&mut self, guard: LockGuard<T>)
        requires
            old(self).wf(),
            old(self).locked(),
        ensures
            release_transition(*old(self), *final(self), guard),
    {
        self.data = Some(guard.data);
        self.inner.unlock();
    }

    /// Consume the cell and return the bare value.
    ///
    /// No guard may be outstanding: extracting while one is out would leave
    /// the value aliased, so that state is excluded outright, and the
    /// result is always the stored value under `Ok`.
    pub fn into_inner(self) -> (r: Result<T, ()>)
        requires
            self.wf(),
            !self.locked(),
        ensures
            r == Ok::<T, ()>(self.value()),
    {
        Ok(self.data.unwrap())
    }
}

impl<T> LockGuard<T> {
    /// The value this guard gives access to.
    pub closed spec fn value(&self) -> T {
        self.data
    }

    /// Wrap a freshly taken value.  Only a successful acquisition calls
    /// this.
    fn new(value: T) -> (r: LockGuard<T>)
        ensures
            r.value() == value,
    {
        LockGuard { data: value }
    }

    /// Identity accessor for ergonomic chaining: the same guard back.
    pub fn unwrap(self) -> (r: Self)
        ensures
            r == self,
    {
        self
    }

    /// Read access to the protected value.
    pub fn get(&self) -> (r: &T)
        ensures
            *r == self.value(),
    {
        &self.data
    }

    /// Write access to the protected value; the guard afterwards holds
    /// whatever was written through the returned reference.
    pub fn get_mut(&mut self) -> (r: &mut T)
        ensures
            *r == old(self).value(),
            final(self).value() == *final(r),
    {
        &mut self.data
    }
}

/// A cell as `Lock::new(v)` leaves it: well formed, unlocked, holding `v`.
pub open spec fn fresh_cell<T>(cell: Lock<T>, value: T) -> bool {
    &&& cell.wf()
    &&& !cell.locked()
    &&& cell.value() == value
}

/// One successful acquisition: an unlocked, well-formed cell becomes
/// locked, and the guard carries exactly the cell's value.
pub open spec fn acquire_transition<T>(pre: Lock<T>, post: Lock<T>, guard: LockGuard<T>) -> bool {
    &&& pre.wf() && !pre.locked()
    &&& post.wf() && post.locked()
    &&& guard.value() == pre.value()
}

/// One release: a locked, well-formed cell becomes unlocked and holds the
/// value the guard carried back.
pub open spec fn release_transition<T>(pre: Lock<T>, post: Lock<T>, guard: LockGuard<T>) -> bool {
    &&& pre.wf() && pre.locked()
    &&& post.wf() && !post.locked()
    &&& post.value() == guard.value()
}

/// One non-blocking acquisition attempt: on a held cell it changes nothing
/// and reports failure; on a free cell it is a successful acquisition.
pub open spec fn try_acquire_transition<T>(
    pre: Lock<T>,
    post: Lock<T>,
    guard: Option<LockGuard<T>>,
) -> bool {
    &&& pre.wf()
    &&& if pre.locked() {
        guard is None && post == pre
    } else {
        guard is Some && acquire_transition(pre, post, guard->0)
    }
}

/// Visibility: the value a holder leaves behind at release is exactly the
/// value the next successful acquisition hands out, so everything written
/// while holding a guard is observed through the next guard on the cell.
pub proof fn lemma_release_then_acquire_visibility<T>(
    held: Lock<T>,
    released: Lock<T>,
    reacquired: Lock<T>,
    guard_out: LockGuard<T>,
    guard_in: LockGuard<T>,
)
    requires
        release_transition(held, released, guard_out),
        acquire_transition(released, reacquired, guard_in),
    ensures
        guard_in.value() == guard_out.value(),
{
}

/// Guaranteed release: handing a guard back always leaves the cell
/// unlocked and well formed, whatever value the critical section left in
/// it, so the next acquisition on the cell is enabled again.
pub proof fn lemma_release_unlocks<T>(pre: Lock<T>, post: Lock<T>, guard: LockGuard<T>)
    requires
        release_transition(pre, post, guard),
    ensures
        !post.locked(),
        post.wf(),
        step_enabled(post.locked(), FlagStep::Acquire),
{
}

/// Try-acquire correctness, first half: while a guard is live the cell is
/// locked, so a try-acquire reports failure and changes nothing.
pub proof fn lemma_try_acquire_fails_while_held<T>(
    pre: Lock<T>,
    post: Lock<T>,
    guard: Option<LockGuard<T>>,
)
    requires
        pre.locked(),
        try_acquire_transition(pre, post, guard),
    ensures
        guard is None,
        post == pre,
{
}

/// Try-acquire correctness, second half: on the cell a release leaves
/// behind, a try-acquire succeeds.
pub proof fn lemma_try_acquire_succeeds_after_release<T>(
    held: Lock<T>,
    released: Lock<T>,
    guard_out: LockGuard<T>,
    retried: Lock<T>,
    guard_in: Option<LockGuard<T>>,
)
    requires
        release_transition(held, released, guard_out),
        try_acquire_transition(released, retried, guard_in),
    ensures
        guard_in is Some,
        guard_in->0.value() == guard_out.value(),
        retried.locked(),
{
}

/// ...and succeeds exactly once: a successful attempt leaves the cell
/// locked, so a second attempt before any release must fail.
pub proof fn lemma_try_acquire_succeeds_once<T>(
    free: Lock<T>,
    taken: Lock<T>,
    first: Option<LockGuard<T>>,
    retried: Lock<T>,
    second: Option<LockGuard<T>>,
)
    requires
        !free.locked(),
        try_acquire_transition(free, taken, first),
        try_acquire_transition(taken, retried, second),
    ensures
        first is Some,
        second is None,
        retried == taken,
{
}

/// A successful acquisition is an `Acquire` event of the flag protocol:
/// enabled exactly when the flag is free, and it leaves the flag held.
pub proof fn lemma_acquire_is_flag_event<T>(pre: Lock<T>, post: Lock<T>, guard: LockGuard<T>)
    requires
        acquire_transition(pre, post, guard),
    ensures
        step_enabled(pre.locked(), FlagStep::Acquire),
        post.locked() == step_state(FlagStep::Acquire),
{
}

/// A release is a `Release` event of the flag protocol: enabled exactly
/// when the flag is held, and it leaves the flag free.
pub proof fn lemma_release_is_flag_event<T>(pre: Lock<T>, post: Lock<T>, guard: LockGuard<T>)
    requires
        release_transition(pre, post, guard),
    ensures
        step_enabled(pre.locked(), FlagStep::Release),
        post.locked() == step_state(FlagStep::Release),
{
}

/// A failed non-blocking attempt is a `TryFail` event of the flag
/// protocol: it happens exactly on a held flag and leaves the flag held.
pub proof fn lemma_failed_try_is_flag_event<T>(
    pre: Lock<T>,
    post: Lock<T>,
    guard: Option<LockGuard<T>>,
)
    requires
        pre.locked(),
        try_acquire_transition(pre, post, guard),
    ensures
        step_enabled(pre.locked(), FlagStep::TryFail),
        post.locked() == step_state(FlagStep::TryFail),
{
}

/// Extraction round-trip: a cell created from `value` and consumed with no
/// guard outstanding yields `value` back.
pub proof fn lemma_extraction_round_trip<T>(cell: Lock<T>, value: T, r: Result<T, ()>)
    requires
        fresh_cell(cell, value),
        r == Ok::<T, ()>(cell.value()),
    ensures
        r == Ok::<T, ()>(value),
{
}

} // verus!
