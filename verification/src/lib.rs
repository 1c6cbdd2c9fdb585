//! A mutual-exclusion cell built on a busy-wait flag, with a scoped guard.
//!
//! [`Lock`] binds one value to one [`InnerSpinner`] flag and hands out all
//! access through a [`LockGuard`].  While a guard is outstanding the cell
//! holds no value at all: the value travels into the guard on acquisition
//! and back into the cell on release, so exclusive access is enforced by
//! ownership, and the flag records whether a guard is live.
//!
//! The contracts describe the lock's state machine exactly: each operation
//! is stated as a transition predicate over the cell's abstract state
//! (locked or not, and the protected value), and [`lemma_mutual_exclusion`]
//! proves mutual exclusion over whole traces of flag events.

mod lock;
mod protocol;
mod spinner;

pub use lock::Lock;
pub use lock::LockGuard;
pub use lock::acquire_transition;
pub use lock::release_transition;
pub use lock::try_acquire_transition;
pub use lock::fresh_cell;
pub use lock::lemma_release_then_acquire_visibility;
pub use lock::lemma_release_unlocks;
pub use lock::lemma_try_acquire_fails_while_held;
pub use lock::lemma_try_acquire_succeeds_after_release;
pub use lock::lemma_try_acquire_succeeds_once;
pub use lock::lemma_extraction_round_trip;
pub use lock::lemma_acquire_is_flag_event;
pub use lock::lemma_release_is_flag_event;
pub use lock::lemma_failed_try_is_flag_event;
pub use protocol::FlagStep;
pub use protocol::step_enabled;
pub use protocol::step_state;
pub use protocol::valid_trace;
pub use protocol::state_after;
pub use protocol::lemma_valid_trace_step;
pub use protocol::lemma_mutual_exclusion;
pub use protocol::lemma_release_between_acquisitions;
pub use spinner::InnerSpinner;
