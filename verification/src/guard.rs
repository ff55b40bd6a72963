//! The reentrancy guard: one flag on the caller's session record that keeps a
//! critical section from being entered while it is occupied.
//!
//! The guard is a single-slot lock that never waits: [`acquire`] on an occupied
//! session fails at once. Whoever acquired must [`release`] on every way out of
//! the critical section, failures included, or the session stays occupied.

use vstd::prelude::*;
use crate::errors::WagerError;

verus! {

/// The part of a session record that the guard reads and writes.
#[derive(Clone, Copy, Debug, PartialEq, Eq, Structural)]
pub struct SessionState {
    /// Set while the session's critical section is occupied.
    pub is_processing: bool,
}

/// The two states of the guard.
#[derive(Clone, Copy, Debug, PartialEq, Eq, Structural)]
pub enum GuardState {
    /// Nobody is in the critical section.
    Idle,
    /// The critical section is occupied.
    Processing,
}

impl GuardState {
    /// One attempt to enter the critical section: the state it leaves and
    /// what it answers. Only an idle guard lets the caller in; an occupied one
    /// stays occupied and answers `AlreadyProcessing`.
    pub open spec fn acquire(self) -> (GuardState, Result<(), WagerError>) {
        match self {
            GuardState::Idle => (GuardState::Processing, Ok(())),
            GuardState::Processing => (
                GuardState::Processing,
                Err(WagerError::AlreadyProcessing),
            ),
        }
    }

    /// Leaving the critical section: the guard is idle afterwards.
    pub open spec fn release(self) -> GuardState {
        GuardState::Idle
    }
}

impl View for SessionState {
    type V = GuardState;

    open spec fn view(&self) -> GuardState {
        if self.is_processing {
            GuardState::Processing
        } else {
            GuardState::Idle
        }
    }
}

impl SessionState {
    /// A session that nobody occupies.
    pub fn new() -> (session: SessionState)
        ensures
            session@ == GuardState::Idle,
    {
        SessionState { is_processing: false }
    }
}

/// Enters the critical section. On an idle session this succeeds and marks it
/// occupied; on an occupied one it fails with `AlreadyProcessing` and leaves
/// the session as it was.
pub fn acquire(session: &mut SessionState) -> (res: Result<(), WagerError>)
    ensures
        (final(session)@, res) == old(session)@.acquire(),
        res is Err ==> *final(session) == *old(session),
{
    if session.is_processing {
        return Err(WagerError::AlreadyProcessing);
    }
    session.is_processing = true;
    Ok(())
}

/// Leaves the critical section: the session is idle afterwards, whatever it
/// was before. This cannot fail.
pub fn release(session: &mut SessionState)
    ensures
        final(session)@ == old(session)@.release(),
        !final(session).is_processing,
{
    session.is_processing = false;
}

/// An acquire on an idle guard succeeds and occupies it; a second acquire is
/// then refused with `AlreadyProcessing` and changes nothing. Whatever the
/// state before, an acquire that follows an acquire is refused.
pub proof fn lemma_second_acquire_rejected(state: GuardState)
    ensures
        GuardState::Idle.acquire() == (GuardState::Processing, Ok::<(), WagerError>(())),
        state.acquire().0.acquire() == (
            state.acquire().0,
            Err::<(), WagerError>(WagerError::AlreadyProcessing),
        ),
{
}

/// A release leaves the guard idle whatever the state before, so the next
/// acquire succeeds.
pub proof fn lemma_release_frees(state: GuardState)
    ensures
        state.release() == GuardState::Idle,
        state.release().acquire() == (GuardState::Processing, Ok::<(), WagerError>(())),
{
}

/// Releasing is idempotent: releasing an idle guard leaves it idle, and a
/// second release leaves what the first one left.
pub proof fn lemma_release_idempotent(state: GuardState)
    ensures
        GuardState::Idle.release() == GuardState::Idle,
        state.release().release() == state.release(),
{
}

} // verus!
