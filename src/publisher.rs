//! The lifecycle of the single shared publisher: it is set up exactly once,
//! and handed out only once it is ready.
use vstd::prelude::*;

verus! {

#[derive(Clone, Copy, PartialEq, Eq, Structural, Debug)]
pub enum PublisherState {
    Uninitialized,
    Initializing,
    Ready,
}

#[derive(Clone, Copy, PartialEq, Eq, Structural, Debug)]
pub enum PublisherError {
    /// Initialization was asked for while it had already begun or finished.
    AlreadyInitialized,
    /// The connection to the sink could not be established.
    Connection,
}

/// Tracks where the publisher is in its lifecycle. It never goes back from
/// `Ready`; a second initialization is refused rather than ignored.
pub struct PublisherLifecycle {
    state: PublisherState,
}

impl PublisherLifecycle {
    pub closed spec fn spec_state(&self) -> PublisherState {
        self.state
    }

    pub fn new() -> (r: PublisherLifecycle)
        ensures
            r.spec_state() == PublisherState::Uninitialized,
    {
        PublisherLifecycle { state: PublisherState::Uninitialized }
    }

    pub fn state(&self) -> (r: PublisherState)
        ensures
            r == self.spec_state(),
    {
        self.state
    }

    /// Claims the one initialization: succeeds only from `Uninitialized`,
    /// and moves to `Initializing`; otherwise nothing changes.
    pub fn begin_initialize(&mut self) -> (r: Result<(), PublisherError>)
        ensures
            old(self).spec_state() == PublisherState::Uninitialized ==> r is Ok
                && final(self).spec_state() == PublisherState::Initializing,
            old(self).spec_state() != PublisherState::Uninitialized ==> r == Err::<
                (),
                PublisherError,
            >(PublisherError::AlreadyInitialized) && final(self).spec_state() == old(
                self,
            ).spec_state(),
    {
        if self.state == PublisherState::Uninitialized {
            self.state = PublisherState::Initializing;
            Ok(())
        } else {
            Err(PublisherError::AlreadyInitialized)
        }
    }

    /// Records the outcome of the connection attempt begun by
    /// `begin_initialize`: `Ready` once connected; otherwise the claim is
    /// released so that initialization may be tried again.
    pub fn finish_initialize(&mut self, connected: bool) -> (r: Result<(), PublisherError>)
        requires
            old(self).spec_state() == PublisherState::Initializing,
        ensures
            connected ==> r is Ok && final(self).spec_state() == PublisherState::Ready,
            !connected ==> r == Err::<(), PublisherError>(PublisherError::Connection)
                && final(self).spec_state() == PublisherState::Uninitialized,
    {
        if connected {
            self.state = PublisherState::Ready;
            Ok(())
        } else {
            self.state = PublisherState::Uninitialized;
            Err(PublisherError::Connection)
        }
    }

    /// Whether the publisher may be acquired: only once it is ready.
    pub fn can_acquire(&self) -> (r: bool)
        ensures
            r == (self.spec_state() == PublisherState::Ready),
    {
        self.state == PublisherState::Ready
    }
}

} // verus!
