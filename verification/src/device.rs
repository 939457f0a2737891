//! The device handle: the owner of exactly one backend session.

use crate::error::{first_error, FatalError};
use vstd::prelude::*;

verus! {

/// An opaque handle to an output device. It owns the session of type `D`
/// until it is closed; letting the handle go has the effect of closing it,
/// since the session goes with it. What ended the session, if a fatal error
/// did, stays with the handle after the close.
pub struct OutputDevice<D> {
    device: Option<D>,
    fatal: Option<FatalError>,
}

impl<D> OutputDevice<D> {
    /// The session that the handle owns, while it is open.
    pub closed spec fn session(&self) -> Option<D> {
        self.device
    }

    /// The fatal error that the handle has learnt of when it was closed.
    pub closed spec fn fatal_error(&self) -> Option<FatalError> {
        self.fatal
    }

    /// Whether the handle still owns its session.
    pub open spec fn is_open(&self) -> bool {
        self.session() is Some
    }

    /// The handle after a close that learnt `outcome` of the session: it
    /// owns nothing, and keeps the first fatal error that it has learnt of.
    pub closed spec fn closed(self, outcome: Option<FatalError>) -> OutputDevice<D> {
        OutputDevice { device: None, fatal: first_error(self.fatal, outcome) }
    }

    /// A handle that owns `device`.
    pub fn new(device: D) -> (handle: OutputDevice<D>)
        ensures
            handle.session() == Some(device),
            handle.fatal_error() is None,
    {
        OutputDevice { device: Some(device), fatal: None }
    }

    /// Closes the output device: the session is given up, and with it all
    /// that it holds. A call after the device was closed does nothing.
    pub fn close(&mut self)
        ensures
            *final(self) == old(self).closed(None),
            !final(self).is_open(),
            final(self).fatal_error() == old(self).fatal_error(),
    {
        self.device.take();
    }

    /// Closes the output device by handing its session to `release`, which
    /// shuts the session down and says which fatal error, if any, had ended
    /// its feeder. The handle keeps the first such error. A call after the
    /// device was closed does nothing and calls nothing.
    ///
    /// Returns what `release` returned, and `None` where it was not called.
    pub fn close_with<F>(&mut self, release: F) -> (outcome: Option<FatalError>) where
        F: FnOnce(D) -> Option<FatalError>,

        requires
            old(self).session() is Some ==> release.requires((old(self).session()->Some_0,)),
        ensures
            *final(self) == old(self).closed(outcome),
            !final(self).is_open(),
            final(self).fatal_error() == first_error(old(self).fatal_error(), outcome),
            match old(self).session() {
                Some(session) => release.ensures((session,), outcome),
                None => outcome is None,
            },
    {
        match self.device.take() {
            Some(session) => {
                let outcome = release(session);
                if self.fatal.is_none() {
                    self.fatal = outcome;
                }
                outcome
            },
            None => None,
        }
    }

    /// Whether the device was closed.
    pub fn is_closed(&self) -> (closed: bool)
        ensures
            closed == !self.is_open(),
    {
        self.device.is_none()
    }

    /// The fatal error that ended the session, as far as a close has learnt
    /// of one.
    pub fn last_fatal_error(&self) -> (error: Option<FatalError>)
        ensures
            error == self.fatal_error(),
    {
        self.fatal
    }

    /// A closed handle owns nothing, and closing it again changes nothing,
    /// whatever the second close is told.
    pub proof fn lemma_close_is_idempotent(
        self,
        first: Option<FatalError>,
        second: Option<FatalError>,
    )
        ensures
            self.closed(first).session() is None,
            self.closed(first).closed(None) == self.closed(first),
            self.closed(first).closed(second).session() is None,
            self.closed(first).fatal_error() is Some ==> self.closed(first).closed(second)
                == self.closed(first),
    {
    }
}

} // verus!
