//! The termination state machine's state.

use vstd::prelude::*;

use crate::error::FramedDispatcherError;

verus! {

/// The single control field of the dispatcher.
///
/// `Processing` is the initial state: the read and write stages run until
/// neither makes progress. The other four states are terminal-pending: the
/// dispatcher resolves from them (after at most one final flush) without
/// admitting further requests. `Error` and `FramedError` own their terminal
/// error until it is consumed exactly once on resolution; the difference
/// between the two is that `Error` attempts a final flush of the write
/// buffer before resolving while `FramedError` resolves immediately.
pub enum State<E, EE, DE> {
    /// Normal operation: admit requests and write responses.
    Processing,
    /// A service failure was observed; flush what is buffered, then resolve
    /// with the owned error.
    Error(FramedDispatcherError<E, EE, DE>),
    /// A framing failure (decode, encode or flush) was observed; resolve
    /// with the owned error at once, without a final flush.
    FramedError(FramedDispatcherError<E, EE, DE>),
    /// The service asked for the connection to be closed; flush what is
    /// buffered (best effort), then resolve with success.
    FlushAndStop,
    /// The byte stream ended cleanly; resolve with success at once.
    Stopping,
}

impl<E, EE, DE> State<E, EE, DE> {
    /// Take the error owned by an `Error` state, leaving `Processing` behind
    /// as a consumed-slot sentinel. Calling this in any other state is a
    /// contract violation, so it is ruled out here rather than handled.
    pub fn take_error(&mut self) -> (err: FramedDispatcherError<E, EE, DE>)
        requires
            *old(self) is Error,
        ensures
            *old(self) == State::<E, EE, DE>::Error(err),
            *final(self) is Processing,
    {
        let mut taken = State::Processing;
        core::mem::swap(self, &mut taken);
        match taken {
            State::Error(err) => err,
            _ => vstd::pervasive::unreached(),
        }
    }

    /// Take the error owned by a `FramedError` state, leaving `Processing`
    /// behind as a consumed-slot sentinel. Calling this in any other state
    /// is a contract violation, so it is ruled out here rather than handled.
    pub fn take_framed_error(&mut self) -> (err: FramedDispatcherError<E, EE, DE>)
        requires
            *old(self) is FramedError,
        ensures
            *old(self) == State::<E, EE, DE>::FramedError(err),
            *final(self) is Processing,
    {
        let mut taken = State::Processing;
        core::mem::swap(self, &mut taken);
        match taken {
            State::FramedError(err) => err,
            _ => vstd::pervasive::unreached(),
        }
    }

    /// Whether this state still admits requests.
    pub fn is_processing(&self) -> (r: bool)
        ensures
            r == (*self is Processing),
    {
        match self {
            State::Processing => true,
            _ => false,
        }
    }
}

} // verus!
