//! The dispatcher's error taxonomy.

use vstd::prelude::*;

verus! {

/// A terminal dispatcher failure. Exactly one kind is carried per terminal
/// error: the service itself failed (`Service`), a response could not be
/// serialised or a flush failed (`Encoder`), or an incoming frame could not
/// be parsed (`Decoder`).
pub enum FramedDispatcherError<E, EE, DE> {
    /// The service failed: its readiness check returned an error, or a
    /// completed request task delivered an error through the result channel.
    Service(E),
    /// A response could not be encoded onto the transport, or flushing the
    /// write buffer failed during normal operation.
    Encoder(EE),
    /// The incoming bytes were malformed.
    Decoder(DE),
}

/// The kind of a `FramedDispatcherError`, without its payload.
#[derive(Clone, Copy, Debug, PartialEq, Eq, Structural)]
pub enum ErrorKind {
    Service,
    Encoder,
    Decoder,
}

impl<E, EE, DE> FramedDispatcherError<E, EE, DE> {
    /// Which of the three kinds this error is.
    pub open spec fn kind_spec(&self) -> ErrorKind {
        match self {
            FramedDispatcherError::Service(_) => ErrorKind::Service,
            FramedDispatcherError::Encoder(_) => ErrorKind::Encoder,
            FramedDispatcherError::Decoder(_) => ErrorKind::Decoder,
        }
    }

    /// Report which kind of failure this is, e.g. for diagnostics.
    pub fn kind(&self) -> (k: ErrorKind)
        ensures
            k == self.kind_spec(),
    {
        match self {
            FramedDispatcherError::Service(_) => ErrorKind::Service,
            FramedDispatcherError::Encoder(_) => ErrorKind::Encoder,
            FramedDispatcherError::Decoder(_) => ErrorKind::Decoder,
        }
    }

    /// A short text for diagnostics, naming the kind of failure.
    pub fn kind_label(&self) -> (s: &'static str)
        ensures
            self.kind_spec() == ErrorKind::Service ==> s@ == "service"@,
            self.kind_spec() == ErrorKind::Encoder ==> s@ == "encoder"@,
            self.kind_spec() == ErrorKind::Decoder ==> s@ == "decoder"@,
    {
        match self {
            FramedDispatcherError::Service(_) => "service",
            FramedDispatcherError::Encoder(_) => "encoder",
            FramedDispatcherError::Decoder(_) => "decoder",
        }
    }
}

/// A bare service error converts to the `Service` kind.
impl<E, EE, DE> From<E> for FramedDispatcherError<E, EE, DE> {
    fn from(err: E) -> (r: Self) {
        FramedDispatcherError::Service(err)
    }
}

impl<E, EE, DE> vstd::std_specs::convert::FromSpecImpl<E> for FramedDispatcherError<E, EE, DE> {
    open spec fn obeys_from_spec() -> bool {
        true
    }

    open spec fn from_spec(err: E) -> Self {
        FramedDispatcherError::Service(err)
    }
}

} // verus!
