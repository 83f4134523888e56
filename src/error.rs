//! Error classification shared by every transport operation.

use vstd::prelude::*;

verus! {

/// An error of the transport layer, reduced to the two questions the
/// protocol layer asks of it.
pub trait Error {
    /// Whether this error is an idle or keep-alive timeout.
    spec fn spec_is_timeout(&self) -> bool;

    /// The numeric code carried by a connection close or a stream
    /// stop/reset, if any.
    spec fn spec_err_code(&self) -> Option<u64>;

    /// Check if the current error is a transport timeout.
    fn is_timeout(&self) -> (r: bool)
        ensures
            r == self.spec_is_timeout(),
    ;

    /// Get the error code from a connection close or a stream stop/reset.
    fn err_code(&self) -> (r: Option<u64>)
        ensures
            r == self.spec_err_code(),
    ;
}

/// A type-erased transport error: the classification of any [`Error`],
/// carried by value so that callers need not know the engine's error type.
#[derive(Clone, Copy, Debug, PartialEq, Eq, Structural)]
pub struct TransportError {
    pub timeout: bool,
    pub code: Option<u64>,
}

impl TransportError {
    /// A timeout with no code attached.
    pub fn timed_out() -> (r: TransportError)
        ensures
            r.timeout,
            r.code == None::<u64>,
    {
        TransportError { timeout: true, code: None }
    }

    /// An error signalled by the peer or the engine with the given code.
    pub fn with_code(code: u64) -> (r: TransportError)
        ensures
            !r.timeout,
            r.code == Some(code),
    {
        TransportError { timeout: false, code: Some(code) }
    }

    /// Erase the concrete type of an engine error, keeping its
    /// classification.
    pub fn from_error<E: Error>(err: &E) -> (r: TransportError)
        ensures
            r.timeout == err.spec_is_timeout(),
            r.code == err.spec_err_code(),
    {
        TransportError { timeout: err.is_timeout(), code: err.err_code() }
    }
}

impl Error for TransportError {
    open spec fn spec_is_timeout(&self) -> bool {
        self.timeout
    }

    open spec fn spec_err_code(&self) -> Option<u64> {
        self.code
    }

    fn is_timeout(&self) -> (r: bool) {
        self.timeout
    }

    fn err_code(&self) -> (r: Option<u64>) {
        self.code
    }
}

/// Why an unreliable datagram could not be sent.
#[derive(Clone, Copy, Debug, PartialEq, Eq, Structural)]
pub enum SendDatagramError {
    /// Datagrams are not supported by the peer.
    UnsupportedByPeer,
    /// Datagrams are locally disabled.
    Disabled,
    /// The datagram was too large to be sent.
    TooLarge,
    /// The connection was lost; carries the classified transport error.
    ConnectionLost(TransportError),
}

impl SendDatagramError {
    /// A short human-readable description of the failure.
    pub fn description(&self) -> (r: &'static str)
        ensures
            r@ == datagram_error_text(*self),
    {
        match self {
            SendDatagramError::UnsupportedByPeer => "datagrams not supported by peer",
            SendDatagramError::Disabled => "datagram support disabled",
            SendDatagramError::TooLarge => "datagram too large",
            SendDatagramError::ConnectionLost(_) => "connection lost",
        }
    }

    /// The description as an owned string.
    pub fn to_string(&self) -> (r: String)
        ensures
            r@ == datagram_error_text(*self),
    {
        self.description().to_string()
    }
}

/// The description attached to each datagram failure.
pub open spec fn datagram_error_text(e: SendDatagramError) -> Seq<char> {
    match e {
        SendDatagramError::UnsupportedByPeer => "datagrams not supported by peer"@,
        SendDatagramError::Disabled => "datagram support disabled"@,
        SendDatagramError::TooLarge => "datagram too large"@,
        SendDatagramError::ConnectionLost(_) => "connection lost"@,
    }
}

impl Error for SendDatagramError {
    /// Datagram failures are never timeouts.
    open spec fn spec_is_timeout(&self) -> bool {
        false
    }

    /// Only a lost connection carries a code: that of its transport error.
    open spec fn spec_err_code(&self) -> Option<u64> {
        match self {
            SendDatagramError::ConnectionLost(err) => err.code,
            _ => None,
        }
    }

    fn is_timeout(&self) -> (r: bool) {
        false
    }

    fn err_code(&self) -> (r: Option<u64>) {
        match self {
            SendDatagramError::ConnectionLost(err) => err.err_code(),
            _ => None,
        }
    }
}

} // verus!
