//! The failures that callers see, and how a failure of the connection layer
//! maps onto them by the operation that met it.
use vstd::prelude::*;

verus! {

/// A failure that the connection layer reported.
pub enum WireFailure {
    /// The server answered the request with an error; its message.
    Server(String),
    /// The connection is gone: its driver ended, the stream closed, or the
    /// transport failed; a description.
    Closed(String),
    /// Any other failure, after which the connection may still be up; a
    /// description.
    Other(String),
}

/// The operation of a session during which a failure came.
#[derive(Clone, Copy, Debug, PartialEq, Eq)]
pub enum Operation {
    Connect,
    OpenStream,
    Execute,
    Shutdown,
}

/// A failure as the client's caller sees it.
#[derive(Debug, PartialEq, Eq)]
pub enum ClientError {
    /// The URL given could not be parsed, or gave no usable endpoint.
    Url,
    /// The connection or its handshake failed.
    Connection(String),
    /// No stream could be opened: the session's driver has ended.
    Stream(String),
    /// A statement or batch failed, most often because the server rejected
    /// it; the message.
    Execution(String),
    /// The connection ended while a request was waiting for its response.
    ConnectionLost,
    /// The session's driver ended abnormally during shutdown.
    Shutdown(String),
}

impl WireFailure {
    pub open spec fn message(self) -> String {
        match self {
            WireFailure::Server(m) => m,
            WireFailure::Closed(m) => m,
            WireFailure::Other(m) => m,
        }
    }

    pub(crate) fn into_message(self) -> (r: String)
        ensures
            r == self.message(),
    {
        match self {
            WireFailure::Server(m) => m,
            WireFailure::Closed(m) => m,
            WireFailure::Other(m) => m,
        }
    }
}

/// The caller-facing failure for `f`, met during `op`.
pub open spec fn classified(op: Operation, f: WireFailure) -> ClientError {
    match op {
        Operation::Connect => ClientError::Connection(f.message()),
        Operation::OpenStream => ClientError::Stream(f.message()),
        Operation::Execute => match f {
            WireFailure::Closed(_) => ClientError::ConnectionLost,
            _ => ClientError::Execution(f.message()),
        },
        Operation::Shutdown => ClientError::Shutdown(f.message()),
    }
}

/// Maps a failure of the connection layer, met during `op`, to the failure
/// that the caller sees. A failure of one request stays with that request;
/// only a connection that is gone is reported as lost, to every request
/// that was waiting on it.
pub fn classify(op: Operation, f: WireFailure) -> (r: ClientError)
    ensures
        r == classified(op, f),
{
    match op {
        Operation::Connect => ClientError::Connection(f.into_message()),
        Operation::OpenStream => ClientError::Stream(f.into_message()),
        Operation::Execute => match f {
            WireFailure::Closed(_) => ClientError::ConnectionLost,
            _ => ClientError::Execution(f.into_message()),
        },
        Operation::Shutdown => ClientError::Shutdown(f.into_message()),
    }
}

/// When the connection ends, every request still waiting on it is told that
/// the connection was lost, whatever description each of them got.
pub proof fn lemma_connection_loss_reaches_all(f: WireFailure, g: WireFailure)
    requires
        f is Closed,
        g is Closed,
    ensures
        classified(Operation::Execute, f) == ClientError::ConnectionLost,
        classified(Operation::Execute, g) == ClientError::ConnectionLost,
{
}

} // verus!
