//! The shutdown of a session: the close signal goes to the connection's
//! driver, and the session is closed only once that driver has ended.
use vstd::prelude::*;

use crate::failure::{classified, classify, ClientError, Operation, WireFailure};
use vstd::string::StringExecFns;

verus! {

/// Where a session stands in its lifetime.
#[derive(Debug, PartialEq, Eq)]
pub enum SessionState {
    /// Connected, with its driver running.
    Open,
    /// The close signal was sent, or failed to be; the driver has not ended
    /// yet. Holds the message of the close signal's failure, if it failed.
    Closing(Option<String>),
    /// The driver has ended.
    Closed,
}

/// What a failed close signal leaves pending for the shutdown's outcome.
pub open spec fn pending_failure(sent: Result<(), WireFailure>) -> Option<String> {
    match sent {
        Ok(_) => None,
        Err(f) => Some(f.message()),
    }
}

/// The state after the close signal was handed to the driver, or failed to
/// be: an open session starts closing and keeps that failure; a session
/// already closing or closed stays as it is.
pub open spec fn state_after_close(state: SessionState, sent: Result<(), WireFailure>) -> SessionState {
    match state {
        SessionState::Open => SessionState::Closing(pending_failure(sent)),
        _ => state,
    }
}

/// The close signal's failure that a session still holds, if any.
pub open spec fn pending_of(state: SessionState) -> Option<String> {
    match state {
        SessionState::Closing(p) => p,
        _ => None,
    }
}

pub open spec fn separator() -> Seq<char> {
    seq![';', ' ']
}

/// `r` is the outcome of a shutdown once the driver has ended. Success
/// where neither the close signal nor the driver failed; otherwise a
/// shutdown failure whose message is that of the close signal, that of the
/// driver, or both joined by `"; "`, the close signal's first.
pub open spec fn is_shutdown_outcome(
    state: SessionState,
    ended: Result<(), WireFailure>,
    r: Result<(), ClientError>,
) -> bool {
    match (pending_of(state), ended) {
        (None, Ok(_)) => r == Ok::<(), ClientError>(()),
        (None, Err(f)) => r == Err::<(), ClientError>(classified(Operation::Shutdown, f)),
        (Some(c), Ok(_)) => r == Err::<(), ClientError>(ClientError::Shutdown(c)),
        (Some(c), Err(f)) => r matches Err(ClientError::Shutdown(m)) && m@ == c@ + separator()
            + f.message()@,
    }
}

/// Streams can be opened on an open session only.
pub open spec fn can_open_stream(state: SessionState) -> bool {
    state is Open
}

/// Records the result of sending the close signal.
pub fn close_sent(state: SessionState, sent: Result<(), WireFailure>) -> (r: SessionState)
    ensures
        r == state_after_close(state, sent),
{
    match state {
        SessionState::Open => match sent {
            Ok(()) => SessionState::Closing(None),
            Err(f) => SessionState::Closing(Some(f.into_message())),
        },
        _ => state,
    }
}

/// Records that the driver has ended, which closes the session, and gives
/// the shutdown's outcome; a failure of the close signal is kept in it.
/// Whether or not the close signal got through, the driver is awaited before
/// this, so no background work outlives the session.
pub fn driver_ended(state: SessionState, ended: Result<(), WireFailure>) -> (r: (
    SessionState,
    Result<(), ClientError>,
))
    ensures
        r.0 is Closed,
        is_shutdown_outcome(state, ended, r.1),
{
    let pending = match state {
        SessionState::Closing(p) => p,
        _ => None,
    };
    let outcome = match (pending, ended) {
        (None, Ok(())) => Ok(()),
        (None, Err(f)) => Err(classify(Operation::Shutdown, f)),
        (Some(c), Ok(())) => Err(ClientError::Shutdown(c)),
        (Some(c), Err(f)) => {
            let joined = c.concat("; ");
            let driver = f.into_message();
            let message = joined.concat(driver.as_str());
            proof {
                reveal_strlit("; ");
                assert(message@ =~= c@ + separator() + driver@);
            }
            Err(ClientError::Shutdown(message))
        },
    };
    (SessionState::Closed, outcome)
}

/// A stream can be opened only while the session is open.
pub fn may_open_stream(state: &SessionState) -> (r: Result<(), ClientError>)
    ensures
        r is Ok <==> can_open_stream(*state),
        r matches Err(e) ==> e is Stream,
{
    match state {
        SessionState::Open => Ok(()),
        _ => Err(ClientError::Stream("session is shut down".to_owned())),
    }
}

/// A failed close signal is never swallowed: the shutdown of an open session
/// whose close signal failed fails, however the driver then ends, and the
/// failure's message starts with the close signal's.
pub proof fn lemma_close_failure_reported(
    f: WireFailure,
    ended: Result<(), WireFailure>,
    r: Result<(), ClientError>,
)
    requires
        is_shutdown_outcome(state_after_close(SessionState::Open, Err(f)), ended, r),
    ensures
        r matches Err(ClientError::Shutdown(m)) && f.message()@.len() <= m@.len() && m@.take(
            f.message()@.len() as int,
        ) == f.message()@,
{
    match r {
        Err(ClientError::Shutdown(m)) => {
            assert(m@.take(f.message()@.len() as int) =~= f.message()@);
        },
        _ => {},
    }
}

/// Once the driver has ended, the session is closed for good: opening a
/// stream on it fails, and a later close signal leaves it closed.
pub proof fn lemma_no_stream_after_shutdown(sent: Result<(), WireFailure>)
    ensures
        !can_open_stream(SessionState::Closed),
        state_after_close(SessionState::Closed, sent) is Closed,
{
}

} // verus!
