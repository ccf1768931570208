//! Why a client ends.

use crate::span::Span;
use crate::span::duration_text;
use crate::span::span_text;
use crate::text::decimal;
use crate::text::decimal_text;
use crate::text::read_decimal;
use crate::text::text_view;
use vstd::prelude::*;
use vstd::string::StringExecFns;

verus! {

/// What ends a client. `E` is the error of an action that the caller carried
/// out.
#[derive(Debug, PartialEq, Eq)]
pub enum ClientError<E> {
    /// An action failed.
    Action(E),
    /// The server refused the greeting.
    Refused(String),
    /// The server answered the greeting with a demand for authentication.
    AuthenticationRequired,
    /// The server answered the greeting with another message.
    UnexpectedMessage,
    /// The server closed the connection before it answered the greeting.
    UnexpectedEof,
    /// One attempt to connect more than this number was asked for.
    AttemptsExceeded(u32),
    /// No heartbeat came for this long.
    HeartbeatLost(Span),
    /// The server reported an error while the client was listening.
    Reported(String),
    /// The connection was lost for the last time that is allowed.
    ReconnectsSpent,
}

/// The text of an error; an action's error has its own.
pub open spec fn error_text<E>(error: ClientError<E>) -> Option<Seq<char>> {
    match error {
        ClientError::Action(_) => None,
        ClientError::Refused(reason) => Some("server error: "@ + reason@),
        ClientError::AuthenticationRequired => Some(
            "server requires authentication, but no client secret was provided"@,
        ),
        ClientError::UnexpectedMessage => Some("unexpected initial non-hello message"@),
        ClientError::UnexpectedEof => Some("unexpected EOF"@),
        ClientError::AttemptsExceeded(limit) => Some(
            "Maximum connection attempts ("@ + decimal(limit as nat) + ") reached"@,
        ),
        ClientError::HeartbeatLost(elapsed) => Some(
            "Connection lost: no heartbeat received for "@ + span_text(elapsed@),
        ),
        ClientError::Reported(reason) => Some("Server error: "@ + reason@),
        ClientError::ReconnectsSpent => Some("Maximum reconnection attempts reached"@),
    }
}

impl<E> ClientError<E> {
    /// The text of the error, or none for the error of an action, which the
    /// caller can put into words itself.
    pub fn message(&self) -> (message: Option<String>)
        ensures
            text_view(message) == error_text(*self),
    {
        match self {
            ClientError::Action(_) => None,
            ClientError::Refused(reason) => Some("server error: ".to_owned().concat(
                reason.as_str(),
            )),
            ClientError::AuthenticationRequired => Some(
                "server requires authentication, but no client secret was provided".to_owned(),
            ),
            ClientError::UnexpectedMessage => Some(
                "unexpected initial non-hello message".to_owned(),
            ),
            ClientError::UnexpectedEof => Some("unexpected EOF".to_owned()),
            ClientError::AttemptsExceeded(limit) => Some(
                "Maximum connection attempts (".to_owned().concat(
                    decimal_text(*limit).as_str(),
                ).concat(") reached"),
            ),
            ClientError::HeartbeatLost(elapsed) => Some(
                "Connection lost: no heartbeat received for ".to_owned().concat(
                    elapsed.text().as_str(),
                ),
            ),
            ClientError::Reported(reason) => Some("Server error: ".to_owned().concat(
                reason.as_str(),
            )),
            ClientError::ReconnectsSpent => Some(
                "Maximum reconnection attempts reached".to_owned(),
            ),
        }
    }
}

/// The words of each error: those of the server in full, the number of attempts
/// in decimal, and the silence to the nanosecond.
pub proof fn law_words<E>(
    action: E,
    reason: String,
    limit: u32,
    silence: Span,
    secs: u64,
    nanos: u32,
)
    requires
        nanos < 1_000_000_000,
        silence@ == secs * 1_000_000_000 + nanos,
    ensures
        error_text(ClientError::Action(action)) is None,
        error_text(ClientError::<E>::Refused(reason)) == Some("server error: "@ + reason@),
        error_text(ClientError::<E>::Reported(reason)) == Some("Server error: "@ + reason@),
        error_text(ClientError::<E>::AuthenticationRequired) == Some(
            "server requires authentication, but no client secret was provided"@,
        ),
        error_text(ClientError::<E>::UnexpectedMessage) == Some(
            "unexpected initial non-hello message"@,
        ),
        error_text(ClientError::<E>::UnexpectedEof) == Some("unexpected EOF"@),
        error_text(ClientError::<E>::ReconnectsSpent) == Some(
            "Maximum reconnection attempts reached"@,
        ),
        error_text(ClientError::<E>::AttemptsExceeded(limit)) matches Some(text) && exists|
            digits: Seq<char>,
        |
            {
                &&& #[trigger] read_decimal(digits) == limit
                &&& text == "Maximum connection attempts ("@ + digits + ") reached"@
            },
        error_text(ClientError::<E>::HeartbeatLost(silence)) == Some(
            "Connection lost: no heartbeat received for "@ + duration_text(secs, nanos),
        ),
{
    crate::text::law_decimal_reads_back(limit as nat);
    crate::span::law_parts(secs, nanos);
    assert(read_decimal(decimal(limit as nat)) == limit);
}

} // verus!
