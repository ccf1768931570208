//! The messages on a control connection.

use uuid::Uuid;
use vstd::prelude::*;

verus! {

/// `uuid::Uuid`, the identifier of a forwarded connection. Nothing is claimed of
/// it: it is only passed on.
#[verifier::external_type_specification]
#[verifier::external_body]
pub struct ExUuid(uuid::Uuid);

/// A message that the client sends.
#[derive(Debug, PartialEq, Eq)]
pub enum ClientMessage {
    /// Asks for a public port; zero leaves the choice to the server.
    Hello(u16),
    /// Accepts the forwarded connection with this identifier.
    Accept(Uuid),
}

/// A message that the server sends.
#[derive(Debug, PartialEq, Eq)]
pub enum ServerMessage {
    /// The public port that was granted.
    Hello(u16),
    /// A demand for authentication.
    Challenge,
    /// A sign of life.
    Heartbeat,
    /// A connection to forward.
    Connection(Uuid),
    /// The server gives up, for this reason.
    Error(String),
}

} // verus!
