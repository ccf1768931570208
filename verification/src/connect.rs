//! Connecting to a host in a limited time.

use crate::text::decimal;
use crate::text::decimal_text;
use crate::text::read_decimal;
use vstd::prelude::*;
use vstd::string::StringExecFns;

verus! {

/// Why a connection could not be made.
#[derive(Debug, PartialEq, Eq)]
pub enum ConnectCause<E> {
    /// It took too long.
    TimedOut,
    /// It was refused or broke down.
    Failed(E),
}

/// A connection that could not be made.
#[derive(Debug, PartialEq, Eq)]
pub struct ConnectError<E> {
    /// Which connection it was.
    pub context: String,
    /// Why it could not be made.
    pub cause: ConnectCause<E>,
}

/// The text that says which connection could not be made.
pub open spec fn connect_context(to: Seq<char>, port: u16) -> Seq<char> {
    "could not connect to "@ + to + ":"@ + decimal(port as nat)
}

/// Takes the outcome of a connection to `to` and `port` in a limited time, which
/// is none where the time ran out: the connection itself, or an error that says
/// which connection could not be made and why.
pub fn connect_with_timeout<S, E>(
    to: &str,
    port: u16,
    outcome: Option<Result<S, E>>,
) -> (connection: Result<S, ConnectError<E>>)
    ensures
        match outcome {
            Some(Ok(stream)) => connection == Ok::<S, ConnectError<E>>(stream),
            Some(Err(error)) => connection matches Err(e) && e.cause == ConnectCause::Failed(error)
                && e.context@ == connect_context(to@, port),
            None => connection matches Err(e) && e.cause == ConnectCause::TimedOut::<E>
                && e.context@ == connect_context(to@, port),
        },
{
    let cause = match outcome {
        Some(Ok(stream)) => {
            return Ok(stream);
        },
        Some(Err(error)) => ConnectCause::Failed(error),
        None => ConnectCause::TimedOut,
    };
    let context = "could not connect to ".to_owned().concat(to).concat(":").concat(
        decimal_text(port as u32).as_str(),
    );
    Err(ConnectError { context, cause })
}

/// The context of a failed connection names the host as it was given, and after a
/// colon the port in decimal.
pub proof fn law_context(to: Seq<char>, port: u16)
    ensures
        exists|digits: Seq<char>|
            {
                &&& #[trigger] read_decimal(digits) == port
                &&& digits == decimal(port as nat)
                &&& connect_context(to, port) == "could not connect to "@ + to + ":"@ + digits
            },
{
    crate::text::law_decimal_reads_back(port as nat);
    assert(read_decimal(decimal(port as nat)) == port);
}

} // verus!
