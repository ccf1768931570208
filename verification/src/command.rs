//! The two commands of the program.

use crate::opening::OpeningView;
use crate::reconnect::Reconnecting;
use crate::reconnect::ReconnectingView;
use crate::reconnect::run_client_with_reconnect;
use crate::text::borrow;
use crate::text::text_view;
use vstd::prelude::*;

verus! {

/// The local host to expose where none is given.
pub const DEFAULT_LOCAL_HOST: &'static str = "localhost";

/// The port to ask for where none is given: any.
pub const DEFAULT_PORT: u16 = 0;

/// The number of reconnection attempts where none is given: no limit.
pub const DEFAULT_MAX_RETRIES: u32 = 0;

/// The initial reconnection delay where none is given.
pub const DEFAULT_RETRY_DELAY_MS: u64 = 1000;

/// The maximum reconnection delay where none is given.
pub const DEFAULT_MAX_RETRY_DELAY_MS: u64 = 30000;

/// The minimum accepted port number where none is given.
pub const DEFAULT_MIN_PORT: u16 = 1024;

/// The maximum accepted port number where none is given.
pub const DEFAULT_MAX_PORT: u16 = 65535;

/// What the program is asked to do.
#[derive(Debug)]
pub enum Command {
    /// Starts a local proxy to the remote server.
    Local {
        /// The local port to expose.
        local_port: u16,
        /// The local host to expose.
        local_host: String,
        /// Address of the remote server to expose local ports to.
        to: String,
        /// Optional port on the remote server to select.
        port: u16,
        /// Optional secret for authentication.
        secret: Option<String>,
        /// Maximum number of reconnection attempts (0 = infinite).
        max_retries: u32,
        /// Initial reconnection delay in milliseconds (doubles on each retry).
        retry_delay_ms: u64,
        /// Maximum reconnection delay in milliseconds.
        max_retry_delay_ms: u64,
    },
    /// Runs the remote proxy server.
    Server {
        /// Minimum accepted TCP port number.
        min_port: u16,
        /// Maximum accepted TCP port number.
        max_port: u16,
        /// Optional secret for authentication.
        secret: Option<String>,
    },
}

/// A command that makes no sense.
#[derive(Debug, PartialEq, Eq)]
pub enum UsageError {
    /// No port lies between the minimum and the maximum.
    EmptyPortRange,
}

impl UsageError {
    /// The text of the error.
    pub fn message(&self) -> (message: String)
        ensures
            message@ == "port range is empty"@,
    {
        "port range is empty".to_owned()
    }
}

/// What a command comes down to.
#[derive(Debug)]
pub enum Task {
    /// Keep a client connected.
    Connect(Reconnecting),
    /// Serve clients, with public ports from `min_port` to `max_port`, both
    /// included.
    Serve { min_port: u16, max_port: u16, secret: Option<String> },
    /// Refuse the command.
    Refuse(UsageError),
}

/// Turns a command into what is to be done.
pub fn run(command: Command) -> (task: Task)
    ensures
        match command {
            Command::Local {
                local_port,
                local_host,
                to,
                port,
                secret,
                max_retries,
                retry_delay_ms,
                max_retry_delay_ms,
            } => task matches Task::Connect(reconnecting) && reconnecting@
                == ReconnectingView::start(
                OpeningView::start(local_host@, local_port, to@, port, text_view(secret)),
                max_retries,
                retry_delay_ms as nat,
                max_retry_delay_ms as nat,
            ),
            Command::Server { min_port, max_port, secret } => if min_port <= max_port {
                task == (Task::Serve { min_port, max_port, secret })
            } else {
                task == Task::Refuse(UsageError::EmptyPortRange)
            },
        },
{
    match command {
        Command::Local {
            local_port,
            local_host,
            to,
            port,
            secret,
            max_retries,
            retry_delay_ms,
            max_retry_delay_ms,
        } => Task::Connect(
            run_client_with_reconnect(
                local_host.as_str(),
                local_port,
                to.as_str(),
                port,
                borrow(&secret),
                max_retries,
                retry_delay_ms,
                max_retry_delay_ms,
            ),
        ),
        Command::Server { min_port, max_port, secret } => {
            if min_port > max_port {
                Task::Refuse(UsageError::EmptyPortRange)
            } else {
                Task::Serve { min_port, max_port, secret }
            }
        },
    }
}

} // verus!
