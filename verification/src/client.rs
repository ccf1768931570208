//! The client and the procedures that it starts.

use crate::forward::Forwarding;
use crate::forward::ForwardingView;
use crate::listen::Listening;
use crate::listen::ListeningView;
use crate::opening::Opening;
use crate::opening::OpeningView;
use crate::retry::Retrying;
use crate::retry::RetryingView;
use crate::span::Span;
use crate::text::borrow;
use crate::text::own;
use crate::text::str_view;
use crate::text::text_view;
use uuid::Uuid;
use vstd::prelude::*;

verus! {

/// What a `Client` stands for.
pub struct ClientView {
    pub to: Seq<char>,
    pub local_host: Seq<char>,
    pub local_port: u16,
    pub remote_port: u16,
    pub secret: Option<Seq<char>>,
}

/// A client that the server has accepted.
#[derive(Debug)]
pub struct Client {
    /// Destination address of the server.
    pub(crate) to: String,
    /// Local host that is forwarded.
    pub(crate) local_host: String,
    /// Local port that is forwarded.
    pub(crate) local_port: u16,
    /// Port that is publicly available on the remote.
    pub(crate) remote_port: u16,
    /// Optional secret used to authenticate clients.
    pub(crate) secret: Option<String>,
}

impl View for Client {
    type V = ClientView;

    closed spec fn view(&self) -> ClientView {
        ClientView {
            to: self.to@,
            local_host: self.local_host@,
            local_port: self.local_port,
            remote_port: self.remote_port,
            secret: text_view(self.secret),
        }
    }
}

impl Client {
    /// The fields, as the view shows them.
    pub(crate) proof fn lemma_view(&self)
        ensures
            self@ == (ClientView {
                to: self.to@,
                local_host: self.local_host@,
                local_port: self.local_port,
                remote_port: self.remote_port,
                secret: text_view(self.secret),
            }),
    {
    }

    /// A client with these parts.
    pub(crate) fn assemble(
        to: String,
        local_host: String,
        local_port: u16,
        remote_port: u16,
        secret: Option<String>,
    ) -> (client: Client)
        ensures
            client@ == (ClientView {
                to: to@,
                local_host: local_host@,
                local_port,
                remote_port,
                secret: text_view(secret),
            }),
    {
        Client { to, local_host, local_port, remote_port, secret }
    }

    /// Starts to open a control connection to the server `to`, asking it to make
    /// `port` public (zero for any) and to forward it to `local_port` on
    /// `local_host`.
    pub fn new(
        local_host: &str,
        local_port: u16,
        to: &str,
        port: u16,
        secret: Option<&str>,
    ) -> (opening: Opening)
        ensures
            opening@ == OpeningView::start(local_host@, local_port, to@, port, str_view(secret)),
    {
        Opening::start(
            local_host.to_owned(),
            local_port,
            to.to_owned(),
            port,
            own(secret),
        )
    }

    /// Starts to open a control connection as `new` does, again and again until
    /// it succeeds, but no more than `max_retries` times unless that is zero.
    /// Attempts are separated by delays that start at `retry_delay_ms` and double
    /// each time, none of them longer than `max_retry_delay_ms`.
    pub fn new_with_retry(
        local_host: &str,
        local_port: u16,
        to: &str,
        port: u16,
        secret: Option<&str>,
        max_retries: u32,
        retry_delay_ms: u64,
        max_retry_delay_ms: u64,
    ) -> (retrying: Retrying)
        ensures
            retrying@ == RetryingView::start(
                OpeningView::start(local_host@, local_port, to@, port, str_view(secret)),
                max_retries,
                retry_delay_ms as nat,
                max_retry_delay_ms as nat,
            ),
    {
        Retrying::start(
            local_host.to_owned(),
            local_port,
            to.to_owned(),
            port,
            own(secret),
            max_retries,
            retry_delay_ms,
            max_retry_delay_ms,
        )
    }

    /// Returns the port publicly available on the remote.
    pub fn remote_port(&self) -> (port: u16)
        ensures
            port == self@.remote_port,
    {
        self.remote_port
    }

    /// Starts to listen to the server at the moment `now`. A client listens once:
    /// this uses it up.
    pub fn listen(self, now: Span) -> (listening: Listening)
        ensures
            listening@ == ListeningView::start(self@, now@),
    {
        Listening::start(self, now)
    }

    /// Starts to forward the connection that the server announced as `id`.
    pub fn handle_connection(&self, id: Uuid) -> (forwarding: Forwarding)
        ensures
            forwarding@ == ForwardingView::start(self@, id),
    {
        Forwarding::start(self.duplicate(), id)
    }

    /// A client with the same parts.
    fn duplicate(&self) -> (client: Client)
        ensures
            client@ == self@,
    {
        Client {
            to: self.to.clone(),
            local_host: self.local_host.clone(),
            local_port: self.local_port,
            remote_port: self.remote_port,
            secret: own(borrow(&self.secret)),
        }
    }
}

} // verus!
