//! Opening a control connection.

use crate::client::Client;
use crate::client::ClientView;
use crate::error::ClientError;
use crate::message::ClientMessage;
use crate::message::ServerMessage;
use crate::text::text_view;
use vstd::prelude::*;

verus! {

/// How far a control connection has come.
#[derive(Debug, Clone, Copy, PartialEq, Eq, Structural)]
pub enum OpeningStage {
    /// The server is to be connected to.
    Connecting,
    /// The secret is to be proved.
    Authenticating,
    /// The greeting is to be sent.
    Greeting,
    /// The answer to the greeting is to be received.
    Awaiting,
}

/// What an `Opening` stands for.
pub struct OpeningView {
    pub local_host: Seq<char>,
    pub local_port: u16,
    pub to: Seq<char>,
    pub port: u16,
    pub secret: Option<Seq<char>>,
    pub stage: OpeningStage,
}

/// An action on a control connection that is being opened.
#[derive(Debug, PartialEq, Eq)]
pub enum OpeningAction<'a> {
    /// Connect to the control port of this host.
    Connect(&'a str),
    /// Prove this secret over the connection.
    Authenticate(&'a str),
    /// Send this message.
    Send(ClientMessage),
    /// Receive one message, or the end of the stream.
    Receive,
}

/// What an `OpeningAction` stands for.
pub enum OpeningActionView {
    Connect(Seq<char>),
    Authenticate(Seq<char>),
    Send(ClientMessage),
    Receive,
}

impl<'a> View for OpeningAction<'a> {
    type V = OpeningActionView;

    open spec fn view(&self) -> OpeningActionView {
        match *self {
            OpeningAction::Connect(host) => OpeningActionView::Connect(host@),
            OpeningAction::Authenticate(secret) => OpeningActionView::Authenticate(secret@),
            OpeningAction::Send(message) => OpeningActionView::Send(message),
            OpeningAction::Receive => OpeningActionView::Receive,
        }
    }
}

/// What became of an opening.
#[derive(Debug)]
pub enum OpeningStep<E> {
    /// There is more to do.
    Continue(Opening),
    /// The server accepted the client.
    Opened(Client),
    /// The connection is given up.
    Failed(ClientError<E>),
}

/// What an `OpeningStep` stands for.
pub enum OpeningStepView<E> {
    Continue(OpeningView),
    Opened(ClientView),
    Failed(ClientError<E>),
}

impl<E> View for OpeningStep<E> {
    type V = OpeningStepView<E>;

    open spec fn view(&self) -> OpeningStepView<E> {
        match *self {
            OpeningStep::Continue(opening) => OpeningStepView::Continue(opening@),
            OpeningStep::Opened(client) => OpeningStepView::Opened(client@),
            OpeningStep::Failed(error) => OpeningStepView::Failed(error),
        }
    }
}

/// The port that the server grants by its answer to the greeting, or why it
/// grants none.
pub open spec fn granted_port<E>(reply: Option<ServerMessage>) -> Result<u16, ClientError<E>> {
    match reply {
        Some(ServerMessage::Hello(port)) => Ok(port),
        Some(ServerMessage::Error(reason)) => Err(ClientError::Refused(reason)),
        Some(ServerMessage::Challenge) => Err(ClientError::AuthenticationRequired),
        Some(_) => Err(ClientError::UnexpectedMessage),
        None => Err(ClientError::UnexpectedEof),
    }
}

/// Reads the answer to the greeting.
pub fn read_reply<E>(reply: Option<ServerMessage>) -> (port: Result<u16, ClientError<E>>)
    ensures
        port == granted_port::<E>(reply),
{
    match reply {
        Some(ServerMessage::Hello(port)) => Ok(port),
        Some(ServerMessage::Error(reason)) => Err(ClientError::Refused(reason)),
        Some(ServerMessage::Challenge) => Err(ClientError::AuthenticationRequired),
        Some(_) => Err(ClientError::UnexpectedMessage),
        None => Err(ClientError::UnexpectedEof),
    }
}

impl OpeningView {
    /// Nothing done yet.
    pub open spec fn start(
        local_host: Seq<char>,
        local_port: u16,
        to: Seq<char>,
        port: u16,
        secret: Option<Seq<char>>,
    ) -> OpeningView {
        OpeningView {
            local_host,
            local_port,
            to,
            port,
            secret,
            stage: OpeningStage::Connecting,
        }
    }

    /// A secret is only proved where there is one.
    pub open spec fn wf(self) -> bool {
        self.stage == OpeningStage::Authenticating ==> self.secret is Some
    }

    /// All actions from the beginning, in order.
    pub open spec fn plan(self) -> Seq<OpeningActionView> {
        let proving = match self.secret {
            Some(secret) => seq![OpeningActionView::Authenticate(secret)],
            None => seq![],
        };
        seq![OpeningActionView::Connect(self.to)] + proving + seq![
            OpeningActionView::Send(ClientMessage::Hello(self.port)),
            OpeningActionView::Receive,
        ]
    }

    /// How many actions of the plan have been carried out.
    pub open spec fn position(self) -> nat {
        let proving: nat = if self.secret is Some {
            1
        } else {
            0
        };
        match self.stage {
            OpeningStage::Connecting => 0,
            OpeningStage::Authenticating => 1,
            OpeningStage::Greeting => 1 + proving,
            OpeningStage::Awaiting => 2 + proving,
        }
    }

    /// The client that results where the server grants `remote_port`.
    pub open spec fn client(self, remote_port: u16) -> ClientView {
        ClientView {
            to: self.to,
            local_host: self.local_host,
            local_port: self.local_port,
            remote_port,
            secret: self.secret,
        }
    }

    /// The same opening with one action more carried out, if it is not the last.
    pub open spec fn advanced(self) -> OpeningView {
        let stage = match self.stage {
            OpeningStage::Connecting => if self.secret is Some {
                OpeningStage::Authenticating
            } else {
                OpeningStage::Greeting
            },
            OpeningStage::Authenticating => OpeningStage::Greeting,
            OpeningStage::Greeting => OpeningStage::Awaiting,
            OpeningStage::Awaiting => OpeningStage::Awaiting,
        };
        OpeningView { stage, ..self }
    }

    /// What follows from the outcome of the action at hand. A failure of any
    /// action ends the opening; what the last one received decides it.
    pub open spec fn step<E>(
        self,
        outcome: Result<Option<ServerMessage>, E>,
    ) -> OpeningStepView<E> {
        match outcome {
            Err(error) => OpeningStepView::Failed(ClientError::Action(error)),
            Ok(reply) => if self.stage != OpeningStage::Awaiting {
                OpeningStepView::Continue(self.advanced())
            } else {
                match granted_port::<E>(reply) {
                    Ok(port) => OpeningStepView::Opened(self.client(port)),
                    Err(error) => OpeningStepView::Failed(error),
                }
            },
        }
    }

    /// What follows from the outcomes of one action after the other.
    pub open spec fn run<E>(
        self,
        outcomes: Seq<Result<Option<ServerMessage>, E>>,
    ) -> OpeningStepView<E>
        decreases outcomes.len(),
    {
        if outcomes.len() == 0 {
            OpeningStepView::Continue(self)
        } else {
            match self.step(outcomes[0]) {
                OpeningStepView::Continue(next) => next.run(outcomes.drop_first()),
                end => end,
            }
        }
    }
}

/// A control connection that is being opened.
#[derive(Debug)]
pub struct Opening {
    local_host: String,
    local_port: u16,
    to: String,
    port: u16,
    secret: Option<String>,
    stage: OpeningStage,
}

impl View for Opening {
    type V = OpeningView;

    closed spec fn view(&self) -> OpeningView {
        OpeningView {
            local_host: self.local_host@,
            local_port: self.local_port,
            to: self.to@,
            port: self.port,
            secret: text_view(self.secret),
            stage: self.stage,
        }
    }
}

impl Opening {
    #[verifier::type_invariant]
    spec fn wf(self) -> bool {
        self@.wf()
    }

    /// An opening with nothing done yet.
    pub(crate) fn start(
        local_host: String,
        local_port: u16,
        to: String,
        port: u16,
        secret: Option<String>,
    ) -> (opening: Opening)
        ensures
            opening@ == OpeningView::start(local_host@, local_port, to@, port, text_view(secret)),
    {
        Opening { local_host, local_port, to, port, secret, stage: OpeningStage::Connecting }
    }

    /// The action to carry out now.
    pub fn action(&self) -> (action: OpeningAction<'_>)
        ensures
            self@.position() < self@.plan().len(),
            action@ == self@.plan()[self@.position() as int],
    {
        proof {
            use_type_invariant(self);
        }
        match self.stage {
            OpeningStage::Connecting => OpeningAction::Connect(self.to.as_str()),
            OpeningStage::Authenticating => match &self.secret {
                Some(secret) => OpeningAction::Authenticate(secret.as_str()),
                None => OpeningAction::Send(ClientMessage::Hello(self.port)),
            },
            OpeningStage::Greeting => OpeningAction::Send(ClientMessage::Hello(self.port)),
            OpeningStage::Awaiting => OpeningAction::Receive,
        }
    }

    /// Takes the outcome of the action at hand: what a `Receive` received, and
    /// whatever else another action returned, which is not looked at.
    pub fn advance<E>(self, outcome: Result<Option<ServerMessage>, E>) -> (step: OpeningStep<E>)
        ensures
            step@ == self@.step(outcome),
    {
        proof {
            use_type_invariant(&self);
        }
        let reply = match outcome {
            Ok(reply) => reply,
            Err(error) => {
                return OpeningStep::Failed(ClientError::Action(error));
            },
        };
        let stage = match self.stage {
            OpeningStage::Connecting => if self.secret.is_some() {
                OpeningStage::Authenticating
            } else {
                OpeningStage::Greeting
            },
            OpeningStage::Authenticating => OpeningStage::Greeting,
            OpeningStage::Greeting => OpeningStage::Awaiting,
            OpeningStage::Awaiting => {
                return match read_reply(reply) {
                    Ok(port) => OpeningStep::Opened(
                        Client::assemble(
                            self.to,
                            self.local_host,
                            self.local_port,
                            port,
                            self.secret,
                        ),
                    ),
                    Err(error) => OpeningStep::Failed(error),
                };
            },
        };
        OpeningStep::Continue(
            Opening {
                local_host: self.local_host,
                local_port: self.local_port,
                to: self.to,
                port: self.port,
                secret: self.secret,
                stage,
            },
        )
    }
}

/// The plan is followed in order: while no more outcomes have come than the plan
/// has actions, and all of them are good, the action at hand is the one of the
/// plan at that position, and nothing else about the opening has changed.
pub proof fn law_follows_plan<E>(
    opening: OpeningView,
    outcomes: Seq<Result<Option<ServerMessage>, E>>,
)
    requires
        opening.wf(),
        opening.position() + outcomes.len() < opening.plan().len(),
        forall|i: int| 0 <= i < outcomes.len() ==> #[trigger] outcomes[i] is Ok,
    ensures
        opening.run(outcomes) matches OpeningStepView::Continue(now) && {
            &&& now.wf()
            &&& now.position() == opening.position() + outcomes.len()
            &&& now == (OpeningView { stage: now.stage, ..opening })
            &&& now.plan() == opening.plan()
        },
    decreases outcomes.len(),
{
    if outcomes.len() > 0 {
        assert(outcomes[0] is Ok);
        let next = opening.advanced();
        assert(next.plan() == opening.plan());
        assert forall|i: int| 0 <= i < outcomes.len() - 1 implies #[trigger] outcomes.drop_first()[i] is Ok by {
            assert(outcomes[i + 1] is Ok);
        }
        law_follows_plan(next, outcomes.drop_first());
    }
}

/// The first action that fails ends the opening, with the error of that action.
pub proof fn law_fails_with_action<E>(
    opening: OpeningView,
    outcomes: Seq<Result<Option<ServerMessage>, E>>,
    failed: nat,
)
    requires
        opening.wf(),
        failed < outcomes.len(),
        opening.position() + failed < opening.plan().len(),
        forall|i: int| 0 <= i < failed ==> #[trigger] outcomes[i] is Ok,
        outcomes[failed as int] is Err,
    ensures
        opening.run(outcomes) == OpeningStepView::Failed::<E>(
            ClientError::Action(outcomes[failed as int]->Err_0),
        ),
    decreases failed,
{
    if failed > 0 {
        let rest = outcomes.drop_first();
        let before = (failed - 1) as nat;
        assert(outcomes[0] is Ok);
        assert(opening.advanced().plan() == opening.plan());
        assert(rest[before as int] == outcomes[failed as int]);
        assert forall|i: int| 0 <= i < before implies #[trigger] rest[i] is Ok by {
            assert(outcomes[i + 1] is Ok);
        }
        law_fails_with_action(opening.advanced(), rest, before);
    }
}

/// Where every action of the plan goes well, the message that the last one
/// received decides: the client opens exactly where that is a hello, on the port
/// that the hello grants and with everything else as it was asked for.
pub proof fn law_reply_decides<E>(
    opening: OpeningView,
    outcomes: Seq<Result<Option<ServerMessage>, E>>,
)
    requires
        opening.wf(),
        opening.position() + outcomes.len() == opening.plan().len(),
        forall|i: int| 0 <= i < outcomes.len() ==> #[trigger] outcomes[i] is Ok,
    ensures
        opening.run(outcomes) == match granted_port::<E>(outcomes.last()->Ok_0) {
            Ok(port) => OpeningStepView::Opened::<E>(opening.client(port)),
            Err(error) => OpeningStepView::Failed::<E>(error),
        },
        opening.run(outcomes) is Opened <==> (outcomes.last()->Ok_0 matches Some(reply)
            && reply is Hello),
    decreases outcomes.len(),
{
    assert(outcomes[0] is Ok);
    let rest = outcomes.drop_first();
    if opening.stage != OpeningStage::Awaiting {
        assert(opening.advanced().plan() == opening.plan());
        assert forall|i: int| 0 <= i < rest.len() implies #[trigger] rest[i] is Ok by {
            assert(outcomes[i + 1] is Ok);
        }
        law_reply_decides(opening.advanced(), rest);
    } else {
        assert(outcomes.last() == outcomes[0]);
    }
}

/// The secret is proved where there is one, before the greeting, and nothing is
/// proved where there is none. The greeting asks for the port that was wanted.
pub proof fn law_plan(
    local_host: Seq<char>,
    local_port: u16,
    to: Seq<char>,
    port: u16,
    secret: Option<Seq<char>>,
)
    ensures
        ({
            let plan = OpeningView::start(local_host, local_port, to, port, secret).plan();
            let hello = OpeningActionView::Send(ClientMessage::Hello(port));
            &&& plan[0] == OpeningActionView::Connect(to)
            &&& secret matches Some(s) ==> {
                &&& plan.len() == 4
                &&& plan[1] == OpeningActionView::Authenticate(s)
            }
            &&& secret is None ==> {
                &&& plan.len() == 3
                &&& forall|i: int| 0 <= i < plan.len() ==> !(#[trigger] plan[i] is Authenticate)
            }
            &&& plan[plan.len() - 2] == hello
            &&& plan.last() == OpeningActionView::Receive
        }),
{
}

/// An opening starts with what it was given, each part as it was, and with no
/// action of its plan carried out.
pub proof fn law_starts_as_asked(
    local_host: Seq<char>,
    local_port: u16,
    to: Seq<char>,
    port: u16,
    secret: Option<Seq<char>>,
)
    ensures
        ({
            let start = OpeningView::start(local_host, local_port, to, port, secret);
            &&& start.local_host == local_host
            &&& start.local_port == local_port
            &&& start.to == to
            &&& start.port == port
            &&& start.secret == secret
            &&& start.position() == 0
            &&& start.wf()
        }),
{
}

/// However the actions go, a client that comes of them has the local service, the
/// server and the secret that were asked for, and the port of the hello that the
/// server answered the greeting with: the outcome of the last action, the fourth
/// where there is a secret and the third where there is none.
pub proof fn law_opened_as_asked<E>(
    local_host: Seq<char>,
    local_port: u16,
    to: Seq<char>,
    port: u16,
    secret: Option<Seq<char>>,
    outcomes: Seq<Result<Option<ServerMessage>, E>>,
)
    ensures
        ({
            let start = OpeningView::start(local_host, local_port, to, port, secret);
            let last: int = if secret is Some {
                3
            } else {
                2
            };
            start.run(outcomes) matches OpeningStepView::Opened(client) ==> {
                &&& client.local_host == local_host
                &&& client.local_port == local_port
                &&& client.to == to
                &&& client.secret == secret
                &&& last < outcomes.len()
                &&& outcomes[last] matches Ok(Some(ServerMessage::Hello(granted)))
                    && client.remote_port == granted
            }
        }),
{
    lemma_opened(OpeningView::start(local_host, local_port, to, port, secret), outcomes);
}

/// What a client that comes of an opening has, wherever the opening stands.
proof fn lemma_opened<E>(
    opening: OpeningView,
    outcomes: Seq<Result<Option<ServerMessage>, E>>,
)
    requires
        opening.wf(),
    ensures
        ({
            let last = opening.plan().len() - opening.position() - 1;
            opening.run(outcomes) matches OpeningStepView::Opened(client) ==> {
                &&& client.local_host == opening.local_host
                &&& client.local_port == opening.local_port
                &&& client.to == opening.to
                &&& client.secret == opening.secret
                &&& 0 <= last < outcomes.len()
                &&& outcomes[last] matches Ok(Some(ServerMessage::Hello(granted)))
                    && client.remote_port == granted
            }
        }),
    decreases outcomes.len(),
{
    if outcomes.len() > 0 && opening.stage != OpeningStage::Awaiting && outcomes[0] is Ok {
        let rest = outcomes.drop_first();
        lemma_opened(opening.advanced(), rest);
        let last = opening.plan().len() - opening.position() - 1;
        if opening.run(outcomes) is Opened {
            assert(rest[last - 1] == outcomes[last]);
        }
    }
}

/// The answer to the greeting is read as the server means it: a hello grants its
/// port, an error refuses in its own words, and whatever else comes, or the end
/// of the stream, grants nothing.
pub proof fn law_replies<E>(port: u16, reason: String, reply: ServerMessage)
    ensures
        granted_port::<E>(Some(ServerMessage::Hello(port))) == Ok::<u16, ClientError<E>>(port),
        granted_port::<E>(Some(ServerMessage::Error(reason))) == Err::<u16, ClientError<E>>(
            ClientError::Refused(reason),
        ),
        granted_port::<E>(Some(ServerMessage::Challenge)) == Err::<u16, ClientError<E>>(
            ClientError::AuthenticationRequired,
        ),
        reply is Heartbeat || reply is Connection ==> granted_port::<E>(Some(reply)) == Err::<
            u16,
            ClientError<E>,
        >(ClientError::UnexpectedMessage),
        granted_port::<E>(None) == Err::<u16, ClientError<E>>(ClientError::UnexpectedEof),
{
}

/// An action and a step are seen as what they are: a host and a secret with all
/// their characters, a message, a client and an error as they stand.
pub proof fn law_seen_whole<E>(
    text: &str,
    message: ClientMessage,
    opening: Opening,
    client: Client,
    error: ClientError<E>,
)
    ensures
        OpeningAction::Connect(text)@ == OpeningActionView::Connect(text@),
        OpeningAction::Authenticate(text)@ == OpeningActionView::Authenticate(text@),
        OpeningAction::Send(message)@ == OpeningActionView::Send(message),
        OpeningAction::Receive@ == OpeningActionView::Receive,
        OpeningStep::<E>::Continue(opening)@ == OpeningStepView::<E>::Continue(opening@),
        OpeningStep::<E>::Opened(client)@ == OpeningStepView::<E>::Opened(client@),
        OpeningStep::Failed(error)@ == OpeningStepView::Failed(error),
{
}

} // verus!
