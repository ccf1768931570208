//! Forwarding one connection.

use crate::client::Client;
use crate::client::ClientView;
use crate::message::ClientMessage;
use crate::text::text_view;
use uuid::Uuid;
use vstd::prelude::*;

verus! {

/// How far a forwarded connection has come.
#[derive(Debug)]
pub enum ForwardStage {
    /// The server is to be connected to.
    Connecting,
    /// The secret is to be proved.
    Authenticating,
    /// The connection is to be accepted.
    Accepting,
    /// The local service is to be connected to.
    ConnectingLocal,
    /// The bytes that were received early are to be taken over.
    Draining,
    /// These bytes are to be written to the local service.
    Writing(Vec<u8>),
    /// The two connections are to be joined.
    Proxying,
}

/// What a `ForwardStage` stands for.
pub enum ForwardStageView {
    Connecting,
    Authenticating,
    Accepting,
    ConnectingLocal,
    Draining,
    Writing(Seq<u8>),
    Proxying,
}

impl View for ForwardStage {
    type V = ForwardStageView;

    open spec fn view(&self) -> ForwardStageView {
        match *self {
            ForwardStage::Connecting => ForwardStageView::Connecting,
            ForwardStage::Authenticating => ForwardStageView::Authenticating,
            ForwardStage::Accepting => ForwardStageView::Accepting,
            ForwardStage::ConnectingLocal => ForwardStageView::ConnectingLocal,
            ForwardStage::Draining => ForwardStageView::Draining,
            ForwardStage::Writing(bytes) => ForwardStageView::Writing(bytes@),
            ForwardStage::Proxying => ForwardStageView::Proxying,
        }
    }
}

/// An action on a connection that is being forwarded.
#[derive(Debug, PartialEq, Eq)]
pub enum ForwardAction<'a> {
    /// Connect to the control port of this host.
    Connect(&'a str),
    /// Prove this secret over that connection.
    Authenticate(&'a str),
    /// Send this message over it.
    Send(ClientMessage),
    /// Connect to this host and port.
    ConnectLocal(&'a str, u16),
    /// Take the bytes that came over the first connection after the messages.
    TakeBuffered,
    /// Write all these bytes to the second connection.
    WriteLocal(&'a [u8]),
    /// Copy between the two connections in both directions.
    Proxy,
}

/// What a `ForwardAction` stands for.
pub enum ForwardActionView {
    Connect(Seq<char>),
    Authenticate(Seq<char>),
    Send(ClientMessage),
    ConnectLocal(Seq<char>, u16),
    TakeBuffered,
    WriteLocal(Seq<u8>),
    Proxy,
}

impl<'a> View for ForwardAction<'a> {
    type V = ForwardActionView;

    open spec fn view(&self) -> ForwardActionView {
        match *self {
            ForwardAction::Connect(host) => ForwardActionView::Connect(host@),
            ForwardAction::Authenticate(secret) => ForwardActionView::Authenticate(secret@),
            ForwardAction::Send(message) => ForwardActionView::Send(message),
            ForwardAction::ConnectLocal(host, port) => ForwardActionView::ConnectLocal(host@, port),
            ForwardAction::TakeBuffered => ForwardActionView::TakeBuffered,
            ForwardAction::WriteLocal(bytes) => ForwardActionView::WriteLocal(bytes@),
            ForwardAction::Proxy => ForwardActionView::Proxy,
        }
    }
}

/// What became of a forwarded connection.
#[derive(Debug)]
pub enum ForwardStep<E> {
    /// There is more to do.
    Continue(Forwarding),
    /// The connection has been served.
    Done,
    /// The connection is given up.
    Failed(E),
}

/// What a `ForwardStep` stands for.
pub enum ForwardStepView<E> {
    Continue(ForwardingView),
    Done,
    Failed(E),
}

impl<E> View for ForwardStep<E> {
    type V = ForwardStepView<E>;

    open spec fn view(&self) -> ForwardStepView<E> {
        match *self {
            ForwardStep::Continue(forwarding) => ForwardStepView::Continue(forwarding@),
            ForwardStep::Done => ForwardStepView::Done,
            ForwardStep::Failed(error) => ForwardStepView::Failed(error),
        }
    }
}

/// What a `Forwarding` stands for.
pub struct ForwardingView {
    pub client: ClientView,
    pub id: Uuid,
    pub stage: ForwardStageView,
}

/// All actions that serve the connection `id`, in order, where `buffered` are
/// the bytes that came early.
pub open spec fn forward_plan(client: ClientView, id: Uuid, buffered: Seq<u8>) -> Seq<
    ForwardActionView,
> {
    let proving = match client.secret {
        Some(secret) => seq![ForwardActionView::Authenticate(secret)],
        None => seq![],
    };
    let writing = if buffered.len() > 0 {
        seq![ForwardActionView::WriteLocal(buffered)]
    } else {
        seq![]
    };
    seq![ForwardActionView::Connect(client.to)] + proving + seq![
        ForwardActionView::Send(ClientMessage::Accept(id)),
        ForwardActionView::ConnectLocal(client.local_host, client.local_port),
        ForwardActionView::TakeBuffered,
    ] + writing + seq![ForwardActionView::Proxy]
}

impl ForwardingView {
    /// Nothing done yet.
    pub open spec fn start(client: ClientView, id: Uuid) -> ForwardingView {
        ForwardingView { client, id, stage: ForwardStageView::Connecting }
    }

    /// A secret is only proved where there is one.
    pub open spec fn wf(self) -> bool {
        self.stage is Authenticating ==> self.client.secret is Some
    }

    /// The action at hand.
    pub open spec fn pending(self) -> ForwardActionView {
        match self.stage {
            ForwardStageView::Connecting => ForwardActionView::Connect(self.client.to),
            ForwardStageView::Authenticating => ForwardActionView::Authenticate(
                self.client.secret->0,
            ),
            ForwardStageView::Accepting => ForwardActionView::Send(ClientMessage::Accept(self.id)),
            ForwardStageView::ConnectingLocal => ForwardActionView::ConnectLocal(
                self.client.local_host,
                self.client.local_port,
            ),
            ForwardStageView::Draining => ForwardActionView::TakeBuffered,
            ForwardStageView::Writing(bytes) => ForwardActionView::WriteLocal(bytes),
            ForwardStageView::Proxying => ForwardActionView::Proxy,
        }
    }

    /// What follows from the outcome of the action at hand. A failure of any
    /// action ends the forwarding.
    pub open spec fn step<E>(self, outcome: Result<Seq<u8>, E>) -> ForwardStepView<E> {
        match outcome {
            Err(error) => ForwardStepView::Failed(error),
            Ok(bytes) => if self.stage is Proxying {
                ForwardStepView::Done
            } else {
                let stage = match self.stage {
                    ForwardStageView::Connecting => if self.client.secret is Some {
                        ForwardStageView::Authenticating
                    } else {
                        ForwardStageView::Accepting
                    },
                    ForwardStageView::Authenticating => ForwardStageView::Accepting,
                    ForwardStageView::Accepting => ForwardStageView::ConnectingLocal,
                    ForwardStageView::ConnectingLocal => ForwardStageView::Draining,
                    ForwardStageView::Draining => if bytes.len() > 0 {
                        ForwardStageView::Writing(bytes)
                    } else {
                        ForwardStageView::Proxying
                    },
                    _ => ForwardStageView::Proxying,
                };
                ForwardStepView::Continue(ForwardingView { stage, ..self })
            },
        }
    }

    /// What follows from the outcomes of one action after the other.
    pub open spec fn run<E>(self, outcomes: Seq<Result<Seq<u8>, E>>) -> ForwardStepView<E>
        decreases outcomes.len(),
    {
        if outcomes.len() == 0 {
            ForwardStepView::Continue(self)
        } else {
            match self.step(outcomes[0]) {
                ForwardStepView::Continue(next) => next.run(outcomes.drop_first()),
                end => end,
            }
        }
    }

    /// The actions that have these outcomes.
    pub open spec fn trace<E>(self, outcomes: Seq<Result<Seq<u8>, E>>) -> Seq<ForwardActionView>
        decreases outcomes.len(),
    {
        if outcomes.len() == 0 {
            seq![]
        } else {
            seq![self.pending()] + match self.step(outcomes[0]) {
                ForwardStepView::Continue(next) => next.trace(outcomes.drop_first()),
                _ => seq![],
            }
        }
    }
}

/// The outcome of an action, with the bytes as a sequence.
pub open spec fn outcome_view<E>(outcome: Result<Vec<u8>, E>) -> Result<Seq<u8>, E> {
    match outcome {
        Ok(bytes) => Ok(bytes@),
        Err(error) => Err(error),
    }
}

/// A connection that is being forwarded.
#[derive(Debug)]
pub struct Forwarding {
    client: Client,
    id: Uuid,
    stage: ForwardStage,
}

impl View for Forwarding {
    type V = ForwardingView;

    closed spec fn view(&self) -> ForwardingView {
        ForwardingView { client: self.client@, id: self.id, stage: self.stage@ }
    }
}

impl Forwarding {
    #[verifier::type_invariant]
    spec fn wf(self) -> bool {
        self@.wf()
    }

    /// A forwarding with nothing done yet.
    pub(crate) fn start(client: Client, id: Uuid) -> (forwarding: Forwarding)
        ensures
            forwarding@ == ForwardingView::start(client@, id),
    {
        Forwarding { client, id, stage: ForwardStage::Connecting }
    }

    /// The identifier of the connection.
    pub fn id(&self) -> (id: Uuid)
        ensures
            id == self@.id,
    {
        self.id
    }

    /// The action to carry out now.
    pub fn action(&self) -> (action: ForwardAction<'_>)
        ensures
            action@ == self@.pending(),
    {
        proof {
            use_type_invariant(self);
            self.client.lemma_view();
        }
        match &self.stage {
            ForwardStage::Connecting => ForwardAction::Connect(self.client.to.as_str()),
            ForwardStage::Authenticating => match &self.client.secret {
                Some(secret) => ForwardAction::Authenticate(secret.as_str()),
                None => ForwardAction::Send(ClientMessage::Accept(self.id)),
            },
            ForwardStage::Accepting => ForwardAction::Send(ClientMessage::Accept(self.id)),
            ForwardStage::ConnectingLocal => ForwardAction::ConnectLocal(
                self.client.local_host.as_str(),
                self.client.local_port,
            ),
            ForwardStage::Draining => ForwardAction::TakeBuffered,
            ForwardStage::Writing(bytes) => ForwardAction::WriteLocal(bytes.as_slice()),
            ForwardStage::Proxying => ForwardAction::Proxy,
        }
    }

    /// Takes the outcome of the action at hand: the bytes that a `TakeBuffered`
    /// found, and whatever else another action returned, which is not looked at.
    pub fn advance<E>(self, outcome: Result<Vec<u8>, E>) -> (step: ForwardStep<E>)
        ensures
            step@ == self@.step(outcome_view(outcome)),
            outcome is Ok && self@.pending() is TakeBuffered && outcome->Ok_0@.len() > 0 ==> (
            step matches ForwardStep::Continue(next) && next@.pending()
                == ForwardActionView::WriteLocal(outcome->Ok_0@)),
            outcome matches Err(error) ==> step == ForwardStep::Failed(error),
    {
        proof {
            use_type_invariant(&self);
            self.client.lemma_view();
        }
        let bytes = match outcome {
            Ok(bytes) => bytes,
            Err(error) => {
                return ForwardStep::Failed(error);
            },
        };
        let stage = match self.stage {
            ForwardStage::Connecting => if self.client.secret.is_some() {
                ForwardStage::Authenticating
            } else {
                ForwardStage::Accepting
            },
            ForwardStage::Authenticating => ForwardStage::Accepting,
            ForwardStage::Accepting => ForwardStage::ConnectingLocal,
            ForwardStage::ConnectingLocal => ForwardStage::Draining,
            ForwardStage::Draining => if bytes.len() > 0 {
                ForwardStage::Writing(bytes)
            } else {
                ForwardStage::Proxying
            },
            ForwardStage::Writing(_) => ForwardStage::Proxying,
            ForwardStage::Proxying => {
                return ForwardStep::Done;
            },
        };
        ForwardStep::Continue(Forwarding { client: self.client, id: self.id, stage })
    }
}

/// How many actions come before the early bytes are taken over.
pub open spec fn drain_index(client: ClientView) -> nat {
    if client.secret is Some {
        4
    } else {
        3
    }
}

/// Where every action goes well, the actions are those of the plan, in order, and
/// the connection is served once the last of them is done. So the secret, if
/// there is one, is proved before the connection is accepted, the local service
/// is only connected to after that, and bytes that came early reach it before
/// anything that is copied.
pub proof fn law_served<E>(client: ClientView, id: Uuid, outcomes: Seq<Result<Seq<u8>, E>>)
    requires
        forall|i: int| 0 <= i < outcomes.len() ==> #[trigger] outcomes[i] is Ok,
        drain_index(client) < outcomes.len(),
        outcomes.len() == forward_plan(
            client,
            id,
            outcomes[drain_index(client) as int]->Ok_0,
        ).len(),
    ensures
        ForwardingView::start(client, id).trace(outcomes) == forward_plan(
            client,
            id,
            outcomes[drain_index(client) as int]->Ok_0,
        ),
        ForwardingView::start(client, id).run(outcomes) == ForwardStepView::Done::<E>,
{
    reveal_with_fuel(ForwardingView::trace, 8);
    reveal_with_fuel(ForwardingView::run, 8);
}

/// The plan is followed in order, whatever comes of the actions: those that are
/// carried out are the first ones of the plan, and the connection counts as
/// served only after all of them. `buffered` are the bytes that came early, where
/// it comes to taking them over.
pub proof fn law_follows_plan<E>(
    client: ClientView,
    id: Uuid,
    outcomes: Seq<Result<Seq<u8>, E>>,
    buffered: Seq<u8>,
)
    requires
        drain_index(client) < outcomes.len() ==> (outcomes[drain_index(client) as int] matches Ok(
            bytes,
        ) ==> bytes == buffered),
    ensures
        ({
            let start = ForwardingView::start(client, id);
            let plan = forward_plan(client, id, buffered);
            let trace = start.trace(outcomes);
            &&& trace.len() <= plan.len()
            &&& trace == plan.take(trace.len() as int)
            &&& start.run(outcomes) is Done ==> trace == plan
        }),
{
    reveal_with_fuel(ForwardingView::trace, 9);
    reveal_with_fuel(ForwardingView::run, 9);
    let trace = ForwardingView::start(client, id).trace(outcomes);
    assert(trace =~= forward_plan(client, id, buffered).take(trace.len() as int));
}

/// The first action that fails ends the forwarding, with the error of that
/// action.
pub proof fn law_fails_with_action<E>(
    forwarding: ForwardingView,
    outcomes: Seq<Result<Seq<u8>, E>>,
    error: E,
)
    requires
        forwarding.run(outcomes) is Continue,
    ensures
        forwarding.run(outcomes.push(Err(error))) == ForwardStepView::Failed(error),
    decreases outcomes.len(),
{
    let all = outcomes.push(Err(error));
    if outcomes.len() > 0 {
        assert(all[0] == outcomes[0]);
        assert(all.drop_first() == outcomes.drop_first().push(Err(error)));
        law_fails_with_action(
            forwarding.step(outcomes[0])->Continue_0,
            outcomes.drop_first(),
            error,
        );
    } else {
        assert(all[0] == Err::<Seq<u8>, E>(error));
    }
}

/// A forwarding starts for the client and the connection that were given, with
/// the connection to the server at hand.
pub proof fn law_starts_as_asked(client: ClientView, id: Uuid)
    ensures
        ForwardingView::start(client, id).client == client,
        ForwardingView::start(client, id).id == id,
        ForwardingView::start(client, id).wf(),
        ForwardingView::start(client, id).pending() == ForwardActionView::Connect(client.to),
{
}

/// The plan, part by part: the server of the client is connected to; its secret
/// is proved, where it has one; the connection is accepted under its own
/// identifier; the local service of the client is connected to; the bytes that
/// came early are taken over, and written whole where there are any; and the two
/// connections are joined. Nothing else is done.
pub proof fn law_plan(client: ClientView, id: Uuid, buffered: Seq<u8>)
    ensures
        ({
            let plan = forward_plan(client, id, buffered);
            let proving: int = if client.secret is Some {
                1
            } else {
                0
            };
            let writing: int = if buffered.len() > 0 {
                1
            } else {
                0
            };
            &&& plan.len() == 5 + proving + writing
            &&& plan[0] == ForwardActionView::Connect(client.to)
            &&& client.secret matches Some(secret) ==> plan[1] == ForwardActionView::Authenticate(
                secret,
            )
            &&& plan[1 + proving] == ForwardActionView::Send(ClientMessage::Accept(id))
            &&& plan[2 + proving] == ForwardActionView::ConnectLocal(
                client.local_host,
                client.local_port,
            )
            &&& plan[3 + proving] == ForwardActionView::TakeBuffered
            &&& buffered.len() > 0 ==> plan[4 + proving] == ForwardActionView::WriteLocal(buffered)
            &&& plan[4 + proving + writing] == ForwardActionView::Proxy
            &&& drain_index(client) == 3 + proving
        }),
{
}

/// The bytes that were taken over are written to the local service as they were
/// handed in, all of them and in order; where there are none, the connections are
/// joined at once. The client and the identifier stay as they are.
pub proof fn law_early_bytes_whole<E>(forwarding: ForwardingView, bytes: Vec<u8>)
    requires
        forwarding.pending() is TakeBuffered,
    ensures
        forwarding.step::<E>(outcome_view(Ok(bytes))) matches ForwardStepView::Continue(next) && {
            &&& bytes@.len() > 0 ==> next.pending() == ForwardActionView::WriteLocal(bytes@)
            &&& bytes@.len() == 0 ==> next.pending() == ForwardActionView::Proxy
            &&& next.client == forwarding.client
            &&& next.id == forwarding.id
        },
{
}

/// Wherever a forwarding stands, a failed action gives it up with that error; an
/// action that went well gives it up nowhere, and serves the connection exactly
/// where the two connections were joined.
pub proof fn law_outcome_of_action<E>(forwarding: ForwardingView, bytes: Vec<u8>, error: E)
    ensures
        forwarding.step(outcome_view(Err(error))) == ForwardStepView::Failed(error),
        !(forwarding.step::<E>(outcome_view(Ok(bytes))) is Failed),
        forwarding.step::<E>(outcome_view(Ok(bytes))) is Done <==> forwarding.pending() is Proxy,
        forwarding.step::<E>(outcome_view(Ok(bytes))) matches ForwardStepView::Continue(next)
            ==> next.client == forwarding.client && next.id == forwarding.id,
        outcome_view::<E>(Ok(bytes)) == Ok::<Seq<u8>, E>(bytes@),
        outcome_view(Err(error)) == Err::<Seq<u8>, E>(error),
{
}

/// Each action that goes well is followed by the next one, on the parts of the
/// client and under the identifier of the connection.
pub proof fn law_next_action<E>(forwarding: ForwardingView, bytes: Vec<u8>)
    requires
        !(forwarding.pending() is Proxy),
    ensures
        forwarding.step::<E>(outcome_view(Ok(bytes))) matches ForwardStepView::Continue(next) && {
            let accept = ForwardActionView::Send(ClientMessage::Accept(forwarding.id));
            match forwarding.pending() {
                ForwardActionView::Connect(_) => match forwarding.client.secret {
                    Some(secret) => next.pending() == ForwardActionView::Authenticate(secret),
                    None => next.pending() == accept,
                },
                ForwardActionView::Authenticate(_) => next.pending() == accept,
                ForwardActionView::Send(_) => next.pending() == ForwardActionView::ConnectLocal(
                    forwarding.client.local_host,
                    forwarding.client.local_port,
                ),
                ForwardActionView::ConnectLocal(_, _) => next.pending()
                    == ForwardActionView::TakeBuffered,
                ForwardActionView::TakeBuffered => next.pending() is WriteLocal
                    || next.pending() is Proxy,
                _ => next.pending() == ForwardActionView::Proxy,
            }
        },
{
}

/// An action, a stage and a step are seen as what they are: texts and bytes in
/// full, and all the rest as it stands.
pub proof fn law_seen_whole<E>(
    text: &str,
    port: u16,
    message: ClientMessage,
    bytes: &[u8],
    held: Vec<u8>,
    forwarding: Forwarding,
    error: E,
)
    ensures
        ForwardAction::Connect(text)@ == ForwardActionView::Connect(text@),
        ForwardAction::Authenticate(text)@ == ForwardActionView::Authenticate(text@),
        ForwardAction::Send(message)@ == ForwardActionView::Send(message),
        ForwardAction::ConnectLocal(text, port)@ == ForwardActionView::ConnectLocal(text@, port),
        ForwardAction::TakeBuffered@ == ForwardActionView::TakeBuffered,
        ForwardAction::WriteLocal(bytes)@ == ForwardActionView::WriteLocal(bytes@),
        ForwardAction::Proxy@ == ForwardActionView::Proxy,
        ForwardStage::Writing(held)@ == ForwardStageView::Writing(held@),
        ForwardStep::<E>::Continue(forwarding)@ == ForwardStepView::<E>::Continue(forwarding@),
        ForwardStep::<E>::Done@ == ForwardStepView::<E>::Done,
        ForwardStep::Failed(error)@ == ForwardStepView::Failed(error),
{
}

} // verus!
