//! The challenged query session: one server, one kind, at most two round trips.
//!
//! A session does no I/O. It tells its driver what to do next, and the driver
//! tells it what came of that.

use crate::codec::{
    append_challenge, build_request, classify, ChallengeToken, Classified, QueryKind,
};
use crate::endpoint::{choose_endpoint, Endpoint};
use crate::error::{QueryError, TransportOp};
use crate::protocol::{
    failure_of, holds_binding, initial, is_terminal, next_session, outgoing, pending,
    session_outcome, step_for, traces_for, well_formed, ActionModel, EventModel, PhaseModel,
    SessionModel, StepModel,
};
use crate::trace::{Trace, TraceLabel, TraceModel};
use vstd::prelude::*;
use vstd::slice::slice_to_vec;

verus! {

/// The size of the buffer that a driver offers to a received datagram; what
/// a longer datagram holds beyond it is lost.
pub const RECEIVE_CAPACITY: usize = 4096;

/// Where a session stands.
#[derive(Clone, Debug, PartialEq, Eq)]
pub enum Phase {
    /// The address is being resolved.
    Resolving,
    /// A socket is being opened towards the endpoint.
    Opening,
    /// The request is being sent.
    Sending,
    /// The request was sent; the first datagram of the server is awaited.
    AwaitingFirstResponse,
    /// The server sent a challenge; the request with the token is being sent.
    Resending,
    /// The request with the token was sent; the response is awaited.
    AwaitingFinalResponse,
    /// The server answered with this payload.
    Done(Vec<u8>),
    /// The session failed.
    Failed(QueryError),
}

impl View for Phase {
    type V = PhaseModel;

    open spec fn view(&self) -> PhaseModel {
        match self {
            Phase::Resolving => PhaseModel::Resolving,
            Phase::Opening => PhaseModel::Opening,
            Phase::Sending => PhaseModel::Sending,
            Phase::AwaitingFirstResponse => PhaseModel::AwaitingFirstResponse,
            Phase::Resending => PhaseModel::Resending,
            Phase::AwaitingFinalResponse => PhaseModel::AwaitingFinalResponse,
            Phase::Done(payload) => PhaseModel::Done(payload@),
            Phase::Failed(error) => PhaseModel::Failed(*error),
        }
    }
}

impl Phase {
    /// Whether the session is over in this phase.
    pub fn is_terminal(&self) -> (over: bool)
        ensures
            over == is_terminal(self@),
    {
        match self {
            Phase::Done(_) | Phase::Failed(_) => true,
            _ => false,
        }
    }

    /// Whether the session holds a bound socket in this phase.
    pub fn holds_binding(&self) -> (held: bool)
        ensures
            held == holds_binding(self@),
    {
        match self {
            Phase::Sending
            | Phase::AwaitingFirstResponse
            | Phase::Resending
            | Phase::AwaitingFinalResponse => true,
            _ => false,
        }
    }

    /// The error with which the session fails when what it asked for in this
    /// phase does not succeed.
    fn failure(&self) -> (error: QueryError)
        ensures
            error == failure_of(self@),
    {
        match self {
            Phase::Resolving => QueryError::AddressResolution,
            Phase::Opening => QueryError::Transport(TransportOp::Open),
            Phase::Sending | Phase::Resending => QueryError::Transport(TransportOp::Send),
            Phase::AwaitingFirstResponse | Phase::AwaitingFinalResponse | Phase::Done(_) => {
                QueryError::Transport(TransportOp::Receive)
            },
            Phase::Failed(error) => *error,
        }
    }
}

/// What the driver reports after it has carried out an action.
#[derive(Clone, Debug, PartialEq, Eq)]
pub enum Event {
    /// The address resolved to these endpoints, in the resolver's order.
    Resolved(Vec<Endpoint>),
    /// The socket is bound and connected.
    Opened,
    /// The datagram was sent.
    Sent,
    /// This datagram was received.
    Received(Vec<u8>),
    /// The action failed.
    Failed,
}

impl View for Event {
    type V = EventModel;

    open spec fn view(&self) -> EventModel {
        match self {
            Event::Resolved(candidates) => EventModel::Resolved(candidates@),
            Event::Opened => EventModel::Opened,
            Event::Sent => EventModel::Sent,
            Event::Received(datagram) => EventModel::Received(datagram@),
            Event::Failed => EventModel::Failed,
        }
    }
}

/// What a session asks its driver to do next.
#[derive(Clone, Debug, PartialEq, Eq)]
pub enum Action {
    /// Resolve this address string.
    Resolve(String),
    /// Bind an ephemeral local socket and connect it to this endpoint.
    Open(Endpoint),
    /// Send this datagram.
    Send(Vec<u8>),
    /// Receive one datagram.
    Receive,
    /// Release the socket; the session is over.
    Release,
    /// Nothing is left to do and no socket is held.
    Stop,
}

impl View for Action {
    type V = ActionModel;

    open spec fn view(&self) -> ActionModel {
        match self {
            Action::Resolve(address) => ActionModel::Resolve(address@),
            Action::Open(endpoint) => ActionModel::Open(*endpoint),
            Action::Send(datagram) => ActionModel::Send(datagram@),
            Action::Receive => ActionModel::Receive,
            Action::Release => ActionModel::Release,
            Action::Stop => ActionModel::Stop,
        }
    }
}

/// What one step hands to the driver: the lines to report, then the action.
#[derive(Clone, Debug, PartialEq, Eq)]
pub struct Step {
    /// What to do next.
    pub action: Action,
    /// What to report before doing it, in order.
    pub traces: Vec<Trace>,
}

impl View for Step {
    type V = StepModel;

    open spec fn view(&self) -> StepModel {
        StepModel { action: self.action@, traces: self.traces@.map_values(|trace: Trace| trace@) }
    }
}

/// One query of one kind to one server.
#[derive(Debug)]
pub struct QuerySession {
    address: String,
    kind: QueryKind,
    request: Vec<u8>,
    endpoint: Option<Endpoint>,
    token: Option<ChallengeToken>,
    phase: Phase,
}

impl View for QuerySession {
    type V = SessionModel;

    closed spec fn view(&self) -> SessionModel {
        SessionModel {
            address: self.address@,
            kind: self.kind,
            request: self.request@,
            endpoint: self.endpoint,
            token: match self.token {
                Some(token) => Some(token@),
                None => None,
            },
            phase: self.phase@,
        }
    }
}

impl QuerySession {
    /// Creates the session for `address` and `kind`, together with the first
    /// thing to do: to resolve the address.
    pub fn start(address: String, kind: QueryKind) -> (started: (QuerySession, Action))
        ensures
            started.0@ == initial(address@, kind),
            started.1@ == pending(initial(address@, kind)),
            well_formed(started.0@),
    {
        let first = Action::Resolve(address.clone());
        let session = QuerySession {
            address,
            kind,
            request: build_request(kind),
            endpoint: None,
            token: None,
            phase: Phase::Resolving,
        };
        (session, first)
    }

    /// Takes what the driver reports of the action it was asked for, moves to
    /// the next phase and says what to report and what to do next.
    ///
    /// Only the success that the phase waits for moves the session on; any
    /// other event fails it with the error of what was asked. A session that
    /// is over stays as it is.
    pub fn step(&mut self, event: Event) -> (step: Step)
        ensures
            final(self)@ == next_session(old(self)@, event@),
            step@ == step_for(old(self)@, event@),
            well_formed(old(self)@) ==> well_formed(final(self)@),
    {
        let ghost before = self@;
        let ghost reported = event@;
        let mut traces: Vec<Trace> = Vec::new();
        let failure = self.phase.failure();
        let held = self.phase.holds_binding();
        // What the awaited success leads to; `None` for every other event.
        let moved: Option<Action> = match self.phase {
            Phase::Done(_) | Phase::Failed(_) => Some(Action::Stop),
            Phase::Resolving => match event {
                Event::Resolved(candidates) => match choose_endpoint(&candidates) {
                    Some(endpoint) => {
                        self.endpoint = Some(endpoint);
                        self.phase = Phase::Opening;
                        Some(Action::Open(endpoint))
                    },
                    None => None,
                },
                _ => None,
            },
            Phase::Opening => match event {
                Event::Opened => {
                    self.phase = Phase::Sending;
                    Some(Action::Send(self.outgoing()))
                },
                _ => None,
            },
            Phase::Sending => match event {
                Event::Sent => {
                    traces.push(
                        Trace { label: TraceLabel::Query, bytes: slice_to_vec(self.request()) },
                    );
                    self.phase = Phase::AwaitingFirstResponse;
                    Some(Action::Receive)
                },
                _ => None,
            },
            Phase::AwaitingFirstResponse => match event {
                Event::Received(datagram) => {
                    let seen = slice_to_vec(datagram.as_slice());
                    match classify(datagram) {
                        Classified::Challenge(token) => {
                            traces.push(Trace { label: TraceLabel::Challenge, bytes: seen });
                            self.token = Some(token);
                            self.phase = Phase::Resending;
                            traces.push(
                                Trace { label: TraceLabel::QueryChallenge, bytes: self.outgoing() },
                            );
                            Some(Action::Send(self.outgoing()))
                        },
                        Classified::Final(payload) => {
                            traces.push(Trace { label: TraceLabel::Response, bytes: seen });
                            self.phase = Phase::Done(payload);
                            Some(Action::Release)
                        },
                    }
                },
                _ => None,
            },
            Phase::Resending => match event {
                Event::Sent => {
                    self.phase = Phase::AwaitingFinalResponse;
                    Some(Action::Receive)
                },
                _ => None,
            },
            Phase::AwaitingFinalResponse => match event {
                Event::Received(datagram) => {
                    traces.push(
                        Trace {
                            label: TraceLabel::ChallengedResponse,
                            bytes: slice_to_vec(datagram.as_slice()),
                        },
                    );
                    self.phase = Phase::Done(datagram);
                    Some(Action::Release)
                },
                _ => None,
            },
        };
        let action = match moved {
            Some(action) => action,
            None => {
                self.phase = Phase::Failed(failure);
                if held {
                    Action::Release
                } else {
                    Action::Stop
                }
            },
        };
        let step = Step { action, traces };
        assert(step@.traces =~= traces_for(before, reported));
        step
    }

    /// The address string that the session was created with.
    pub fn address(&self) -> (address: &str)
        ensures
            address@ == self@.address,
    {
        self.address.as_str()
    }

    /// The kind that the session queries.
    pub fn kind(&self) -> (kind: QueryKind)
        ensures
            kind == self@.kind,
    {
        self.kind
    }

    /// The request without a token, as it was built when the session began.
    pub fn request(&self) -> (request: &[u8])
        ensures
            request@ == self@.request,
    {
        self.request.as_slice()
    }

    /// The endpoint that the address resolved to, once it has.
    pub fn endpoint(&self) -> (endpoint: Option<Endpoint>)
        ensures
            endpoint == self@.endpoint,
    {
        self.endpoint
    }

    /// The token of the challenge, once the server has sent one.
    pub fn token(&self) -> (token: Option<ChallengeToken>)
        ensures
            match token {
                Some(token) => self@.token == Some(token@),
                None => self@.token is None,
            },
    {
        self.token
    }

    /// The phase that the session is in.
    pub fn phase(&self) -> (phase: &Phase)
        ensures
            phase@ == self@.phase,
    {
        &self.phase
    }

    /// Whether the session is over.
    pub fn is_over(&self) -> (over: bool)
        ensures
            over == is_terminal(self@.phase),
    {
        self.phase.is_terminal()
    }

    /// How the session ended: `Ok` with a response, `Err` with its error, or
    /// `None` while it is not over.
    pub fn outcome(&self) -> (outcome: Option<Result<(), QueryError>>)
        ensures
            outcome == session_outcome(self@.phase),
    {
        match self.phase {
            Phase::Done(_) => Some(Ok(())),
            Phase::Failed(error) => Some(Err(error)),
            _ => None,
        }
    }

    /// The request as it goes out in the current exchange.
    fn outgoing(&self) -> (datagram: Vec<u8>)
        ensures
            datagram@ == outgoing(self@),
    {
        match self.token {
            Some(token) => append_challenge(self.request.as_slice(), token),
            None => slice_to_vec(self.request.as_slice()),
        }
    }
}

} // verus!
