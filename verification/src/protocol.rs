//! The query session as a state machine over plain values: its phases, the
//! events it reacts to, the actions it asks for, and what holds of every run.

use crate::codec::{
    challenged_bytes, is_challenge, lemma_challenged_layout, lemma_request_layout, request_bytes,
    token_bytes, QueryKind, REQUEST_LEN, TOKEN_LEN,
};
use crate::endpoint::{chosen_endpoint, Endpoint};
use crate::error::{QueryError, TransportOp};
use crate::trace::{TraceLabel, TraceModel};
use vstd::prelude::*;

verus! {

/// Where a session stands.
pub enum PhaseModel {
    /// The address is being resolved.
    Resolving,
    /// A socket is being opened towards the endpoint.
    Opening,
    /// The request is being sent.
    Sending,
    /// The request was sent; the first datagram of the server is awaited.
    AwaitingFirstResponse,
    /// The server sent a challenge; the request with the token is being sent.
    Resending,
    /// The request with the token was sent; the response is awaited.
    AwaitingFinalResponse,
    /// The server answered with this payload.
    Done(Seq<u8>),
    /// The session failed.
    Failed(QueryError),
}

/// What the driver reports after it has carried out an action.
pub enum EventModel {
    /// The address resolved to these endpoints, in the resolver's order.
    Resolved(Seq<Endpoint>),
    /// The socket is bound and connected.
    Opened,
    /// The datagram was sent.
    Sent,
    /// This datagram was received.
    Received(Seq<u8>),
    /// The action failed.
    Failed,
}

/// What a session asks its driver to do next.
pub enum ActionModel {
    /// Resolve this address string.
    Resolve(Seq<char>),
    /// Bind an ephemeral local socket and connect it to this endpoint.
    Open(Endpoint),
    /// Send this datagram.
    Send(Seq<u8>),
    /// Receive one datagram.
    Receive,
    /// Release the socket; the session is over.
    Release,
    /// Nothing is left to do and no socket is held.
    Stop,
}

/// A session: what it queries, what it has learnt, and its phase.
pub struct SessionModel {
    /// The address string of the server, as configured.
    pub address: Seq<char>,
    /// The kind that is queried.
    pub kind: QueryKind,
    /// The request without a token.
    pub request: Seq<u8>,
    /// The endpoint that the address resolved to, once it has.
    pub endpoint: Option<Endpoint>,
    /// The token of the challenge, once the server has sent one.
    pub token: Option<Seq<u8>>,
    /// Where the session stands.
    pub phase: PhaseModel,
}

/// What one step hands to the driver.
pub struct StepModel {
    /// What to do next.
    pub action: ActionModel,
    /// What to report before doing it, in order.
    pub traces: Seq<TraceModel>,
}

/// The session for `address` and `kind` before anything has happened.
pub open spec fn initial(address: Seq<char>, kind: QueryKind) -> SessionModel {
    SessionModel {
        address,
        kind,
        request: request_bytes(kind),
        endpoint: None,
        token: None,
        phase: PhaseModel::Resolving,
    }
}

/// Whether the session is over.
pub open spec fn is_terminal(phase: PhaseModel) -> bool {
    phase is Done || phase is Failed
}

/// How a session in this phase ended, if it is over: with a response or
/// with an error.
pub open spec fn session_outcome(phase: PhaseModel) -> Option<Result<(), QueryError>> {
    match phase {
        PhaseModel::Done(_) => Some(Ok(())),
        PhaseModel::Failed(error) => Some(Err(error)),
        _ => None,
    }
}

/// Whether the session holds a bound socket in this phase.
pub open spec fn holds_binding(phase: PhaseModel) -> bool {
    phase is Sending || phase is AwaitingFirstResponse || phase is Resending
        || phase is AwaitingFinalResponse
}

/// Whether `event` reports the success that `phase` waits for. Every other
/// event counts as the failure of what was asked.
pub open spec fn awaited(phase: PhaseModel, event: EventModel) -> bool {
    match (phase, event) {
        (PhaseModel::Resolving, EventModel::Resolved(candidates)) => candidates.len() > 0,
        (PhaseModel::Opening, EventModel::Opened) => true,
        (PhaseModel::Sending, EventModel::Sent) => true,
        (PhaseModel::AwaitingFirstResponse, EventModel::Received(_)) => true,
        (PhaseModel::Resending, EventModel::Sent) => true,
        (PhaseModel::AwaitingFinalResponse, EventModel::Received(_)) => true,
        _ => false,
    }
}

/// The error with which a session fails when what it asked for in `phase`
/// does not succeed. A session that is over asks for nothing.
pub open spec fn failure_of(phase: PhaseModel) -> QueryError
    recommends
        !is_terminal(phase),
{
    match phase {
        PhaseModel::Resolving => QueryError::AddressResolution,
        PhaseModel::Opening => QueryError::Transport(TransportOp::Open),
        PhaseModel::Sending | PhaseModel::Resending => QueryError::Transport(TransportOp::Send),
        PhaseModel::AwaitingFirstResponse | PhaseModel::AwaitingFinalResponse => {
            QueryError::Transport(TransportOp::Receive)
        },
        PhaseModel::Done(_) => QueryError::Transport(TransportOp::Receive),
        PhaseModel::Failed(error) => error,
    }
}

/// The phase after `event`.
pub open spec fn next_phase(phase: PhaseModel, event: EventModel) -> PhaseModel {
    if is_terminal(phase) {
        phase
    } else if !awaited(phase, event) {
        PhaseModel::Failed(failure_of(phase))
    } else {
        match (phase, event) {
            (PhaseModel::Resolving, _) => PhaseModel::Opening,
            (PhaseModel::Opening, _) => PhaseModel::Sending,
            (PhaseModel::Sending, _) => PhaseModel::AwaitingFirstResponse,
            (PhaseModel::AwaitingFirstResponse, EventModel::Received(datagram)) => {
                if is_challenge(datagram) {
                    PhaseModel::Resending
                } else {
                    PhaseModel::Done(datagram)
                }
            },
            (PhaseModel::Resending, _) => PhaseModel::AwaitingFinalResponse,
            (PhaseModel::AwaitingFinalResponse, EventModel::Received(datagram)) => {
                PhaseModel::Done(datagram)
            },
            _ => phase,
        }
    }
}

/// The session after `event`: the phase moves on, a resolution fixes the
/// endpoint and a challenge fixes the token. Address, kind and request stay.
pub open spec fn next_session(session: SessionModel, event: EventModel) -> SessionModel {
    SessionModel {
        endpoint: match (session.phase, event) {
            (PhaseModel::Resolving, EventModel::Resolved(candidates)) => {
                if candidates.len() > 0 {
                    chosen_endpoint(candidates)
                } else {
                    session.endpoint
                }
            },
            _ => session.endpoint,
        },
        token: match (session.phase, event) {
            (PhaseModel::AwaitingFirstResponse, EventModel::Received(datagram)) => {
                if is_challenge(datagram) {
                    Some(token_bytes(datagram))
                } else {
                    session.token
                }
            },
            _ => session.token,
        },
        phase: next_phase(session.phase, event),
        ..session
    }
}

/// The request as it goes out in the current exchange: with the token
/// appended once the server has sent one.
pub open spec fn outgoing(session: SessionModel) -> Seq<u8> {
    match session.token {
        Some(token) => challenged_bytes(session.request, token),
        None => session.request,
    }
}

/// What a session waits for its driver to do. A session that is over waits
/// for nothing.
pub open spec fn pending(session: SessionModel) -> ActionModel
    recommends
        well_formed(session),
{
    match session.phase {
        PhaseModel::Resolving => ActionModel::Resolve(session.address),
        PhaseModel::Opening => ActionModel::Open(session.endpoint->0),
        PhaseModel::Sending | PhaseModel::Resending => ActionModel::Send(outgoing(session)),
        PhaseModel::AwaitingFirstResponse | PhaseModel::AwaitingFinalResponse => {
            ActionModel::Receive
        },
        PhaseModel::Done(_) | PhaseModel::Failed(_) => ActionModel::Stop,
    }
}

/// What the step on `event` asks the driver to do: what the new phase waits
/// for, or, when the step ends the session, to release the socket if one is
/// held. A session that is over asks for nothing.
pub open spec fn action_for(session: SessionModel, event: EventModel) -> ActionModel {
    let next = next_session(session, event);
    if is_terminal(next.phase) {
        if holds_binding(session.phase) {
            ActionModel::Release
        } else {
            ActionModel::Stop
        }
    } else {
        pending(next)
    }
}

/// What the step on `event` reports.
pub open spec fn traces_for(session: SessionModel, event: EventModel) -> Seq<TraceModel> {
    match (session.phase, event) {
        (PhaseModel::Sending, EventModel::Sent) => seq![
            TraceModel { label: TraceLabel::Query, bytes: session.request },
        ],
        (PhaseModel::AwaitingFirstResponse, EventModel::Received(datagram)) => {
            if is_challenge(datagram) {
                seq![
                    TraceModel { label: TraceLabel::Challenge, bytes: datagram },
                    TraceModel {
                        label: TraceLabel::QueryChallenge,
                        bytes: challenged_bytes(session.request, token_bytes(datagram)),
                    },
                ]
            } else {
                seq![TraceModel { label: TraceLabel::Response, bytes: datagram }]
            }
        },
        (PhaseModel::AwaitingFinalResponse, EventModel::Received(datagram)) => seq![
            TraceModel { label: TraceLabel::ChallengedResponse, bytes: datagram },
        ],
        _ => Seq::empty(),
    }
}

/// What the step on `event` hands to the driver.
pub open spec fn step_for(session: SessionModel, event: EventModel) -> StepModel {
    StepModel { action: action_for(session, event), traces: traces_for(session, event) }
}

/// What holds of every session that `initial` and steps can reach.
pub open spec fn well_formed(session: SessionModel) -> bool {
    &&& session.request == request_bytes(session.kind)
    &&& session.token matches Some(token) ==> token.len() == TOKEN_LEN
    &&& match session.phase {
        PhaseModel::Resolving => session.endpoint is None && session.token is None,
        PhaseModel::Opening | PhaseModel::Sending | PhaseModel::AwaitingFirstResponse => {
            session.endpoint is Some && session.token is None
        },
        PhaseModel::Resending | PhaseModel::AwaitingFinalResponse => session.endpoint is Some
            && session.token is Some,
        PhaseModel::Done(_) => session.endpoint is Some,
        PhaseModel::Failed(QueryError::AddressResolution) => session.endpoint is None
            && session.token is None,
        PhaseModel::Failed(QueryError::Transport(TransportOp::Open)) => session.endpoint is Some
            && session.token is None,
        PhaseModel::Failed(_) => session.endpoint is Some,
    }
}

/// The session after a sequence of events.
pub open spec fn run_session(session: SessionModel, events: Seq<EventModel>) -> SessionModel
    decreases events.len(),
{
    if events.len() == 0 {
        session
    } else {
        run_session(next_session(session, events[0]), events.drop_first())
    }
}

/// The actions that the steps on a sequence of events ask for, in order.
pub open spec fn run_actions(session: SessionModel, events: Seq<EventModel>) -> Seq<ActionModel>
    decreases events.len(),
{
    if events.len() == 0 {
        Seq::empty()
    } else {
        seq![action_for(session, events[0])] + run_actions(
            next_session(session, events[0]),
            events.drop_first(),
        )
    }
}

/// The kinds of action that cost something: a socket, a datagram, a wait.
pub enum Asked {
    /// Opening a socket.
    Open,
    /// Sending a datagram.
    Send,
    /// Waiting for a datagram.
    Receive,
    /// Releasing the socket.
    Release,
}

/// Whether `action` is of the kind `what`.
pub open spec fn asks(action: ActionModel, what: Asked) -> bool {
    match what {
        Asked::Open => action is Open,
        Asked::Send => action is Send,
        Asked::Receive => action is Receive,
        Asked::Release => action is Release,
    }
}

/// How many of `actions` are of the kind `what`.
pub open spec fn count(actions: Seq<ActionModel>, what: Asked) -> nat
    decreases actions.len(),
{
    if actions.len() == 0 {
        0
    } else {
        let rest = count(actions.drop_first(), what);
        if asks(actions[0], what) {
            rest + 1
        } else {
            rest
        }
    }
}

/// Whether the session got as far as asking for a socket.
pub open spec fn reached_opening(session: SessionModel) -> bool {
    !(session.phase is Resolving) && session.phase != PhaseModel::Failed(
        QueryError::AddressResolution,
    )
}

/// Whether the session got as far as sending its request.
pub open spec fn reached_sending(session: SessionModel) -> bool {
    reached_opening(session) && !(session.phase is Opening) && session.phase != PhaseModel::Failed(
        QueryError::Transport(TransportOp::Open),
    )
}

/// How many actions of the kind `what` a session in this state has asked
/// for since it was created. The state alone tells.
pub open spec fn asked_so_far(session: SessionModel, what: Asked) -> nat {
    let challenged = session.token is Some;
    match what {
        Asked::Open => if reached_opening(session) {
            1
        } else {
            0
        },
        Asked::Send => if !reached_sending(session) {
            0
        } else if challenged {
            2
        } else {
            1
        },
        Asked::Receive => match session.phase {
            PhaseModel::AwaitingFirstResponse | PhaseModel::Resending => 1,
            PhaseModel::AwaitingFinalResponse => 2,
            PhaseModel::Done(_) | PhaseModel::Failed(QueryError::Transport(TransportOp::Receive)) => {
                if challenged {
                    2
                } else {
                    1
                }
            },
            PhaseModel::Failed(QueryError::Transport(TransportOp::Send)) => if challenged {
                1
            } else {
                0
            },
            _ => 0,
        },
        Asked::Release => if is_terminal(session.phase) && reached_sending(session) {
            1
        } else {
            0
        },
    }
}

/// A new session is well formed.
pub proof fn lemma_initial_well_formed(address: Seq<char>, kind: QueryKind)
    ensures
        well_formed(initial(address, kind)),
        forall|what: Asked| asked_so_far(initial(address, kind), what) == 0,
{
}

/// A step keeps a session well formed, and never touches what it queries:
/// the address, the kind and the request stay as they were.
pub proof fn lemma_step_keeps_well_formed(session: SessionModel, event: EventModel)
    requires
        well_formed(session),
    ensures
        well_formed(next_session(session, event)),
        next_session(session, event).address == session.address,
        next_session(session, event).kind == session.kind,
        next_session(session, event).request == session.request,
{
}

/// A session that is over stays as it is, reports nothing and asks for nothing.
pub proof fn lemma_terminal_absorbs(session: SessionModel, event: EventModel)
    requires
        is_terminal(session.phase),
    ensures
        next_session(session, event) == session,
        action_for(session, event) == ActionModel::Stop,
        traces_for(session, event) == Seq::<TraceModel>::empty(),
{
}

/// Every step that does not get the success it waits for ends the session
/// with the error of what was asked, and releases the socket if one is held.
pub proof fn lemma_failure_ends_session(session: SessionModel, event: EventModel)
    requires
        !is_terminal(session.phase),
        !awaited(session.phase, event),
    ensures
        next_session(session, event).phase == PhaseModel::Failed(failure_of(session.phase)),
        action_for(session, event) == if holds_binding(session.phase) {
            ActionModel::Release
        } else {
            ActionModel::Stop
        },
        traces_for(session, event) == Seq::<TraceModel>::empty(),
{
}

/// A step tells the driver to stop, with or without a release, exactly when
/// the session is over after it; and it asks for the release exactly when
/// the step ends a session that holds a socket.
pub proof fn lemma_stops_when_over(session: SessionModel, event: EventModel)
    requires
        well_formed(session),
    ensures
        (action_for(session, event) is Stop || action_for(session, event) is Release)
            <==> is_terminal(next_session(session, event).phase),
        action_for(session, event) is Release <==> holds_binding(session.phase) && is_terminal(
            next_session(session, event).phase,
        ),
        holds_binding(next_session(session, event).phase) ==> holds_binding(session.phase)
            || session.phase is Opening,
{
}

/// A session asks for one thing at a time, and for each only when what it
/// rests on is done: for a socket when the address has resolved, for a
/// datagram to go out when the socket is open or a challenge has come in,
/// and for a datagram to come in when the one before has gone out.
pub proof fn lemma_actions_answer_events(session: SessionModel, event: EventModel)
    requires
        well_formed(session),
    ensures
        action_for(session, event) is Open ==> {
            &&& session.phase is Resolving
            &&& event is Resolved
            &&& event->Resolved_0.len() > 0
            &&& action_for(session, event) == ActionModel::Open(event->Resolved_0[0])
        },
        action_for(session, event) is Send ==> {
            ||| session.phase is Opening && event is Opened
            ||| session.phase is AwaitingFirstResponse && event is Received && is_challenge(
                event->Received_0,
            )
        },
        action_for(session, event) is Receive ==> {
            &&& session.phase is Sending || session.phase is Resending
            &&& event is Sent
        },
        !(action_for(session, event) is Resolve),
{
}

/// Every datagram that a session sends is its request, alone or followed
/// by the four bytes of the token that the server sent.
pub proof fn lemma_sends_the_request(session: SessionModel, event: EventModel)
    requires
        well_formed(session),
        action_for(session, event) is Send,
    ensures
        ({
            let datagram = action_for(session, event)->Send_0;
            let next = next_session(session, event);
            &&& datagram == outgoing(next)
            &&& datagram.subrange(0, REQUEST_LEN as int) == request_bytes(session.kind)
            &&& next.token is None ==> datagram.len() == REQUEST_LEN
            &&& next.token is Some ==> datagram.len() == REQUEST_LEN + TOKEN_LEN
                && datagram.subrange(REQUEST_LEN as int, REQUEST_LEN + TOKEN_LEN) == next.token->0
        }),
{
    let next = next_session(session, event);
    lemma_request_layout(session.kind);
    lemma_step_keeps_well_formed(session, event);
    if next.token is Some {
        lemma_challenged_layout(next.request, next.token->0);
    }
}

/// One step asks for exactly what separates the states before and after it.
pub proof fn lemma_step_accounts(session: SessionModel, event: EventModel, what: Asked)
    requires
        well_formed(session),
    ensures
        asked_so_far(next_session(session, event), what) == asked_so_far(session, what) + (if asks(
            action_for(session, event),
            what,
        ) {
            1nat
        } else {
            0nat
        }),
{
}

/// Along every sequence of events a session stays well formed and keeps its
/// address, kind and request, and the actions it has asked for are those
/// that its state accounts for.
pub proof fn lemma_run_accounts(session: SessionModel, events: Seq<EventModel>, what: Asked)
    requires
        well_formed(session),
    ensures
        well_formed(run_session(session, events)),
        run_session(session, events).address == session.address,
        run_session(session, events).kind == session.kind,
        run_session(session, events).request == session.request,
        run_actions(session, events).len() == events.len(),
        asked_so_far(run_session(session, events), what) == asked_so_far(session, what) + count(
            run_actions(session, events),
            what,
        ),
    decreases events.len(),
{
    if events.len() > 0 {
        let next = next_session(session, events[0]);
        let rest = events.drop_first();
        let first = seq![action_for(session, events[0])];
        lemma_step_keeps_well_formed(session, events[0]);
        lemma_step_accounts(session, events[0], what);
        lemma_run_accounts(next, rest, what);
        assert((first + run_actions(next, rest)).drop_first() =~= run_actions(next, rest));
    }
}

/// Whatever the driver reports, a session asks for at most one socket, sends
/// at most two datagrams, never waits for a datagram without having sent
/// one for it, and releases its socket at most once.
pub proof fn law_bounded_exchange(address: Seq<char>, kind: QueryKind, events: Seq<EventModel>)
    ensures
        ({
            let actions = run_actions(initial(address, kind), events);
            &&& count(actions, Asked::Open) <= 1
            &&& count(actions, Asked::Send) <= 2
            &&& count(actions, Asked::Receive) <= count(actions, Asked::Send)
            &&& count(actions, Asked::Send) <= count(actions, Asked::Receive) + 1
            &&& count(actions, Asked::Release) <= count(actions, Asked::Open)
        }),
{
    let start = initial(address, kind);
    lemma_initial_well_formed(address, kind);
    lemma_run_accounts(start, events, Asked::Open);
    lemma_run_accounts(start, events, Asked::Send);
    lemma_run_accounts(start, events, Asked::Receive);
    lemma_run_accounts(start, events, Asked::Release);
}

/// A session that ends with a response has sent one datagram and received
/// one if the server did not challenge it, two and two if it did, and has
/// released its socket.
pub proof fn law_done_exchange(address: Seq<char>, kind: QueryKind, events: Seq<EventModel>)
    requires
        run_session(initial(address, kind), events).phase is Done,
    ensures
        ({
            let actions = run_actions(initial(address, kind), events);
            let trips: nat = if run_session(initial(address, kind), events).token is Some {
                2
            } else {
                1
            };
            &&& count(actions, Asked::Open) == 1
            &&& count(actions, Asked::Send) == trips
            &&& count(actions, Asked::Receive) == trips
            &&& count(actions, Asked::Release) == 1
        }),
{
    let start = initial(address, kind);
    lemma_initial_well_formed(address, kind);
    lemma_run_accounts(start, events, Asked::Open);
    lemma_run_accounts(start, events, Asked::Send);
    lemma_run_accounts(start, events, Asked::Receive);
    lemma_run_accounts(start, events, Asked::Release);
}

/// A session that fails also releases the socket it held: once if it had
/// got one, never if it had not.
pub proof fn law_socket_released(address: Seq<char>, kind: QueryKind, events: Seq<EventModel>)
    requires
        is_terminal(run_session(initial(address, kind), events).phase),
    ensures
        ({
            let actions = run_actions(initial(address, kind), events);
            let end = run_session(initial(address, kind), events);
            count(actions, Asked::Release) == if reached_sending(end) {
                1nat
            } else {
                0nat
            }
        }),
{
    lemma_initial_well_formed(address, kind);
    lemma_run_accounts(initial(address, kind), events, Asked::Release);
}

/// A session whose address names no endpoint fails before it asks for a
/// socket: it never opens, sends, receives or releases anything.
pub proof fn law_resolution_failure_opens_nothing(
    address: Seq<char>,
    kind: QueryKind,
    events: Seq<EventModel>,
    what: Asked,
)
    requires
        run_session(initial(address, kind), events).phase == PhaseModel::Failed(
            QueryError::AddressResolution,
        ),
    ensures
        count(run_actions(initial(address, kind), events), what) == 0,
{
    lemma_initial_well_formed(address, kind);
    lemma_run_accounts(initial(address, kind), events, what);
}

/// The first event decides a resolution: an empty answer, or anything that
/// is no answer, fails the session with the resolution error, and the step
/// asks for nothing.
pub proof fn law_unresolved_address_fails(address: Seq<char>, kind: QueryKind, event: EventModel)
    requires
        !(event matches EventModel::Resolved(candidates) && candidates.len() > 0),
    ensures
        next_session(initial(address, kind), event).phase == PhaseModel::Failed(
            QueryError::AddressResolution,
        ),
        action_for(initial(address, kind), event) == ActionModel::Stop,
{
}

/// The events of an exchange that the server answers at once.
pub open spec fn plain_exchange(candidates: Seq<Endpoint>, reply: Seq<u8>) -> Seq<EventModel> {
    seq![
        EventModel::Resolved(candidates),
        EventModel::Opened,
        EventModel::Sent,
        EventModel::Received(reply),
    ]
}

/// The events of an exchange in which the server first sends a challenge.
pub open spec fn challenged_exchange(
    candidates: Seq<Endpoint>,
    challenge: Seq<u8>,
    reply: Seq<u8>,
) -> Seq<EventModel> {
    seq![
        EventModel::Resolved(candidates),
        EventModel::Opened,
        EventModel::Sent,
        EventModel::Received(challenge),
        EventModel::Sent,
        EventModel::Received(reply),
    ]
}

/// When the first datagram of the server is no challenge, the session ends
/// with that datagram as its payload, after one request and one receive.
pub proof fn law_plain_exchange(
    address: Seq<char>,
    kind: QueryKind,
    candidates: Seq<Endpoint>,
    reply: Seq<u8>,
)
    requires
        candidates.len() > 0,
        !is_challenge(reply),
    ensures
        run_session(initial(address, kind), plain_exchange(candidates, reply)).phase
            == PhaseModel::Done(reply),
        run_actions(initial(address, kind), plain_exchange(candidates, reply)) == seq![
            ActionModel::Open(candidates[0]),
            ActionModel::Send(request_bytes(kind)),
            ActionModel::Receive,
            ActionModel::Release,
        ],
{
    let events = plain_exchange(candidates, reply);
    let s0 = initial(address, kind);
    let s1 = next_session(s0, events[0]);
    let s2 = next_session(s1, events[1]);
    let s3 = next_session(s2, events[2]);
    let s4 = next_session(s3, events[3]);
    let e1 = events.drop_first();
    let e2 = e1.drop_first();
    let e3 = e2.drop_first();
    let e4 = e3.drop_first();
    assert(run_session(s4, e4) == s4);
    assert(run_session(s3, e3) == s4);
    assert(run_session(s2, e2) == s4);
    assert(run_session(s1, e1) == s4);
    assert(run_actions(s4, e4) =~= Seq::<ActionModel>::empty());
    assert(run_actions(s3, e3) =~= seq![ActionModel::Release]);
    assert(run_actions(s2, e2) =~= seq![ActionModel::Receive, ActionModel::Release]);
    assert(run_actions(s1, e1) =~= seq![
        ActionModel::Send(request_bytes(kind)),
        ActionModel::Receive,
        ActionModel::Release,
    ]);
}

/// When the first datagram of the server is a challenge, the session sends
/// the request again with the token of the challenge appended, and ends with
/// the next datagram as its payload, whatever its length.
pub proof fn law_challenged_exchange(
    address: Seq<char>,
    kind: QueryKind,
    candidates: Seq<Endpoint>,
    challenge: Seq<u8>,
    reply: Seq<u8>,
)
    requires
        candidates.len() > 0,
        is_challenge(challenge),
    ensures
        run_session(
            initial(address, kind),
            challenged_exchange(candidates, challenge, reply),
        ).phase == PhaseModel::Done(reply),
        run_session(
            initial(address, kind),
            challenged_exchange(candidates, challenge, reply),
        ).token == Some(token_bytes(challenge)),
        run_actions(initial(address, kind), challenged_exchange(candidates, challenge, reply))
            == seq![
            ActionModel::Open(candidates[0]),
            ActionModel::Send(request_bytes(kind)),
            ActionModel::Receive,
            ActionModel::Send(challenged_bytes(request_bytes(kind), token_bytes(challenge))),
            ActionModel::Receive,
            ActionModel::Release,
        ],
{
    let events = challenged_exchange(candidates, challenge, reply);
    let again = ActionModel::Send(challenged_bytes(request_bytes(kind), token_bytes(challenge)));
    let s0 = initial(address, kind);
    let s1 = next_session(s0, events[0]);
    let s2 = next_session(s1, events[1]);
    let s3 = next_session(s2, events[2]);
    let s4 = next_session(s3, events[3]);
    let s5 = next_session(s4, events[4]);
    let s6 = next_session(s5, events[5]);
    let e1 = events.drop_first();
    let e2 = e1.drop_first();
    let e3 = e2.drop_first();
    let e4 = e3.drop_first();
    let e5 = e4.drop_first();
    let e6 = e5.drop_first();
    assert(run_session(s6, e6) == s6);
    assert(run_session(s5, e5) == s6);
    assert(run_session(s4, e4) == s6);
    assert(run_session(s3, e3) == s6);
    assert(run_session(s2, e2) == s6);
    assert(run_session(s1, e1) == s6);
    assert(run_actions(s6, e6) =~= Seq::<ActionModel>::empty());
    assert(run_actions(s5, e5) =~= seq![ActionModel::Release]);
    assert(run_actions(s4, e4) =~= seq![ActionModel::Receive, ActionModel::Release]);
    assert(run_actions(s3, e3) =~= seq![again, ActionModel::Receive, ActionModel::Release]);
    assert(run_actions(s2, e2) =~= seq![
        ActionModel::Receive,
        again,
        ActionModel::Receive,
        ActionModel::Release,
    ]);
    assert(run_actions(s1, e1) =~= seq![
        ActionModel::Send(request_bytes(kind)),
        ActionModel::Receive,
        again,
        ActionModel::Receive,
        ActionModel::Release,
    ]);
}

} // verus!
