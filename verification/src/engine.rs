//! The replay engine: receive, forward, acknowledge, pause, again.
//!
//! The engine is a state machine. It is started with [`begin`] (from a queue
//! name) or [`replay`] (from two addresses already resolved), each of which
//! hands out the first [`Action`]. After that the driver reports the
//! outcome of every action as an [`Event`] and [`step`] answers with the
//! next action, until that action is [`Action::Stop`].

use vstd::prelude::*;
use crate::error::ReplayError;
use crate::protocol::Action;
use crate::protocol::ActionView;
use crate::protocol::DeleteRequest;
use crate::protocol::DeleteRequestView;
use crate::protocol::Event;
use crate::protocol::EventView;
use crate::protocol::ReceiveRequest;
use crate::protocol::ReceiveRequestView;
use crate::protocol::SendRequest;
use crate::protocol::SendRequestView;
use crate::resolver::QueueAddress;
use crate::resolver::address_of;
use crate::resolver::lookup_dlq_source_url;
use crate::resolver::lookup_url;
use crate::resolver::source_of;

verus! {

/// The wait between two messages, in milliseconds, when the operator names
/// none.
pub const DEFAULT_DELAY_MILLIS: u64 = 1000;

/// What one replay works with, fixed for as long as it runs.
#[derive(Clone, Debug, PartialEq, Eq)]
pub struct Session {
    /// Address of the dead-letter queue being drained.
    pub dlq: QueueAddress,
    /// Address of the queue the messages go back to.
    pub source: QueueAddress,
    /// Milliseconds to wait after each message.
    pub delay: u64,
}

/// A [`Session`] as text.
pub struct SessionView {
    pub dlq: Seq<char>,
    pub source: Seq<char>,
    pub delay: u64,
}

impl View for Session {
    type V = SessionView;

    open spec fn view(&self) -> SessionView {
        SessionView { dlq: self.dlq@, source: self.source@, delay: self.delay }
    }
}

/// Where in the cycle for one message a draining engine stands. Each stage
/// is named for the request whose answer it waits for.
#[derive(Clone, Debug, PartialEq, Eq)]
pub enum Stage {
    /// A receive from the dead-letter queue is under way.
    Receive,
    /// A message is being sent to the source queue. Its receipt handle is
    /// kept for the delete that follows.
    Forward { receipt_handle: Option<String> },
    /// The forwarded message is being deleted from the dead-letter queue.
    Acknowledge,
    /// The wait before the next receive is under way.
    Pace,
}

/// A [`Stage`] as text.
pub enum StageView {
    Receive,
    Forward { receipt_handle: Option<Seq<char>> },
    Acknowledge,
    Pace,
}

impl View for Stage {
    type V = StageView;

    open spec fn view(&self) -> StageView {
        match self {
            Stage::Receive => StageView::Receive,
            Stage::Forward { receipt_handle } => StageView::Forward {
                receipt_handle: receipt_handle.deep_view(),
            },
            Stage::Acknowledge => StageView::Acknowledge,
            Stage::Pace => StageView::Pace,
        }
    }
}

/// The state of a session.
///
/// `Resolving` and `Listing` come first when the session starts from a
/// queue name. `Draining` is where messages move. `Done` and `Aborted` are
/// final.
#[derive(Clone, Debug, PartialEq, Eq)]
pub enum State {
    /// The address of the dead-letter queue is being looked up.
    Resolving { delay: u64 },
    /// The source queues of the dead-letter queue are being listed.
    Listing { dlq: QueueAddress, delay: u64 },
    /// Messages are being moved.
    Draining { session: Session, stage: Stage },
    /// The dead-letter queue was seen empty.
    Done,
    /// The session stopped on a failure.
    Aborted(ReplayError),
}

/// A [`State`] as text.
pub enum StateView {
    Resolving { delay: u64 },
    Listing { dlq: Seq<char>, delay: u64 },
    Draining { session: SessionView, stage: StageView },
    Done,
    Aborted(ReplayError),
}

impl View for State {
    type V = StateView;

    open spec fn view(&self) -> StateView {
        match self {
            State::Resolving { delay } => StateView::Resolving { delay: *delay },
            State::Listing { dlq, delay } => StateView::Listing { dlq: dlq@, delay: *delay },
            State::Draining { session, stage } => StateView::Draining {
                session: session@,
                stage: stage@,
            },
            State::Done => StateView::Done,
            State::Aborted(error) => StateView::Aborted(*error),
        }
    }
}

impl StateView {
    /// A session that is over, one way or the other.
    pub open spec fn is_final(self) -> bool {
        self is Done || self is Aborted
    }
}

/// The receive the engine issues: at most one message from the dead-letter
/// queue, with no wait time of its own.
pub open spec fn receive_from<A>(session: SessionView) -> ActionView<A> {
    ActionView::Receive(
        ReceiveRequestView { queue_url: session.dlq, max_messages: 1, wait_seconds: None },
    )
}

/// The send that forwards a message: same body, same attributes, to the
/// source queue, with neither a deduplication id nor a group id.
pub open spec fn forward_to<A>(
    session: SessionView,
    body: Seq<char>,
    attributes: Option<A>,
) -> ActionView<A> {
    ActionView::Send(
        SendRequestView {
            queue_url: session.source,
            body,
            attributes,
            deduplication_id: None,
            group_id: None,
        },
    )
}

/// The delete that acknowledges a forwarded message.
pub open spec fn acknowledge_in<A>(
    session: SessionView,
    receipt_handle: Seq<char>,
) -> ActionView<A> {
    ActionView::Delete(DeleteRequestView { queue_url: session.dlq, receipt_handle })
}

/// Where a failure leaves the session: aborted, with nothing more to do.
pub open spec fn aborted<A>(error: ReplayError) -> (StateView, ActionView<A>) {
    (StateView::Aborted(error), ActionView::Stop)
}

/// How a session starts from the name of a dead-letter queue.
pub open spec fn begin_spec<A>(queue_name: Seq<char>, delay: u64) -> (StateView, ActionView<A>) {
    (StateView::Resolving { delay }, ActionView::ResolveName(queue_name))
}

/// How a session starts from two resolved addresses: draining, with the
/// first receive.
pub open spec fn replay_spec<A>(session: SessionView) -> (StateView, ActionView<A>) {
    (StateView::Draining { session, stage: StageView::Receive }, receive_from(session))
}

/// The engine's one rule: from a state and the outcome of the action last
/// handed out, the next state and the next action.
///
/// Every state waits for the answer to one request, and only a good answer
/// to that request lets the session go on. Anything else, a reported
/// failure or an event that answers some other request, aborts the session
/// with the error of the step that was under way. A message is checked for
/// its body before it is sent and for its receipt handle only once it has
/// been sent, so one without a handle is forwarded and then left on the
/// dead-letter queue. A session that is over takes no further step.
pub open spec fn transition<A>(state: StateView, event: EventView<A>) -> (
    StateView,
    ActionView<A>,
) {
    match state {
        StateView::Resolving { delay } => match event {
            EventView::NameResolved(reply) => match address_of(reply) {
                Ok(dlq) => (StateView::Listing { dlq, delay }, ActionView::ListSources(dlq)),
                Err(error) => aborted(error),
            },
            _ => aborted(ReplayError::LookupFailed),
        },
        StateView::Listing { dlq, delay } => match event {
            EventView::SourcesListed(reply) => match source_of(reply) {
                Ok(source) => replay_spec(SessionView { dlq, source, delay }),
                Err(error) => aborted(error),
            },
            _ => aborted(ReplayError::LookupFailed),
        },
        StateView::Draining { session, stage } => match stage {
            StageView::Receive => match event {
                EventView::Received(Ok(None)) => (StateView::Done, ActionView::Stop),
                EventView::Received(Ok(Some(message))) => match message.body {
                    Some(body) => (
                        StateView::Draining {
                            session,
                            stage: StageView::Forward { receipt_handle: message.receipt_handle },
                        },
                        forward_to(session, body, message.attributes),
                    ),
                    None => aborted(ReplayError::ForwardFailed),
                },
                _ => aborted(ReplayError::TransportFailed),
            },
            StageView::Forward { receipt_handle } => match event {
                EventView::Sent(Ok(_)) => match receipt_handle {
                    Some(handle) => (
                        StateView::Draining { session, stage: StageView::Acknowledge },
                        acknowledge_in(session, handle),
                    ),
                    None => aborted(ReplayError::AckFailed),
                },
                _ => aborted(ReplayError::ForwardFailed),
            },
            StageView::Acknowledge => match event {
                EventView::Deleted(Ok(_)) => (
                    StateView::Draining { session, stage: StageView::Pace },
                    ActionView::Pause(session.delay),
                ),
                _ => aborted(ReplayError::AckFailed),
            },
            StageView::Pace => match event {
                EventView::Paused => replay_spec(session),
                _ => aborted(ReplayError::TransportFailed),
            },
        },
        StateView::Done => (StateView::Done, ActionView::Stop),
        StateView::Aborted(error) => aborted(error),
    }
}

impl State {
    /// Whether the session is over.
    pub fn is_final(&self) -> (over: bool)
        ensures
            over == self@.is_final(),
    {
        match self {
            State::Done => true,
            State::Aborted(_) => true,
            _ => false,
        }
    }

    /// The failure the session stopped on, if it did.
    pub fn error(&self) -> (failure: Option<ReplayError>)
        ensures
            failure == (match self@ {
                StateView::Aborted(error) => Some(error),
                _ => None,
            }),
    {
        match self {
            State::Aborted(error) => Some(*error),
            _ => None,
        }
    }
}

/// Starts a session from the name of a dead-letter queue. The engine will
/// resolve the name, find the one source queue, and then drain.
pub fn begin<A>(queue_name: String, delay: u64) -> (first: (State, Action<A>))
    ensures
        (first.0@, first.1@) == begin_spec::<A>(queue_name@, delay),
{
    (State::Resolving { delay }, Action::ResolveName(queue_name))
}

/// Starts draining `from_queue` into `to_queue`, waiting `delay`
/// milliseconds after each message.
pub fn replay<A>(from_queue: QueueAddress, to_queue: QueueAddress, delay: u64) -> (first: (
    State,
    Action<A>,
))
    ensures
        (first.0@, first.1@) == replay_spec::<A>(
            SessionView { dlq: from_queue@, source: to_queue@, delay },
        ),
{
    drain(Session { dlq: from_queue, source: to_queue, delay })
}

/// Takes the engine one step: `event` is what came of the action handed
/// out last.
pub fn step<A>(state: State, event: Event<A>) -> (next: (State, Action<A>))
    ensures
        (next.0@, next.1@) == transition(state@, event@),
{
    match state {
        State::Resolving { delay } => match event {
            Event::NameResolved(reply) => match lookup_url(reply) {
                Ok(dlq) => {
                    let listed = dlq.url();
                    (State::Listing { dlq, delay }, Action::ListSources(listed))
                },
                Err(error) => abort(error),
            },
            _ => abort(ReplayError::LookupFailed),
        },
        State::Listing { dlq, delay } => match event {
            Event::SourcesListed(reply) => match lookup_dlq_source_url(reply) {
                Ok(source) => drain(Session { dlq, source, delay }),
                Err(error) => abort(error),
            },
            _ => abort(ReplayError::LookupFailed),
        },
        State::Draining { session, stage } => match stage {
            Stage::Receive => match event {
                Event::Received(Ok(None)) => (State::Done, Action::Stop),
                Event::Received(Ok(Some(message))) => match message.body {
                    Some(body) => {
                        let request = SendRequest {
                            queue_url: session.source.url(),
                            body,
                            attributes: message.attributes,
                            deduplication_id: None,
                            group_id: None,
                        };
                        let stage = Stage::Forward { receipt_handle: message.receipt_handle };
                        (State::Draining { session, stage }, Action::Send(request))
                    },
                    None => abort(ReplayError::ForwardFailed),
                },
                _ => abort(ReplayError::TransportFailed),
            },
            Stage::Forward { receipt_handle } => match event {
                Event::Sent(Ok(_)) => match receipt_handle {
                    Some(handle) => {
                        let request = DeleteRequest {
                            queue_url: session.dlq.url(),
                            receipt_handle: handle,
                        };
                        (
                            State::Draining { session, stage: Stage::Acknowledge },
                            Action::Delete(request),
                        )
                    },
                    None => abort(ReplayError::AckFailed),
                },
                _ => abort(ReplayError::ForwardFailed),
            },
            Stage::Acknowledge => match event {
                Event::Deleted(Ok(_)) => {
                    let millis: u64 = session.delay;
                    (State::Draining { session, stage: Stage::Pace }, Action::Pause(millis))
                },
                _ => abort(ReplayError::AckFailed),
            },
            Stage::Pace => match event {
                Event::Paused => drain(session),
                _ => abort(ReplayError::TransportFailed),
            },
        },
        State::Done => (State::Done, Action::Stop),
        State::Aborted(error) => abort(error),
    }
}

/// Enters the receive stage of `session`.
fn drain<A>(session: Session) -> (next: (State, Action<A>))
    ensures
        (next.0@, next.1@) == replay_spec::<A>(session@),
{
    let request = ReceiveRequest {
        queue_url: session.dlq.url(),
        max_messages: 1,
        wait_seconds: None,
    };
    (State::Draining { session, stage: Stage::Receive }, Action::Receive(request))
}

/// Ends the session on `error`.
fn abort<A>(error: ReplayError) -> (next: (State, Action<A>))
    ensures
        (next.0@, next.1@) == aborted::<A>(error),
{
    (State::Aborted(error), Action::Stop)
}

} // verus!
