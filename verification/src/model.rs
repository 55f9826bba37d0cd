//! A queue service to run the engine against.
//!
//! [`Queues`] is a dead-letter queue with its one source queue, kept by a
//! service that nobody else writes to. [`drive`] plays a driver: it carries
//! every action of the engine to the service and feeds the answer back,
//! and a [`Transit`] for each request says whether request and answer got
//! through. What a replay then comes to is said in [`crate::drain`] (when
//! nothing is lost on the way, the queue is drained) and in
//! [`crate::conservation`] (whatever is lost on the way, no message is).

use vstd::prelude::*;
use crate::error::TransportError;
use crate::engine::SessionView;
use crate::engine::StateView;
use crate::engine::transition;
use crate::message::MessageView;
use crate::protocol::ActionView;
use crate::protocol::EventView;

verus! {

/// A message as it arrives on the source queue: what a send carried.
pub struct Delivery<A> {
    pub body: Seq<char>,
    pub attributes: Option<A>,
}

/// A dead-letter queue and the one queue that redirects into it.
pub struct Queues<A> {
    /// The name the dead-letter queue goes by.
    pub dlq_name: Seq<char>,
    /// The address of the dead-letter queue.
    pub dlq_url: Seq<char>,
    /// The address of the source queue.
    pub source_url: Seq<char>,
    /// The messages waiting in the dead-letter queue, oldest first.
    pub dlq: Seq<MessageView<A>>,
    /// What has arrived on the source queue, oldest first.
    pub source: Seq<Delivery<A>>,
}

/// What forwarding `message` puts on the source queue.
pub open spec fn delivery_of<A>(message: MessageView<A>) -> Delivery<A> {
    Delivery { body: message.body->0, attributes: message.attributes }
}

/// What forwarding each of `messages` in turn puts on the source queue.
pub open spec fn deliveries_of<A>(messages: Seq<MessageView<A>>) -> Seq<Delivery<A>> {
    Seq::new(messages.len(), |i: int| delivery_of(messages[i]))
}

/// `messages` without the first one that was received under `handle`, or
/// `None` if no message was.
pub open spec fn without<A>(messages: Seq<MessageView<A>>, handle: Seq<char>) -> Option<
    Seq<MessageView<A>>,
>
    decreases messages.len(),
{
    if messages.len() == 0 {
        None
    } else if messages[0].receipt_handle == Some(handle) {
        Some(messages.drop_first())
    } else {
        match without(messages.drop_first(), handle) {
            Some(rest) => Some(seq![messages[0]] + rest),
            None => None,
        }
    }
}

/// What becomes of one request on its way to the service and back.
pub enum Transit {
    /// The request arrives and so does the answer.
    Delivered,
    /// The request is lost on the way: nothing happens, and the driver sees
    /// a failure.
    RequestLost,
    /// The request arrives and is carried out, but the answer is lost: the
    /// driver sees a failure all the same.
    AnswerLost,
}

/// Every request and every answer gets through.
pub open spec fn undisturbed(transits: Seq<Transit>) -> bool {
    forall|i: int| 0 <= i < transits.len() ==> (#[trigger] transits[i]) is Delivered
}

/// What a driver reports when the answer to a request never comes: the
/// failure of that request. The end of a pause is no answer and cannot be
/// lost.
pub open spec fn unanswered<A>(event: EventView<A>) -> EventView<A> {
    match event {
        EventView::NameResolved(_) => EventView::NameResolved(Err(TransportError)),
        EventView::SourcesListed(_) => EventView::SourcesListed(Err(TransportError)),
        EventView::Received(_) => EventView::Received(Err(TransportError)),
        EventView::Sent(_) => EventView::Sent(Err(TransportError)),
        EventView::Deleted(_) => EventView::Deleted(Err(TransportError)),
        EventView::Paused => EventView::Paused,
    }
}

impl<A> Queues<A> {
    /// The two queues are two: a queue does not feed itself.
    pub open spec fn well_formed(self) -> bool {
        self.dlq_url != self.source_url
    }

    /// Every waiting message has a body and a receipt handle.
    pub open spec fn all_replayable(self) -> bool {
        forall|i: int| 0 <= i < self.dlq.len() ==> (#[trigger] self.dlq[i]).replayable()
    }

    /// The session that replays these queues.
    pub open spec fn session(self, delay: u64) -> SessionView {
        SessionView { dlq: self.dlq_url, source: self.source_url, delay }
    }

    /// How the service answers `action`, and what the queues hold then;
    /// `None` for a stop, which asks nothing of anybody.
    ///
    /// A receive shows the oldest waiting message and leaves it in place; a
    /// send appends to the source queue; a delete takes out the message
    /// that was received under the handle. Requests for a queue the
    /// service does not keep, or a handle it never gave, are refused.
    pub open spec fn answer(self, action: ActionView<A>) -> Option<(Queues<A>, EventView<A>)> {
        match action {
            ActionView::ResolveName(name) => Some(
                (
                    self,
                    EventView::NameResolved(
                        Ok(
                            if name == self.dlq_name {
                                Some(self.dlq_url)
                            } else {
                                None
                            },
                        ),
                    ),
                ),
            ),
            ActionView::ListSources(url) => Some(
                (
                    self,
                    EventView::SourcesListed(
                        Ok(
                            if url == self.dlq_url {
                                seq![self.source_url]
                            } else {
                                Seq::empty()
                            },
                        ),
                    ),
                ),
            ),
            ActionView::Receive(request) => Some(
                (
                    self,
                    EventView::Received(
                        if request.queue_url != self.dlq_url {
                            Err(TransportError)
                        } else if self.dlq.len() > 0 {
                            Ok(Some(self.dlq[0]))
                        } else {
                            Ok(None)
                        },
                    ),
                ),
            ),
            ActionView::Send(request) => Some(
                if request.queue_url == self.source_url {
                    (
                        Queues {
                            source: self.source.push(
                                Delivery { body: request.body, attributes: request.attributes },
                            ),
                            ..self
                        },
                        EventView::Sent(Ok(())),
                    )
                } else {
                    (self, EventView::Sent(Err(TransportError)))
                },
            ),
            ActionView::Delete(request) => Some(
                if request.queue_url == self.dlq_url {
                    match without(self.dlq, request.receipt_handle) {
                        Some(rest) => (Queues { dlq: rest, ..self }, EventView::Deleted(Ok(()))),
                        None => (self, EventView::Deleted(Err(TransportError))),
                    }
                } else {
                    (self, EventView::Deleted(Err(TransportError)))
                },
            ),
            ActionView::Pause(_) => Some((self, EventView::Paused)),
            ActionView::Stop => None,
        }
    }

    /// What the driver gets to see for `action`, and what the queues hold
    /// then, when request and answer travel as `transit` says.
    pub open spec fn answer_in(self, action: ActionView<A>, transit: Transit) -> Option<
        (Queues<A>, EventView<A>),
    > {
        match self.answer(action) {
            Some((then, event)) => Some(
                match transit {
                    Transit::Delivered => (then, event),
                    Transit::RequestLost => (self, unanswered(event)),
                    Transit::AnswerLost => (then, unanswered(event)),
                },
            ),
            None => None,
        }
    }
}

/// How a driven session ended.
pub struct Outcome<A> {
    /// The state the engine was left in.
    pub state: StateView,
    /// What the queues hold.
    pub queues: Queues<A>,
    /// Every action the driver carried out, in order.
    pub performed: Seq<ActionView<A>>,
}

/// Drives the engine against `queues`: carries out the action in hand,
/// reports what came back, and goes on with what the engine says next,
/// until it says `Stop`. `transits` tells how each request in turn fares;
/// the drive breaks off where it runs out.
pub open spec fn drive<A>(
    queues: Queues<A>,
    now: (StateView, ActionView<A>),
    transits: Seq<Transit>,
) -> Outcome<A>
    decreases transits.len(),
{
    if transits.len() == 0 {
        Outcome { state: now.0, queues, performed: Seq::empty() }
    } else {
        match queues.answer_in(now.1, transits[0]) {
            Some((queues_then, event)) => {
                let rest = drive(queues_then, transition(now.0, event), transits.skip(1));
                Outcome {
                    state: rest.state,
                    queues: rest.queues,
                    performed: seq![now.1] + rest.performed,
                }
            },
            None => Outcome { state: now.0, queues, performed: Seq::empty() },
        }
    }
}

} // verus!
