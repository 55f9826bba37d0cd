//! What holds of every run of the engine, whatever the queue service does.
//!
//! A run is a starting point, as [`begin`](crate::engine::begin) or
//! [`replay`](crate::engine::replay) gives it, and the events a driver
//! reported in order. Nothing is assumed of the events: they may report
//! failures, or answer requests that were never made.

use vstd::prelude::*;
use crate::error::ReplayError;
use crate::engine::SessionView;
use crate::engine::StageView;
use crate::engine::StateView;
use crate::engine::aborted;
use crate::engine::acknowledge_in;
use crate::engine::begin_spec;
use crate::engine::forward_to;
use crate::engine::receive_from;
use crate::engine::transition;
use crate::protocol::ActionView;
use crate::protocol::EventView;
use crate::resolver::address_of;
use crate::resolver::source_of;

verus! {

/// The state reached, and the action handed out last, once every one of
/// `events` has been reported.
pub open spec fn run<A>(start: (StateView, ActionView<A>), events: Seq<EventView<A>>) -> (
    StateView,
    ActionView<A>,
)
    decreases events.len(),
{
    if events.len() == 0 {
        start
    } else {
        transition(run(start, events.drop_last()).0, events.last())
    }
}

/// The state reached, and the action handed out last, once the first `n`
/// of `events` have been reported.
pub open spec fn after<A>(start: (StateView, ActionView<A>), events: Seq<EventView<A>>, n: int) -> (
    StateView,
    ActionView<A>,
) {
    run(start, events.take(n))
}

/// A starting point: the name lookup that opens a session begun from a
/// queue name, or the first receive of one begun from two addresses.
pub open spec fn is_start<A>(start: (StateView, ActionView<A>)) -> bool {
    match start.0 {
        StateView::Resolving { .. } => start.1 is ResolveName,
        StateView::Draining { session, stage } => stage is Receive && start.1 == receive_from::<A>(
            session,
        ),
        _ => false,
    }
}

/// The action in hand is the one the state waits on.
///
/// While draining, a receive and a delete name the dead-letter queue, a
/// send names the source queue and carries neither a deduplication id nor
/// a group id, and a pause lasts as long as the session's delay. A session
/// that is over has only `Stop` in hand.
pub open spec fn in_step<A>(now: (StateView, ActionView<A>)) -> bool {
    match now.0 {
        StateView::Resolving { .. } => now.1 is ResolveName,
        StateView::Listing { dlq, .. } => now.1 == ActionView::<A>::ListSources(dlq),
        StateView::Draining { session, stage } => match stage {
            StageView::Receive => now.1 == receive_from::<A>(session),
            StageView::Forward { .. } => {
                &&& now.1 matches ActionView::Send(request)
                &&& request.queue_url == session.source
                &&& request.deduplication_id is None
                &&& request.group_id is None
            },
            StageView::Acknowledge => {
                &&& now.1 matches ActionView::Delete(request)
                &&& request.queue_url == session.dlq
            },
            StageView::Pace => now.1 == ActionView::<A>::Pause(session.delay),
        },
        StateView::Done => now.1 is Stop,
        StateView::Aborted(_) => now.1 is Stop,
    }
}

/// Reporting one more event moves a run on by one transition.
pub proof fn lemma_after_next<A>(
    start: (StateView, ActionView<A>),
    events: Seq<EventView<A>>,
    n: int,
)
    requires
        0 <= n < events.len(),
    ensures
        after(start, events, n + 1) == transition(after(start, events, n).0, events[n]),
{
    let longer = events.take(n + 1);
    assert(longer.drop_last() =~= events.take(n));
    assert(longer.last() == events[n]);
}

/// At every point of a run the action in hand is the one the state waits
/// on: the engine never has two requests under way, and never stops while
/// it is still draining.
pub proof fn law_one_request_at_a_time<A>(
    start: (StateView, ActionView<A>),
    events: Seq<EventView<A>>,
    n: int,
)
    requires
        is_start(start),
        0 <= n <= events.len(),
    ensures
        in_step(after(start, events, n)),
{
    if n > 0 {
        lemma_after_next(start, events, n - 1);
    } else {
        assert(events.take(0) =~= Seq::<EventView<A>>::empty());
    }
}

/// Once a session is over it stays over: the state no longer changes and
/// every further action is `Stop`.
pub proof fn law_final_states_absorb<A>(
    start: (StateView, ActionView<A>),
    events: Seq<EventView<A>>,
    n: int,
    m: int,
)
    requires
        0 <= n <= m <= events.len(),
        after(start, events, n).0.is_final(),
    ensures
        after(start, events, m).0 == after(start, events, n).0,
        m > n ==> after(start, events, m).1 is Stop,
    decreases m - n,
{
    if m > n {
        law_final_states_absorb(start, events, n, m - 1);
        lemma_after_next(start, events, m - 1);
    }
}

/// A session ends `Done` for one reason only: a receive from the
/// dead-letter queue came back empty. Returns the place of the event that
/// said so.
pub proof fn law_done_means_seen_empty<A>(
    start: (StateView, ActionView<A>),
    events: Seq<EventView<A>>,
    n: int,
) -> (k: int)
    requires
        is_start(start),
        0 <= n <= events.len(),
        after(start, events, n).0 is Done,
    ensures
        0 <= k < n,
        events[k] == EventView::<A>::Received(Ok(None)),
        ({
            &&& after(start, events, k).0 matches StateView::Draining { session, stage }
            &&& stage is Receive
            &&& after(start, events, k).1 == receive_from::<A>(session)
        }),
    decreases n,
{
    assert(events.take(0) =~= Seq::<EventView<A>>::empty());
    lemma_after_next(start, events, n - 1);
    if after(start, events, n - 1).0 is Done {
        law_done_means_seen_empty(start, events, n - 1)
    } else {
        law_one_request_at_a_time(start, events, n - 1);
        n - 1
    }
}

/// Whatever is sent is the message that was just received, unchanged.
///
/// If the action in hand after `n` events is a send, then the last event
/// delivered a message with a body, and the send carries that body and
/// that message's attributes to the session's source queue.
pub proof fn law_send_carries_the_received_message<A>(
    start: (StateView, ActionView<A>),
    events: Seq<EventView<A>>,
    n: int,
)
    requires
        is_start(start),
        0 <= n <= events.len(),
        after(start, events, n).1 is Send,
    ensures
        n >= 1,
        ({
            &&& after(start, events, n - 1).0 matches StateView::Draining { session, .. }
            &&& events[n - 1] matches EventView::Received(Ok(Some(message)))
            &&& message.body matches Some(body)
            &&& after(start, events, n).1 == forward_to(session, body, message.attributes)
        }),
{
    assert(events.take(0) =~= Seq::<EventView<A>>::empty());
    lemma_after_next(start, events, n - 1);
}

/// A delete is only ever asked for right after the send of the same
/// message was reported to have succeeded. A session cut short between
/// the two leaves the message on both queues; no message is taken off the
/// dead-letter queue before it has reached the source queue.
///
/// If the action in hand after `n` events is a delete, then the event
/// before last delivered a message, the action that followed was the send
/// of that message's body and attributes to the source queue, the last
/// event reported that send as done, and the delete names that message's
/// receipt handle in the dead-letter queue.
pub proof fn law_delete_follows_forward<A>(
    start: (StateView, ActionView<A>),
    events: Seq<EventView<A>>,
    n: int,
)
    requires
        is_start(start),
        0 <= n <= events.len(),
        after(start, events, n).1 is Delete,
    ensures
        n >= 2,
        events[n - 1] matches EventView::Sent(Ok(_)),
        ({
            &&& after(start, events, n - 2).0 matches StateView::Draining { session, .. }
            &&& events[n - 2] matches EventView::Received(Ok(Some(message)))
            &&& message.body matches Some(body)
            &&& message.receipt_handle matches Some(handle)
            &&& after(start, events, n - 1).1 == forward_to(session, body, message.attributes)
            &&& after(start, events, n).1 == acknowledge_in::<A>(session, handle)
        }),
{
    assert(events.take(0) =~= Seq::<EventView<A>>::empty());
    assert(n >= 1);
    lemma_after_next(start, events, n - 1);
    assert(n >= 2);
    lemma_after_next(start, events, n - 2);
}

/// A send or a delete that fails ends the session: whatever is reported
/// afterwards, the engine asks for nothing more, so no further message is
/// received.
pub proof fn law_failure_halts<A>(
    start: (StateView, ActionView<A>),
    events: Seq<EventView<A>>,
    n: int,
    m: int,
)
    requires
        0 <= n < m <= events.len(),
        ({
            &&& after(start, events, n).0 matches StateView::Draining { stage, .. }
            &&& stage is Forward || stage is Acknowledge
            &&& stage is Forward ==> !(events[n] matches EventView::Sent(Ok(_)))
            &&& stage is Acknowledge ==> !(events[n] matches EventView::Deleted(Ok(_)))
        }),
    ensures
        ({
            &&& after(start, events, n).0 matches StateView::Draining { stage, .. }
            &&& stage is Forward ==> after(start, events, m) == aborted::<A>(
                ReplayError::ForwardFailed,
            )
            &&& stage is Acknowledge ==> after(start, events, m) == aborted::<A>(
                ReplayError::AckFailed,
            )
        }),
{
    lemma_after_next(start, events, n);
    law_final_states_absorb(start, events, n + 1, m);
    if m > n + 1 {
        lemma_after_next(start, events, m - 1);
    }
}

/// In a session begun from a queue name, no message is received, sent or
/// deleted unless the name resolved and the listing named exactly one
/// source queue; the session then works on those two addresses.
pub proof fn law_messages_wait_for_the_source<A>(
    queue_name: Seq<char>,
    delay: u64,
    events: Seq<EventView<A>>,
    n: int,
)
    requires
        0 <= n <= events.len(),
        after(begin_spec::<A>(queue_name, delay), events, n).1.touches_messages(),
    ensures
        n >= 2,
        ({
            &&& events[0] matches EventView::NameResolved(Ok(Some(dlq)))
            &&& events[1] matches EventView::SourcesListed(Ok(sources))
            &&& sources.len() == 1
            &&& after(begin_spec::<A>(queue_name, delay), events, n).0 matches StateView::Draining {
                session,
                ..
            }
            &&& session == (SessionView { dlq, source: sources[0], delay })
        }),
{
    let start = begin_spec::<A>(queue_name, delay);
    law_one_request_at_a_time(start, events, n);
    lemma_session_comes_from_lookups(queue_name, delay, events, n);
}

/// A dead-letter queue without a source, or with more than one, ends the
/// session where it is found out: the session is aborted with the error
/// for that count and stays so, and all the engine says from then on is
/// `Stop`.
pub proof fn law_refused_source_ends_the_session<A>(
    queue_name: Seq<char>,
    delay: u64,
    events: Seq<EventView<A>>,
    m: int,
)
    requires
        2 <= m <= events.len(),
        events[0] matches EventView::NameResolved(Ok(Some(_))),
        events[1] matches EventView::SourcesListed(Ok(sources)) && sources.len() != 1,
    ensures
        events[1] matches EventView::SourcesListed(Ok(sources)) && after(
            begin_spec::<A>(queue_name, delay),
            events,
            m,
        ) == aborted::<A>(
            if sources.len() == 0 {
                ReplayError::NoSourceFound
            } else {
                ReplayError::AmbiguousSource
            },
        ),
{
    let start = begin_spec::<A>(queue_name, delay);
    assert(events.take(0) =~= Seq::<EventView<A>>::empty());
    lemma_after_next(start, events, 0);
    lemma_after_next(start, events, 1);
    law_final_states_absorb(start, events, 2, m);
    if m > 2 {
        lemma_after_next(start, events, m - 1);
    }
}

/// In a session begun from a queue name, each lookup is made once: the
/// name is resolved before anything is reported, the sources are listed
/// right after the name resolved, and neither is asked for again however
/// long the session runs.
pub proof fn law_lookups_happen_once<A>(
    queue_name: Seq<char>,
    delay: u64,
    events: Seq<EventView<A>>,
    n: int,
)
    requires
        0 <= n <= events.len(),
    ensures
        after(begin_spec::<A>(queue_name, delay), events, n).1 is ResolveName <==> n == 0,
        after(begin_spec::<A>(queue_name, delay), events, n).1 is ListSources ==> n == 1,
{
    let start = begin_spec::<A>(queue_name, delay);
    law_one_request_at_a_time(start, events, n);
    lemma_session_comes_from_lookups(queue_name, delay, events, n);
    if n == 0 {
        assert(events.take(0) =~= Seq::<EventView<A>>::empty());
    }
}

/// In a session begun from a queue name, the state tells how far the
/// lookups have come: resolving before any event, listing after the name
/// resolved, draining only on the addresses the two lookups gave.
proof fn lemma_session_comes_from_lookups<A>(
    queue_name: Seq<char>,
    delay: u64,
    events: Seq<EventView<A>>,
    n: int,
)
    requires
        0 <= n <= events.len(),
    ensures
        ({
            let now = after(begin_spec::<A>(queue_name, delay), events, n).0;
            match now {
                StateView::Resolving { delay: d } => n == 0 && d == delay,
                StateView::Listing { dlq, delay: d } => {
                    &&& n == 1
                    &&& d == delay
                    &&& events[0] matches EventView::NameResolved(reply)
                    &&& address_of(reply) == Ok::<Seq<char>, ReplayError>(dlq)
                },
                StateView::Draining { session, .. } => {
                    &&& n >= 2
                    &&& session.delay == delay
                    &&& events[0] matches EventView::NameResolved(name_reply)
                    &&& address_of(name_reply) == Ok::<Seq<char>, ReplayError>(session.dlq)
                    &&& events[1] matches EventView::SourcesListed(sources_reply)
                    &&& source_of(sources_reply) == Ok::<Seq<char>, ReplayError>(session.source)
                },
                _ => true,
            }
        }),
    decreases n,
{
    let start = begin_spec::<A>(queue_name, delay);
    if n == 0 {
        assert(events.take(0) =~= Seq::<EventView<A>>::empty());
    } else {
        lemma_session_comes_from_lookups(queue_name, delay, events, n - 1);
        lemma_after_next(start, events, n - 1);
    }
}

} // verus!
