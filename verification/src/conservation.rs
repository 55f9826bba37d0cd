//! Whatever is lost on the way, no message is.

use vstd::prelude::*;
use crate::engine::StageView;
use crate::engine::StateView;
use crate::engine::acknowledge_in;
use crate::engine::begin_spec;
use crate::engine::forward_to;
use crate::engine::receive_from;
use crate::engine::replay_spec;
use crate::engine::transition;
use crate::model::Queues;
use crate::model::Transit;
use crate::model::deliveries_of;
use crate::model::delivery_of;
use crate::model::drive;
use crate::protocol::ActionView;

verus! {

/// What is left of `before` once `deleted` messages have gone from the
/// dead-letter queue and `delivered` have reached the source queue.
///
/// The messages that went are the ones that had waited longest. The ones
/// that arrived are the same, in the same order, each with the body and
/// attributes it had. None went without arriving, and at most one has
/// arrived without going: that one is on both queues.
pub open spec fn conserved<A>(
    before: Queues<A>,
    queues: Queues<A>,
    deleted: int,
    delivered: int,
) -> bool {
    &&& 0 <= deleted <= delivered <= deleted + 1
    &&& delivered <= before.dlq.len()
    &&& forall|i: int| 0 <= i < delivered ==> (#[trigger] before.dlq[i]).body is Some
    &&& queues == (Queues {
        dlq: before.dlq.skip(deleted),
        source: before.source + deliveries_of(before.dlq.take(delivered)),
        ..before
    })
}

/// A session on `before` is on its way: `deleted` messages have gone from
/// the dead-letter queue, the state and the action in hand belong to the
/// message that waits longest now, and the queues hold what they should at
/// that point.
spec fn on_track<A>(
    before: Queues<A>,
    delay: u64,
    queues: Queues<A>,
    now: (StateView, ActionView<A>),
    deleted: int,
) -> bool {
    let session = before.session(delay);
    let head = before.dlq[deleted];
    match now.0 {
        StateView::Resolving { delay: kept } => {
            &&& kept == delay
            &&& now.1 is ResolveName
            &&& conserved(before, queues, deleted, deleted)
        },
        StateView::Listing { dlq, delay: kept } => {
            &&& kept == delay
            &&& dlq == before.dlq_url
            &&& now.1 == ActionView::<A>::ListSources(dlq)
            &&& conserved(before, queues, deleted, deleted)
        },
        StateView::Draining { session: current, stage } => current == session && match stage {
            StageView::Receive => {
                &&& now.1 == receive_from::<A>(session)
                &&& conserved(before, queues, deleted, deleted)
            },
            StageView::Forward { receipt_handle } => {
                &&& deleted < before.dlq.len()
                &&& head.body is Some
                &&& receipt_handle == head.receipt_handle
                &&& now.1 == forward_to(session, head.body->0, head.attributes)
                &&& conserved(before, queues, deleted, deleted)
            },
            StageView::Acknowledge => {
                &&& head.receipt_handle is Some
                &&& now.1 == acknowledge_in::<A>(session, head.receipt_handle->0)
                &&& conserved(before, queues, deleted, deleted + 1)
            },
            StageView::Pace => {
                &&& now.1 is Pause
                &&& conserved(before, queues, deleted, deleted)
            },
        },
        _ => {
            &&& now.1 is Stop
            &&& conserved(before, queues, deleted, deleted) || conserved(
                before,
                queues,
                deleted,
                deleted + 1,
            )
        },
    }
}

/// One request on, a session that was on its way still is, whatever became
/// of the request. Returns how many messages have gone by then.
proof fn lemma_stays_on_track<A>(
    before: Queues<A>,
    delay: u64,
    queues: Queues<A>,
    now: (StateView, ActionView<A>),
    deleted: int,
    transit: Transit,
) -> (then: int)
    requires
        on_track(before, delay, queues, now, deleted),
        queues.answer_in(now.1, transit) is Some,
    ensures
        ({
            let (queues_then, event) = queues.answer_in(now.1, transit)->0;
            on_track(before, delay, queues_then, transition(now.0, event), then)
        }),
{
    let (queues_then, _) = queues.answer_in(now.1, transit)->0;
    let waiting = before.dlq.skip(deleted);
    let arrived = before.source + deliveries_of(before.dlq.take(deleted));
    let one_more = before.source + deliveries_of(before.dlq.take(deleted + 1));
    if deleted < before.dlq.len() {
        assert(waiting[0] == before.dlq[deleted]);
        assert(waiting.drop_first() =~= before.dlq.skip(deleted + 1));
        assert(arrived.push(delivery_of(before.dlq[deleted])) =~= one_more);
    }
    if now.0 matches StateView::Draining { stage: StageView::Acknowledge, .. } && queues_then
        != queues {
        deleted + 1
    } else {
        deleted
    }
}

/// However the requests of a drive fare, a session that was on its way
/// leaves the queues conserved. Returns how many messages have gone and
/// how many have arrived.
proof fn lemma_drive_conserves<A>(
    before: Queues<A>,
    delay: u64,
    queues: Queues<A>,
    now: (StateView, ActionView<A>),
    deleted: int,
    transits: Seq<Transit>,
) -> (count: (int, int))
    requires
        on_track(before, delay, queues, now, deleted),
    ensures
        conserved(before, drive(queues, now, transits).queues, count.0, count.1),
    decreases transits.len(),
{
    if transits.len() > 0 && queues.answer_in(now.1, transits[0]) is Some {
        let (queues_then, event) = queues.answer_in(now.1, transits[0])->0;
        let then = lemma_stays_on_track(before, delay, queues, now, deleted, transits[0]);
        lemma_drive_conserves(
            before,
            delay,
            queues_then,
            transition(now.0, event),
            then,
            transits.skip(1),
        )
    } else if conserved(before, queues, deleted, deleted) {
        (deleted, deleted)
    } else {
        (deleted, deleted + 1)
    }
}

/// Whatever is lost on the way, no message is.
///
/// However the requests of a replay fare, and wherever the drive breaks
/// off, the queues are left conserved: every message that has gone from
/// the dead-letter queue is on the source queue, unchanged and in its
/// place, and at most one message is on both. Nothing is asked here of the
/// waiting messages: one without a body or a receipt handle stops the
/// replay, and the same still holds.
pub proof fn law_replay_loses_nothing<A>(queues: Queues<A>, delay: u64, transits: Seq<Transit>)
    requires
        queues.well_formed(),
    ensures
        ({
            let end = drive(queues, replay_spec(queues.session(delay)), transits);
            conserved(
                queues,
                end.queues,
                queues.dlq.len() - end.queues.dlq.len(),
                end.queues.source.len() - queues.source.len(),
            )
        }),
{
    assert(queues.dlq.skip(0) =~= queues.dlq);
    assert(queues.source + deliveries_of(queues.dlq.take(0)) =~= queues.source);
    lemma_drive_conserves(
        queues,
        delay,
        queues,
        replay_spec(queues.session(delay)),
        0,
        transits,
    );
}

/// The same of a whole session, begun from any queue name: whether the
/// lookups succeed or not, and however the requests fare, the queues are
/// left conserved.
pub proof fn law_session_loses_nothing<A>(
    queues: Queues<A>,
    queue_name: Seq<char>,
    delay: u64,
    transits: Seq<Transit>,
)
    requires
        queues.well_formed(),
    ensures
        ({
            let end = drive(queues, begin_spec(queue_name, delay), transits);
            conserved(
                queues,
                end.queues,
                queues.dlq.len() - end.queues.dlq.len(),
                end.queues.source.len() - queues.source.len(),
            )
        }),
{
    assert(queues.dlq.skip(0) =~= queues.dlq);
    assert(queues.source + deliveries_of(queues.dlq.take(0)) =~= queues.source);
    lemma_drive_conserves(queues, delay, queues, begin_spec(queue_name, delay), 0, transits);
}

} // verus!
