//! A replay that nothing disturbs drains the dead-letter queue.

use vstd::prelude::*;
use crate::engine::SessionView;
use crate::engine::StateView;
use crate::engine::acknowledge_in;
use crate::engine::begin_spec;
use crate::engine::forward_to;
use crate::engine::receive_from;
use crate::engine::replay_spec;
use crate::engine::transition;
use crate::message::MessageView;
use crate::model::Queues;
use crate::model::Transit;
use crate::model::deliveries_of;
use crate::model::delivery_of;
use crate::model::drive;
use crate::model::undisturbed;
use crate::model::without;
use crate::protocol::ActionView;
use crate::protocol::EventView;

verus! {

/// The requests that drain `waiting`: for each message a receive, the send
/// of its body and attributes, the delete by its receipt handle and the
/// pause; then the one receive that finds the queue empty.
pub open spec fn drain_script<A>(session: SessionView, waiting: Seq<MessageView<A>>) -> Seq<
    ActionView<A>,
>
    decreases waiting.len(),
{
    if waiting.len() == 0 {
        seq![receive_from(session)]
    } else {
        seq![
            receive_from(session),
            forward_to(session, waiting[0].body->0, waiting[0].attributes),
            acknowledge_in(session, waiting[0].receipt_handle->0),
            ActionView::Pause(session.delay),
        ] + drain_script(session, waiting.drop_first())
    }
}

/// How many of `actions` are receives.
pub open spec fn receives<A>(actions: Seq<ActionView<A>>) -> nat
    decreases actions.len(),
{
    if actions.len() == 0 {
        0
    } else {
        receives(actions.drop_last()) + if actions.last() is Receive {
            1nat
        } else {
            0nat
        }
    }
}

/// Receives are counted piece by piece.
pub proof fn lemma_receives_add<A>(front: Seq<ActionView<A>>, back: Seq<ActionView<A>>)
    ensures
        receives(front + back) == receives(front) + receives(back),
    decreases back.len(),
{
    if back.len() == 0 {
        assert(front + back =~= front);
    } else {
        assert((front + back).drop_last() =~= front + back.drop_last());
        lemma_receives_add(front, back.drop_last());
    }
}

/// Draining `k` messages takes `k + 1` receives.
pub proof fn lemma_drain_script_receives<A>(session: SessionView, waiting: Seq<MessageView<A>>)
    ensures
        receives(drain_script(session, waiting)) == waiting.len() + 1,
    decreases waiting.len(),
{
    reveal_with_fuel(receives, 5);
    if waiting.len() > 0 {
        let cycle = seq![
            receive_from::<A>(session),
            forward_to(session, waiting[0].body->0, waiting[0].attributes),
            acknowledge_in(session, waiting[0].receipt_handle->0),
            ActionView::Pause(session.delay),
        ];
        lemma_drain_script_receives(session, waiting.drop_first());
        lemma_receives_add(cycle, drain_script(session, waiting.drop_first()));
        assert(cycle.drop_last().drop_last().drop_last().drop_last() =~= Seq::empty());
    } else {
        assert(seq![receive_from::<A>(session)].drop_last() =~= Seq::empty());
    }
}

/// The queues once the oldest waiting message has been replayed: it has
/// left the dead-letter queue and its delivery has joined the source queue.
pub open spec fn after_one<A>(queues: Queues<A>) -> Queues<A> {
    Queues {
        dlq: queues.dlq.drop_first(),
        source: queues.source.push(delivery_of(queues.dlq[0])),
        ..queues
    }
}

/// One turn of the cycle: with a replayable message waiting and nothing
/// lost on the way, the drive receives it, sends it on, deletes it and
/// pauses, and then stands where it started, with one message less to go.
proof fn lemma_one_cycle<A>(queues: Queues<A>, delay: u64, transits: Seq<Transit>)
    requires
        queues.dlq.len() > 0,
        queues.dlq[0].replayable(),
        undisturbed(transits),
        transits.len() >= 4,
    ensures
        ({
            let session = queues.session(delay);
            let head = queues.dlq[0];
            let end = drive(queues, replay_spec(session), transits);
            let rest = drive(after_one(queues), replay_spec(session), transits.skip(4));
            &&& end.state == rest.state
            &&& end.queues == rest.queues
            &&& end.performed == seq![
                receive_from(session),
                forward_to(session, head.body->0, head.attributes),
                acknowledge_in(session, head.receipt_handle->0),
                ActionView::Pause(delay),
            ] + rest.performed
        }),
{
    let session = queues.session(delay);
    let head = queues.dlq[0];
    let sent = Queues { source: queues.source.push(delivery_of(head)), ..queues };
    let forwarding = transition(replay_spec::<A>(session).0, EventView::Received(Ok(Some(head))));
    let acknowledging = transition(forwarding.0, EventView::<A>::Sent(Ok(())));
    let pacing = transition(acknowledging.0, EventView::<A>::Deleted(Ok(())));
    let receiving = drive(queues, replay_spec(session), transits);
    let sending = drive(queues, forwarding, transits.skip(1));
    let deleting = drive(sent, acknowledging, transits.skip(2));
    let pausing = drive(after_one(queues), pacing, transits.skip(3));
    let rest = drive(after_one(queues), replay_spec(session), transits.skip(4));
    assert(transits[0] is Delivered && transits[1] is Delivered && transits[2] is Delivered);
    assert(transits.skip(1).skip(1) =~= transits.skip(2));
    assert(transits.skip(2).skip(1) =~= transits.skip(3));
    assert(transits.skip(3).skip(1) =~= transits.skip(4));
    assert(receiving.performed == seq![receive_from::<A>(session)] + sending.performed);
    assert(sending.performed == seq![forwarding.1] + deleting.performed);
    assert(deleting.performed == seq![acknowledging.1] + pausing.performed) by {
        assert(without(sent.dlq, head.receipt_handle->0) == Some(queues.dlq.drop_first()));
    }
    assert(pausing.performed == seq![pacing.1] + rest.performed);
    assert(receiving.performed =~= seq![
        receive_from(session),
        forward_to(session, head.body->0, head.attributes),
        acknowledge_in(session, head.receipt_handle->0),
        ActionView::Pause(delay),
    ] + rest.performed);
}

/// A replay drains the dead-letter queue.
///
/// Started on the two addresses, with every waiting message replayable,
/// nothing lost on the way, and room for four actions a message and one
/// more, the drive ends `Done`. It carried out exactly the drain script,
/// so with `k` messages waiting it received `k + 1` times. The dead-letter
/// queue is left empty, and the source queue has gained the body and
/// attributes of each message, unchanged and in the order they waited.
pub proof fn law_replay_drains<A>(queues: Queues<A>, delay: u64, transits: Seq<Transit>)
    requires
        queues.well_formed(),
        queues.all_replayable(),
        undisturbed(transits),
        transits.len() > 4 * queues.dlq.len(),
    ensures
        ({
            let session = queues.session(delay);
            let end = drive(queues, replay_spec(session), transits);
            &&& end.state is Done
            &&& end.performed == drain_script(session, queues.dlq)
            &&& receives(end.performed) == queues.dlq.len() + 1
            &&& end.queues == (Queues {
                dlq: Seq::empty(),
                source: queues.source + deliveries_of(queues.dlq),
                ..queues
            })
        }),
    decreases queues.dlq.len(),
{
    let session = queues.session(delay);
    let end = drive(queues, replay_spec(session), transits);
    lemma_drain_script_receives(session, queues.dlq);
    if queues.dlq.len() == 0 {
        reveal_with_fuel(drive, 2);
        assert(transits[0] is Delivered);
        assert(end.performed =~= drain_script(session, queues.dlq));
        assert(end.queues.dlq =~= Seq::empty());
        assert(end.queues.source =~= queues.source + deliveries_of(queues.dlq));
    } else {
        let next = after_one(queues);
        let later = transits.skip(4);
        assert(queues.dlq[0].replayable());
        assert forall|i: int| 0 <= i < next.dlq.len() implies (#[trigger] next.dlq[i]).replayable(
        ) by {
            assert(queues.dlq[i + 1].replayable());
        }
        assert forall|i: int| 0 <= i < later.len() implies (#[trigger] later[i]) is Delivered by {
            assert(transits[i + 4] is Delivered);
        }
        lemma_one_cycle(queues, delay, transits);
        law_replay_drains(next, delay, later);
        assert(end.queues.source =~= queues.source + deliveries_of(queues.dlq));
    }
}

/// A whole session drains the dead-letter queue.
///
/// Begun from the name of the dead-letter queue, the engine looks up its
/// address, finds the one source queue, and drains onto it: after the two
/// lookups the drive carries out the drain script for those two addresses
/// and ends `Done`, with the queues as [`law_replay_drains`] leaves them.
pub proof fn law_session_drains<A>(queues: Queues<A>, delay: u64, transits: Seq<Transit>)
    requires
        queues.well_formed(),
        queues.all_replayable(),
        undisturbed(transits),
        transits.len() > 4 * queues.dlq.len() + 2,
    ensures
        ({
            let session = queues.session(delay);
            let end = drive(queues, begin_spec(queues.dlq_name, delay), transits);
            &&& end.state is Done
            &&& end.performed == seq![
                ActionView::ResolveName(queues.dlq_name),
                ActionView::ListSources(queues.dlq_url),
            ] + drain_script(session, queues.dlq)
            &&& receives(end.performed) == queues.dlq.len() + 1
            &&& end.queues == (Queues {
                dlq: Seq::empty(),
                source: queues.source + deliveries_of(queues.dlq),
                ..queues
            })
        }),
{
    let session = queues.session(delay);
    let start = begin_spec::<A>(queues.dlq_name, delay);
    let listing = (
        StateView::Listing { dlq: queues.dlq_url, delay },
        ActionView::<A>::ListSources(queues.dlq_url),
    );
    let lookups = seq![start.1, listing.1];
    let later = transits.skip(2);
    let listed = drive(queues, listing, transits.skip(1));
    let drained = drive(queues, replay_spec(session), later);
    assert(transits[0] is Delivered && transits[1] is Delivered);
    assert(transits.skip(1).skip(1) =~= later);
    assert(drive(queues, start, transits).performed == seq![start.1] + listed.performed);
    assert(listed.performed == seq![listing.1] + drained.performed);
    assert forall|i: int| 0 <= i < later.len() implies (#[trigger] later[i]) is Delivered by {
        assert(transits[i + 2] is Delivered);
    }
    law_replay_drains(queues, delay, later);
    let end = drive(queues, start, transits);
    assert(end.performed =~= lookups + drain_script(session, queues.dlq));
    lemma_receives_add(lookups, drain_script(session, queues.dlq));
    assert(receives(lookups) == 0) by {
        reveal_with_fuel(receives, 3);
        assert(lookups.drop_last().drop_last() =~= Seq::empty());
    }
}

} // verus!
