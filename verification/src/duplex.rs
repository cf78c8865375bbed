//! Whole runs of a bridge: what a bridge does over a sequence of events of
//! its two directions, in whatever order they come, and the laws that hold
//! of every run.

use crate::bridge::{BridgeActionView, BridgeState, Direction};
use crate::copier::{CopyActionView, CopyEventView, CopyState, Phase};
use crate::relay;
use vstd::prelude::*;

verus! {

/// The state of a bridge that was in `state` and has been given `events`
/// in order, each for the direction named with it.
pub open spec fn run(state: BridgeState, events: Seq<(Direction, CopyEventView)>) -> BridgeState
    decreases events.len(),
{
    if events.len() == 0 {
        state
    } else {
        run(state, events.drop_last()).after(events.last().0, events.last().1)
    }
}

/// The actions that a bridge in `state` gives in answer to `events`, each
/// with the direction it is for: one for each event that is accepted, in
/// order.
pub open spec fn actions(state: BridgeState, events: Seq<(Direction, CopyEventView)>) -> Seq<
    (Direction, BridgeActionView),
>
    decreases events.len(),
{
    if events.len() == 0 {
        Seq::empty()
    } else {
        let earlier = events.drop_last();
        match run(state, earlier).answer(events.last().0, events.last().1) {
            Some(action) => actions(state, earlier).push((events.last().0, action)),
            None => actions(state, earlier),
        }
    }
}

/// The events of one direction among `events`, in order.
pub open spec fn events_of(events: Seq<(Direction, CopyEventView)>, direction: Direction) -> Seq<
    CopyEventView,
>
    decreases events.len(),
{
    if events.len() == 0 {
        Seq::empty()
    } else if events.last().0 == direction {
        events_of(events.drop_last(), direction).push(events.last().1)
    } else {
        events_of(events.drop_last(), direction)
    }
}

/// The copy actions of one direction among `actions`, in order.
pub open spec fn steps_of(actions: Seq<(Direction, BridgeActionView)>, direction: Direction) -> Seq<
    CopyActionView,
>
    decreases actions.len(),
{
    if actions.len() == 0 {
        Seq::empty()
    } else if actions.last().0 == direction {
        steps_of(actions.drop_last(), direction).push(actions.last().1.step)
    } else {
        steps_of(actions.drop_last(), direction)
    }
}

/// One more action adds its step to those of its direction.
pub proof fn lemma_steps_push(
    actions: Seq<(Direction, BridgeActionView)>,
    action: (Direction, BridgeActionView),
    direction: Direction,
)
    ensures
        steps_of(actions.push(action), direction) == if action.0 == direction {
            steps_of(actions, direction).push(action.1.step)
        } else {
            steps_of(actions, direction)
        },
{
    assert(actions.push(action).drop_last() =~= actions);
}

/// Independence of directions. However the events of the two directions
/// are interleaved, each direction is in the state, and has been given the
/// actions, that its own events alone lead to.
pub proof fn lemma_directions_are_independent(
    state: BridgeState,
    events: Seq<(Direction, CopyEventView)>,
    direction: Direction,
)
    ensures
        run(state, events).task(direction) == relay::run(
            state.task(direction),
            events_of(events, direction),
        ),
        steps_of(actions(state, events), direction) == relay::actions(
            state.task(direction),
            events_of(events, direction),
        ),
    decreases events.len(),
{
    if events.len() > 0 {
        let earlier = events.drop_last();
        let last = events.last();
        lemma_directions_are_independent(state, earlier, direction);
        if last.0 == direction {
            relay::lemma_run_push(state.task(direction), events_of(earlier, direction), last.1);
        }
        match run(state, earlier).answer(last.0, last.1) {
            Some(action) => {
                lemma_steps_push(actions(state, earlier), (last.0, action), direction);
            },
            None => {},
        }
    }
}

/// A bridge whose directions have both ended accepts nothing more: it
/// stays as it is and gives no action. Nothing is done on an endpoint after
/// it is closed.
pub proof fn lemma_closed_is_final(state: BridgeState, events: Seq<(Direction, CopyEventView)>)
    requires
        state.closed(),
    ensures
        run(state, events) == state,
        actions(state, events).len() == 0,
    decreases events.len(),
{
    if events.len() > 0 {
        lemma_closed_is_final(state, events.drop_last());
    }
}

/// The endpoints are closed at most once, and only after both directions
/// have ended: an action that orders the close is the last action of the
/// run, and both directions have then ended.
pub proof fn lemma_close_is_last(
    state: BridgeState,
    events: Seq<(Direction, CopyEventView)>,
    i: int,
)
    requires
        0 <= i < actions(state, events).len(),
        actions(state, events)[i].1.close,
    ensures
        i == actions(state, events).len() - 1,
        run(state, events).closed(),
    decreases events.len(),
{
    if events.len() > 0 {
        let earlier = events.drop_last();
        if i < actions(state, earlier).len() {
            lemma_close_is_last(state, earlier, i);
        }
    }
}

/// The endpoints are closed once both directions have ended: in a run
/// that takes a bridge from a state in which a direction was still under
/// way to one in which both have ended, the last action orders the close.
pub proof fn lemma_close_is_ordered(state: BridgeState, events: Seq<(Direction, CopyEventView)>)
    requires
        !state.closed(),
        run(state, events).closed(),
    ensures
        actions(state, events).len() > 0,
        actions(state, events).last().1.close,
    decreases events.len(),
{
    if events.len() > 0 {
        let earlier = events.drop_last();
        if run(state, earlier).closed() {
            lemma_close_is_ordered(state, earlier);
        }
    }
}

/// Graceful half-close. If the source of one direction delivers `chunks`
/// and then reports end of stream, and nothing fails in that direction,
/// then whatever happens meanwhile in the other direction, this one sends
/// exactly those bytes to its destination, in order, and ends in order; and
/// the other direction is where its own events alone have taken it.
pub proof fn lemma_half_close(
    buffer_size: nat,
    events: Seq<(Direction, CopyEventView)>,
    direction: Direction,
    chunks: Seq<Seq<u8>>,
)
    requires
        relay::readable(chunks, buffer_size),
        events_of(events, direction) == relay::session(chunks),
    ensures
        relay::bytes_written(steps_of(actions(BridgeState::initial(buffer_size), events), direction))
            == chunks.flatten(),
        steps_of(actions(BridgeState::initial(buffer_size), events), direction).last()
            == CopyActionView::Finish(relay::orderly_end(chunks.len())),
        run(BridgeState::initial(buffer_size), events).task(direction).phase == Phase::Finished,
        run(BridgeState::initial(buffer_size), events).task(direction.opposite()) == relay::run(
            CopyState::initial(buffer_size),
            events_of(events, direction.opposite()),
        ),
{
    let start = BridgeState::initial(buffer_size);
    lemma_directions_are_independent(start, events, direction);
    lemma_directions_are_independent(start, events, direction.opposite());
    relay::lemma_relay_is_byte_exact(buffer_size, chunks);
}

/// Full duplex. If each direction's source delivers its chunks and then
/// reports end of stream, and nothing fails, then however the events of the
/// two directions are interleaved, each destination is sent exactly the
/// bytes of its source, in order; both directions end in order; and the
/// last action of the run, and no other, orders the endpoints closed.
pub proof fn lemma_full_duplex(
    buffer_size: nat,
    events: Seq<(Direction, CopyEventView)>,
    outbound: Seq<Seq<u8>>,
    inbound: Seq<Seq<u8>>,
)
    requires
        relay::readable(outbound, buffer_size),
        relay::readable(inbound, buffer_size),
        events_of(events, Direction::ClientToPeer) == relay::session(outbound),
        events_of(events, Direction::PeerToClient) == relay::session(inbound),
    ensures
        relay::bytes_written(
            steps_of(actions(BridgeState::initial(buffer_size), events), Direction::ClientToPeer),
        ) == outbound.flatten(),
        relay::bytes_written(
            steps_of(actions(BridgeState::initial(buffer_size), events), Direction::PeerToClient),
        ) == inbound.flatten(),
        run(BridgeState::initial(buffer_size), events).closed(),
        forall|i: int|
            0 <= i < actions(BridgeState::initial(buffer_size), events).len() ==> (
            #[trigger] actions(BridgeState::initial(buffer_size), events)[i]).1.close == (i
                == actions(BridgeState::initial(buffer_size), events).len() - 1),
{
    let start = BridgeState::initial(buffer_size);
    lemma_half_close(buffer_size, events, Direction::ClientToPeer, outbound);
    lemma_half_close(buffer_size, events, Direction::PeerToClient, inbound);
    lemma_close_is_ordered(start, events);
    assert forall|i: int| 0 <= i < actions(start, events).len() implies (#[trigger] actions(
        start,
        events,
    )[i]).1.close == (i == actions(start, events).len() - 1) by {
        if actions(start, events)[i].1.close {
            lemma_close_is_last(start, events, i);
        }
    }
}

} // verus!
