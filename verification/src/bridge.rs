//! The connection bridge: the two directions of one bridged connection.
//!
//! A [`Bridge`] holds one copy task for each direction. The two run side by
//! side: an event of one direction never touches the other, and the end of
//! one direction does not end the other. When the second direction has
//! ended too, the bridge asks, once, for both endpoints to be closed.

use crate::config::BufferSize;
use crate::copier::{
    forward_data, CopyAction, CopyActionView, CopyEvent, CopyEventView, CopyState, CopyTask,
    Phase, observe,
};
use vstd::prelude::*;

verus! {

/// One of the two directions of a bridged connection.
#[derive(Clone, Copy, Debug, PartialEq, Eq, Structural)]
pub enum Direction {
    /// From the accepted client to the peer.
    ClientToPeer,
    /// From the peer to the accepted client.
    PeerToClient,
}

impl Direction {
    /// The other direction.
    pub open spec fn opposite(self) -> Direction {
        match self {
            Direction::ClientToPeer => Direction::PeerToClient,
            Direction::PeerToClient => Direction::ClientToPeer,
        }
    }
}

/// What a bridge asks the driver of one direction to do.
#[derive(Debug)]
pub struct BridgeAction<'a> {
    /// The operation to carry out for the direction that reported.
    pub step: CopyAction<'a>,
    /// Whether both endpoints are to be closed now. It is set on the action
    /// that ends the direction that ends last, and on no other.
    pub close: bool,
}

/// A bridge's action as the model sees it.
pub struct BridgeActionView {
    pub step: CopyActionView,
    pub close: bool,
}

impl<'a> View for BridgeAction<'a> {
    type V = BridgeActionView;

    open spec fn view(&self) -> BridgeActionView {
        BridgeActionView { step: self.step@, close: self.close }
    }
}

/// The model of a bridge: the states of its two copy tasks.
pub struct BridgeState {
    pub client_to_peer: CopyState,
    pub peer_to_client: CopyState,
}

impl BridgeState {
    /// A bridge neither of whose directions has been started.
    pub open spec fn initial(buffer_size: nat) -> BridgeState {
        BridgeState {
            client_to_peer: CopyState::initial(buffer_size),
            peer_to_client: CopyState::initial(buffer_size),
        }
    }

    /// The copy task of one direction.
    pub open spec fn task(self, direction: Direction) -> CopyState {
        match direction {
            Direction::ClientToPeer => self.client_to_peer,
            Direction::PeerToClient => self.peer_to_client,
        }
    }

    /// Whether both directions have ended. From then on the endpoints are
    /// closed.
    pub open spec fn closed(self) -> bool {
        self.client_to_peer.phase == Phase::Finished && self.peer_to_client.phase
            == Phase::Finished
    }

    /// The state after an event of one direction: that direction's task
    /// takes the event, the other stays as it is.
    pub open spec fn after(self, direction: Direction, event: CopyEventView) -> BridgeState {
        match direction {
            Direction::ClientToPeer => BridgeState {
                client_to_peer: self.client_to_peer.after(event),
                ..self
            },
            Direction::PeerToClient => BridgeState {
                peer_to_client: self.peer_to_client.after(event),
                ..self
            },
        }
    }

    /// The action that answers an event of one direction, if that
    /// direction's task accepts it: the task's own action, and the order to
    /// close if this action ends the task and the other has ended before.
    pub open spec fn answer(self, direction: Direction, event: CopyEventView) -> Option<
        BridgeActionView,
    > {
        match self.task(direction).answer(event) {
            Some(step) => Some(
                BridgeActionView {
                    step,
                    close: step is Finish && self.task(direction.opposite()).phase
                        == Phase::Finished,
                },
            ),
            None => None,
        }
    }
}

/// The state and the action that follow from reporting `event` with
/// `buffer` for `direction` in state `state`.
pub open spec fn bridge_reaction(
    state: BridgeState,
    direction: Direction,
    event: CopyEvent,
    buffer: Seq<u8>,
) -> (BridgeState, Option<BridgeActionView>) {
    match observe(event, buffer) {
        Some(seen) => (state.after(direction, seen), state.answer(direction, seen)),
        None => (state, None),
    }
}

/// The model's reading of what `bridge_client_server` returns.
pub open spec fn bridge_action_view(action: Option<BridgeAction<'_>>) -> Option<
    BridgeActionView,
> {
    match action {
        Some(action) => Some(action@),
        None => None,
    }
}

/// One bridged connection: a client-side and a peer-side endpoint and the
/// two copy tasks between them.
#[derive(Debug)]
pub struct Bridge {
    client_to_peer: CopyTask,
    peer_to_client: CopyTask,
}

impl View for Bridge {
    type V = BridgeState;

    closed spec fn view(&self) -> BridgeState {
        BridgeState { client_to_peer: self.client_to_peer@, peer_to_client: self.peer_to_client@ }
    }
}

impl Bridge {
    /// A bridge whose two copy tasks read at most `buffer_size` bytes at a
    /// time. Both wait to be started.
    pub fn new(buffer_size: BufferSize) -> (bridge: Bridge)
        ensures
            bridge@ == BridgeState::initial(buffer_size@),
    {
        Bridge {
            client_to_peer: CopyTask::new(buffer_size),
            peer_to_client: CopyTask::new(buffer_size),
        }
    }

    /// Whether the direction has ended.
    pub fn is_finished(&self, direction: Direction) -> (finished: bool)
        ensures
            finished == (self@.task(direction).phase == Phase::Finished),
    {
        match direction {
            Direction::ClientToPeer => self.client_to_peer.is_finished(),
            Direction::PeerToClient => self.peer_to_client.is_finished(),
        }
    }

    /// Whether both directions have ended.
    pub fn is_closed(&self) -> (closed: bool)
        ensures
            closed == self@.closed(),
    {
        self.client_to_peer.is_finished() && self.peer_to_client.is_finished()
    }
}

/// Takes one direction of the bridge one step on. `event` is what that
/// direction's operation came to and `buffer` is that direction's buffer;
/// the result is the operation to carry out next for it, and whether both
/// endpoints are to be closed.
///
/// The other direction is not touched. An event that the direction's task
/// does not accept changes nothing and gets no action.
pub fn bridge_client_server<'a>(
    bridge: &mut Bridge,
    direction: Direction,
    event: CopyEvent,
    buffer: &'a [u8],
) -> (action: Option<BridgeAction<'a>>)
    ensures
        (final(bridge)@, bridge_action_view(action)) == bridge_reaction(
            old(bridge)@,
            direction,
            event,
            buffer@,
        ),
{
    let (taken, other_finished) = match direction {
        Direction::ClientToPeer => (
            forward_data(&mut bridge.client_to_peer, event, buffer),
            bridge.peer_to_client.is_finished(),
        ),
        Direction::PeerToClient => (
            forward_data(&mut bridge.peer_to_client, event, buffer),
            bridge.client_to_peer.is_finished(),
        ),
    };
    match taken {
        Some(step) => {
            let ends = match &step {
                CopyAction::Finish(_) => true,
                _ => false,
            };
            Some(BridgeAction { step, close: ends && other_finished })
        },
        None => None,
    }
}

} // verus!
