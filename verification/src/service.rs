//! Whole runs of a listener: what the service does over a sequence of
//! events, and the laws that hold of every run.

use crate::error::StartupError;
use crate::listener::{ListenerActionView, ListenerEvent, ListenerPhase, ListenerState, Mode};
use vstd::prelude::*;

verus! {

/// The state of a listener that was in `state` and has been given `events`
/// in order.
pub open spec fn run(state: ListenerState, events: Seq<ListenerEvent>) -> ListenerState
    decreases events.len(),
{
    if events.len() == 0 {
        state
    } else {
        run(state, events.drop_last()).after(events.last())
    }
}

/// The actions that a listener in `state` gives in answer to `events`: one
/// for each event that it accepts, in order.
pub open spec fn actions(state: ListenerState, events: Seq<ListenerEvent>) -> Seq<
    ListenerActionView,
>
    decreases events.len(),
{
    if events.len() == 0 {
        Seq::empty()
    } else {
        let earlier = events.drop_last();
        match run(state, earlier).answer(events.last()) {
            Some(action) => actions(state, earlier).push(action),
            None => actions(state, earlier),
        }
    }
}

/// The phase of a listener that has just given `action`: it waits for what
/// the action comes to. After a bridge is started, a client dropped or a
/// failed accept skipped, that is the next accept.
pub open spec fn phase_after(action: ListenerActionView) -> ListenerPhase {
    match action {
        ListenerActionView::Probe => ListenerPhase::Probing,
        ListenerActionView::Remove => ListenerPhase::Removing,
        ListenerActionView::Bind => ListenerPhase::Binding,
        ListenerActionView::Connect => ListenerPhase::Connecting,
        ListenerActionView::Exit(_) => ListenerPhase::Stopped,
        _ => ListenerPhase::Accepting,
    }
}

/// One more event takes the run one step on.
pub proof fn lemma_run_push(state: ListenerState, events: Seq<ListenerEvent>, event: ListenerEvent)
    ensures
        run(state, events.push(event)) == run(state, events).after(event),
        actions(state, events.push(event)) == match run(state, events).answer(event) {
            Some(action) => actions(state, events).push(action),
            None => actions(state, events),
        },
{
    assert(events.push(event).drop_last() =~= events);
}

/// A run changes neither the mode nor the buffer size.
pub proof fn lemma_run_keeps_configuration(state: ListenerState, events: Seq<ListenerEvent>)
    ensures
        run(state, events).mode == state.mode,
        run(state, events).buffer_size == state.buffer_size,
    decreases events.len(),
{
    if events.len() > 0 {
        lemma_run_keeps_configuration(state, events.drop_last());
    }
}

/// Once the service takes connections, nothing ends it. Whatever events
/// follow, failed accepts and unreachable peers among them, it goes on
/// taking connections and never gives the order to exit.
pub proof fn lemma_service_never_stops(state: ListenerState, events: Seq<ListenerEvent>)
    requires
        state.serving(),
    ensures
        run(state, events).serving(),
        forall|i: int|
            0 <= i < actions(state, events).len() ==> !((#[trigger] actions(state, events)[i])
                is Exit),
    decreases events.len(),
{
    if events.len() > 0 {
        lemma_service_never_stops(state, events.drop_last());
    }
}

/// After a failure in the accept loop the next thing the service does is
/// to wait for a connection again.
pub proof fn lemma_failure_returns_to_accept(state: ListenerState, error: std::io::Error)
    requires
        state.serving(),
    ensures
        state.accepts(ListenerEvent::Failed(error)),
        state.after(ListenerEvent::Failed(error)).phase == ListenerPhase::Accepting,
        state.phase == ListenerPhase::Accepting ==> state.answer(ListenerEvent::Failed(error))
            == Some(ListenerActionView::Skip(error)),
        state.phase == ListenerPhase::Connecting ==> state.answer(ListenerEvent::Failed(error))
            == Some(ListenerActionView::Reject(error)),
{
}

/// A listener that has stopped accepts nothing more: it stays as it is and
/// gives no action.
pub proof fn lemma_stopped_is_final(state: ListenerState, events: Seq<ListenerEvent>)
    requires
        state.phase == ListenerPhase::Stopped,
    ensures
        run(state, events) == state,
        actions(state, events).len() == 0,
    decreases events.len(),
{
    if events.len() > 0 {
        lemma_stopped_is_final(state, events.drop_last());
    }
}

/// A failure at start-up is fatal before the service serves: the order to
/// exit is the last action of the run, the listener has then stopped, and
/// no connection was waited for, connected or bridged before it.
pub proof fn lemma_exit_comes_before_serving(
    state: ListenerState,
    events: Seq<ListenerEvent>,
    i: int,
)
    requires
        0 <= i < actions(state, events).len(),
        actions(state, events)[i] is Exit,
    ensures
        i == actions(state, events).len() - 1,
        run(state, events).phase == ListenerPhase::Stopped,
        !state.serving(),
        forall|j: int|
            0 <= j < i ==> {
                let action = #[trigger] actions(state, events)[j];
                action is Probe || action is Remove || action is Bind
            },
    decreases events.len(),
{
    if state.serving() {
        lemma_service_never_stops(state, events);
    }
    if events.len() > 0 {
        let earlier = events.drop_last();
        if i < actions(state, earlier).len() {
            lemma_exit_comes_before_serving(state, earlier, i);
        } else {
            lemma_starting_up(state, earlier);
            assert forall|j: int| 0 <= j < i implies !((#[trigger] actions(state, earlier)[j])
                is Exit) by {
                if actions(state, earlier)[j] is Exit {
                    lemma_exit_comes_before_serving(state, earlier, j);
                }
            }
        }
    }
}

/// While the service has neither begun to serve nor stopped, it has only
/// looked for, removed or bound: it has waited for no connection.
pub proof fn lemma_starting_up(state: ListenerState, events: Seq<ListenerEvent>)
    requires
        !state.serving(),
        !run(state, events).serving(),
    ensures
        forall|j: int|
            0 <= j < actions(state, events).len() ==> {
                let action = #[trigger] actions(state, events)[j];
                action is Probe || action is Remove || action is Bind || action is Exit
            },
    decreases events.len(),
{
    if events.len() > 0 {
        let earlier = events.drop_last();
        if run(state, earlier).serving() {
            lemma_serving_persists(state, earlier, events.last());
        } else {
            lemma_starting_up(state, earlier);
        }
    }
}

/// One more event does not end a service that takes connections.
proof fn lemma_serving_persists(
    state: ListenerState,
    events: Seq<ListenerEvent>,
    event: ListenerEvent,
)
    requires
        run(state, events).serving(),
    ensures
        run(state, events.push(event)).serving(),
{
    lemma_run_push(state, events, event);
}

/// The events of a start-up in which nothing fails. In UNIX mode the
/// socket path is looked at first and the file found there, if any, is
/// removed; then, in either mode, the local endpoint is bound.
pub open spec fn startup(mode: Mode, stale: bool) -> Seq<ListenerEvent> {
    match mode {
        Mode::Unix => if stale {
            seq![
                ListenerEvent::Started,
                ListenerEvent::Probed(true),
                ListenerEvent::Removed,
                ListenerEvent::Bound,
            ]
        } else {
            seq![ListenerEvent::Started, ListenerEvent::Probed(false), ListenerEvent::Bound]
        },
        Mode::Tcp => seq![ListenerEvent::Started, ListenerEvent::Bound],
    }
}

/// The actions of a start-up in which nothing fails.
pub open spec fn startup_actions(mode: Mode, stale: bool) -> Seq<ListenerActionView> {
    match mode {
        Mode::Unix => if stale {
            seq![
                ListenerActionView::Probe,
                ListenerActionView::Remove,
                ListenerActionView::Bind,
                ListenerActionView::Accept,
            ]
        } else {
            seq![ListenerActionView::Probe, ListenerActionView::Bind, ListenerActionView::Accept]
        },
        Mode::Tcp => seq![ListenerActionView::Bind, ListenerActionView::Accept],
    }
}

/// Stale-socket recovery. A start-up in which nothing fails ends with the
/// service waiting for its first connection, whether or not an earlier run
/// left a file at the socket path: in UNIX mode such a file is removed
/// before the bind; in TCP mode the path is not looked at.
pub proof fn lemma_startup_reaches_accept(mode: Mode, buffer_size: nat, stale: bool)
    ensures
        run(ListenerState::initial(mode, buffer_size), startup(mode, stale)) == (ListenerState {
            mode,
            buffer_size,
            phase: ListenerPhase::Accepting,
        }),
        actions(ListenerState::initial(mode, buffer_size), startup(mode, stale))
            == startup_actions(mode, stale),
{
    let start = ListenerState::initial(mode, buffer_size);
    let none = Seq::<ListenerEvent>::empty();
    lemma_run_push(start, none, ListenerEvent::Started);
    let started = none.push(ListenerEvent::Started);
    match mode {
        Mode::Unix => {
            lemma_run_push(start, started, ListenerEvent::Probed(stale));
            let probed = started.push(ListenerEvent::Probed(stale));
            if stale {
                lemma_run_push(start, probed, ListenerEvent::Removed);
                let removed = probed.push(ListenerEvent::Removed);
                lemma_run_push(start, removed, ListenerEvent::Bound);
                assert(startup(mode, stale) =~= removed.push(ListenerEvent::Bound));
            } else {
                lemma_run_push(start, probed, ListenerEvent::Bound);
                assert(startup(mode, stale) =~= probed.push(ListenerEvent::Bound));
            }
        },
        Mode::Tcp => {
            lemma_run_push(start, started, ListenerEvent::Bound);
            assert(startup(mode, stale) =~= started.push(ListenerEvent::Bound));
        },
    }
    assert(actions(start, startup(mode, stale)) =~= startup_actions(mode, stale));
}

/// A failure to remove the stale file, or to bind, ends the start-up with
/// the order to exit and an error that names the step.
pub proof fn lemma_startup_failure_is_fatal(state: ListenerState, error: std::io::Error)
    requires
        state.phase == ListenerPhase::Removing || state.phase == ListenerPhase::Binding,
    ensures
        state.after(ListenerEvent::Failed(error)).phase == ListenerPhase::Stopped,
        state.phase == ListenerPhase::Removing ==> state.answer(ListenerEvent::Failed(error))
            == Some(ListenerActionView::Exit(StartupError::RemoveStale(error))),
        state.phase == ListenerPhase::Binding ==> state.answer(ListenerEvent::Failed(error))
            == Some(ListenerActionView::Exit(StartupError::Bind(error))),
{
}

/// A listener waits for what its last action comes to: after a run in
/// which it gave any action, its phase is the one that follows the last of
/// them.
pub proof fn lemma_listener_awaits_last_action(state: ListenerState, events: Seq<ListenerEvent>)
    ensures
        actions(state, events).len() == 0 ==> run(state, events) == state,
        actions(state, events).len() > 0 ==> run(state, events).phase == phase_after(
            actions(state, events).last(),
        ),
    decreases events.len(),
{
    if events.len() > 0 {
        lemma_listener_awaits_last_action(state, events.drop_last());
    }
}

/// No accepted client is left over. The action that follows the order to
/// connect for a client either hands the client and its peer connection to
/// a bridge or drops the client; and the action that follows a wait for a
/// connection is the connect for the client that came, or the skip of an
/// accept that failed.
pub proof fn lemma_clients_are_settled(state: ListenerState, events: Seq<ListenerEvent>, i: int)
    requires
        0 <= i < actions(state, events).len() - 1,
    ensures
        actions(state, events)[i] is Connect ==> actions(state, events)[i + 1] is Spawn
            || actions(state, events)[i + 1] is Reject,
        phase_after(actions(state, events)[i]) == ListenerPhase::Accepting ==> actions(
            state,
            events,
        )[i + 1] is Connect || actions(state, events)[i + 1] is Skip,
    decreases events.len(),
{
    if events.len() > 0 {
        let earlier = events.drop_last();
        if i + 1 < actions(state, earlier).len() {
            lemma_clients_are_settled(state, earlier, i);
        } else {
            lemma_listener_awaits_last_action(state, earlier);
        }
    }
}

/// Every bridge is started with the buffer size that the service was
/// configured with.
pub proof fn lemma_bridges_use_configured_size(
    state: ListenerState,
    events: Seq<ListenerEvent>,
    i: int,
)
    requires
        0 <= i < actions(state, events).len(),
        actions(state, events)[i] is Spawn,
    ensures
        actions(state, events)[i]->buffer_size == state.buffer_size,
    decreases events.len(),
{
    if events.len() > 0 {
        let earlier = events.drop_last();
        lemma_run_keeps_configuration(state, earlier);
        if i < actions(state, earlier).len() {
            lemma_bridges_use_configured_size(state, earlier, i);
        }
    }
}

} // verus!
