//! The listener loop: start-up of the service and its accept loop.
//!
//! A [`Listener`] binds the local endpoint, after removing the file that an
//! earlier run may have left at the path of a UNIX socket, and then accepts
//! without end. For each accepted client it has the peer connection opened;
//! the pair is handed to a new bridge, or the client is dropped if the peer
//! cannot be reached. A failure at start-up ends the service; no failure
//! after that does.

use crate::config::BufferSize;
use crate::error::StartupError;
use vstd::prelude::*;

verus! {

/// The kind of transport of an endpoint.
#[derive(Clone, Copy, Debug, PartialEq, Eq, Structural)]
pub enum Transport {
    /// A UNIX domain socket, named by a path.
    Unix,
    /// A TCP socket, named by host and port.
    Tcp,
}

/// The mode of the service: which transport it listens on. It connects out
/// on the other.
#[derive(Clone, Copy, Debug, PartialEq, Eq, Structural)]
pub enum Mode {
    /// Listen on a UNIX domain socket, connect out over TCP.
    Unix,
    /// Listen on a TCP address, connect out to a UNIX domain socket.
    Tcp,
}

impl Mode {
    /// The transport that the service listens on.
    pub open spec fn local_transport(self) -> Transport {
        match self {
            Mode::Unix => Transport::Unix,
            Mode::Tcp => Transport::Tcp,
        }
    }

    /// The transport of the peer connections.
    pub open spec fn peer_transport(self) -> Transport {
        match self {
            Mode::Unix => Transport::Tcp,
            Mode::Tcp => Transport::Unix,
        }
    }

    /// The transport that the service listens on.
    pub fn local(self) -> (transport: Transport)
        ensures
            transport == self.local_transport(),
    {
        match self {
            Mode::Unix => Transport::Unix,
            Mode::Tcp => Transport::Tcp,
        }
    }

    /// The transport of the peer connections. It is never the one listened
    /// on.
    pub fn peer(self) -> (transport: Transport)
        ensures
            transport == self.peer_transport(),
            transport != self.local_transport(),
    {
        match self {
            Mode::Unix => Transport::Tcp,
            Mode::Tcp => Transport::Unix,
        }
    }
}

/// What a listener is waiting for.
#[derive(Clone, Copy, Debug, PartialEq, Eq, Structural)]
pub enum ListenerPhase {
    /// Not started yet.
    Idle,
    /// The look for a file left at the socket path is under way.
    Probing,
    /// The removal of that file is under way.
    Removing,
    /// The bind of the local endpoint is under way.
    Binding,
    /// The service waits for the next inbound connection.
    Accepting,
    /// The connect to the peer for the accepted client is under way.
    Connecting,
    /// Start-up failed; the service has ended.
    Stopped,
}

/// What the driver reports to a listener.
#[derive(Debug)]
pub enum ListenerEvent {
    /// The service is to begin.
    Started,
    /// The look at the socket path is done: whether a file is there.
    Probed(bool),
    /// The file at the socket path was removed.
    Removed,
    /// The local endpoint is bound and listening.
    Bound,
    /// A client has connected.
    Accepted,
    /// The peer connection for the accepted client is open.
    Connected,
    /// The operation under way failed.
    Failed(std::io::Error),
}

/// What a listener asks the driver to do.
#[derive(Debug)]
pub enum ListenerAction {
    /// Look whether a file is left at the socket path.
    Probe,
    /// Remove the file at the socket path.
    Remove,
    /// Bind the local endpoint and listen.
    Bind,
    /// Wait for the next inbound connection.
    Accept,
    /// Open the peer connection for the accepted client.
    Connect,
    /// Hand the accepted client and its peer connection to a new bridge
    /// with buffers of this size, on a unit of execution of its own, and
    /// wait for the next inbound connection without waiting for the bridge.
    Spawn { buffer_size: BufferSize },
    /// The peer could not be reached: drop the accepted client, and wait
    /// for the next inbound connection.
    Reject(std::io::Error),
    /// The accept failed: wait for the next inbound connection.
    Skip(std::io::Error),
    /// Start-up failed: end the service.
    Exit(StartupError),
}

/// A listener's action as the model sees it.
pub enum ListenerActionView {
    Probe,
    Remove,
    Bind,
    Accept,
    Connect,
    Spawn { buffer_size: nat },
    Reject(std::io::Error),
    Skip(std::io::Error),
    Exit(StartupError),
}

impl View for ListenerAction {
    type V = ListenerActionView;

    open spec fn view(&self) -> ListenerActionView {
        match *self {
            ListenerAction::Probe => ListenerActionView::Probe,
            ListenerAction::Remove => ListenerActionView::Remove,
            ListenerAction::Bind => ListenerActionView::Bind,
            ListenerAction::Accept => ListenerActionView::Accept,
            ListenerAction::Connect => ListenerActionView::Connect,
            ListenerAction::Spawn { buffer_size } => ListenerActionView::Spawn {
                buffer_size: buffer_size@,
            },
            ListenerAction::Reject(error) => ListenerActionView::Reject(error),
            ListenerAction::Skip(error) => ListenerActionView::Skip(error),
            ListenerAction::Exit(error) => ListenerActionView::Exit(error),
        }
    }
}

/// The model of a listener.
pub struct ListenerState {
    /// Which transport the service listens on.
    pub mode: Mode,
    /// The buffer size of the bridges it starts.
    pub buffer_size: nat,
    /// What the listener is waiting for.
    pub phase: ListenerPhase,
}

impl ListenerState {
    /// A listener that has not been started.
    pub open spec fn initial(mode: Mode, buffer_size: nat) -> ListenerState {
        ListenerState { mode, buffer_size, phase: ListenerPhase::Idle }
    }

    /// Whether start-up is over and the service takes connections.
    pub open spec fn serving(self) -> bool {
        self.phase == ListenerPhase::Accepting || self.phase == ListenerPhase::Connecting
    }

    /// Whether `event` answers what the listener is waiting for.
    pub open spec fn accepts(self, event: ListenerEvent) -> bool {
        match event {
            ListenerEvent::Started => self.phase == ListenerPhase::Idle,
            ListenerEvent::Probed(_) => self.phase == ListenerPhase::Probing,
            ListenerEvent::Removed => self.phase == ListenerPhase::Removing,
            ListenerEvent::Bound => self.phase == ListenerPhase::Binding,
            ListenerEvent::Accepted => self.phase == ListenerPhase::Accepting,
            ListenerEvent::Connected => self.phase == ListenerPhase::Connecting,
            ListenerEvent::Failed(_) => self.phase == ListenerPhase::Removing || self.phase
                == ListenerPhase::Binding || self.phase == ListenerPhase::Accepting || self.phase
                == ListenerPhase::Connecting,
        }
    }

    /// The phase that an accepted event leads to.
    pub open spec fn next_phase(self, event: ListenerEvent) -> ListenerPhase {
        match event {
            ListenerEvent::Started => if self.mode.local_transport() == Transport::Unix {
                ListenerPhase::Probing
            } else {
                ListenerPhase::Binding
            },
            ListenerEvent::Probed(stale) => if stale {
                ListenerPhase::Removing
            } else {
                ListenerPhase::Binding
            },
            ListenerEvent::Removed => ListenerPhase::Binding,
            ListenerEvent::Bound => ListenerPhase::Accepting,
            ListenerEvent::Accepted => ListenerPhase::Connecting,
            ListenerEvent::Connected => ListenerPhase::Accepting,
            ListenerEvent::Failed(_) => if self.serving() {
                ListenerPhase::Accepting
            } else {
                ListenerPhase::Stopped
            },
        }
    }

    /// The action that answers an accepted event.
    pub open spec fn action(self, event: ListenerEvent) -> ListenerActionView {
        match event {
            ListenerEvent::Started => if self.mode.local_transport() == Transport::Unix {
                ListenerActionView::Probe
            } else {
                ListenerActionView::Bind
            },
            ListenerEvent::Probed(stale) => if stale {
                ListenerActionView::Remove
            } else {
                ListenerActionView::Bind
            },
            ListenerEvent::Removed => ListenerActionView::Bind,
            ListenerEvent::Bound => ListenerActionView::Accept,
            ListenerEvent::Accepted => ListenerActionView::Connect,
            ListenerEvent::Connected => ListenerActionView::Spawn {
                buffer_size: self.buffer_size,
            },
            ListenerEvent::Failed(error) => match self.phase {
                ListenerPhase::Removing => ListenerActionView::Exit(
                    StartupError::RemoveStale(error),
                ),
                ListenerPhase::Binding => ListenerActionView::Exit(StartupError::Bind(error)),
                ListenerPhase::Connecting => ListenerActionView::Reject(error),
                _ => ListenerActionView::Skip(error),
            },
        }
    }

    /// The state after `event`: an event that is not accepted changes
    /// nothing.
    pub open spec fn after(self, event: ListenerEvent) -> ListenerState {
        if self.accepts(event) {
            ListenerState { phase: self.next_phase(event), ..self }
        } else {
            self
        }
    }

    /// The action that answers `event`, if it is accepted.
    pub open spec fn answer(self, event: ListenerEvent) -> Option<ListenerActionView> {
        if self.accepts(event) {
            Some(self.action(event))
        } else {
            None
        }
    }
}

/// The model's reading of what `serve` returns.
pub open spec fn listener_action_view(action: Option<ListenerAction>) -> Option<
    ListenerActionView,
> {
    match action {
        Some(action) => Some(action@),
        None => None,
    }
}

/// The service: a local endpoint to listen on, a peer to connect out to,
/// and the buffer size of the bridges between them.
#[derive(Debug)]
pub struct Listener {
    mode: Mode,
    buffer_size: BufferSize,
    phase: ListenerPhase,
}

impl View for Listener {
    type V = ListenerState;

    closed spec fn view(&self) -> ListenerState {
        ListenerState { mode: self.mode, buffer_size: self.buffer_size@, phase: self.phase }
    }
}

impl Listener {
    /// A listener for `mode` whose bridges use buffers of `buffer_size`
    /// bytes. It waits to be started.
    pub fn new(mode: Mode, buffer_size: BufferSize) -> (listener: Listener)
        ensures
            listener@ == ListenerState::initial(mode, buffer_size@),
    {
        Listener { mode, buffer_size, phase: ListenerPhase::Idle }
    }

    /// Which transport the service listens on.
    pub fn mode(&self) -> (mode: Mode)
        ensures
            mode == self@.mode,
    {
        self.mode
    }

    /// The buffer size of the bridges that the service starts.
    pub fn buffer_size(&self) -> (size: BufferSize)
        ensures
            size@ == self@.buffer_size,
    {
        self.buffer_size
    }

    /// What the listener is waiting for.
    pub fn phase(&self) -> (phase: ListenerPhase)
        ensures
            phase == self@.phase,
    {
        self.phase
    }

    /// Whether start-up is over and the service takes connections.
    pub fn is_serving(&self) -> (serving: bool)
        ensures
            serving == self@.serving(),
    {
        self.phase == ListenerPhase::Accepting || self.phase == ListenerPhase::Connecting
    }
}

/// Takes the listener one step on: `event` is what the operation under way
/// came to, and the result is the operation to carry out next.
///
/// An event that does not answer what the listener is waiting for changes
/// nothing and gets no action.
pub fn serve(listener: &mut Listener, event: ListenerEvent) -> (action: Option<ListenerAction>)
    ensures
        final(listener)@ == old(listener)@.after(event),
        listener_action_view(action) == old(listener)@.answer(event),
{
    match event {
        ListenerEvent::Started => {
            if listener.phase == ListenerPhase::Idle {
                if listener.mode.local() == Transport::Unix {
                    listener.phase = ListenerPhase::Probing;
                    Some(ListenerAction::Probe)
                } else {
                    listener.phase = ListenerPhase::Binding;
                    Some(ListenerAction::Bind)
                }
            } else {
                None
            }
        },
        ListenerEvent::Probed(stale) => {
            if listener.phase == ListenerPhase::Probing {
                if stale {
                    listener.phase = ListenerPhase::Removing;
                    Some(ListenerAction::Remove)
                } else {
                    listener.phase = ListenerPhase::Binding;
                    Some(ListenerAction::Bind)
                }
            } else {
                None
            }
        },
        ListenerEvent::Removed => {
            if listener.phase == ListenerPhase::Removing {
                listener.phase = ListenerPhase::Binding;
                Some(ListenerAction::Bind)
            } else {
                None
            }
        },
        ListenerEvent::Bound => {
            if listener.phase == ListenerPhase::Binding {
                listener.phase = ListenerPhase::Accepting;
                Some(ListenerAction::Accept)
            } else {
                None
            }
        },
        ListenerEvent::Accepted => {
            if listener.phase == ListenerPhase::Accepting {
                listener.phase = ListenerPhase::Connecting;
                Some(ListenerAction::Connect)
            } else {
                None
            }
        },
        ListenerEvent::Connected => {
            if listener.phase == ListenerPhase::Connecting {
                listener.phase = ListenerPhase::Accepting;
                Some(ListenerAction::Spawn { buffer_size: listener.buffer_size })
            } else {
                None
            }
        },
        ListenerEvent::Failed(error) => {
            match listener.phase {
                ListenerPhase::Removing => {
                    listener.phase = ListenerPhase::Stopped;
                    Some(ListenerAction::Exit(StartupError::RemoveStale(error)))
                },
                ListenerPhase::Binding => {
                    listener.phase = ListenerPhase::Stopped;
                    Some(ListenerAction::Exit(StartupError::Bind(error)))
                },
                ListenerPhase::Accepting => Some(ListenerAction::Skip(error)),
                ListenerPhase::Connecting => {
                    listener.phase = ListenerPhase::Accepting;
                    Some(ListenerAction::Reject(error))
                },
                _ => None,
            }
        },
    }
}

} // verus!
