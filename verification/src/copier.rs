//! The duplex copier: one direction of a bridged connection.
//!
//! A [`CopyTask`] relays what a source endpoint delivers to a destination
//! endpoint through a buffer of fixed size. It reads, writes every chunk in
//! full, flushes after every chunk, and reads again, until the source
//! reports end of stream or an operation fails. The task itself touches no
//! endpoint: [`forward_data`] takes what the last operation came to and
//! answers with the operation to carry out next.

use crate::config::BufferSize;
use crate::error::BridgeError;
use vstd::prelude::*;
use vstd::slice::slice_subrange;

verus! {

/// What a copy task is waiting for.
#[derive(Clone, Copy, Debug, PartialEq, Eq, Structural)]
pub enum Phase {
    /// Not started yet.
    Idle,
    /// A read on the source is under way.
    Reading,
    /// The write of the chunk read last is under way.
    Writing,
    /// The flush that follows a write is under way.
    Flushing,
    /// The task has ended; nothing is under way.
    Finished,
}

/// What the driver reports to a copy task.
#[derive(Debug)]
pub enum CopyEvent {
    /// The task is to begin.
    Started,
    /// The read returned this many bytes, placed at the front of the buffer.
    /// Zero is the source's end of stream.
    Read(usize),
    /// The chunk was written to the destination in full.
    Written,
    /// The destination was flushed.
    Flushed,
    /// The operation under way failed.
    Failed(std::io::Error),
}

/// What a copy task asks the driver to do.
#[derive(Debug)]
pub enum CopyAction<'a> {
    /// Read at most `max` bytes from the source into the front of the buffer.
    Read { max: usize },
    /// Write all of these bytes to the destination.
    Write(&'a [u8]),
    /// Flush the destination.
    Flush,
    /// Stop: this direction has ended. `Ok` after an end of stream that
    /// followed data, `Err(BridgeError::Eof)` after one that came before any
    /// data, `Err(BridgeError::IoError(_))` after a failure.
    Finish(Result<(), BridgeError>),
}

/// An event as the model sees it: a read stands for the bytes it brought.
pub enum CopyEventView {
    Started,
    Read(Seq<u8>),
    Written,
    Flushed,
    Failed(std::io::Error),
}

/// An action as the model sees it.
pub enum CopyActionView {
    Read { max: nat },
    Write(Seq<u8>),
    Flush,
    Finish(Result<(), BridgeError>),
}

impl<'a> View for CopyAction<'a> {
    type V = CopyActionView;

    open spec fn view(&self) -> CopyActionView {
        match *self {
            CopyAction::Read { max } => CopyActionView::Read { max: max as nat },
            CopyAction::Write(bytes) => CopyActionView::Write(bytes@),
            CopyAction::Flush => CopyActionView::Flush,
            CopyAction::Finish(outcome) => CopyActionView::Finish(outcome),
        }
    }
}

/// The model of a copy task.
pub struct CopyState {
    /// The most that one read may bring.
    pub buffer_size: nat,
    /// What the task is waiting for.
    pub phase: Phase,
    /// Whether the source has delivered any byte so far.
    pub data_available: bool,
}

impl CopyState {
    /// A task that has not been started.
    pub open spec fn initial(buffer_size: nat) -> CopyState {
        CopyState { buffer_size, phase: Phase::Idle, data_available: false }
    }

    /// Whether `event` answers what the task is waiting for. A read answers
    /// only if it brought no more than the buffer holds.
    pub open spec fn accepts(self, event: CopyEventView) -> bool {
        match event {
            CopyEventView::Started => self.phase == Phase::Idle,
            CopyEventView::Read(chunk) => self.phase == Phase::Reading && chunk.len()
                <= self.buffer_size,
            CopyEventView::Written => self.phase == Phase::Writing,
            CopyEventView::Flushed => self.phase == Phase::Flushing,
            CopyEventView::Failed(_) => self.phase == Phase::Reading || self.phase
                == Phase::Writing || self.phase == Phase::Flushing,
        }
    }

    /// The state that an accepted event leads to.
    pub open spec fn next(self, event: CopyEventView) -> CopyState {
        match event {
            CopyEventView::Started => CopyState { phase: Phase::Reading, ..self },
            CopyEventView::Read(chunk) => if chunk.len() == 0 {
                CopyState { phase: Phase::Finished, ..self }
            } else {
                CopyState { phase: Phase::Writing, data_available: true, ..self }
            },
            CopyEventView::Written => CopyState { phase: Phase::Flushing, ..self },
            CopyEventView::Flushed => CopyState { phase: Phase::Reading, ..self },
            CopyEventView::Failed(_) => CopyState { phase: Phase::Finished, ..self },
        }
    }

    /// The action that answers an accepted event.
    pub open spec fn action(self, event: CopyEventView) -> CopyActionView {
        match event {
            CopyEventView::Started => CopyActionView::Read { max: self.buffer_size },
            CopyEventView::Read(chunk) => if chunk.len() == 0 {
                CopyActionView::Finish(
                    if self.data_available {
                        Ok(())
                    } else {
                        Err(BridgeError::Eof)
                    },
                )
            } else {
                CopyActionView::Write(chunk)
            },
            CopyEventView::Written => CopyActionView::Flush,
            CopyEventView::Flushed => CopyActionView::Read { max: self.buffer_size },
            CopyEventView::Failed(error) => CopyActionView::Finish(
                Err(BridgeError::IoError(error)),
            ),
        }
    }

    /// The state after `event`: an event that is not accepted changes
    /// nothing.
    pub open spec fn after(self, event: CopyEventView) -> CopyState {
        if self.accepts(event) {
            self.next(event)
        } else {
            self
        }
    }

    /// The action that answers `event`, if it is accepted.
    pub open spec fn answer(self, event: CopyEventView) -> Option<CopyActionView> {
        if self.accepts(event) {
            Some(self.action(event))
        } else {
            None
        }
    }
}

/// What an event reported with `buffer` means to the model. A read that
/// claims more bytes than the buffer holds means nothing.
pub open spec fn observe(event: CopyEvent, buffer: Seq<u8>) -> Option<CopyEventView> {
    match event {
        CopyEvent::Started => Some(CopyEventView::Started),
        CopyEvent::Read(count) => if count <= buffer.len() {
            Some(CopyEventView::Read(buffer.subrange(0, count as int)))
        } else {
            None
        },
        CopyEvent::Written => Some(CopyEventView::Written),
        CopyEvent::Flushed => Some(CopyEventView::Flushed),
        CopyEvent::Failed(error) => Some(CopyEventView::Failed(error)),
    }
}

/// The state and the action that follow from reporting `event` with
/// `buffer` in state `state`.
pub open spec fn reaction(state: CopyState, event: CopyEvent, buffer: Seq<u8>) -> (
    CopyState,
    Option<CopyActionView>,
) {
    match observe(event, buffer) {
        Some(seen) => (state.after(seen), state.answer(seen)),
        None => (state, None),
    }
}

/// The model's reading of what `forward_data` returns.
pub open spec fn action_view(action: Option<CopyAction<'_>>) -> Option<CopyActionView> {
    match action {
        Some(action) => Some(action@),
        None => None,
    }
}

/// One direction of a bridged connection, from a source to a destination.
#[derive(Debug)]
pub struct CopyTask {
    buffer_size: BufferSize,
    phase: Phase,
    data_available: bool,
}

impl View for CopyTask {
    type V = CopyState;

    closed spec fn view(&self) -> CopyState {
        CopyState {
            buffer_size: self.buffer_size@,
            phase: self.phase,
            data_available: self.data_available,
        }
    }
}

impl CopyTask {
    /// A task that reads at most `buffer_size` bytes at a time. It waits to
    /// be started.
    pub fn new(buffer_size: BufferSize) -> (task: CopyTask)
        ensures
            task@ == CopyState::initial(buffer_size@),
    {
        CopyTask { buffer_size, phase: Phase::Idle, data_available: false }
    }

    /// The size of the task's buffer.
    pub fn buffer_size(&self) -> (size: BufferSize)
        ensures
            size@ == self@.buffer_size,
    {
        self.buffer_size
    }

    /// What the task is waiting for.
    pub fn phase(&self) -> (phase: Phase)
        ensures
            phase == self@.phase,
    {
        self.phase
    }

    /// Whether the task has ended.
    pub fn is_finished(&self) -> (finished: bool)
        ensures
            finished == (self@.phase == Phase::Finished),
    {
        self.phase == Phase::Finished
    }

    /// Whether the source has delivered any byte so far.
    pub fn data_available(&self) -> (available: bool)
        ensures
            available == self@.data_available,
    {
        self.data_available
    }
}

/// Takes the task one step on: `event` is what the operation under way came
/// to, and the result is the operation to carry out next. `buffer` is the
/// buffer that reads fill; a chunk to write is borrowed from its front.
///
/// An event that does not answer what the task is waiting for, or a read
/// that claims more bytes than the buffer size or the buffer allow, changes
/// nothing and gets no action.
pub fn forward_data<'a>(task: &mut CopyTask, event: CopyEvent, buffer: &'a [u8]) -> (action:
    Option<CopyAction<'a>>)
    ensures
        (final(task)@, action_view(action)) == reaction(old(task)@, event, buffer@),
{
    match event {
        CopyEvent::Started => {
            if task.phase == Phase::Idle {
                task.phase = Phase::Reading;
                Some(CopyAction::Read { max: task.buffer_size.get() })
            } else {
                None
            }
        },
        CopyEvent::Read(bytes_read) => {
            if task.phase == Phase::Reading && bytes_read <= task.buffer_size.get() && bytes_read
                <= buffer.len() {
                if bytes_read == 0 {
                    task.phase = Phase::Finished;
                    if task.data_available {
                        Some(CopyAction::Finish(Ok(())))
                    } else {
                        Some(CopyAction::Finish(Err(BridgeError::Eof)))
                    }
                } else {
                    task.data_available = true;
                    task.phase = Phase::Writing;
                    Some(CopyAction::Write(slice_subrange(buffer, 0, bytes_read)))
                }
            } else {
                None
            }
        },
        CopyEvent::Written => {
            if task.phase == Phase::Writing {
                task.phase = Phase::Flushing;
                Some(CopyAction::Flush)
            } else {
                None
            }
        },
        CopyEvent::Flushed => {
            if task.phase == Phase::Flushing {
                task.phase = Phase::Reading;
                Some(CopyAction::Read { max: task.buffer_size.get() })
            } else {
                None
            }
        },
        CopyEvent::Failed(error) => {
            if task.phase == Phase::Reading || task.phase == Phase::Writing || task.phase
                == Phase::Flushing {
                task.phase = Phase::Finished;
                Some(CopyAction::Finish(Err(BridgeError::from(error))))
            } else {
                None
            }
        },
    }
}

} // verus!
