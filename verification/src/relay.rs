//! Whole runs of a copy task: what a task does over a sequence of events,
//! and the laws that hold of every run.

use crate::copier::{CopyActionView, CopyEventView, CopyState, Phase};
use crate::error::BridgeError;
use vstd::prelude::*;

verus! {

/// The state of a task that was in `state` and has been given `events` in
/// order.
pub open spec fn run(state: CopyState, events: Seq<CopyEventView>) -> CopyState
    decreases events.len(),
{
    if events.len() == 0 {
        state
    } else {
        run(state, events.drop_last()).after(events.last())
    }
}

/// The actions that a task in `state` gives in answer to `events`: one for
/// each event that it accepts, in order.
pub open spec fn actions(state: CopyState, events: Seq<CopyEventView>) -> Seq<CopyActionView>
    decreases events.len(),
{
    if events.len() == 0 {
        Seq::empty()
    } else {
        let earlier = events.drop_last();
        match run(state, earlier).answer(events.last()) {
            Some(action) => actions(state, earlier).push(action),
            None => actions(state, earlier),
        }
    }
}

/// The bytes that the source delivered over `events`: the chunks of the
/// accepted reads, end to end.
pub open spec fn bytes_read(state: CopyState, events: Seq<CopyEventView>) -> Seq<u8>
    decreases events.len(),
{
    if events.len() == 0 {
        Seq::empty()
    } else {
        let earlier = events.drop_last();
        match events.last() {
            CopyEventView::Read(chunk) => if run(state, earlier).accepts(events.last()) {
                bytes_read(state, earlier) + chunk
            } else {
                bytes_read(state, earlier)
            },
            _ => bytes_read(state, earlier),
        }
    }
}

/// The bytes that `actions` send to the destination: the chunks of the
/// writes, end to end.
pub open spec fn bytes_written(actions: Seq<CopyActionView>) -> Seq<u8>
    decreases actions.len(),
{
    if actions.len() == 0 {
        Seq::empty()
    } else {
        match actions.last() {
            CopyActionView::Write(chunk) => bytes_written(actions.drop_last()) + chunk,
            _ => bytes_written(actions.drop_last()),
        }
    }
}

/// The bytes that have reached the destination for good over `events`: all
/// that had been sent to it when the last accepted flush was reported.
pub open spec fn bytes_delivered(state: CopyState, events: Seq<CopyEventView>) -> Seq<u8>
    decreases events.len(),
{
    if events.len() == 0 {
        Seq::empty()
    } else {
        let earlier = events.drop_last();
        if events.last() is Flushed && run(state, earlier).accepts(events.last()) {
            bytes_written(actions(state, earlier))
        } else {
            bytes_delivered(state, earlier)
        }
    }
}

/// The phase of a task that has just given `action`: it waits for what the
/// action comes to.
pub open spec fn phase_after(action: CopyActionView) -> Phase {
    match action {
        CopyActionView::Read { .. } => Phase::Reading,
        CopyActionView::Write(_) => Phase::Writing,
        CopyActionView::Flush => Phase::Flushing,
        CopyActionView::Finish(_) => Phase::Finished,
    }
}

/// Whether `action` ends a task because an operation failed.
pub open spec fn is_failure(action: CopyActionView) -> bool {
    action matches CopyActionView::Finish(Err(BridgeError::IoError(_)))
}

/// Whether `later` may be the action that a task gives next after
/// `action`. A read is followed by the write of what it brought, or by the
/// end of the task; a write by its flush; a flush by the next read; a write
/// or a flush that failed by the end of the task; the end by nothing.
pub open spec fn follows(action: CopyActionView, later: CopyActionView) -> bool {
    match action {
        CopyActionView::Read { .. } => later is Write || later is Finish,
        CopyActionView::Write(_) => later is Flush || is_failure(later),
        CopyActionView::Flush => later is Read || is_failure(later),
        CopyActionView::Finish(_) => false,
    }
}

/// The chunks in which a source delivers `payload` if every read fills the
/// buffer as long as enough is left: all of `buffer_size` bytes but the
/// last, which holds the rest.
pub open spec fn full_reads(payload: Seq<u8>, buffer_size: nat) -> Seq<Seq<u8>>
    decreases payload.len(),
{
    if payload.len() == 0 || buffer_size == 0 {
        Seq::empty()
    } else if payload.len() <= buffer_size {
        seq![payload]
    } else {
        seq![payload.subrange(0, buffer_size as int)] + full_reads(
            payload.subrange(buffer_size as int, payload.len() as int),
            buffer_size,
        )
    }
}

/// Whether a source may deliver `chunks` one read each to a task with this
/// buffer size: no chunk is empty and none is larger than the buffer.
pub open spec fn readable(chunks: Seq<Seq<u8>>, buffer_size: nat) -> bool {
    forall|i: int| 0 <= i < chunks.len() ==> 0 < (#[trigger] chunks[i]).len() <= buffer_size
}

/// The events of a run in which nothing fails, up to the point where the
/// source has delivered `chunks`: the start, and for each chunk its read,
/// its write and its flush.
pub open spec fn delivery(chunks: Seq<Seq<u8>>) -> Seq<CopyEventView>
    decreases chunks.len(),
{
    if chunks.len() == 0 {
        seq![CopyEventView::Started]
    } else {
        delivery(chunks.drop_last()).push(CopyEventView::Read(chunks.last())).push(
            CopyEventView::Written,
        ).push(CopyEventView::Flushed)
    }
}

/// The events of a whole run in which nothing fails: the source delivers
/// `chunks` and then reports end of stream.
pub open spec fn session(chunks: Seq<Seq<u8>>) -> Seq<CopyEventView> {
    delivery(chunks).push(CopyEventView::Read(Seq::empty()))
}

/// How a run ends in which nothing fails and the source delivered this
/// many chunks.
pub open spec fn orderly_end(chunks: nat) -> Result<(), BridgeError> {
    if chunks == 0 {
        Err(BridgeError::Eof)
    } else {
        Ok(())
    }
}

/// One more event takes the run one step on.
pub proof fn lemma_run_push(state: CopyState, events: Seq<CopyEventView>, event: CopyEventView)
    ensures
        run(state, events.push(event)) == run(state, events).after(event),
        actions(state, events.push(event)) == match run(state, events).answer(event) {
            Some(action) => actions(state, events).push(action),
            None => actions(state, events),
        },
        bytes_read(state, events.push(event)) == match event {
            CopyEventView::Read(chunk) if run(state, events).accepts(event) => bytes_read(
                state,
                events,
            ) + chunk,
            _ => bytes_read(state, events),
        },
{
    assert(events.push(event).drop_last() =~= events);
}

/// One more action adds its chunk to the bytes written, if it is a write.
pub proof fn lemma_written_push(actions: Seq<CopyActionView>, action: CopyActionView)
    ensures
        bytes_written(actions.push(action)) == match action {
            CopyActionView::Write(chunk) => bytes_written(actions) + chunk,
            _ => bytes_written(actions),
        },
{
    assert(actions.push(action).drop_last() =~= actions);
}

/// A run never changes the buffer size.
pub proof fn lemma_run_keeps_buffer_size(state: CopyState, events: Seq<CopyEventView>)
    ensures
        run(state, events).buffer_size == state.buffer_size,
    decreases events.len(),
{
    if events.len() > 0 {
        lemma_run_keeps_buffer_size(state, events.drop_last());
    }
}

/// Nothing is lost, doubled or reordered: whatever the events, the bytes
/// that the task has sent to the destination are the bytes that the source
/// has delivered, in the same order.
pub proof fn lemma_written_is_read(state: CopyState, events: Seq<CopyEventView>)
    ensures
        bytes_written(actions(state, events)) == bytes_read(state, events),
    decreases events.len(),
{
    if events.len() > 0 {
        let earlier = events.drop_last();
        lemma_written_is_read(state, earlier);
        match run(state, earlier).answer(events.last()) {
            Some(action) => {
                lemma_written_push(actions(state, earlier), action);
                assert(bytes_read(state, earlier) + Seq::<u8>::empty() =~= bytes_read(
                    state,
                    earlier,
                ));
            },
            None => {},
        }
    }
}

/// No write is empty and none is larger than the buffer.
pub proof fn lemma_writes_fit_buffer(state: CopyState, events: Seq<CopyEventView>, i: int)
    requires
        0 <= i < actions(state, events).len(),
        actions(state, events)[i] is Write,
    ensures
        0 < actions(state, events)[i]->Write_0.len() <= state.buffer_size,
    decreases events.len(),
{
    if events.len() > 0 {
        let earlier = events.drop_last();
        lemma_run_keeps_buffer_size(state, earlier);
        if i < actions(state, earlier).len() {
            lemma_writes_fit_buffer(state, earlier, i);
        }
    }
}

/// A task that has ended accepts nothing more: it stays as it is and gives
/// no action.
pub proof fn lemma_finished_is_final(state: CopyState, events: Seq<CopyEventView>)
    requires
        state.phase == Phase::Finished,
    ensures
        run(state, events) == state,
        actions(state, events).len() == 0,
    decreases events.len(),
{
    if events.len() > 0 {
        lemma_finished_is_final(state, events.drop_last());
    }
}

/// A task ends at most once: an action that ends it is the last action of
/// the run, and the task has then ended.
pub proof fn lemma_finish_is_last(state: CopyState, events: Seq<CopyEventView>, i: int)
    requires
        0 <= i < actions(state, events).len(),
        actions(state, events)[i] is Finish,
    ensures
        i == actions(state, events).len() - 1,
        run(state, events).phase == Phase::Finished,
    decreases events.len(),
{
    if events.len() > 0 {
        let earlier = events.drop_last();
        if i < actions(state, earlier).len() {
            lemma_finish_is_last(state, earlier, i);
        }
    }
}

/// As long as nothing fails and the source has not reported end of stream,
/// the task takes every event, sends each chunk on as it came, and waits
/// for the next read.
pub proof fn lemma_delivery(buffer_size: nat, chunks: Seq<Seq<u8>>)
    requires
        readable(chunks, buffer_size),
    ensures
        run(CopyState::initial(buffer_size), delivery(chunks)) == (CopyState {
            buffer_size,
            phase: Phase::Reading,
            data_available: chunks.len() > 0,
        }),
        actions(CopyState::initial(buffer_size), delivery(chunks)).len() == delivery(chunks).len(),
        bytes_written(actions(CopyState::initial(buffer_size), delivery(chunks)))
            == chunks.flatten(),
    decreases chunks.len(),
{
    let start = CopyState::initial(buffer_size);
    if chunks.len() == 0 {
        let none = Seq::<CopyEventView>::empty();
        assert(delivery(chunks) =~= none.push(CopyEventView::Started));
        lemma_run_push(start, none, CopyEventView::Started);
        lemma_written_push(actions(start, none), CopyActionView::Read { max: buffer_size });
        assert(chunks.flatten() =~= Seq::<u8>::empty());
    } else {
        let earlier = chunks.drop_last();
        let chunk = chunks.last();
        lemma_delivery(buffer_size, earlier);
        let read = delivery(earlier);
        let wrote = read.push(CopyEventView::Read(chunk));
        let flushed = wrote.push(CopyEventView::Written);
        lemma_run_push(start, read, CopyEventView::Read(chunk));
        lemma_written_push(actions(start, read), CopyActionView::Write(chunk));
        lemma_run_push(start, wrote, CopyEventView::Written);
        lemma_written_push(actions(start, wrote), CopyActionView::Flush);
        lemma_run_push(start, flushed, CopyEventView::Flushed);
        lemma_written_push(actions(start, flushed), CopyActionView::Read { max: buffer_size });
        assert(chunks =~= earlier.push(chunk));
        earlier.lemma_flatten_push(chunk);
    }
}

/// Byte-exactness. Whatever bytes the source delivers before its end of
/// stream, and however they are cut into reads, a run in which nothing
/// fails sends exactly those bytes to the destination, in order, and then
/// ends: with `Ok` if there was any data, with `Err(BridgeError::Eof)` if
/// there was none.
pub proof fn lemma_relay_is_byte_exact(buffer_size: nat, chunks: Seq<Seq<u8>>)
    requires
        readable(chunks, buffer_size),
    ensures
        run(CopyState::initial(buffer_size), session(chunks)).phase == Phase::Finished,
        actions(CopyState::initial(buffer_size), session(chunks)).len() == session(chunks).len(),
        actions(CopyState::initial(buffer_size), session(chunks)).last()
            == CopyActionView::Finish(orderly_end(chunks.len())),
        bytes_written(actions(CopyState::initial(buffer_size), session(chunks)))
            == chunks.flatten(),
{
    let start = CopyState::initial(buffer_size);
    let end_of_stream = CopyEventView::Read(Seq::empty());
    lemma_delivery(buffer_size, chunks);
    lemma_run_push(start, delivery(chunks), end_of_stream);
    lemma_written_push(
        actions(start, delivery(chunks)),
        CopyActionView::Finish(orderly_end(chunks.len())),
    );
}

/// A task waits for what its last action comes to: after a run in which it
/// gave any action, its phase is the one that follows the last of them.
pub proof fn lemma_task_awaits_last_action(state: CopyState, events: Seq<CopyEventView>)
    ensures
        actions(state, events).len() == 0 ==> run(state, events) == state,
        actions(state, events).len() > 0 ==> run(state, events).phase == phase_after(
            actions(state, events).last(),
        ),
    decreases events.len(),
{
    if events.len() > 0 {
        lemma_task_awaits_last_action(state, events.drop_last());
    }
}

/// The actions of a run come in the order of the relay: every chunk read
/// is written, and flushed, before the next read, and nothing follows the
/// end of the task.
pub proof fn lemma_actions_are_in_order(state: CopyState, events: Seq<CopyEventView>, i: int)
    requires
        0 <= i < actions(state, events).len() - 1,
    ensures
        follows(actions(state, events)[i], actions(state, events)[i + 1]),
    decreases events.len(),
{
    if events.len() > 0 {
        let earlier = events.drop_last();
        if i + 1 < actions(state, earlier).len() {
            lemma_actions_are_in_order(state, earlier, i);
        } else {
            lemma_task_awaits_last_action(state, earlier);
        }
    }
}

/// While a task waits to be started or for a read, nothing is under way to
/// the destination: all that it has sent has been flushed.
pub proof fn lemma_nothing_pending_while_reading(state: CopyState, events: Seq<CopyEventView>)
    requires
        run(state, events).phase == Phase::Idle || run(state, events).phase == Phase::Reading,
    ensures
        bytes_delivered(state, events) == bytes_written(actions(state, events)),
    decreases events.len(),
{
    if events.len() > 0 {
        let earlier = events.drop_last();
        let last = events.last();
        if run(state, earlier).accepts(last) {
            if last is Flushed {
                lemma_written_push(
                    actions(state, earlier),
                    CopyActionView::Read { max: run(state, earlier).buffer_size },
                );
            } else {
                assert(last is Started);
                lemma_nothing_pending_while_reading(state, earlier);
                lemma_written_push(
                    actions(state, earlier),
                    CopyActionView::Read { max: run(state, earlier).buffer_size },
                );
            }
        } else {
            lemma_nothing_pending_while_reading(state, earlier);
        }
    } else {
        assert(actions(state, events) =~= Seq::empty());
    }
}

/// What has reached the destination for good is always the first part of
/// what the source has delivered.
pub proof fn lemma_delivered_is_prefix_of_read(state: CopyState, events: Seq<CopyEventView>)
    ensures
        bytes_delivered(state, events).is_prefix_of(bytes_read(state, events)),
    decreases events.len(),
{
    if events.len() > 0 {
        let earlier = events.drop_last();
        lemma_delivered_is_prefix_of_read(state, earlier);
        lemma_written_is_read(state, earlier);
        assert(bytes_read(state, earlier).is_prefix_of(bytes_read(state, events)));
    }
}

/// A task that ends on the source's end of stream has relayed all of it:
/// every byte that the source delivered has been written to the
/// destination and flushed.
pub proof fn lemma_orderly_end_is_complete(state: CopyState, events: Seq<CopyEventView>)
    requires
        actions(state, events).len() > 0,
        actions(state, events).last() is Finish,
        !is_failure(actions(state, events).last()),
    ensures
        bytes_delivered(state, events) == bytes_read(state, events),
    decreases events.len(),
{
    let earlier = events.drop_last();
    let last = events.last();
    lemma_written_is_read(state, events);
    if run(state, earlier).accepts(last) {
        lemma_nothing_pending_while_reading(state, earlier);
        lemma_written_is_read(state, earlier);
        assert(bytes_read(state, earlier) + Seq::<u8>::empty() =~= bytes_read(state, earlier));
    } else {
        lemma_orderly_end_is_complete(state, earlier);
    }
}

/// Reads that fill the buffer cut a payload into chunks that a source may
/// deliver, and that make up the payload again.
pub proof fn lemma_full_reads(payload: Seq<u8>, buffer_size: nat)
    requires
        buffer_size > 0,
    ensures
        readable(full_reads(payload, buffer_size), buffer_size),
        full_reads(payload, buffer_size).flatten() == payload,
    decreases payload.len(),
{
    let chunks = full_reads(payload, buffer_size);
    if payload.len() == 0 {
        assert(chunks.flatten() =~= payload);
    } else if payload.len() <= buffer_size {
        chunks.lemma_flatten_one_element();
    } else {
        let head = payload.subrange(0, buffer_size as int);
        let rest = payload.subrange(buffer_size as int, payload.len() as int);
        lemma_full_reads(rest, buffer_size);
        let tail = full_reads(rest, buffer_size);
        assert(chunks.first() == head);
        assert(chunks.drop_first() =~= tail);
        assert(head + rest =~= payload);
        assert forall|i: int| 0 <= i < chunks.len() implies 0 < (#[trigger] chunks[i]).len()
            <= buffer_size by {
            if i > 0 {
                assert(chunks[i] == tail[i - 1]);
            }
        }
    }
}

/// The buffer-size boundary. A payload of any length, be it shorter than
/// the buffer, exactly as long, or longer by one byte or by many, is
/// relayed whole when every read fills the buffer: the destination is sent
/// exactly the payload, and the task ends in order.
pub proof fn lemma_relay_of_full_reads(buffer_size: nat, payload: Seq<u8>)
    requires
        buffer_size > 0,
    ensures
        bytes_written(
            actions(CopyState::initial(buffer_size), session(full_reads(payload, buffer_size))),
        ) == payload,
        actions(
            CopyState::initial(buffer_size),
            session(full_reads(payload, buffer_size)),
        ).last() == CopyActionView::Finish(
            if payload.len() == 0 {
                Err(BridgeError::Eof)
            } else {
                Ok(())
            },
        ),
{
    lemma_full_reads(payload, buffer_size);
    lemma_relay_is_byte_exact(buffer_size, full_reads(payload, buffer_size));
}

} // verus!
