use socketbridge::config::BufferSize;
use socketbridge::copier::{forward_data, CopyAction, CopyEvent, CopyTask, Phase};
use socketbridge::error::BridgeError;
use std::io::{Error, ErrorKind};

fn task_of(size: usize) -> CopyTask {
    CopyTask::new(BufferSize::new(size).unwrap())
}

/// Drives a task over an in-memory source and destination. `cuts` gives the
/// number of bytes that each read brings, as long as the source has them
/// and the task allows them; once it is used up every read fills the buffer.
fn relay(payload: &[u8], size: usize, cuts: &[usize]) -> (Vec<u8>, Result<(), BridgeError>, usize) {
    let mut task = task_of(size);
    let mut buffer = vec![0u8; size];
    let mut written = Vec::new();
    let mut flushes = 0;
    let mut position = 0;
    let mut reads = 0;
    let mut event = CopyEvent::Started;
    loop {
        let action = forward_data(&mut task, event, &buffer).expect("the driver's event is taken");
        event = match action {
            CopyAction::Read { max } => {
                assert_eq!(max, size);
                let wanted = cuts.get(reads).copied().unwrap_or(max);
                reads += 1;
                let count = wanted.min(max).min(payload.len() - position);
                buffer[..count].copy_from_slice(&payload[position..position + count]);
                position += count;
                CopyEvent::Read(count)
            }
            CopyAction::Write(bytes) => {
                written.extend_from_slice(bytes);
                CopyEvent::Written
            }
            CopyAction::Flush => {
                flushes += 1;
                CopyEvent::Flushed
            }
            CopyAction::Finish(outcome) => return (written, outcome, flushes),
        };
    }
}

#[test]
fn a_new_task_waits_to_be_started() {
    let task = task_of(8);
    assert_eq!(task.phase(), Phase::Idle);
    assert!(!task.is_finished());
    assert!(!task.data_available());
    assert_eq!(task.buffer_size().get(), 8);
}

#[test]
fn the_first_action_is_a_read_of_the_buffer_size() {
    let mut task = task_of(8);
    let buffer = [0u8; 8];
    let action = forward_data(&mut task, CopyEvent::Started, &buffer);
    assert!(matches!(action, Some(CopyAction::Read { max: 8 })));
    assert_eq!(task.phase(), Phase::Reading);
}

#[test]
fn a_read_is_answered_by_a_write_of_exactly_the_bytes_read() {
    let mut task = task_of(8);
    let buffer = *b"pingXXXX";
    forward_data(&mut task, CopyEvent::Started, &buffer).unwrap();
    match forward_data(&mut task, CopyEvent::Read(4), &buffer) {
        Some(CopyAction::Write(bytes)) => assert_eq!(bytes, b"ping"),
        other => panic!("expected a write, got {:?}", other),
    }
    assert_eq!(task.phase(), Phase::Writing);
    assert!(task.data_available());
}

#[test]
fn a_write_is_followed_by_a_flush_and_a_flush_by_the_next_read() {
    let mut task = task_of(4);
    let buffer = *b"abcd";
    forward_data(&mut task, CopyEvent::Started, &buffer).unwrap();
    forward_data(&mut task, CopyEvent::Read(4), &buffer).unwrap();
    assert!(matches!(
        forward_data(&mut task, CopyEvent::Written, &buffer),
        Some(CopyAction::Flush)
    ));
    assert_eq!(task.phase(), Phase::Flushing);
    assert!(matches!(
        forward_data(&mut task, CopyEvent::Flushed, &buffer),
        Some(CopyAction::Read { max: 4 })
    ));
    assert_eq!(task.phase(), Phase::Reading);
}

#[test]
fn a_short_read_does_not_end_the_task() {
    let mut task = task_of(8);
    let buffer = *b"abXXXXXX";
    forward_data(&mut task, CopyEvent::Started, &buffer).unwrap();
    forward_data(&mut task, CopyEvent::Read(2), &buffer).unwrap();
    forward_data(&mut task, CopyEvent::Written, &buffer).unwrap();
    let next = forward_data(&mut task, CopyEvent::Flushed, &buffer);
    assert!(matches!(next, Some(CopyAction::Read { max: 8 })));
    assert!(!task.is_finished());
}

#[test]
fn end_of_stream_before_any_data_is_eof() {
    let mut task = task_of(4);
    let buffer = [0u8; 4];
    forward_data(&mut task, CopyEvent::Started, &buffer).unwrap();
    let action = forward_data(&mut task, CopyEvent::Read(0), &buffer);
    assert!(matches!(
        action,
        Some(CopyAction::Finish(Err(BridgeError::Eof)))
    ));
    assert!(task.is_finished());
    assert!(!task.data_available());
}

#[test]
fn end_of_stream_after_data_is_ok() {
    let mut task = task_of(4);
    let buffer = *b"abcd";
    forward_data(&mut task, CopyEvent::Started, &buffer).unwrap();
    forward_data(&mut task, CopyEvent::Read(1), &buffer).unwrap();
    forward_data(&mut task, CopyEvent::Written, &buffer).unwrap();
    forward_data(&mut task, CopyEvent::Flushed, &buffer).unwrap();
    let action = forward_data(&mut task, CopyEvent::Read(0), &buffer);
    assert!(matches!(action, Some(CopyAction::Finish(Ok(())))));
    assert_eq!(task.phase(), Phase::Finished);
}

#[test]
fn a_failed_read_ends_the_task_with_the_transports_error() {
    let mut task = task_of(4);
    let buffer = [0u8; 4];
    forward_data(&mut task, CopyEvent::Started, &buffer).unwrap();
    let error = Error::new(ErrorKind::ConnectionReset, "reset by peer");
    match forward_data(&mut task, CopyEvent::Failed(error), &buffer) {
        Some(CopyAction::Finish(Err(BridgeError::IoError(error)))) => {
            assert_eq!(error.kind(), ErrorKind::ConnectionReset);
            assert_eq!(error.to_string(), "reset by peer");
        }
        other => panic!("expected a failure, got {:?}", other),
    }
    assert!(task.is_finished());
}

#[test]
fn a_failed_write_ends_the_task_with_the_transports_error() {
    let mut task = task_of(4);
    let buffer = *b"abcd";
    forward_data(&mut task, CopyEvent::Started, &buffer).unwrap();
    forward_data(&mut task, CopyEvent::Read(4), &buffer).unwrap();
    let error = Error::new(ErrorKind::BrokenPipe, "broken pipe");
    match forward_data(&mut task, CopyEvent::Failed(error), &buffer) {
        Some(CopyAction::Finish(Err(BridgeError::IoError(error)))) => {
            assert_eq!(error.kind(), ErrorKind::BrokenPipe);
        }
        other => panic!("expected a failure, got {:?}", other),
    }
    assert!(task.is_finished());
}

#[test]
fn a_failed_flush_ends_the_task_with_the_transports_error() {
    let mut task = task_of(4);
    let buffer = *b"abcd";
    forward_data(&mut task, CopyEvent::Started, &buffer).unwrap();
    forward_data(&mut task, CopyEvent::Read(4), &buffer).unwrap();
    forward_data(&mut task, CopyEvent::Written, &buffer).unwrap();
    let error = Error::new(ErrorKind::TimedOut, "timed out");
    match forward_data(&mut task, CopyEvent::Failed(error), &buffer) {
        Some(CopyAction::Finish(Err(BridgeError::IoError(error)))) => {
            assert_eq!(error.kind(), ErrorKind::TimedOut);
        }
        other => panic!("expected a failure, got {:?}", other),
    }
    assert!(task.is_finished());
}

#[test]
fn an_event_that_is_not_awaited_changes_nothing() {
    let mut task = task_of(4);
    let buffer = *b"abcd";
    assert!(forward_data(&mut task, CopyEvent::Read(1), &buffer).is_none());
    assert!(forward_data(&mut task, CopyEvent::Written, &buffer).is_none());
    assert!(forward_data(&mut task, CopyEvent::Flushed, &buffer).is_none());
    let error = Error::new(ErrorKind::Other, "early");
    assert!(forward_data(&mut task, CopyEvent::Failed(error), &buffer).is_none());
    assert_eq!(task.phase(), Phase::Idle);

    forward_data(&mut task, CopyEvent::Started, &buffer).unwrap();
    assert!(forward_data(&mut task, CopyEvent::Started, &buffer).is_none());
    assert!(forward_data(&mut task, CopyEvent::Written, &buffer).is_none());
    assert!(forward_data(&mut task, CopyEvent::Flushed, &buffer).is_none());
    assert_eq!(task.phase(), Phase::Reading);

    forward_data(&mut task, CopyEvent::Read(2), &buffer).unwrap();
    assert!(forward_data(&mut task, CopyEvent::Read(2), &buffer).is_none());
    assert!(forward_data(&mut task, CopyEvent::Flushed, &buffer).is_none());
    assert_eq!(task.phase(), Phase::Writing);

    forward_data(&mut task, CopyEvent::Written, &buffer).unwrap();
    assert!(forward_data(&mut task, CopyEvent::Written, &buffer).is_none());
    assert!(forward_data(&mut task, CopyEvent::Read(0), &buffer).is_none());
    assert_eq!(task.phase(), Phase::Flushing);
    assert!(task.data_available());
}

#[test]
fn a_read_larger_than_the_buffer_size_is_not_taken() {
    let mut task = task_of(4);
    let buffer = [7u8; 16];
    forward_data(&mut task, CopyEvent::Started, &buffer).unwrap();
    assert!(forward_data(&mut task, CopyEvent::Read(5), &buffer).is_none());
    assert_eq!(task.phase(), Phase::Reading);
    assert!(!task.data_available());
    match forward_data(&mut task, CopyEvent::Read(4), &buffer) {
        Some(CopyAction::Write(bytes)) => assert_eq!(bytes, &[7u8; 4]),
        other => panic!("expected a write, got {:?}", other),
    }
}

#[test]
fn a_read_larger_than_the_buffer_given_is_not_taken() {
    let mut task = task_of(8);
    let buffer = [1u8; 2];
    forward_data(&mut task, CopyEvent::Started, &buffer).unwrap();
    assert!(forward_data(&mut task, CopyEvent::Read(3), &buffer).is_none());
    assert_eq!(task.phase(), Phase::Reading);
    match forward_data(&mut task, CopyEvent::Read(2), &buffer) {
        Some(CopyAction::Write(bytes)) => assert_eq!(bytes, &[1u8, 1u8]),
        other => panic!("expected a write, got {:?}", other),
    }
}

#[test]
fn a_finished_task_takes_nothing_more() {
    let mut task = task_of(4);
    let buffer = [0u8; 4];
    forward_data(&mut task, CopyEvent::Started, &buffer).unwrap();
    forward_data(&mut task, CopyEvent::Read(0), &buffer).unwrap();
    assert!(forward_data(&mut task, CopyEvent::Started, &buffer).is_none());
    assert!(forward_data(&mut task, CopyEvent::Read(1), &buffer).is_none());
    assert!(forward_data(&mut task, CopyEvent::Written, &buffer).is_none());
    assert!(forward_data(&mut task, CopyEvent::Flushed, &buffer).is_none());
    let error = Error::new(ErrorKind::Other, "late");
    assert!(forward_data(&mut task, CopyEvent::Failed(error), &buffer).is_none());
    assert!(task.is_finished());
}

#[test]
fn an_empty_source_relays_nothing_and_ends_with_eof() {
    let (written, outcome, flushes) = relay(b"", 16, &[]);
    assert!(written.is_empty());
    assert!(matches!(outcome, Err(BridgeError::Eof)));
    assert_eq!(flushes, 0);
}

#[test]
fn ping_is_relayed_as_it_came() {
    let (written, outcome, flushes) = relay(b"ping", 4096, &[]);
    assert_eq!(written, b"ping");
    assert_eq!(written.len(), 4);
    assert!(outcome.is_ok());
    assert_eq!(flushes, 1);
}

#[test]
fn a_payload_one_byte_shorter_than_the_buffer_is_relayed_whole() {
    let payload: Vec<u8> = (0..63u8).collect();
    let (written, outcome, flushes) = relay(&payload, 64, &[]);
    assert_eq!(written, payload);
    assert!(outcome.is_ok());
    assert_eq!(flushes, 1);
}

#[test]
fn a_payload_as_long_as_the_buffer_is_relayed_whole() {
    let payload: Vec<u8> = (0..64u8).collect();
    let (written, outcome, flushes) = relay(&payload, 64, &[]);
    assert_eq!(written, payload);
    assert!(outcome.is_ok());
    assert_eq!(flushes, 1);
}

#[test]
fn a_payload_one_byte_longer_than_the_buffer_is_relayed_whole() {
    let payload: Vec<u8> = (0..65u8).collect();
    let (written, outcome, flushes) = relay(&payload, 64, &[]);
    assert_eq!(written, payload);
    assert!(outcome.is_ok());
    assert_eq!(flushes, 2);
}

#[test]
fn a_buffer_of_one_byte_relays_byte_by_byte() {
    let payload = b"hello, bridge";
    let (written, outcome, flushes) = relay(payload, 1, &[]);
    assert_eq!(written, payload);
    assert!(outcome.is_ok());
    assert_eq!(flushes, payload.len());
}

#[test]
fn the_cut_of_the_reads_does_not_change_what_is_relayed() {
    let payload: Vec<u8> = (0..1000u32).map(|i| (i * 7 % 251) as u8).collect();
    let cuts: [&[usize]; 5] = [
        &[],
        &[1, 1, 1, 1],
        &[3, 16, 1, 15, 2, 16, 16, 5],
        &[16, 16, 16, 1],
        &[7, 7, 7, 7, 7, 7, 7, 7, 7, 7, 7, 7, 7, 7, 7, 7, 7, 7, 7, 7],
    ];
    for cut in cuts {
        let (written, outcome, _) = relay(&payload, 16, cut);
        assert_eq!(written, payload);
        assert!(outcome.is_ok());
    }
}

#[test]
fn every_chunk_is_flushed() {
    let payload = [9u8; 40];
    let (written, outcome, flushes) = relay(&payload, 16, &[16, 8, 16]);
    assert_eq!(written, payload);
    assert!(outcome.is_ok());
    assert_eq!(flushes, 3);
}
