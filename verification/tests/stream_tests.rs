use enteract::audio_loopback::audio_processor::SampleFormat;
use enteract::audio_loopback::delivery::{
    loop_step, DeliveryQueue, LoopStep, ReceiveOutcome, StopHandle,
};
use enteract::audio_loopback::stream_reader::{
    after_failed_init, delivered_bytes, read_buffer_size, stream_format, FailureVerdict, ReadBudget,
};
use enteract::audio_loopback::types::CaptureError;

#[test]
fn a_single_failed_read_is_passed_over() {
    let mut budget = ReadBudget::new();
    assert_eq!(budget.record_failure(), FailureVerdict::Retry);
    assert_eq!(budget.failures(), 1);
    budget.record_success();
    assert_eq!(budget.failures(), 0);
}

#[test]
fn more_than_ten_failures_in_a_row_are_fatal() {
    let mut budget = ReadBudget::new();
    for _ in 0..10 {
        assert_eq!(budget.record_failure(), FailureVerdict::Retry);
    }
    assert_eq!(budget.record_failure(), FailureVerdict::Fatal);
    assert_eq!(budget.failures(), 11);
}

#[test]
fn a_success_ends_the_run_of_failures() {
    let mut budget = ReadBudget::new();
    for round in 0..5 {
        for _ in 0..10 {
            assert_eq!(budget.record_failure(), FailureVerdict::Retry, "round {}", round);
        }
        budget.record_success();
    }
    assert_eq!(budget.failures(), 0);
}

#[test]
fn failures_stand_for_their_errors() {
    assert_eq!(FailureVerdict::Retry.as_error(), CaptureError::TransientReadError);
    assert_eq!(FailureVerdict::Fatal.as_error(), CaptureError::FatalStreamError);
}

#[test]
fn initialisation_is_tried_three_times() {
    assert_eq!(after_failed_init(1), FailureVerdict::Retry);
    assert_eq!(after_failed_init(2), FailureVerdict::Retry);
    assert_eq!(after_failed_init(3), FailureVerdict::Fatal);
    assert_eq!(after_failed_init(4), FailureVerdict::Fatal);
}

#[test]
fn read_buffers_are_sized_within_bounds() {
    assert_eq!(read_buffer_size(0, 8), None);
    assert_eq!(read_buffer_size(480, 0), None);
    assert_eq!(read_buffer_size(480, 8), Some(4096));
    assert_eq!(read_buffer_size(512, 8), Some(4096));
    assert_eq!(read_buffer_size(513, 8), Some(4104));
    assert_eq!(read_buffer_size(131_072, 8), Some(1_048_576));
    assert_eq!(read_buffer_size(131_073, 8), None);
    assert_eq!(read_buffer_size(u32::MAX, usize::MAX), None);
    assert_eq!(read_buffer_size(1, 1_048_577), None);
}

#[test]
fn delivered_bytes_never_exceed_the_buffer() {
    assert_eq!(delivered_bytes(480, 8, 4096), 3840);
    assert_eq!(delivered_bytes(512, 8, 4096), 4096);
    assert_eq!(delivered_bytes(600, 8, 4096), 4096);
    assert_eq!(delivered_bytes(0, 8, 4096), 0);
    assert_eq!(delivered_bytes(u32::MAX, usize::MAX, 10), 10);
}

#[test]
fn stream_formats_are_told_apart() {
    assert_eq!(stream_format(16, false), Ok(SampleFormat::Int16));
    assert_eq!(stream_format(32, true), Ok(SampleFormat::Float32));
    assert_eq!(stream_format(32, false), Ok(SampleFormat::Int32));
    assert_eq!(stream_format(24, false), Err(CaptureError::BackendError));
    assert_eq!(stream_format(16, true), Err(CaptureError::BackendError));
    assert_eq!(stream_format(8, false), Err(CaptureError::BackendError));
}

#[test]
fn the_loop_leaves_on_stop_and_on_disconnect() {
    assert_eq!(loop_step(true, ReceiveOutcome::Chunk), LoopStep::Exit);
    assert_eq!(loop_step(true, ReceiveOutcome::TimedOut), LoopStep::Exit);
    assert_eq!(loop_step(false, ReceiveOutcome::Chunk), LoopStep::ProcessChunk);
    assert_eq!(loop_step(false, ReceiveOutcome::TimedOut), LoopStep::Continue);
    assert_eq!(loop_step(false, ReceiveOutcome::Disconnected), LoopStep::Exit);
}

#[test]
fn a_stream_is_released_once() {
    let mut handle = StopHandle::new();
    assert!(!handle.is_stopped());
    assert!(handle.stop());
    assert!(handle.is_stopped());
    assert!(!handle.stop());
    assert!(!handle.stop());
    assert!(handle.is_stopped());
}

#[test]
fn a_full_queue_drops_and_keeps_the_order() {
    let mut queue = DeliveryQueue::new(2);
    assert!(queue.offer(vec![1]));
    assert!(queue.offer(vec![2, 2]));
    assert!(!queue.offer(vec![3, 3, 3]));
    assert_eq!(queue.len(), 2);
    assert_eq!(queue.dropped(), 1);
    assert_eq!(queue.take(), Some(vec![1]));
    assert!(queue.offer(vec![4]));
    assert_eq!(queue.take(), Some(vec![2, 2]));
    assert_eq!(queue.take(), Some(vec![4]));
    assert_eq!(queue.take(), None);
    assert_eq!(queue.dropped(), 1);
}

#[test]
fn a_queue_without_places_drops_everything() {
    let mut queue = DeliveryQueue::new(0);
    assert!(!queue.offer(vec![1]));
    assert!(!queue.offer(vec![2]));
    assert_eq!(queue.dropped(), 2);
    assert_eq!(queue.take(), None);
}

#[test]
fn what_was_delivered_arrives_before_the_end_is_seen() {
    let mut queue = DeliveryQueue::new(4);
    assert_eq!(queue.receive(false), (ReceiveOutcome::TimedOut, None));
    assert!(queue.offer(vec![1]));
    assert!(queue.offer(vec![2]));
    assert_eq!(queue.receive(true), (ReceiveOutcome::Chunk, Some(vec![1])));
    assert_eq!(queue.receive(false), (ReceiveOutcome::Chunk, Some(vec![2])));
    assert_eq!(queue.receive(true), (ReceiveOutcome::Disconnected, None));
    assert_eq!(queue.receive(false), (ReceiveOutcome::TimedOut, None));
    assert_eq!(queue.len(), 0);
}
