use linuxvideo::codec::{BufferDesc, Memory};
use linuxvideo::pool::SlotState;
use linuxvideo::stream::{EngineState, RetrieveReply};
use linuxvideo::{BufType, ReadStream, StreamError, WriteStream};

fn desc(buf_type: BufType, index: u32, offset: u64, length: u32) -> BufferDesc {
    BufferDesc {
        buf_type,
        memory: Memory::Mmap,
        index,
        flags: 0,
        bytesused: 0,
        length,
        offset,
        timestamp_sec: 0,
        timestamp_usec: 0,
    }
}

fn capture_engine() -> ReadStream {
    let replies = vec![
        desc(BufType::VideoCapture, 0, 0, 4096),
        desc(BufType::VideoCapture, 1, 4096, 4096),
    ];
    ReadStream::open(BufType::VideoCapture, 2, Ok(2), &replies).unwrap()
}

fn output_engine() -> WriteStream {
    let replies = vec![
        desc(BufType::VideoOutput, 0, 0, 4096),
        desc(BufType::VideoOutput, 1, 4096, 4096),
    ];
    WriteStream::open(BufType::VideoOutput, 2, Ok(2), &replies).unwrap()
}

fn dequeued(index: u32, bytesused: u32) -> RetrieveReply {
    RetrieveReply::Dequeued {
        index,
        bytesused,
        flags: 0,
    }
}

#[test]
fn capture_scenario() {
    // Request 2 buffers for a read engine, prime (both become queued), start.
    let mut eng = capture_engine();
    assert_eq!(eng.pool.slots.len(), 2);
    eng.prime().unwrap();
    assert!(eng.pool.slots.iter().all(|s| s.state == SlotState::Queued));
    eng.start().unwrap();
    assert_eq!(eng.state, EngineState::Active);

    // The driver marks slot 0 filled with 4096 bytes: the handler gets a
    // 4096-byte view of that slot, exactly once.
    let mut retrieved = 0;
    let idx = eng.finish_retrieve(dequeued(0, 4096)).unwrap();
    retrieved += 1;
    assert_eq!(idx, 0);
    assert_eq!(eng.pool.slots[0].state, SlotState::Filled);
    assert_eq!(eng.pool.slots[0].bytesused, 4096);

    // The handler continues: the slot returns to the driver.
    let d = eng.resubmit(0);
    assert_eq!(d.index, 0);
    assert_eq!(eng.pool.slots[0].state, SlotState::Queued);

    // Two more driver responses, in the driver's own order, not index order.
    let idx = eng.finish_retrieve(dequeued(1, 100)).unwrap();
    retrieved += 1;
    assert_eq!(idx, 1);
    eng.resubmit(1);
    let idx = eng.finish_retrieve(dequeued(0, 4096)).unwrap();
    retrieved += 1;
    assert_eq!(idx, 0);

    // Three driver responses mean three retrievals.
    assert_eq!(retrieved, 3);
}

#[test]
fn output_scenario() {
    // Request 2 buffers for a write engine; submitting 1024 bytes queues
    // slot 0.
    let mut eng = output_engine();
    eng.prime().unwrap();
    eng.start().unwrap();
    let d = eng.submit(1024).unwrap();
    assert_eq!(d.index, 0);
    assert_eq!(d.bytesused, 1024);
    assert_eq!(eng.pool.slots[0].state, SlotState::Queued);
    assert_eq!(eng.pool.slots[0].bytesused, 1024);

    // The driver drains slot 0, returning it to free.
    let idx = eng.reclaim(dequeued(0, 0)).unwrap();
    assert_eq!(idx, 0);
    assert_eq!(eng.pool.slots[0].state, SlotState::Free);

    // A second submit can reuse slot 0.
    let d = eng.submit(512).unwrap();
    assert_eq!(d.index, 0);
    assert_eq!(eng.pool.slots[0].state, SlotState::Queued);
}

#[test]
fn teardown_scenario() {
    // Close while 1 of 2 slots is queued: both regions are still unmapped
    // and the unmap step succeeds, even though the stop request will report
    // a buffer in flight.
    let mut eng = capture_engine();
    eng.prime().unwrap();
    eng.start().unwrap();
    eng.finish_retrieve(dequeued(1, 64)).unwrap();
    assert_eq!(eng.pool.slots[0].state, SlotState::Queued);
    let actions = eng.close();
    assert!(actions.stop_stream);
    assert_eq!(actions.unmapped, 2);
    assert_eq!(eng.state, EngineState::Closed);
    assert!(eng.pool.slots.iter().all(|s| !s.mapped));

    // Closing again changes nothing and unmaps nothing.
    let actions = eng.close();
    assert!(!actions.stop_stream);
    assert_eq!(actions.unmapped, 0);
    assert_eq!(eng.state, EngineState::Closed);
}

#[test]
fn ordering_violation_scenario() {
    // Retrieval on an engine still idle fails with NotActive, without side
    // effects.
    let mut eng = capture_engine();
    assert_eq!(
        eng.finish_retrieve(dequeued(0, 1)).err(),
        Some(StreamError::NotActive)
    );
    assert_eq!(eng.state, EngineState::Idle);
    assert!(eng.pool.slots.iter().all(|s| s.state == SlotState::Free));

    // Submitting on an idle write engine fails the same way.
    let mut weng = output_engine();
    assert_eq!(weng.submit(16).err(), Some(StreamError::NotActive));
    assert_eq!(weng.state, EngineState::Idle);

    // Starting an engine that was never primed is NotActive too; starting
    // twice is AlreadyActive.
    assert_eq!(eng.start().err(), Some(StreamError::NotActive));
    eng.prime().unwrap();
    assert_eq!(eng.prime().err(), Some(StreamError::AlreadyActive));
    eng.start().unwrap();
    assert_eq!(eng.start().err(), Some(StreamError::AlreadyActive));
}

#[test]
fn retrieve_with_nothing_queued_is_an_error() {
    let mut eng = capture_engine();
    eng.prime().unwrap();
    eng.start().unwrap();
    eng.finish_retrieve(dequeued(0, 1)).unwrap();
    eng.finish_retrieve(dequeued(1, 1)).unwrap();
    // Both slots are now filled and unsubmitted: nothing is queued, and a
    // further retrieval would block forever, so it is refused.
    assert_eq!(eng.retrieve_ready().err(), Some(StreamError::NothingQueued));
    assert_eq!(
        eng.finish_retrieve(RetrieveReply::Empty).err(),
        Some(StreamError::NothingQueued)
    );
}

#[test]
fn transient_and_fatal_retrieval_failures() {
    let mut eng = capture_engine();
    eng.prime().unwrap();
    eng.start().unwrap();
    // A non-blocking handle with no data is the retryable WouldBlock.
    assert_eq!(
        eng.finish_retrieve(RetrieveReply::Empty).err(),
        Some(StreamError::WouldBlock)
    );
    // The engine is untouched: the same retrieval can be retried.
    let idx = eng.finish_retrieve(dequeued(0, 10)).unwrap();
    assert_eq!(idx, 0);
    // A hard failure aborts.
    assert_eq!(
        eng.finish_retrieve(RetrieveReply::Failed).err(),
        Some(StreamError::Io)
    );
}

#[test]
fn malformed_retrieval_replies_are_rejected() {
    let mut eng = capture_engine();
    eng.prime().unwrap();
    eng.start().unwrap();
    // Index out of range.
    assert_eq!(
        eng.finish_retrieve(dequeued(7, 1)).err(),
        Some(StreamError::MalformedResponse)
    );
    // Byte count beyond the region.
    assert_eq!(
        eng.finish_retrieve(dequeued(0, 5000)).err(),
        Some(StreamError::MalformedResponse)
    );
    // A slot the driver does not own.
    eng.finish_retrieve(dequeued(0, 1)).unwrap();
    assert_eq!(
        eng.finish_retrieve(dequeued(0, 1)).err(),
        Some(StreamError::MalformedResponse)
    );
}

#[test]
fn submit_with_no_free_slot_would_block() {
    let mut eng = output_engine();
    eng.prime().unwrap();
    eng.start().unwrap();
    eng.submit(1).unwrap();
    eng.submit(2).unwrap();
    assert_eq!(eng.submit(3).err(), Some(StreamError::WouldBlock));
    // Oversized payloads are refused outright.
    let idx = eng.reclaim(dequeued(0, 0)).unwrap();
    assert_eq!(idx, 0);
    assert_eq!(eng.submit(5000).err(), Some(StreamError::Unsupported));
}

#[test]
fn open_propagates_driver_refusals() {
    // A buffer-type-unsupported condition at allocate time is fatal to
    // construction: no partial engine is returned.
    let replies: Vec<BufferDesc> = Vec::new();
    assert_eq!(
        ReadStream::open(BufType::VideoCapture, 2, Err(StreamError::Unsupported), &replies).err(),
        Some(StreamError::Unsupported)
    );
    assert_eq!(
        WriteStream::open(BufType::VideoOutput, 2, Err(StreamError::Busy), &replies).err(),
        Some(StreamError::Busy)
    );
    // Granting more buffers than requested is outside the schema.
    assert_eq!(
        ReadStream::open(BufType::VideoCapture, 2, Ok(3), &replies).err(),
        Some(StreamError::MalformedResponse)
    );
}
