use linuxvideo::codec::{BufferDesc, Memory};
use linuxvideo::pool::{Pool, SlotState};
use linuxvideo::{BufType, StreamError};

fn desc(index: u32, offset: u64, length: u32) -> BufferDesc {
    BufferDesc {
        buf_type: BufType::VideoCapture,
        memory: Memory::Mmap,
        index,
        flags: 0,
        bytesused: 0,
        length,
        offset,
        timestamp_sec: 0,
        timestamp_usec: 0,
    }
}

fn two_regions() -> Vec<BufferDesc> {
    vec![desc(0, 0, 4096), desc(1, 4096, 4096)]
}

#[test]
fn allocate_keeps_granted_count() {
    // The driver may grant fewer buffers than requested; the realized count
    // is authoritative and lies between one and the request.
    let pool = Pool::allocate(BufType::VideoCapture, Memory::Mmap, 4, Ok(2)).unwrap();
    assert_eq!(pool.slots.len(), 2);
    assert!(!pool.released);
    for (i, slot) in pool.slots.iter().enumerate() {
        assert_eq!(slot.index as usize, i);
        assert_eq!(slot.state, SlotState::Free);
        assert!(!slot.mapped);
    }
}

#[test]
fn allocate_rejects_granted_count_outside_request() {
    assert_eq!(
        Pool::allocate(BufType::VideoCapture, Memory::Mmap, 4, Ok(0)).err(),
        Some(StreamError::MalformedResponse)
    );
    assert_eq!(
        Pool::allocate(BufType::VideoCapture, Memory::Mmap, 4, Ok(5)).err(),
        Some(StreamError::MalformedResponse)
    );
    assert_eq!(
        Pool::allocate(BufType::VideoCapture, Memory::Mmap, 0, Ok(0)).err(),
        Some(StreamError::Unsupported)
    );
}

#[test]
fn allocate_hands_driver_refusals_through() {
    assert_eq!(
        Pool::allocate(BufType::VideoCapture, Memory::Mmap, 2, Err(StreamError::Busy)).err(),
        Some(StreamError::Busy)
    );
    assert_eq!(
        Pool::allocate(BufType::VideoCapture, Memory::Mmap, 2, Err(StreamError::Unsupported))
            .err(),
        Some(StreamError::Unsupported)
    );
}

#[test]
fn map_all_maps_every_slot_once() {
    let mut pool = Pool::allocate(BufType::VideoCapture, Memory::Mmap, 2, Ok(2)).unwrap();
    assert_eq!(pool.map_all(&two_regions()), Ok(()));
    assert_eq!(pool.slots.len(), 2);
    for slot in pool.slots.iter() {
        assert!(slot.mapped);
        assert_eq!(slot.length, 4096);
    }
    // A second mapping of the same pool is refused.
    assert_eq!(pool.map_all(&two_regions()), Err(StreamError::Busy));
}

#[test]
fn map_all_rejects_overlapping_regions() {
    let mut pool = Pool::allocate(BufType::VideoCapture, Memory::Mmap, 2, Ok(2)).unwrap();
    let overlapping = vec![desc(0, 0, 4096), desc(1, 2048, 4096)];
    assert_eq!(
        pool.map_all(&overlapping),
        Err(StreamError::MalformedResponse)
    );
    // The failure left no partial pool behind: mapping cleanly still works.
    assert_eq!(pool.map_all(&two_regions()), Ok(()));
}

#[test]
fn map_all_rejects_wrong_count_or_index() {
    let mut pool = Pool::allocate(BufType::VideoCapture, Memory::Mmap, 2, Ok(2)).unwrap();
    assert_eq!(
        pool.map_all(&vec![desc(0, 0, 4096)]),
        Err(StreamError::MalformedResponse)
    );
    let swapped = vec![desc(1, 0, 4096), desc(0, 4096, 4096)];
    assert_eq!(pool.map_all(&swapped), Err(StreamError::MalformedResponse));
    let zero_length = vec![desc(0, 0, 4096), desc(1, 4096, 0)];
    assert_eq!(
        pool.map_all(&zero_length),
        Err(StreamError::MalformedResponse)
    );
}

#[test]
fn release_is_idempotent() {
    let mut pool = Pool::allocate(BufType::VideoCapture, Memory::Mmap, 2, Ok(2)).unwrap();
    pool.map_all(&two_regions()).unwrap();
    // First release unmaps both regions.
    assert_eq!(pool.release(), 2);
    assert!(pool.released);
    for slot in pool.slots.iter() {
        assert!(!slot.mapped);
        assert_eq!(slot.state, SlotState::Free);
    }
    // The second call is a no-op: same final state, nothing unmapped twice.
    assert_eq!(pool.release(), 0);
    assert!(pool.released);
    assert_eq!(pool.slots.len(), 2);
}
