use kamera::sample_buffer::SampleBuffer;
use kamera::slot::Slot;

fn sample(id: u64) -> SampleBuffer {
    SampleBuffer::new(id, 2, 2, vec![id as u8; 16])
}

#[test]
fn most_recent_wins() {
    let mut slot = Slot::new();
    slot.push(sample(1));
    slot.push(sample(2));
    // One wait after two pushes observes the newest sample; the displaced
    // one was released, exactly once, and is never handed out.
    let got = slot.take_sample().unwrap();
    assert_eq!(got.id, 2);
    assert_eq!(slot.released_ids(), &vec![1]);
    assert_eq!(slot.taken_ids(), &vec![2]);
    assert!(slot.take_sample().is_none());
}

#[test]
fn push_counts_generations() {
    let mut slot = Slot::new();
    assert_eq!(slot.generation(), 0);
    slot.push(sample(1));
    assert_eq!(slot.generation(), 1);
    slot.push(sample(2));
    assert_eq!(slot.generation(), 2);
    // Taking does not advance the generation; only deliveries do.
    let _ = slot.take_sample();
    assert_eq!(slot.generation(), 2);
}

#[test]
fn every_sample_released_taken_or_held() {
    let mut slot = Slot::new();
    slot.push(sample(1));
    slot.push(sample(2));
    let taken = slot.take_sample().unwrap();
    slot.push(sample(3));
    slot.push(sample(4));
    slot.close();
    // Pushed: 1 2 3 4. Taken: 2. Released: 1 (displaced), 3 (displaced),
    // 4 (teardown) — each exactly once, none both.
    assert_eq!(taken.id, 2);
    assert_eq!(slot.taken_ids(), &vec![2]);
    assert_eq!(slot.released_ids(), &vec![1, 3, 4]);
}

#[test]
fn close_releases_held_sample_once() {
    let mut slot = Slot::new();
    slot.push(sample(9));
    slot.close();
    assert_eq!(slot.released_ids(), &vec![9]);
    // Closing again releases nothing further.
    slot.close();
    assert_eq!(slot.released_ids(), &vec![9]);
    assert!(slot.take_sample().is_none());
}

#[test]
fn push_after_close_releases_immediately() {
    let mut slot = Slot::new();
    slot.close();
    slot.push(sample(5));
    assert!(!slot.has_sample());
    assert_eq!(slot.generation(), 0);
    assert_eq!(slot.released_ids(), &vec![5]);
}

#[test]
fn consumers_never_share_a_generation() {
    let mut slot = Slot::new();
    slot.push(sample(1));
    let first = slot.take_sample();
    // A second take of the same state observes nothing: the two waits can
    // never both receive the same generation of sample.
    let second = slot.take_sample();
    assert!(first.is_some());
    assert!(second.is_none());
    slot.push(sample(2));
    let third = slot.take_sample();
    assert!(third.is_some());
    assert_eq!(slot.taken_ids(), &vec![1, 2]);
}

#[test]
fn reopen_continues_generation() {
    let mut slot = Slot::new();
    slot.push(sample(1));
    slot.close();
    slot.reopen();
    assert!(slot.is_open());
    slot.push(sample(2));
    assert_eq!(slot.generation(), 2);
}

#[test]
fn reset_starts_generation_zero() {
    let mut slot = Slot::new();
    slot.push(sample(1));
    slot.push(sample(2));
    slot.reset(true);
    assert_eq!(slot.generation(), 0);
    assert!(slot.is_open());
    assert!(!slot.has_sample());
    // The sample the old mailbox still held was released by the rebuild.
    assert_eq!(slot.released_ids(), &vec![1, 2]);
}
