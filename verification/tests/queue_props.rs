use midi_to_wlambda::queue::TaskQueue;
use midi_to_wlambda::task::M2WTask;

#[test]
fn fifo_round_trip() {
    let mut q = TaskQueue::new(8);
    let batch = vec![
        M2WTask::MIDI(60, true),
        M2WTask::UpdateCode(String::from("code-a")),
        M2WTask::MIDI(60, false),
        M2WTask::InitCode(String::from("init"), String::from("prog")),
        M2WTask::MIDI(61, true),
    ];
    for t in batch.clone() {
        assert!(q.push(t));
    }
    let mut popped = Vec::new();
    while let Some(t) = q.pop() {
        popped.push(t);
    }
    assert_eq!(popped, batch);
    assert_eq!(q.len(), 0);
}

#[test]
fn push_beyond_capacity_fails_without_blocking() {
    let mut q = TaskQueue::new(4);
    for i in 0..4 {
        assert!(q.push(M2WTask::MIDI(i, true)));
        assert!(q.len() <= 4);
    }
    for i in 4..10 {
        assert!(!q.push(M2WTask::MIDI(i, true)));
        assert!(q.len() <= 4);
    }
    assert_eq!(q.len(), 4);
    assert_eq!(q.pop(), Some(M2WTask::MIDI(0, true)));
}

#[test]
fn pop_empty_returns_none() {
    let mut q = TaskQueue::new(2);
    assert_eq!(q.pop(), None);
    assert!(q.push(M2WTask::MIDI(1, false)));
    assert_eq!(q.pop(), Some(M2WTask::MIDI(1, false)));
    assert_eq!(q.pop(), None);
}

#[test]
fn push_batch_accepts_only_what_fits() {
    let mut q = TaskQueue::new(3);
    assert!(q.push(M2WTask::MIDI(0, true)));
    let batch = vec![
        M2WTask::MIDI(1, true),
        M2WTask::MIDI(2, true),
        M2WTask::MIDI(3, true),
        M2WTask::MIDI(4, true),
    ];
    let accepted = q.push_batch(batch);
    assert_eq!(accepted, 2);
    assert_eq!(q.len(), 3);
    assert_eq!(q.pop(), Some(M2WTask::MIDI(0, true)));
    assert_eq!(q.pop(), Some(M2WTask::MIDI(1, true)));
    assert_eq!(q.pop(), Some(M2WTask::MIDI(2, true)));
    assert_eq!(q.pop(), None);
}
