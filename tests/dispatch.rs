use helix_tts::{dispatch_channel, platform_supported, start_speech, WorkerPhase, QUEUE_CAPACITY};

#[test]
fn queue_admits_four_at_once() {
    let (producer, _receiver) = dispatch_channel();
    assert_eq!(QUEUE_CAPACITY, 4);
    assert_eq!(producer.capacity(), 4);
}

#[test]
fn fifth_enqueue_is_full_and_admitted_items_keep_their_order() {
    let (producer, mut receiver) = dispatch_channel();
    for text in ["a", "b", "c", "d"] {
        assert!(producer.enqueue(text.to_string()).is_ok());
    }
    let err = producer.enqueue("e".to_string()).unwrap_err();
    assert!(err.is_full());
    assert!(!err.is_closed());
    assert_eq!(err.into_inner().0, "e");
    let mut drained = Vec::new();
    while let Ok(u) = receiver.try_recv() {
        drained.push(u.0);
    }
    assert_eq!(drained, vec!["a", "b", "c", "d"]);
}

#[test]
fn hello_then_world_leave_the_queue_in_order() {
    let (producer, mut receiver) = dispatch_channel();
    assert!(producer.enqueue("Hello".to_string()).is_ok());
    assert!(producer.enqueue("World".to_string()).is_ok());
    assert_eq!(receiver.try_recv().unwrap().text(), "Hello");
    assert_eq!(receiver.try_recv().unwrap().text(), "World");
}

#[test]
fn enqueue_after_worker_gone_is_closed() {
    let (producer, receiver) = dispatch_channel();
    drop(receiver);
    let err = producer.enqueue("late".to_string()).unwrap_err();
    assert!(err.is_closed());
    assert!(!err.is_full());
    assert_eq!(err.into_inner().text(), "late");
}

#[test]
fn queue_closes_once_every_producer_is_dropped() {
    let (producer, mut receiver) = dispatch_channel();
    let second = producer.clone();
    assert!(second.enqueue("x".to_string()).is_ok());
    drop(producer);
    drop(second);
    assert_eq!(receiver.blocking_recv().unwrap().0, "x");
    assert!(receiver.blocking_recv().is_none());
}

#[test]
fn clones_share_one_queue() {
    let (producer, mut receiver) = dispatch_channel();
    let other = producer.clone();
    assert_eq!(other.capacity(), 4);
    assert!(producer.enqueue("1".to_string()).is_ok());
    assert!(other.enqueue("2".to_string()).is_ok());
    assert_eq!(receiver.try_recv().unwrap().0, "1");
    assert_eq!(receiver.try_recv().unwrap().0, "2");
}

#[test]
fn unsupported_platform_is_refused() {
    assert!(!platform_supported("macos"));
    assert!(platform_supported("linux"));
    assert!(platform_supported("windows"));
}

#[test]
fn backend_failure_leaves_speech_unavailable() {
    let started = start_speech::<()>(None);
    assert!(started.is_none());
}

#[test]
fn working_backend_gives_a_usable_handle() {
    let (producer, mut service) = start_speech(Some(7u8)).expect("speech available");
    assert_eq!(service.backend, 7u8);
    assert_eq!(service.worker.phase(), WorkerPhase::Starting);
    assert_eq!(producer.capacity(), 4);
    assert!(producer.enqueue("hi".to_string()).is_ok());
    assert_eq!(service.receiver.try_recv().unwrap().0, "hi");
}
