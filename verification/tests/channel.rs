use tts_pipeline::channel::Fifo;

#[test]
fn messages_arrive_in_send_order() {
    let mut q: Fifo<String> = Fifo::new();
    q.send("first".to_string());
    q.send("second".to_string());
    q.send("third".to_string());
    assert_eq!(q.try_recv().unwrap(), "first");
    assert_eq!(q.try_recv().unwrap(), "second");
    assert_eq!(q.try_recv().unwrap(), "third");
    assert!(q.try_recv().is_none());
}

#[test]
fn receive_on_empty_queue_is_none() {
    let mut q: Fifo<u32> = Fifo::new();
    assert!(q.try_recv().is_none());
    assert!(q.is_empty());
    assert_eq!(q.len(), 0);
}

#[test]
fn interleaved_sends_and_receives_keep_order() {
    let mut q: Fifo<u32> = Fifo::new();
    q.send(1);
    assert_eq!(q.try_recv(), Some(1));
    q.send(2);
    q.send(3);
    assert_eq!(q.len(), 2);
    assert_eq!(q.try_recv(), Some(2));
    q.send(4);
    assert_eq!(q.try_recv(), Some(3));
    assert_eq!(q.try_recv(), Some(4));
    assert!(q.is_empty());
}
