use cncd::channel::{command_channel, response_channel, BoundedChannel, COMMAND_CAPACITY};

#[test]
fn command_channel_backpressure_at_capacity() {
    let mut ch = command_channel();
    for i in 0..COMMAND_CAPACITY {
        assert!(ch.try_send(format!("cmd {}", i)));
    }
    assert_eq!(ch.len(), 100);
    assert!(ch.is_full());
    // the 101st send does not go through while 100 items sit unconsumed
    assert!(!ch.try_send("cmd 100".to_string()));
    assert_eq!(ch.len(), 100);
    // once the writer consumes one, the send goes through
    assert_eq!(ch.try_recv(), Some("cmd 0".to_string()));
    assert!(ch.try_send("cmd 100".to_string()));
    assert_eq!(ch.len(), 100);
}

#[test]
fn channels_have_their_fixed_capacities() {
    let commands = command_channel();
    let responses = response_channel();
    assert_eq!(commands.capacity(), 100);
    assert_eq!(responses.capacity(), 42);
    assert_eq!(commands.len(), 0);
    assert_eq!(responses.len(), 0);
}

#[test]
fn items_come_out_in_fifo_order() {
    let mut ch = BoundedChannel::new(3);
    assert!(ch.try_send("a".to_string()));
    assert!(ch.try_send("b".to_string()));
    assert!(ch.try_send("c".to_string()));
    assert!(!ch.try_send("d".to_string()));
    assert_eq!(ch.try_recv(), Some("a".to_string()));
    assert_eq!(ch.try_recv(), Some("b".to_string()));
    assert!(ch.try_send("d".to_string()));
    assert_eq!(ch.try_recv(), Some("c".to_string()));
    assert_eq!(ch.try_recv(), Some("d".to_string()));
    assert_eq!(ch.try_recv(), None);
}

#[test]
fn receiving_from_an_empty_queue_yields_nothing() {
    let mut ch = BoundedChannel::new(1);
    assert_eq!(ch.try_recv(), None);
    assert_eq!(ch.len(), 0);
}
