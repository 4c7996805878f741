use concurrency::channel::{Channel, TryRecvError};

fn drain(ch: &mut Channel<String>) -> Vec<String> {
    let mut out = Vec::new();
    loop {
        match ch.try_recv() {
            Ok(m) => out.push(m),
            Err(TryRecvError::Disconnected) => return out,
            Err(TryRecvError::Empty) => panic!("a producer end is still alive"),
        }
    }
}

#[test]
fn task_sends_hi_then_channel_disconnects() {
    let mut ch: Channel<String> = Channel::new();
    // the producer end 0 is moved into the task, which sends and then exits
    ch.send(0, String::from("hi")).unwrap();
    ch.drop_sender(0);
    assert_eq!(ch.try_recv(), Ok(String::from("hi")));
    assert_eq!(ch.try_recv(), Err(TryRecvError::Disconnected));
}

#[test]
fn single_producer_order_is_kept() {
    let mut ch: Channel<String> = Channel::new();
    for w in ["hi", "from", "the", "thread"] {
        ch.send(0, w.to_string()).unwrap();
    }
    ch.drop_sender(0);
    assert_eq!(drain(&mut ch), vec!["hi", "from", "the", "thread"]);
}

#[test]
fn two_producers_lose_and_duplicate_nothing() {
    let mut ch: Channel<String> = Channel::new();
    let tx1 = ch.add_sender(0);
    assert_eq!(tx1, 1);
    assert_eq!(ch.sender_count(), 2);
    let a = ["a1", "a2", "a3"];
    let b = ["b1", "b2", "b3", "b4"];
    ch.send(tx1, b[0].to_string()).unwrap();
    ch.send(0, a[0].to_string()).unwrap();
    ch.send(0, a[1].to_string()).unwrap();
    ch.send(tx1, b[1].to_string()).unwrap();
    ch.send(tx1, b[2].to_string()).unwrap();
    ch.send(0, a[2].to_string()).unwrap();
    ch.send(tx1, b[3].to_string()).unwrap();
    ch.drop_sender(0);
    assert_eq!(ch.try_recv(), Ok(String::from("b1")));
    ch.drop_sender(tx1);
    let mut got = vec![String::from("b1")];
    got.extend(drain(&mut ch));
    let from_a: Vec<&String> = got.iter().filter(|m| m.starts_with('a')).collect();
    let from_b: Vec<&String> = got.iter().filter(|m| m.starts_with('b')).collect();
    assert_eq!(from_a, vec!["a1", "a2", "a3"]);
    assert_eq!(from_b, vec!["b1", "b2", "b3", "b4"]);
    let mut all = got.clone();
    all.sort();
    assert_eq!(all, vec!["a1", "a2", "a3", "b1", "b2", "b3", "b4"]);
}

#[test]
fn try_recv_on_empty_connected_channel_is_empty() {
    let mut ch: Channel<u32> = Channel::new();
    assert_eq!(ch.try_recv(), Err(TryRecvError::Empty));
    assert_eq!(ch.try_recv(), Err(TryRecvError::Empty));
    assert_eq!(ch.pending(), 0);
    ch.send(0, 7).unwrap();
    assert_eq!(ch.try_recv(), Ok(7));
    assert_eq!(ch.try_recv(), Err(TryRecvError::Empty));
}

#[test]
fn receive_after_every_sender_dropped_disconnects() {
    let mut ch: Channel<u32> = Channel::new();
    let tx1 = ch.add_sender(0);
    ch.send(0, 1).unwrap();
    ch.send(tx1, 2).unwrap();
    ch.drop_sender(tx1);
    assert_eq!(ch.sender_count(), 1);
    ch.drop_sender(0);
    assert_eq!(ch.sender_count(), 0);
    assert_eq!(ch.try_recv(), Ok(1));
    assert_eq!(ch.try_recv(), Ok(2));
    assert_eq!(ch.try_recv(), Err(TryRecvError::Disconnected));
    assert_eq!(ch.try_recv(), Err(TryRecvError::Disconnected));
}

#[test]
fn send_after_receiver_dropped_returns_the_message() {
    let mut ch: Channel<String> = Channel::new();
    assert!(ch.has_receiver());
    ch.drop_receiver();
    assert!(!ch.has_receiver());
    let e = ch.send(0, String::from("lost")).unwrap_err();
    assert_eq!(e.0, "lost");
    assert_eq!(ch.pending(), 0);
}

#[test]
fn cloned_senders_get_fresh_ids() {
    let mut ch: Channel<u8> = Channel::new();
    let a = ch.add_sender(0);
    let b = ch.add_sender(a);
    ch.drop_sender(a);
    let c = ch.add_sender(b);
    assert_eq!((a, b, c), (1, 2, 3));
    assert_eq!(ch.sender_count(), 3);
}
