use pinnacle::channel::{run_pending, CommandChannel, StateFnSender};

#[test]
fn new_channel_is_empty() {
    let mut channel: CommandChannel<u32> = CommandChannel::new();
    assert!(channel.drain().is_empty());
}

#[test]
fn senders_are_numbered_from_zero() {
    let mut channel: CommandChannel<u32> = CommandChannel::new();
    assert_eq!(channel.sender(), Some(StateFnSender { producer: 0 }));
    assert_eq!(channel.sender(), Some(StateFnSender { producer: 1 }));
    assert_eq!(channel.sender(), Some(StateFnSender { producer: 2 }));
}

#[test]
fn commands_come_out_in_the_order_of_arrival() {
    let mut channel: CommandChannel<&str> = CommandChannel::new();
    let sender = channel.sender().unwrap();
    for command in ["a", "b", "c", "d"] {
        assert!(channel.submit(&sender, command).is_ok());
    }
    let drained: Vec<&str> = channel.drain().into_iter().map(|s| s.command).collect();
    assert_eq!(drained, vec!["a", "b", "c", "d"]);
}

#[test]
fn draining_empties_the_channel() {
    let mut channel: CommandChannel<u32> = CommandChannel::new();
    let sender = channel.sender().unwrap();
    channel.submit(&sender, 1).unwrap();
    assert_eq!(channel.drain().len(), 1);
    assert!(channel.drain().is_empty());
    channel.submit(&sender, 2).unwrap();
    let again: Vec<u32> = channel.drain().into_iter().map(|s| s.command).collect();
    assert_eq!(again, vec![2]);
}

#[test]
fn each_producer_keeps_its_own_order() {
    let mut channel: CommandChannel<u32> = CommandChannel::new();
    let one = channel.sender().unwrap();
    let two = channel.sender().unwrap();
    let three = channel.sender().unwrap();
    let arrivals = [
        (&one, 10), (&two, 20), (&one, 11), (&three, 30), (&two, 21), (&two, 22), (&one, 12),
        (&three, 31),
    ];
    for (sender, command) in arrivals {
        channel.submit(sender, command).unwrap();
    }
    let drained = channel.drain();
    let all: Vec<(u64, u32)> = drained.iter().map(|s| (s.producer, s.command)).collect();
    let expected: Vec<(u64, u32)> = arrivals.iter().map(|(s, c)| (s.producer, *c)).collect();
    assert_eq!(all, expected);
    let of = |producer: u64| -> Vec<u32> {
        drained.iter().filter(|s| s.producer == producer).map(|s| s.command).collect()
    };
    assert_eq!(of(0), vec![10, 11, 12]);
    assert_eq!(of(1), vec![20, 21, 22]);
    assert_eq!(of(2), vec![30, 31]);
}

#[test]
fn closed_channel_drops_the_command() {
    let mut channel: CommandChannel<String> = CommandChannel::new();
    let sender = channel.sender().unwrap();
    channel.submit(&sender, "before".to_string()).unwrap();
    channel.close();
    assert_eq!(channel.submit(&sender, "after".to_string()), Err("after".to_string()));
    let drained: Vec<String> = channel.drain().into_iter().map(|s| s.command).collect();
    assert_eq!(drained, vec!["before".to_string()]);
}

#[test]
fn pending_commands_are_executed_in_order() {
    let mut channel: CommandChannel<u32> = CommandChannel::new();
    let sender = channel.sender().unwrap();
    for command in [1, 2, 3] {
        channel.submit(&sender, command).unwrap();
    }
    let mut log: Vec<u32> = Vec::new();
    let executed = run_pending(&mut log, &mut channel, |log: &mut Vec<u32>, c: u32| log.push(c));
    assert_eq!(executed, 3);
    assert_eq!(log, vec![1, 2, 3]);
    assert!(channel.drain().is_empty());
}

#[test]
fn a_turn_with_nothing_pending_changes_nothing() {
    let mut channel: CommandChannel<u32> = CommandChannel::new();
    let mut total: u32 = 9;
    assert_eq!(run_pending(&mut total, &mut channel, |t: &mut u32, c: u32| *t += c), 0);
    assert_eq!(total, 9);
}

#[test]
fn commands_may_be_closures() {
    let mut channel: CommandChannel<Box<dyn FnOnce(&mut Vec<&'static str>)>> = CommandChannel::new();
    let one = channel.sender().unwrap();
    let two = channel.sender().unwrap();
    assert!(channel.submit(&one, Box::new(|log| log.push("first"))).is_ok());
    assert!(channel.submit(&two, Box::new(|log| log.push("second"))).is_ok());
    assert!(channel.submit(&one, Box::new(|log| log.clear())).is_ok());
    assert!(channel.submit(&two, Box::new(|log| log.push("third"))).is_ok());
    let mut log: Vec<&'static str> = Vec::new();
    let executed = run_pending(
        &mut log,
        &mut channel,
        |log: &mut Vec<&'static str>, command: Box<dyn FnOnce(&mut Vec<&'static str>)>| command(log),
    );
    assert_eq!(executed, 4);
    assert_eq!(log, vec!["third"]);
}

#[test]
fn commands_submitted_during_a_turn_wait_for_the_next() {
    let mut channel: CommandChannel<u32> = CommandChannel::new();
    let sender = channel.sender().unwrap();
    channel.submit(&sender, 1).unwrap();
    let mut sum: u32 = 0;
    run_pending(&mut sum, &mut channel, |s: &mut u32, c: u32| *s += c);
    channel.submit(&sender, 10).unwrap();
    assert_eq!(sum, 1);
    run_pending(&mut sum, &mut channel, |s: &mut u32, c: u32| *s += c);
    assert_eq!(sum, 11);
}
