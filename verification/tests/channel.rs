use lib::channel::{
    receive_action, send_action, Channel, OneShotChannel, ReceiveAction, SendAction,
};

#[test]
fn one_shot_send_then_receive() {
    let c = OneShotChannel::new();
    assert!(!c.is_ready());
    assert_eq!(c.send("Hello World from Channel!"), Ok(()));
    assert!(c.is_ready());
    assert_eq!(c.receive(), Some("Hello World from Channel!"));
    assert!(!c.is_ready());
}

#[test]
fn one_shot_refuses_second_send() {
    let c = OneShotChannel::new();
    assert_eq!(c.send(1), Ok(()));
    assert_eq!(c.send(2), Err(2));
    assert_eq!(c.receive(), Some(1));
    assert_eq!(c.send(3), Err(3));
}

#[test]
fn one_shot_refuses_receive_without_message() {
    let c: OneShotChannel<u8> = OneShotChannel::new();
    assert_eq!(c.receive(), None);
    assert_eq!(c.send(9), Ok(()));
    assert_eq!(c.receive(), Some(9));
    assert_eq!(c.receive(), None);
}

#[test]
fn split_channel_delivers() {
    let mut channel = Channel::new();
    let (sender, receiver) = channel.split();
    assert!(!receiver.is_ready());
    assert_eq!(receiver.try_receive(), None);
    sender.send("hello world!");
    assert!(receiver.is_ready());
    assert_eq!(receiver.try_receive(), Some("hello world!"));
    assert_eq!(receiver.try_receive(), None);
}

#[test]
fn split_resets_channel() {
    let mut channel = Channel::new();
    {
        let (sender, _receiver) = channel.split();
        sender.send(1u32);
    }
    let (_sender, receiver) = channel.split();
    assert!(!receiver.is_ready());
    assert_eq!(receiver.try_receive(), None);
}

#[test]
fn decisions_on_the_swapped_flags() {
    assert_eq!(send_action(true), SendAction::Refuse);
    assert_eq!(send_action(false), SendAction::Deliver);
    assert_eq!(receive_action(true), ReceiveAction::Take);
    assert_eq!(receive_action(false), ReceiveAction::Nothing);
}

#[test]
fn refused_send_leaves_first_message() {
    let c = OneShotChannel::new();
    assert_eq!(c.send(1), Ok(()));
    assert_eq!(c.send(2), Err(2));
    assert!(c.is_ready());
    assert_eq!(c.into_message(), Some(1));
}

#[test]
fn into_message_after_receive_is_empty() {
    let c = OneShotChannel::new();
    assert_eq!(c.send(String::from("x")), Ok(()));
    assert_eq!(c.receive(), Some(String::from("x")));
    assert_eq!(c.into_message(), None);
    let d: Channel<u8> = Channel::new();
    assert_eq!(d.into_message(), None);
}
