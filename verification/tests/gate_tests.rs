use mesh_actor::actor::Message;
use mesh_actor::error::{ActorError, ActorTrySendError};
use mesh_actor::gate::Gate;
use mesh_actor::handler::ActorMessage;

#[derive(Clone, Debug, PartialEq)]
struct TestMessage(pub String);

#[derive(Clone, Debug, PartialEq)]
enum TestResponse {
    Accepted,
    Rejected,
}

impl Message for TestMessage {
    type Response = TestResponse;
}

#[test]
fn gate_tell_delivers_into_mailbox() {
    let (gate, receiver) = Gate::<TestMessage>::channel(2);
    let mut receiver = receiver.into_receiver();
    assert_eq!(gate.tell(TestMessage("Nachricht 1".to_string())), Ok(()));
    let got = receiver.try_recv().unwrap();
    assert_eq!(got.get(), TestMessage("Nachricht 1".to_string()));
}

#[test]
fn gate_tell_full_returns_message() {
    let (gate, _receiver) = Gate::<TestMessage>::channel(1);
    assert_eq!(gate.tell(TestMessage("a".to_string())), Ok(()));
    assert_eq!(
        gate.tell(TestMessage("b".to_string())),
        Err(ActorTrySendError::Full(TestMessage("b".to_string())))
    );
}

#[test]
fn gate_tell_closed_returns_message() {
    let (gate, receiver) = Gate::<TestMessage>::channel(4);
    drop(receiver);
    assert_eq!(
        gate.tell(TestMessage("c".to_string())),
        Err(ActorTrySendError::Closed(TestMessage("c".to_string())))
    );
}

#[test]
fn gate_clones_share_mailbox() {
    let (gate1, receiver) = Gate::<TestMessage>::channel(4);
    let mut receiver = receiver.into_receiver();
    let gate2 = gate1.clone();
    for gate in vec![gate1.clone(), gate2.clone()].iter() {
        assert!(gate.tell(TestMessage("x".to_string())).is_ok());
    }
    assert!(receiver.try_recv().is_ok());
    assert!(receiver.try_recv().is_ok());
    assert!(receiver.try_recv().is_err());
}

#[test]
fn gate_new_wraps_sender() {
    let (sender, mut receiver) = tokio::sync::mpsc::channel(1);
    let gate = Gate::<TestMessage>::new(sender);
    assert!(gate.tell(TestMessage("n".to_string())).is_ok());
    assert_eq!(receiver.try_recv().unwrap().get(), TestMessage("n".to_string()));
}

#[test]
fn gate_ask_round_trip() {
    let (gate, receiver) = Gate::<TestMessage>::channel(1);
    let mut receiver = receiver.into_receiver();
    let reply_rx = gate.ask_send(TestMessage("q".to_string())).unwrap();
    let mut msg = receiver.try_recv().unwrap();
    assert_eq!(msg.payload(), TestMessage("q".to_string()));
    assert!(msg.reply(TestResponse::Accepted));
    let rt = tokio::runtime::Builder::new_current_thread().build().unwrap();
    let reply = rt.block_on(reply_rx.into_receiver());
    assert_eq!(Gate::<TestMessage>::ask_outcome(reply), Ok(TestResponse::Accepted));
}

#[test]
fn gate_ask_unanswered_fails() {
    let (gate, receiver) = Gate::<TestMessage>::channel(1);
    let mut receiver = receiver.into_receiver();
    let reply_rx = gate.ask_send(TestMessage("q".to_string())).unwrap();
    // the actor drops the message without replying
    drop(receiver.try_recv().unwrap());
    let rt = tokio::runtime::Builder::new_current_thread().build().unwrap();
    let reply = rt.block_on(reply_rx.into_receiver());
    assert_eq!(Gate::<TestMessage>::ask_outcome(reply), Err(ActorTrySendError::Failed));
}

#[test]
fn gate_ask_refused_returns_message() {
    let (gate, receiver) = Gate::<TestMessage>::channel(1);
    assert!(gate.ask_send(TestMessage("first".to_string())).is_ok());
    match gate.ask_send(TestMessage("second".to_string())) {
        Err(e) => assert_eq!(e, ActorTrySendError::Full(TestMessage("second".to_string()))),
        Ok(_) => panic!("mailbox should be full"),
    }
    drop(receiver);
    match gate.ask_send(TestMessage("third".to_string())) {
        Err(e) => assert_eq!(e, ActorTrySendError::Closed(TestMessage("third".to_string()))),
        Ok(_) => panic!("mailbox should be closed"),
    }
}

#[test]
fn message_reply_only_once() {
    let (tx, rx) = tokio::sync::oneshot::channel();
    let mut msg = ActorMessage::new(TestMessage("m".to_string()), Some(tx));
    assert!(msg.reply(TestResponse::Rejected));
    assert!(!msg.reply(TestResponse::Accepted));
    let rt = tokio::runtime::Builder::new_current_thread().build().unwrap();
    assert_eq!(rt.block_on(rx), Ok(TestResponse::Rejected));
    assert_eq!(msg.get(), TestMessage("m".to_string()));
}

#[test]
fn message_reply_without_channel() {
    let mut msg = ActorMessage::new(TestMessage("t".to_string()), None);
    assert!(!msg.reply(TestResponse::Accepted));
}

#[test]
fn message_reply_to_gone_asker() {
    let (tx, rx) = tokio::sync::oneshot::channel::<TestResponse>();
    drop(rx);
    let mut msg = ActorMessage::new(TestMessage("t".to_string()), Some(tx));
    assert!(!msg.reply(TestResponse::Accepted));
}

#[test]
fn actor_error_new_is_runtime_error() {
    let e = ActorError::new(std::io::Error::new(std::io::ErrorKind::Other, "boom"));
    match e {
        ActorError::RuntimeError(inner) => assert_eq!(inner.to_string(), "boom"),
        _ => panic!("expected a runtime error"),
    }
}

#[test]
fn gate_send_outcome_maps_answer() {
    assert_eq!(Gate::<TestMessage>::send_outcome(Ok(())), Ok(()));
    let full = Box::new(ActorMessage::new(TestMessage("f".to_string()), None));
    assert_eq!(
        Gate::<TestMessage>::send_outcome(Err(ActorTrySendError::Full(full))),
        Err(ActorTrySendError::Full(TestMessage("f".to_string())))
    );
    let closed = Box::new(ActorMessage::new(TestMessage("c".to_string()), None));
    assert_eq!(
        Gate::<TestMessage>::send_outcome(Err(ActorTrySendError::Closed(closed))),
        Err(ActorTrySendError::Closed(TestMessage("c".to_string())))
    );
    assert_eq!(Gate::<TestMessage>::send_outcome(Err(ActorTrySendError::Failed)), Err(ActorTrySendError::Failed));
}

#[test]
fn gate_channel_holds_buffer_messages() {
    let (gate, _receiver) = Gate::<TestMessage>::channel(3);
    for i in 0..3 {
        assert_eq!(gate.tell(TestMessage(i.to_string())), Ok(()));
    }
    assert_eq!(
        gate.tell(TestMessage("4".to_string())),
        Err(ActorTrySendError::Full(TestMessage("4".to_string())))
    );
}

#[test]
fn message_ask_envelope_carries_reply_channel() {
    let (mut msg, reply_rx) = ActorMessage::ask_envelope(TestMessage("e".to_string()));
    assert!(msg.expects_reply());
    assert!(msg.reply(TestResponse::Accepted));
    let rt = tokio::runtime::Builder::new_current_thread().build().unwrap();
    assert_eq!(rt.block_on(reply_rx.into_receiver()), Ok(TestResponse::Accepted));
}
