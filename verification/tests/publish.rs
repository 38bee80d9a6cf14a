use rustmq::{AckDecision, Error, Message, Publisher, PublisherBuilder, ReplyEvent};

fn built_publisher() -> Publisher {
    let mut b = PublisherBuilder::new();
    b.exchange(String::from("ex"));
    b.queue(String::from("work"));
    b.assemble(Ok(String::from("amq.gen-reply")))
        .expect("assembling with a declared reply queue succeeds")
}

#[test]
fn publish_goes_to_the_configured_destination() {
    let p = built_publisher();
    let req = p.publish_request(vec![1]);
    assert_eq!(req.exchange, "ex");
    assert_eq!(req.routing_key, "work");
    assert_eq!(req.reply_to, None);
}

#[test]
fn rpc_acks_whatever_reply_arrives() {
    let mut p = built_publisher();
    let req = p.rpc_request(vec![1]);
    assert_eq!(req.reply_to, Some(String::from("amq.gen-reply")));
    let settled = p.rpc_on_reply(ReplyEvent::Delivery(Message::new(vec![2], 33, None)));
    assert_eq!(settled.ack, AckDecision::Ack);
    assert_eq!(settled.delivery_tag, 33);
    assert_eq!(settled.reply, Ok(()));
    assert!(!p.in_flight);
}

#[test]
fn rpc_surfaces_a_closed_stream() {
    let mut p = built_publisher();
    let _ = p.rpc_request(Vec::new());
    let settled = p.rpc_on_reply(ReplyEvent::Closed);
    assert_eq!(settled.ack, AckDecision::NoAck);
    assert_eq!(settled.reply, Err(Error::StreamEnded));
}

#[test]
fn publisher_build_failure_is_a_transport_error() {
    let b = PublisherBuilder::new();
    match b.assemble(Err(String::from("refused"))) {
        Err(Error::Transport(words)) => assert_eq!(words, "refused"),
        _ => panic!("an unreachable broker must surface a transport error"),
    }
}
