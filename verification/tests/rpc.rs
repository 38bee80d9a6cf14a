use rustmq::produce::settle_delivery;
use rustmq::{AckDecision, Consumer, ConsumerBuilder, Error, Message, MessageError, Producer,
    ProducerBuilder, RejectPeeker, ReplyEvent};

fn built_producer() -> Producer<rustmq::NoopPeeker> {
    let mut b = ProducerBuilder::new();
    b.exchange(String::from("ex"));
    b.queue(String::from("work"));
    b.assemble(Ok(String::from("amq.gen-reply")))
        .expect("assembling with a declared reply queue succeeds")
}

fn echo_peer() -> Consumer<rustmq::EchoProcessor> {
    let mut b = ConsumerBuilder::new();
    b.exchange(String::from("ex"));
    b.queue(String::from("work"));
    b.assemble(Ok(())).expect("assembling a subscribed consumer succeeds")
}

#[test]
fn build_freezes_the_configuration() {
    let p = built_producer();
    assert_eq!(p.ex, "ex");
    assert_eq!(p.queue, "work");
    assert_eq!(p.reply_queue, "amq.gen-reply");
    assert!(!p.in_flight);
}

#[test]
fn build_failure_is_a_transport_error() {
    let b = ProducerBuilder::new();
    let r = b.assemble(Err(String::from("connection refused")));
    match r {
        Err(Error::Transport(words)) => assert_eq!(words, "connection refused"),
        _ => panic!("an unreachable broker must surface a transport error"),
    }
}

#[test]
fn reply_queue_is_ephemeral_and_exclusive() {
    let b = ProducerBuilder::new();
    let opts = b.reply_queue_opts();
    assert!(opts.exclusive);
    assert!(opts.auto_delete);
}

#[test]
fn publish_carries_no_reply_metadata() {
    let p = built_producer();
    let req = p.publish_request(vec![1, 2, 3]);
    assert_eq!(req.exchange, "ex");
    assert_eq!(req.routing_key, "work");
    assert_eq!(req.reply_to, None);
    assert_eq!(req.payload, vec![1, 2, 3]);
}

#[test]
fn rpc_request_carries_the_private_reply_queue() {
    let mut p = built_producer();
    let req = p.rpc_request(vec![9]);
    assert_eq!(req.reply_to, Some(String::from("amq.gen-reply")));
    assert_eq!(req.payload, vec![9]);
    assert!(p.in_flight);
}

#[test]
fn rpc_through_an_echo_peer_returns_the_payload() {
    let payload = vec![10, 20, 30];
    let mut producer = built_producer();
    let mut peer = echo_peer();

    // The caller opens the call; the broker delivers the request.
    let req = producer.rpc_request(payload.clone());
    let delivered = Message::new(req.payload, 1, req.reply_to);

    // The peer echoes it back to the reply destination.
    let action = peer.handle(delivered);
    assert_eq!(action.ack, AckDecision::Ack);
    let reply_req = action.reply.expect("an echoed delivery with a reply destination is answered");
    assert_eq!(reply_req.routing_key, "amq.gen-reply");

    // The broker delivers the reply; the caller settles with its payload.
    let reply = Message::new(reply_req.payload, 2, None);
    let settled = producer.rpc_on_reply(ReplyEvent::Delivery(reply));
    assert_eq!(settled.ack, AckDecision::Ack);
    assert_eq!(settled.delivery_tag, 2);
    assert_eq!(settled.reply, Ok(payload));
    assert!(!producer.in_flight);
}

#[test]
fn rpc_with_a_rejecting_peek_is_distinct_and_nacked_once() {
    let mut p = built_producer().with_peeker(RejectPeeker);
    let _ = p.rpc_request(vec![1]);
    let settled = p.rpc_on_reply(ReplyEvent::Delivery(Message::new(vec![1], 5, None)));

    // The result is a distinct rejection, never an empty success.
    assert_eq!(settled.reply, Err(Error::Rejected));
    assert_ne!(settled.reply, Ok(Vec::new()));

    // Exactly one negative acknowledgment, for the reply delivery itself.
    let mut negative_acks = 0;
    if matches!(settled.ack, AckDecision::Reject | AckDecision::Nack) {
        negative_acks += 1;
    }
    assert_eq!(negative_acks, 1);
    assert_eq!(settled.ack, AckDecision::Reject);
    assert_eq!(settled.delivery_tag, 5);
}

#[test]
fn two_sequential_rpc_calls_get_their_own_replies() {
    let mut producer = built_producer();
    let mut peer = echo_peer();

    let mut settle = |producer: &mut Producer<rustmq::NoopPeeker>,
                      peer: &mut Consumer<rustmq::EchoProcessor>,
                      payload: Vec<u8>,
                      tag: u64| {
        let req = producer.rpc_request(payload);
        let delivered = Message::new(req.payload, tag, req.reply_to);
        let action = peer.handle(delivered);
        let reply_req = action.reply.expect("echo reply");
        let reply = Message::new(reply_req.payload, tag + 100, None);
        producer.rpc_on_reply(ReplyEvent::Delivery(reply)).reply
    };

    let first = settle(&mut producer, &mut peer, vec![1, 1, 1], 1);
    let second = settle(&mut producer, &mut peer, vec![2, 2, 2], 2);
    assert_eq!(first, Ok(vec![1, 1, 1]));
    assert_eq!(second, Ok(vec![2, 2, 2]));
    assert_ne!(first, second);
}

#[test]
fn dropped_reply_withholds_ack_and_is_distinct() {
    let action = settle_delivery(
        Err(MessageError::Drop),
        Message::new(vec![3], 8, None),
    );
    assert_eq!(action.ack, AckDecision::NoAck);
    assert_eq!(action.reply, Err(Error::Dropped));
    assert_eq!(action.delivery_tag, 8);
}

#[test]
fn nacked_reply_is_rejected_for_the_caller() {
    let action = settle_delivery(
        Err(MessageError::Nack),
        Message::new(vec![3], 8, None),
    );
    assert_eq!(action.ack, AckDecision::Nack);
    assert_eq!(action.reply, Err(Error::Rejected));
}

#[test]
fn accepted_reply_is_acked_with_its_payload() {
    let action = settle_delivery(Ok(()), Message::new(vec![3, 4], 8, None));
    assert_eq!(action.ack, AckDecision::Ack);
    assert_eq!(action.reply, Ok(vec![3, 4]));
    assert_eq!(action.delivery_tag, 8);
}

#[test]
fn closed_stream_is_a_distinct_error() {
    let mut p = built_producer();
    let _ = p.rpc_request(Vec::new());
    let settled = p.rpc_on_reply(ReplyEvent::Closed);
    assert_eq!(settled.ack, AckDecision::NoAck);
    assert_eq!(settled.reply, Err(Error::StreamEnded));
}

#[test]
fn passed_deadline_is_a_timeout() {
    let mut p = built_producer();
    let _ = p.rpc_request(Vec::new());
    let settled = p.rpc_on_reply(ReplyEvent::TimedOut);
    assert_eq!(settled.ack, AckDecision::NoAck);
    assert_eq!(settled.reply, Err(Error::Timeout));
}

#[test]
fn stream_failure_is_a_transport_error() {
    let mut p = built_producer();
    let _ = p.rpc_request(Vec::new());
    let settled = p.rpc_on_reply(ReplyEvent::Failed(String::from("channel error")));
    assert_eq!(settled.ack, AckDecision::NoAck);
    assert_eq!(settled.reply, Err(Error::Transport(String::from("channel error"))));
}
