use rustmq::consume::{dispatch, ConsumerAction};
use rustmq::transport::PublishOptions;
use rustmq::{AckDecision, ConsumerBuilder, Error, Message, MessageError};

/// A stand-in for the broker that records every acknowledgment call made
/// for a delivery, so a test can fail if any is observed.
struct RecordingBroker {
    acks: u32,
    nacks: u32,
    rejects: u32,
}

impl RecordingBroker {
    fn new() -> Self {
        RecordingBroker { acks: 0, nacks: 0, rejects: 0 }
    }

    fn perform(&mut self, action: &ConsumerAction) {
        match action.ack {
            AckDecision::Ack => self.acks += 1,
            AckDecision::Nack => self.nacks += 1,
            AckDecision::Reject => self.rejects += 1,
            AckDecision::NoAck => {}
        }
    }

    fn total(&self) -> u32 {
        self.acks + self.nacks + self.rejects
    }
}

fn options() -> PublishOptions {
    PublishOptions::default()
}

#[test]
fn reply_bytes_are_published_and_the_delivery_acked() {
    let act = dispatch(
        &String::from("ex"),
        options(),
        Ok(vec![4, 5]),
        Some(String::from("their-reply-q")),
        11,
    );
    assert_eq!(act.ack, AckDecision::Ack);
    assert_eq!(act.delivery_tag, 11);
    let req = act.reply.expect("reply bytes with a destination are published");
    assert_eq!(req.exchange, "ex");
    assert_eq!(req.routing_key, "their-reply-q");
    assert_eq!(req.payload, vec![4, 5]);
    assert_eq!(req.reply_to, None);
}

#[test]
fn reply_bytes_without_a_destination_are_only_acked() {
    let act = dispatch(&String::from("ex"), options(), Ok(vec![4, 5]), None, 11);
    assert_eq!(act.ack, AckDecision::Ack);
    assert!(act.reply.is_none());
}

#[test]
fn reject_outcome_rejects_without_reply() {
    let act = dispatch(
        &String::from("ex"),
        options(),
        Err(MessageError::Reject),
        Some(String::from("their-reply-q")),
        11,
    );
    assert_eq!(act.ack, AckDecision::Reject);
    assert!(act.reply.is_none());
}

#[test]
fn nack_outcome_nacks_without_reply() {
    let act = dispatch(&String::from("ex"), options(), Err(MessageError::Nack), None, 11);
    assert_eq!(act.ack, AckDecision::Nack);
    assert!(act.reply.is_none());
}

#[test]
fn drop_outcome_never_touches_the_broker() {
    let mut broker = RecordingBroker::new();
    let act = dispatch(
        &String::from("ex"),
        options(),
        Err(MessageError::Drop),
        Some(String::from("their-reply-q")),
        11,
    );
    broker.perform(&act);
    assert_eq!(broker.total(), 0, "a dropped delivery must see no ack, nack, or reject");
    assert!(act.reply.is_none());
}

#[test]
fn echo_consumer_answers_with_the_input_payload() {
    let mut b = ConsumerBuilder::new();
    b.exchange(String::from("ex"));
    b.queue(String::from("work"));
    let mut c = b.assemble(Ok(())).expect("assembling a subscribed consumer succeeds");

    let mut broker = RecordingBroker::new();
    let act = c.handle(Message::new(vec![8, 9], 21, Some(String::from("caller-q"))));
    broker.perform(&act);
    assert_eq!(broker.acks, 1);
    assert_eq!(broker.total(), 1);
    let req = act.reply.expect("the echo hook answers every delivery with a destination");
    assert_eq!(req.payload, vec![8, 9]);
    assert_eq!(req.routing_key, "caller-q");
    assert_eq!(act.delivery_tag, 21);
}

#[test]
fn consumer_build_failure_is_a_transport_error() {
    let b = ConsumerBuilder::new();
    match b.assemble(Err(String::from("no broker"))) {
        Err(Error::Transport(words)) => assert_eq!(words, "no broker"),
        _ => panic!("an unreachable broker must surface a transport error"),
    }
}
