use rustmq::{EchoProcessor, Message, MessageError, MessagePeek, MessageProcess, NoopPeeker,
    RejectPeeker};

#[test]
fn message_exposes_its_parts() {
    let m = Message::new(vec![1, 2, 3], 42, Some(String::from("reply-q")));
    assert_eq!(m.data(), &[1, 2, 3]);
    assert_eq!(m.delivery_tag(), 42);
    assert_eq!(m.reply_to().as_deref(), Some("reply-q"));
    let (data, tag, reply_to) = m.into_parts();
    assert_eq!(data, vec![1, 2, 3]);
    assert_eq!(tag, 42);
    assert_eq!(reply_to, Some(String::from("reply-q")));
}

#[test]
fn message_without_reply_destination() {
    let m = Message::new(Vec::new(), 0, None);
    assert_eq!(m.data(), &[] as &[u8]);
    assert_eq!(m.reply_to(), &None);
    assert_eq!(m.into_data(), Vec::<u8>::new());
}

#[test]
fn noop_peeker_accepts_everything() {
    let mut p = NoopPeeker;
    let m = Message::new(vec![7], 1, None);
    assert!(p.peek(&m).is_ok());
    assert!(p.duplicate().peek(&m).is_ok());
}

#[test]
fn reject_peeker_rejects_everything() {
    let mut p = RejectPeeker;
    let m = Message::new(vec![7], 1, None);
    assert!(matches!(p.peek(&m), Err(MessageError::Reject)));
    assert!(matches!(p.duplicate().peek(&m), Err(MessageError::Reject)));
}

#[test]
fn echo_processor_returns_payload_unchanged() {
    let mut e = EchoProcessor;
    let m = Message::new(vec![5, 6, 7], 9, Some(String::from("q")));
    assert_eq!(e.process(&m), Ok(vec![5, 6, 7]));
    assert_eq!(e.duplicate().process(&m), Ok(vec![5, 6, 7]));
}
