//! The `Message` view over one broker delivery, the `MessagePeek` and
//! `MessageProcess` hook contracts, and the stock hook implementations.

use vstd::prelude::*;

verus! {

/// What a hook decided for a delivery it declined.
///
/// `Reject` and `Nack` are observably distinct negative acknowledgments at
/// the broker; `Drop` withholds any acknowledgment, leaving the delivery's
/// fate to the broker's own redelivery policy.
#[derive(Clone, Copy, Debug, PartialEq, Eq, Structural)]
pub enum MessageError {
    /// Silently drop a message: no acknowledgment of any kind is sent.
    Drop,
    /// Reject a message (negative acknowledgment, dead-letter path).
    Reject,
    /// Nack a message (negative acknowledgment, may requeue).
    Nack,
}

/// The mathematical content of a [`Message`]: its payload bytes, the
/// broker-assigned delivery tag, and the optional reply destination.
pub ghost struct MessageView {
    pub data: Seq<u8>,
    pub delivery_tag: u64,
    pub reply_to: Option<Seq<char>>,
}

/// An immutable view over one broker delivery: opaque payload bytes, the
/// delivery tag used to acknowledge exactly this delivery, and the reply
/// destination carried in the message metadata, if any.
pub struct Message {
    data: Vec<u8>,
    delivery_tag: u64,
    reply_to: Option<String>,
}

/// The view of an optional destination name.
pub open spec fn opt_name_view(o: Option<String>) -> Option<Seq<char>> {
    match o {
        Option::Some(s) => Option::Some(s@),
        Option::None => Option::None,
    }
}

impl View for Message {
    type V = MessageView;

    closed spec fn view(&self) -> MessageView {
        MessageView {
            data: self.data@,
            delivery_tag: self.delivery_tag,
            reply_to: opt_name_view(self.reply_to),
        }
    }
}

impl Message {
    /// Wrap one delivery's plain parts into a message.
    pub fn new(data: Vec<u8>, delivery_tag: u64, reply_to: Option<String>) -> (r: Message)
        ensures
            r@.data == data@,
            r@.delivery_tag == delivery_tag,
            r@.reply_to == opt_name_view(reply_to),
    {
        Message { data, delivery_tag, reply_to }
    }

    /// The payload bytes.
    pub fn data(&self) -> (r: &[u8])
        ensures
            r@ == self@.data,
    {
        self.data.as_slice()
    }

    /// The broker-assigned identifier of this delivery.
    pub fn delivery_tag(&self) -> (r: u64)
        ensures
            r == self@.delivery_tag,
    {
        self.delivery_tag
    }

    /// The reply destination carried in the message metadata, if any.
    pub fn reply_to(&self) -> (r: &Option<String>)
        ensures
            opt_name_view(*r) == self@.reply_to,
    {
        &self.reply_to
    }

    /// The payload bytes, taking the message apart.
    pub fn into_data(self) -> (r: Vec<u8>)
        ensures
            r@ == self@.data,
    {
        self.data
    }

    /// The owned parts of the message: payload bytes, delivery tag, and
    /// the reply destination, if any.
    pub fn into_parts(self) -> (r: (Vec<u8>, u64, Option<String>))
        ensures
            r.0@ == self@.data,
            r.1 == self@.delivery_tag,
            opt_name_view(r.2) == self@.reply_to,
    {
        (self.data, self.delivery_tag, self.reply_to)
    }
}

/// The view of a processing result: payload bytes abstract to a sequence.
pub open spec fn process_result_view(r: Result<Vec<u8>, MessageError>) -> Result<
    Seq<u8>,
    MessageError,
> {
    match r {
        Result::Ok(v) => Result::Ok(v@),
        Result::Err(e) => Result::Err(e),
    }
}

/// A hook that inspects a delivery and decides its outcome, without
/// transforming it. Used by the RPC caller to validate a reply.
///
/// A hook may hold state that changes on every call; `peek_spec` says what
/// it decides in its current state, and every implementation must return
/// exactly that decision.
pub trait MessagePeek: Sized {
    /// The decision this hook makes, as a function of its current state
    /// and the message.
    spec fn peek_spec(&self, msg: Message) -> Result<(), MessageError>;

    /// Peek a message: `Ok` to accept it, or the outcome to apply.
    fn peek(&mut self, msg: &Message) -> (r: Result<(), MessageError>)
        ensures
            r == old(self).peek_spec(*msg),
    ;

    /// A fresh hook that decides as this one currently does, so a builder
    /// can stamp out one instance per worker.
    fn duplicate(&self) -> (r: Self)
        ensures
            forall|m: Message| #[trigger] r.peek_spec(m) == self.peek_spec(m),
    ;
}

/// A hook that inspects a delivery and either produces reply bytes or
/// decides an outcome. Used by the consumer on every delivery.
pub trait MessageProcess: Sized {
    /// The result this hook produces, as a function of its current state
    /// and the message.
    spec fn process_spec(&self, msg: Message) -> Result<Seq<u8>, MessageError>;

    /// Process a message: `Ok` carries the reply bytes, `Err` the outcome
    /// to apply.
    fn process(&mut self, msg: &Message) -> (r: Result<Vec<u8>, MessageError>)
        ensures
            process_result_view(r) == old(self).process_spec(*msg),
    ;

    /// A fresh hook that decides as this one currently does.
    fn duplicate(&self) -> (r: Self)
        ensures
            forall|m: Message| #[trigger] r.process_spec(m) == self.process_spec(m),
    ;
}

/// A peek hook that accepts every message.
#[derive(Clone, Copy, Debug)]
pub struct NoopPeeker;

impl MessagePeek for NoopPeeker {
    open spec fn peek_spec(&self, msg: Message) -> Result<(), MessageError> {
        Result::Ok(())
    }

    fn peek(&mut self, msg: &Message) -> (r: Result<(), MessageError>) {
        Result::Ok(())
    }

    fn duplicate(&self) -> (r: Self) {
        NoopPeeker
    }
}

/// A peek hook that rejects every message, useful for exercising the
/// failure path under load.
#[derive(Clone, Copy, Debug)]
pub struct RejectPeeker;

impl MessagePeek for RejectPeeker {
    open spec fn peek_spec(&self, msg: Message) -> Result<(), MessageError> {
        Result::Err(MessageError::Reject)
    }

    fn peek(&mut self, msg: &Message) -> (r: Result<(), MessageError>) {
        Result::Err(MessageError::Reject)
    }

    fn duplicate(&self) -> (r: Self) {
        RejectPeeker
    }
}

/// A process hook that echoes the request payload back unchanged.
#[derive(Clone, Copy, Debug)]
pub struct EchoProcessor;

impl MessageProcess for EchoProcessor {
    open spec fn process_spec(&self, msg: Message) -> Result<Seq<u8>, MessageError> {
        Result::Ok(msg@.data)
    }

    fn process(&mut self, msg: &Message) -> (r: Result<Vec<u8>, MessageError>) {
        Result::Ok(vstd::slice::slice_to_vec(msg.data()))
    }

    fn duplicate(&self) -> (r: Self) {
        EchoProcessor
    }
}

} // verus!
