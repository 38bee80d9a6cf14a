//! The broker-facing surface of the protocol: errors, acknowledgment
//! decisions, publish instructions, and the plain option bags that
//! configure queue declaration, consumption and publishing.

use vstd::prelude::*;

verus! {

/// An error of the messaging layer.
#[derive(Debug, PartialEq, Eq)]
pub enum Error {
    /// Broker connectivity or protocol failure, with the broker's own
    /// words. Always fatal to the in-flight operation, never retried.
    Transport(String),
    /// The consume stream closed before a reply arrived.
    StreamEnded,
    /// No reply arrived before the caller's deadline.
    Timeout,
    /// The peek hook declined the reply; it was negatively acknowledged.
    Rejected,
    /// The peek hook asked to withhold acknowledgment; the reply is left
    /// pending at the broker.
    Dropped,
}

/// How one delivery is to be acknowledged. Exactly one decision is made
/// per delivery, and `NoAck` means no acknowledgment call at all.
#[derive(Clone, Copy, Debug, PartialEq, Eq, Structural)]
pub enum AckDecision {
    /// Acknowledge the delivery.
    Ack,
    /// Negatively acknowledge the delivery; the broker may requeue it.
    Nack,
    /// Reject the delivery; the broker may dead-letter it.
    Reject,
    /// Send no acknowledgment of any kind.
    NoAck,
}

/// Options for declaring a queue.
#[derive(Clone, Copy, Debug, PartialEq, Eq, Structural)]
pub struct QueueOptions {
    pub passive: bool,
    pub durable: bool,
    pub exclusive: bool,
    pub auto_delete: bool,
    pub nowait: bool,
}

impl QueueOptions {
    /// The default: every flag off.
    pub open spec fn default_spec() -> Self {
        QueueOptions {
            passive: false,
            durable: false,
            exclusive: false,
            auto_delete: false,
            nowait: false,
        }
    }
}

impl Default for QueueOptions {
    /// All flags off.
    fn default() -> (r: Self)
        ensures
            r == Self::default_spec(),
    {
        QueueOptions { passive: false, durable: false, exclusive: false, auto_delete: false, nowait: false }
    }
}

impl QueueOptions {
    /// The same options narrowed to an ephemeral private queue: exclusive
    /// to its declaring connection and deleted with it.
    pub fn for_reply_queue(self) -> (r: Self)
        ensures
            r == (QueueOptions { exclusive: true, auto_delete: true, ..self }),
    {
        QueueOptions { exclusive: true, auto_delete: true, ..self }
    }
}

/// Options for beginning to consume a queue.
#[derive(Clone, Copy, Debug, PartialEq, Eq, Structural)]
pub struct ConsumeOptions {
    pub no_local: bool,
    pub no_ack: bool,
    pub exclusive: bool,
    pub nowait: bool,
}

impl ConsumeOptions {
    /// The default: every flag off.
    pub open spec fn default_spec() -> Self {
        ConsumeOptions { no_local: false, no_ack: false, exclusive: false, nowait: false }
    }
}

impl Default for ConsumeOptions {
    /// All flags off.
    fn default() -> (r: Self)
        ensures
            r == Self::default_spec(),
    {
        ConsumeOptions { no_local: false, no_ack: false, exclusive: false, nowait: false }
    }
}

/// Options for publishing a message.
#[derive(Clone, Copy, Debug, PartialEq, Eq, Structural)]
pub struct PublishOptions {
    pub mandatory: bool,
    pub immediate: bool,
}

impl PublishOptions {
    /// The default: every flag off.
    pub open spec fn default_spec() -> Self {
        PublishOptions { mandatory: false, immediate: false }
    }
}

impl Default for PublishOptions {
    /// All flags off.
    fn default() -> (r: Self)
        ensures
            r == Self::default_spec(),
    {
        PublishOptions { mandatory: false, immediate: false }
    }
}

/// Options for acknowledging a delivery.
#[derive(Clone, Copy, Debug, PartialEq, Eq, Structural)]
pub struct AckOptions {
    pub multiple: bool,
}

impl AckOptions {
    /// The default: every flag off.
    pub open spec fn default_spec() -> Self {
        AckOptions { multiple: false }
    }
}

impl Default for AckOptions {
    /// All flags off.
    fn default() -> (r: Self)
        ensures
            r == Self::default_spec(),
    {
        AckOptions { multiple: false }
    }
}

/// Options for negatively acknowledging a delivery.
#[derive(Clone, Copy, Debug, PartialEq, Eq, Structural)]
pub struct NackOptions {
    pub multiple: bool,
    pub requeue: bool,
}

impl NackOptions {
    /// The default: every flag off.
    pub open spec fn default_spec() -> Self {
        NackOptions { multiple: false, requeue: false }
    }
}

impl Default for NackOptions {
    /// All flags off.
    fn default() -> (r: Self)
        ensures
            r == Self::default_spec(),
    {
        NackOptions { multiple: false, requeue: false }
    }
}

/// The mathematical content of a [`PublishRequest`].
pub ghost struct PublishRequestView {
    pub exchange: Seq<char>,
    pub routing_key: Seq<char>,
    pub reply_to: Option<Seq<char>>,
    pub payload: Seq<u8>,
    pub options: PublishOptions,
}

/// One complete publish instruction for the broker: where the payload
/// goes, the reply destination to carry in its metadata, if any, and the
/// publish options to use.
pub struct PublishRequest {
    pub exchange: String,
    pub routing_key: String,
    pub reply_to: Option<String>,
    pub payload: Vec<u8>,
    pub options: PublishOptions,
}

impl View for PublishRequest {
    type V = PublishRequestView;

    open spec fn view(&self) -> PublishRequestView {
        PublishRequestView {
            exchange: self.exchange@,
            routing_key: self.routing_key@,
            reply_to: crate::message::opt_name_view(self.reply_to),
            payload: self.payload@,
            options: self.options,
        }
    }
}

} // verus!
