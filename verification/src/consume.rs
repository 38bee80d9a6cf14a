//! `ConsumerBuilder` and `Consumer`: the subscribing side of the protocol.
//!
//! A consumer pulls deliveries from one destination and runs its process
//! hook on each. The hook's outcome fully determines the broker actions:
//! reply bytes are published to the delivery's reply destination and the
//! delivery is acknowledged; a declined delivery gets its one negative
//! acknowledgment; a dropped delivery gets no acknowledgment at all.
//! Each delivery is handled independently — this is a four-way outcome
//! dispatcher, not a long-lived state machine.

use vstd::prelude::*;

use crate::message::{
    EchoProcessor, Message, MessageError, MessageProcess, opt_name_view, process_result_view,
};
use crate::transport::{
    AckDecision, AckOptions, ConsumeOptions, Error, NackOptions, PublishOptions, PublishRequest,
    QueueOptions,
};

verus! {

/// The broker actions decided for one delivery: the reply to publish, if
/// any, and the one acknowledgment for the delivery's own tag.
pub struct ConsumerAction {
    pub reply: Option<PublishRequest>,
    pub ack: AckDecision,
    pub delivery_tag: u64,
}

/// The acknowledgment the consumer path decides for one processing
/// outcome: produced reply bytes map to `Ack`, each declined outcome to
/// its own negative decision, and `Drop` to no acknowledgment at all.
pub open spec fn consumer_decision(outcome: Result<Seq<u8>, MessageError>) -> AckDecision {
    match outcome {
        Result::Ok(_) => AckDecision::Ack,
        Result::Err(MessageError::Reject) => AckDecision::Reject,
        Result::Err(MessageError::Nack) => AckDecision::Nack,
        Result::Err(MessageError::Drop) => AckDecision::NoAck,
    }
}

/// The reply the consumer path publishes for one processing outcome: the
/// produced bytes, routed to the delivery's reply destination, when both
/// exist; nothing otherwise.
pub open spec fn consumer_reply(
    outcome: Result<Seq<u8>, MessageError>,
    reply_to: Option<Seq<char>>,
) -> Option<(Seq<char>, Seq<u8>)> {
    match (outcome, reply_to) {
        (Result::Ok(bytes), Option::Some(dest)) => Option::Some((dest, bytes)),
        _ => Option::None,
    }
}

/// Turn one processing outcome into the broker actions for its delivery.
/// The reply, when one is owed, goes to the delivery's reply destination
/// on the consumer's own exchange, carrying no reply metadata of its own;
/// the acknowledgment applies to exactly the given delivery tag.
pub fn dispatch(
    exchange: &String,
    options: PublishOptions,
    outcome: Result<Vec<u8>, MessageError>,
    reply_to: Option<String>,
    delivery_tag: u64,
) -> (r: ConsumerAction)
    ensures
        r.ack == consumer_decision(process_result_view(outcome)),
        r.delivery_tag == delivery_tag,
        match consumer_reply(process_result_view(outcome), opt_name_view(reply_to)) {
            Option::Some(rp) => r.reply matches Option::Some(req)
                && req@.exchange == exchange@
                && req@.routing_key == rp.0
                && req@.payload == rp.1
                && req@.reply_to == Option::<Seq<char>>::None
                && req@.options == options,
            Option::None => r.reply matches Option::None,
        },
{
    match outcome {
        Result::Ok(bytes) => match reply_to {
            Option::Some(dest) => ConsumerAction {
                reply: Option::Some(PublishRequest {
                    exchange: exchange.clone(),
                    routing_key: dest,
                    reply_to: Option::None,
                    payload: bytes,
                    options,
                }),
                ack: AckDecision::Ack,
                delivery_tag,
            },
            Option::None => ConsumerAction {
                reply: Option::None,
                ack: AckDecision::Ack,
                delivery_tag,
            },
        },
        Result::Err(MessageError::Reject) => ConsumerAction {
            reply: Option::None,
            ack: AckDecision::Reject,
            delivery_tag,
        },
        Result::Err(MessageError::Nack) => ConsumerAction {
            reply: Option::None,
            ack: AckDecision::Nack,
            delivery_tag,
        },
        Result::Err(MessageError::Drop) => ConsumerAction {
            reply: Option::None,
            ack: AckDecision::NoAck,
            delivery_tag,
        },
    }
}

/// A message consumer bound to one destination, with a process hook run
/// on every delivery.
pub struct Consumer<Pr: MessageProcess> {
    /// The exchange consumed from, and the one replies go out on.
    pub ex: String,
    /// The queue consumed from.
    pub queue: String,
    /// Options the consume stream was begun with.
    pub rx_opts: ConsumeOptions,
    /// Options for publishing a reply.
    pub tx_opts: PublishOptions,
    /// Options for acknowledging a processed delivery.
    pub ack_opts: AckOptions,
    /// Options for negatively acknowledging a declined delivery.
    pub nack_opts: NackOptions,
    /// The installed process hook.
    pub processor: Pr,
}

impl<Pr: MessageProcess> Consumer<Pr> {
    /// Replace the installed process hook; affects only later deliveries.
    pub fn with_processor<Q: MessageProcess>(self, processor: Q) -> (r: Consumer<Q>)
        ensures
            r == (Consumer {
                processor,
                ex: self.ex,
                queue: self.queue,
                rx_opts: self.rx_opts,
                tx_opts: self.tx_opts,
                ack_opts: self.ack_opts,
                nack_opts: self.nack_opts,
            }),
    {
        Consumer {
            processor,
            ex: self.ex,
            queue: self.queue,
            rx_opts: self.rx_opts,
            tx_opts: self.tx_opts,
            ack_opts: self.ack_opts,
            nack_opts: self.nack_opts,
        }
    }

    /// Process one delivery and decide the broker actions for it. The
    /// hook's outcome in its current state fully determines the result:
    /// the reply publication, the one acknowledgment, and the tag it
    /// applies to.
    pub fn handle(&mut self, msg: Message) -> (r: ConsumerAction)
        ensures
            final(self).ex == old(self).ex,
            final(self).queue == old(self).queue,
            final(self).rx_opts == old(self).rx_opts,
            final(self).tx_opts == old(self).tx_opts,
            final(self).ack_opts == old(self).ack_opts,
            final(self).nack_opts == old(self).nack_opts,
            r.ack == consumer_decision(old(self).processor.process_spec(msg)),
            r.delivery_tag == msg@.delivery_tag,
            match consumer_reply(old(self).processor.process_spec(msg), msg@.reply_to) {
                Option::Some(rp) => r.reply matches Option::Some(req)
                    && req@.exchange == old(self).ex@
                    && req@.routing_key == rp.0
                    && req@.payload == rp.1
                    && req@.reply_to == Option::<Seq<char>>::None
                    && req@.options == old(self).tx_opts,
                Option::None => r.reply matches Option::None,
            },
    {
        let outcome = self.processor.process(&msg);
        let (_, tag, reply_to) = msg.into_parts();
        dispatch(&self.ex, self.tx_opts, outcome, reply_to, tag)
    }
}

/// A non-consuming [`Consumer`] builder: destination names and option
/// bags are set one by one, then frozen into a consumer once the broker
/// round-trips have been made.
pub struct ConsumerBuilder<Pr: MessageProcess> {
    /// The exchange the consumer will consume from and reply on.
    pub ex: String,
    /// The queue the consumer will consume from.
    pub queue: String,
    /// Options for declaring the queue.
    pub queue_opts: QueueOptions,
    /// Options for beginning the consume stream.
    pub rx_opts: ConsumeOptions,
    /// Options for publishing a reply.
    pub tx_opts: PublishOptions,
    /// Options for acknowledging a processed delivery.
    pub ack_opts: AckOptions,
    /// Options for negatively acknowledging a declined delivery.
    pub nack_opts: NackOptions,
    /// The process hook stamped into each built consumer.
    pub processor: Pr,
}

impl ConsumerBuilder<EchoProcessor> {
    /// A builder with empty destination names, default options, and the
    /// echoing process hook.
    pub fn new() -> (r: Self)
        ensures
            r.ex@ == Seq::<char>::empty(),
            r.queue@ == Seq::<char>::empty(),
            r.queue_opts == QueueOptions::default_spec(),
            r.rx_opts == ConsumeOptions::default_spec(),
            r.tx_opts == PublishOptions::default_spec(),
            r.ack_opts == AckOptions::default_spec(),
            r.nack_opts == NackOptions::default_spec(),
            r.processor == (EchoProcessor),
    {
        ConsumerBuilder {
            ex: String::new(),
            queue: String::new(),
            queue_opts: QueueOptions::default(),
            rx_opts: ConsumeOptions::default(),
            tx_opts: PublishOptions::default(),
            ack_opts: AckOptions::default(),
            nack_opts: NackOptions::default(),
            processor: EchoProcessor,
        }
    }
}

impl<Pr: MessageProcess> ConsumerBuilder<Pr> {
    /// Set the exchange the consumer will consume from and reply on.
    pub fn exchange(&mut self, exchange: String)
        ensures
            *final(self) == (ConsumerBuilder { ex: exchange, ..*old(self) }),
    {
        self.ex = exchange;
    }

    /// Set the queue the consumer will consume from.
    pub fn queue(&mut self, queue: String)
        ensures
            *final(self) == (ConsumerBuilder { queue, ..*old(self) }),
    {
        self.queue = queue;
    }

    /// Use the provided process hook for every built consumer.
    pub fn with_processor<Q: MessageProcess>(self, processor: Q) -> (r: ConsumerBuilder<Q>)
        ensures
            r == (ConsumerBuilder {
                processor,
                ex: self.ex,
                queue: self.queue,
                queue_opts: self.queue_opts,
                rx_opts: self.rx_opts,
                tx_opts: self.tx_opts,
                ack_opts: self.ack_opts,
                nack_opts: self.nack_opts,
            }),
    {
        ConsumerBuilder {
            processor,
            ex: self.ex,
            queue: self.queue,
            queue_opts: self.queue_opts,
            rx_opts: self.rx_opts,
            tx_opts: self.tx_opts,
            ack_opts: self.ack_opts,
            nack_opts: self.nack_opts,
        }
    }

    /// Freeze the configuration into a consumer, given the outcome of the
    /// broker round-trips that declared the queue and began the consume
    /// stream. Construction is all-or-nothing: on failure no consumer
    /// exists, and on success every part of it is in place.
    pub fn assemble(&self, subscribed: Result<(), String>) -> (r: Result<Consumer<Pr>, Error>)
        ensures
            subscribed matches Result::Ok(_) ==> (r matches Result::Ok(c)
                && c.ex == self.ex
                && c.queue == self.queue
                && c.rx_opts == self.rx_opts
                && c.tx_opts == self.tx_opts
                && c.ack_opts == self.ack_opts
                && c.nack_opts == self.nack_opts
                && (forall|m: Message| #[trigger] c.processor.process_spec(m)
                    == self.processor.process_spec(m))),
            subscribed matches Result::Err(e) ==> r matches Result::Err(err)
                && err == Error::Transport(e),
    {
        match subscribed {
            Result::Ok(_) => Result::Ok(Consumer {
                ex: self.ex.clone(),
                queue: self.queue.clone(),
                rx_opts: self.rx_opts,
                tx_opts: self.tx_opts,
                ack_opts: self.ack_opts,
                nack_opts: self.nack_opts,
                processor: self.processor.duplicate(),
            }),
            Result::Err(e) => Result::Err(Error::Transport(e)),
        }
    }
}

/// Law: a `Drop` outcome withholds acknowledgment entirely — the consumer
/// path decides no ack, nack, or reject call for the delivery, and
/// publishes no reply, whatever reply destination the delivery carried.
pub proof fn lemma_drop_withholds_ack(reply_to: Option<Seq<char>>)
    ensures
        consumer_decision(Result::Err(MessageError::Drop)) == AckDecision::NoAck,
        consumer_reply(Result::Err(MessageError::Drop), reply_to)
            == Option::<(Seq<char>, Seq<u8>)>::None,
{
}

} // verus!
