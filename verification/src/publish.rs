//! `PublisherBuilder` and `Publisher`: the plain publishing pattern.
//!
//! A publisher is the producer's simpler sibling: it publishes to one
//! destination and, for a request/reply call, acknowledges whatever reply
//! arrives on its private queue without running a peek hook, returning no
//! payload to the caller.

use vstd::prelude::*;

use crate::produce::ReplyEvent;
use crate::transport::{
    AckDecision, AckOptions, Error, PublishOptions, PublishRequest, QueueOptions,
};

verus! {

/// Everything one settled publisher RPC call asks of the broker and
/// tells the caller: the acknowledgment to perform, the delivery tag it
/// applies to, and the caller's own unit result.
pub struct PublishRpcAction {
    pub ack: AckDecision,
    pub delivery_tag: u64,
    pub reply: Result<(), Error>,
}

/// A message publisher bound to one destination, with a private reply
/// queue for request/reply calls.
pub struct Publisher {
    /// The exchange published to.
    pub ex: String,
    /// The routing key (queue) published to.
    pub queue: String,
    /// The broker-assigned name of the private reply queue.
    pub reply_queue: String,
    /// Options for every publish.
    pub publish_options: PublishOptions,
    /// Options for acknowledging a reply.
    pub ack_opts: AckOptions,
    /// Whether an RPC call is waiting for its reply.
    pub in_flight: bool,
}

impl Publisher {
    /// The publish instruction for one fire-and-forget send: the payload
    /// goes to the configured destination with no reply metadata.
    pub fn publish_request(&self, payload: Vec<u8>) -> (r: PublishRequest)
        ensures
            r@.exchange == self.ex@,
            r@.routing_key == self.queue@,
            r@.reply_to == Option::<Seq<char>>::None,
            r@.payload == payload@,
            r@.options == self.publish_options,
    {
        PublishRequest {
            exchange: self.ex.clone(),
            routing_key: self.queue.clone(),
            reply_to: Option::None,
            payload,
            options: self.publish_options,
        }
    }

    /// The publish instruction that opens one RPC call, carrying the
    /// publisher's private reply queue in the message metadata and
    /// marking the call in flight.
    pub fn rpc_request(&mut self, payload: Vec<u8>) -> (r: PublishRequest)
        requires
            !old(self).in_flight,
        ensures
            *final(self) == (Publisher { in_flight: true, ..*old(self) }),
            r@.exchange == old(self).ex@,
            r@.routing_key == old(self).queue@,
            r@.reply_to == Option::Some(old(self).reply_queue@),
            r@.payload == payload@,
            r@.options == old(self).publish_options,
    {
        self.in_flight = true;
        PublishRequest {
            exchange: self.ex.clone(),
            routing_key: self.queue.clone(),
            reply_to: Option::Some(self.reply_queue.clone()),
            payload,
            options: self.publish_options,
        }
    }

    /// Settle the in-flight RPC call with the one event observed on the
    /// reply stream. A delivery is acknowledged unconditionally — this
    /// pattern runs no peek hook — and every other event decides no
    /// acknowledgment and a distinct error.
    pub fn rpc_on_reply(&mut self, ev: ReplyEvent) -> (r: PublishRpcAction)
        requires
            old(self).in_flight,
        ensures
            *final(self) == (Publisher { in_flight: false, ..*old(self) }),
            match ev {
                ReplyEvent::Delivery(m) => r.ack == AckDecision::Ack
                    && r.delivery_tag == m@.delivery_tag
                    && r.reply == Result::<(), Error>::Ok(()),
                ReplyEvent::Failed(e) => r.ack == AckDecision::NoAck
                    && r.reply == Result::<(), Error>::Err(Error::Transport(e)),
                ReplyEvent::Closed => r.ack == AckDecision::NoAck
                    && r.reply == Result::<(), Error>::Err(Error::StreamEnded),
                ReplyEvent::TimedOut => r.ack == AckDecision::NoAck
                    && r.reply == Result::<(), Error>::Err(Error::Timeout),
            },
    {
        self.in_flight = false;
        match ev {
            ReplyEvent::Delivery(m) => PublishRpcAction {
                ack: AckDecision::Ack,
                delivery_tag: m.delivery_tag(),
                reply: Result::Ok(()),
            },
            ReplyEvent::Failed(e) => PublishRpcAction {
                ack: AckDecision::NoAck,
                delivery_tag: 0,
                reply: Result::Err(Error::Transport(e)),
            },
            ReplyEvent::Closed => PublishRpcAction {
                ack: AckDecision::NoAck,
                delivery_tag: 0,
                reply: Result::Err(Error::StreamEnded),
            },
            ReplyEvent::TimedOut => PublishRpcAction {
                ack: AckDecision::NoAck,
                delivery_tag: 0,
                reply: Result::Err(Error::Timeout),
            },
        }
    }
}

/// A non-consuming [`Publisher`] builder.
pub struct PublisherBuilder {
    /// The exchange the publisher will publish to.
    pub ex: String,
    /// The routing key (queue) the publisher will publish to.
    pub queue: String,
    /// Options for declaring the target queue.
    pub queue_options: QueueOptions,
    /// Options for every publish.
    pub publish_options: PublishOptions,
    /// Options for acknowledging a reply.
    pub ack_opts: AckOptions,
}

impl PublisherBuilder {
    /// A builder with empty destination names and default options.
    pub fn new() -> (r: Self)
        ensures
            r.ex@ == Seq::<char>::empty(),
            r.queue@ == Seq::<char>::empty(),
            r.queue_options == QueueOptions::default_spec(),
            r.publish_options == PublishOptions::default_spec(),
            r.ack_opts == AckOptions::default_spec(),
    {
        PublisherBuilder {
            ex: String::new(),
            queue: String::new(),
            queue_options: QueueOptions::default(),
            publish_options: PublishOptions::default(),
            ack_opts: AckOptions::default(),
        }
    }

    /// Set the exchange the publisher will publish to.
    pub fn exchange(&mut self, exchange: String)
        ensures
            *final(self) == (PublisherBuilder { ex: exchange, ..*old(self) }),
    {
        self.ex = exchange;
    }

    /// Set the routing key (queue) the publisher will publish to.
    pub fn queue(&mut self, queue: String)
        ensures
            *final(self) == (PublisherBuilder { queue, ..*old(self) }),
    {
        self.queue = queue;
    }

    /// The options the private reply queue is declared with: the
    /// configured queue options narrowed to an ephemeral, exclusive,
    /// auto-deleted queue.
    pub fn reply_queue_opts(&self) -> (r: QueueOptions)
        ensures
            r == (QueueOptions { exclusive: true, auto_delete: true, ..self.queue_options }),
    {
        self.queue_options.for_reply_queue()
    }

    /// Freeze the configuration into a publisher, given the outcome of
    /// the broker round-trips: the name the broker assigned to the
    /// private reply queue, or the transport failure that ended the
    /// build. Construction is all-or-nothing.
    pub fn assemble(&self, reply_queue: Result<String, String>) -> (r: Result<Publisher, Error>)
        ensures
            reply_queue matches Result::Ok(q) ==> (r matches Result::Ok(p)
                && p.ex == self.ex
                && p.queue == self.queue
                && p.reply_queue == q
                && p.publish_options == self.publish_options
                && p.ack_opts == self.ack_opts
                && !p.in_flight),
            reply_queue matches Result::Err(e) ==> r matches Result::Err(err)
                && err == Error::Transport(e),
    {
        match reply_queue {
            Result::Ok(q) => Result::Ok(Publisher {
                ex: self.ex.clone(),
                queue: self.queue.clone(),
                reply_queue: q,
                publish_options: self.publish_options,
                ack_opts: self.ack_opts,
                in_flight: false,
            }),
            Result::Err(e) => Result::Err(Error::Transport(e)),
        }
    }
}

} // verus!
