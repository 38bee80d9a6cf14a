//! `ProducerBuilder` and `Producer`: the publishing side of the protocol.
//!
//! A producer owns a fixed destination and a private, exclusive,
//! auto-deleted reply queue. `publish_request` states one fire-and-forget
//! send; `rpc_request` opens one request/reply call and `rpc_on_reply`
//! settles it with whatever the reply stream produced. The broker I/O
//! itself happens outside; these functions decide everything the I/O must
//! do, and their contracts pin those decisions down.

use vstd::prelude::*;

use crate::message::{Message, MessageError, MessagePeek, NoopPeeker};
use crate::transport::{
    AckDecision, AckOptions, ConsumeOptions, Error, NackOptions, PublishOptions, PublishRequest,
    QueueOptions,
};

verus! {

/// One event observed on a producer's private reply stream.
pub enum ReplyEvent {
    /// A delivery arrived; the correlation protocol takes it as the reply.
    Delivery(Message),
    /// The stream yielded a broker error, with the broker's own words.
    Failed(String),
    /// The stream closed before any delivery arrived.
    Closed,
    /// The caller's deadline passed before any delivery arrived.
    TimedOut,
}

/// The acknowledgment decided for one peeked reply: accept maps to
/// `Ack`, each declined outcome to its own negative decision, and `Drop`
/// to no acknowledgment at all.
pub open spec fn reply_decision(outcome: Result<(), MessageError>) -> AckDecision {
    match outcome {
        Result::Ok(_) => AckDecision::Ack,
        Result::Err(MessageError::Reject) => AckDecision::Reject,
        Result::Err(MessageError::Nack) => AckDecision::Nack,
        Result::Err(MessageError::Drop) => AckDecision::NoAck,
    }
}

/// The result the RPC caller receives for one peeked reply: the reply
/// payload when the peek hook accepts it, and a distinct error when the
/// hook declined or dropped it.
pub open spec fn reply_result(
    outcome: Result<(), MessageError>,
    data: Seq<u8>,
) -> Result<Seq<u8>, Error> {
    match outcome {
        Result::Ok(_) => Result::Ok(data),
        Result::Err(MessageError::Drop) => Result::Err(Error::Dropped),
        Result::Err(_) => Result::Err(Error::Rejected),
    }
}

/// The acknowledgment the RPC path decides for one reply event; every
/// event without a delivery decides none.
pub open spec fn rpc_decision<P: MessagePeek>(peeker: P, ev: ReplyEvent) -> AckDecision {
    match ev {
        ReplyEvent::Delivery(m) => reply_decision(peeker.peek_spec(m)),
        _ => AckDecision::NoAck,
    }
}

/// The result the RPC caller receives for one reply event: the peeked
/// reply's result for a delivery, and a distinct error for a broker
/// failure, a closed stream, or a passed deadline.
pub open spec fn rpc_result<P: MessagePeek>(peeker: P, ev: ReplyEvent) -> Result<Seq<u8>, Error> {
    match ev {
        ReplyEvent::Delivery(m) => reply_result(peeker.peek_spec(m), m@.data),
        ReplyEvent::Failed(e) => Result::Err(Error::Transport(e)),
        ReplyEvent::Closed => Result::Err(Error::StreamEnded),
        ReplyEvent::TimedOut => Result::Err(Error::Timeout),
    }
}

/// Settle one delivered reply with the outcome the peek hook decided
/// for it: exactly one acknowledgment decision, for the delivery's own
/// tag, and the caller's result for each outcome.
pub fn settle_delivery(outcome: Result<(), MessageError>, msg: Message) -> (r: RpcAction)
    ensures
        r.ack == reply_decision(outcome),
        r.delivery_tag == msg@.delivery_tag,
        rpc_reply_view(r.reply) == reply_result(outcome, msg@.data),
{
    let tag = msg.delivery_tag();
    match outcome {
        Result::Ok(_) => RpcAction {
            ack: AckDecision::Ack,
            delivery_tag: tag,
            reply: Result::Ok(msg.into_data()),
        },
        Result::Err(MessageError::Reject) => RpcAction {
            ack: AckDecision::Reject,
            delivery_tag: tag,
            reply: Result::Err(Error::Rejected),
        },
        Result::Err(MessageError::Nack) => RpcAction {
            ack: AckDecision::Nack,
            delivery_tag: tag,
            reply: Result::Err(Error::Rejected),
        },
        Result::Err(MessageError::Drop) => RpcAction {
            ack: AckDecision::NoAck,
            delivery_tag: tag,
            reply: Result::Err(Error::Dropped),
        },
    }
}

/// The view of an RPC outcome: payload bytes abstract to a sequence.
pub open spec fn rpc_reply_view(r: Result<Vec<u8>, Error>) -> Result<Seq<u8>, Error> {
    match r {
        Result::Ok(v) => Result::Ok(v@),
        Result::Err(e) => Result::Err(e),
    }
}

/// Everything one settled RPC call asks of the broker and tells the
/// caller: the acknowledgment to perform, the delivery tag it applies to,
/// and the caller's own result.
pub struct RpcAction {
    pub ack: AckDecision,
    pub delivery_tag: u64,
    pub reply: Result<Vec<u8>, Error>,
}

/// A message producer bound to one destination, with a private reply
/// queue for request/reply calls and a peek hook that validates replies.
pub struct Producer<P: MessagePeek> {
    /// The exchange published to.
    pub ex: String,
    /// The routing key (queue) published to.
    pub queue: String,
    /// The broker-assigned name of the private reply queue.
    pub reply_queue: String,
    /// Options for every publish.
    pub tx_opts: PublishOptions,
    /// Options for acknowledging an accepted reply.
    pub ack_opts: AckOptions,
    /// Options for negatively acknowledging a declined reply.
    pub nack_opts: NackOptions,
    /// The installed peek hook.
    pub peeker: P,
    /// Whether an RPC call is waiting for its reply. The protocol carries
    /// no correlation identifier, so at most one call may be in flight.
    pub in_flight: bool,
}

impl<P: MessagePeek> Producer<P> {
    /// Replace the installed peek hook; affects only subsequent calls.
    pub fn with_peeker<Q: MessagePeek>(self, peeker: Q) -> (r: Producer<Q>)
        ensures
            r == (Producer {
                peeker,
                ex: self.ex,
                queue: self.queue,
                reply_queue: self.reply_queue,
                tx_opts: self.tx_opts,
                ack_opts: self.ack_opts,
                nack_opts: self.nack_opts,
                in_flight: self.in_flight,
            }),
    {
        Producer {
            peeker,
            ex: self.ex,
            queue: self.queue,
            reply_queue: self.reply_queue,
            tx_opts: self.tx_opts,
            ack_opts: self.ack_opts,
            nack_opts: self.nack_opts,
            in_flight: self.in_flight,
        }
    }

    /// The publish instruction for one fire-and-forget send: the payload
    /// goes to the configured destination with no reply metadata, so no
    /// reply is ever awaited.
    pub fn publish_request(&self, payload: Vec<u8>) -> (r: PublishRequest)
        ensures
            r@.exchange == self.ex@,
            r@.routing_key == self.queue@,
            r@.reply_to == Option::<Seq<char>>::None,
            r@.payload == payload@,
            r@.options == self.tx_opts,
    {
        PublishRequest {
            exchange: self.ex.clone(),
            routing_key: self.queue.clone(),
            reply_to: Option::None,
            payload,
            options: self.tx_opts,
        }
    }

    /// The publish instruction that opens one RPC call: as a plain
    /// publish, but carrying the producer's private reply queue in the
    /// message metadata, and marking the call in flight. The next
    /// delivery on that queue is the reply, so a second call must wait
    /// until this one is settled.
    pub fn rpc_request(&mut self, payload: Vec<u8>) -> (r: PublishRequest)
        requires
            !old(self).in_flight,
        ensures
            *final(self) == (Producer { in_flight: true, ..*old(self) }),
            r@.exchange == old(self).ex@,
            r@.routing_key == old(self).queue@,
            r@.reply_to == Option::Some(old(self).reply_queue@),
            r@.payload == payload@,
            r@.options == old(self).tx_opts,
    {
        self.in_flight = true;
        PublishRequest {
            exchange: self.ex.clone(),
            routing_key: self.queue.clone(),
            reply_to: Option::Some(self.reply_queue.clone()),
            payload,
            options: self.tx_opts,
        }
    }

    /// Settle the in-flight RPC call with the one event observed on the
    /// reply stream. A delivery is peeked and exactly one acknowledgment
    /// is decided for its own delivery tag; every other event decides no
    /// acknowledgment and a distinct error.
    pub fn rpc_on_reply(&mut self, ev: ReplyEvent) -> (r: RpcAction)
        requires
            old(self).in_flight,
        ensures
            !final(self).in_flight,
            final(self).ex == old(self).ex,
            final(self).queue == old(self).queue,
            final(self).reply_queue == old(self).reply_queue,
            final(self).tx_opts == old(self).tx_opts,
            final(self).ack_opts == old(self).ack_opts,
            final(self).nack_opts == old(self).nack_opts,
            r.ack == rpc_decision(old(self).peeker, ev),
            rpc_reply_view(r.reply) == rpc_result(old(self).peeker, ev),
            ev matches ReplyEvent::Delivery(m) ==> r.delivery_tag == m@.delivery_tag,
            !(ev matches ReplyEvent::Delivery(_)) ==> final(self).peeker == old(self).peeker,
    {
        self.in_flight = false;
        match ev {
            ReplyEvent::Delivery(m) => {
                let outcome = self.peeker.peek(&m);
                settle_delivery(outcome, m)
            },
            ReplyEvent::Failed(e) => RpcAction {
                ack: AckDecision::NoAck,
                delivery_tag: 0,
                reply: Result::Err(Error::Transport(e)),
            },
            ReplyEvent::Closed => RpcAction {
                ack: AckDecision::NoAck,
                delivery_tag: 0,
                reply: Result::Err(Error::StreamEnded),
            },
            ReplyEvent::TimedOut => RpcAction {
                ack: AckDecision::NoAck,
                delivery_tag: 0,
                reply: Result::Err(Error::Timeout),
            },
        }
    }
}

/// A non-consuming [`Producer`] builder: destination names and option
/// bags are set one by one, then frozen into a producer once the broker
/// round-trips have been made.
pub struct ProducerBuilder<P: MessagePeek> {
    /// The exchange the producer will publish to.
    pub ex: String,
    /// The routing key (queue) the producer will publish to.
    pub queue: String,
    /// Options for declaring the target queue.
    pub queue_opts: QueueOptions,
    /// Options for every publish.
    pub tx_opts: PublishOptions,
    /// Options for consuming the private reply queue.
    pub rx_opts: ConsumeOptions,
    /// Options for acknowledging an accepted reply.
    pub ack_opts: AckOptions,
    /// Options for negatively acknowledging a declined reply.
    pub nack_opts: NackOptions,
    /// The peek hook stamped into each built producer.
    pub peeker: P,
}

impl ProducerBuilder<NoopPeeker> {
    /// A builder with empty destination names, default options, and the
    /// no-op peek hook.
    pub fn new() -> (r: Self)
        ensures
            r.ex@ == Seq::<char>::empty(),
            r.queue@ == Seq::<char>::empty(),
            r.queue_opts == QueueOptions::default_spec(),
            r.tx_opts == PublishOptions::default_spec(),
            r.rx_opts == ConsumeOptions::default_spec(),
            r.ack_opts == AckOptions::default_spec(),
            r.nack_opts == NackOptions::default_spec(),
            r.peeker == (NoopPeeker),
    {
        ProducerBuilder {
            ex: String::new(),
            queue: String::new(),
            queue_opts: QueueOptions::default(),
            tx_opts: PublishOptions::default(),
            rx_opts: ConsumeOptions::default(),
            ack_opts: AckOptions::default(),
            nack_opts: NackOptions::default(),
            peeker: NoopPeeker,
        }
    }
}

impl<P: MessagePeek> ProducerBuilder<P> {
    /// Set the exchange the producer will publish to.
    pub fn exchange(&mut self, exchange: String)
        ensures
            *final(self) == (ProducerBuilder { ex: exchange, ..*old(self) }),
    {
        self.ex = exchange;
    }

    /// Set the routing key (queue) the producer will publish to.
    pub fn queue(&mut self, queue: String)
        ensures
            *final(self) == (ProducerBuilder { queue, ..*old(self) }),
    {
        self.queue = queue;
    }

    /// Use the provided peek hook for every built producer.
    pub fn with_peeker<Q: MessagePeek>(self, peeker: Q) -> (r: ProducerBuilder<Q>)
        ensures
            r == (ProducerBuilder {
                peeker,
                ex: self.ex,
                queue: self.queue,
                queue_opts: self.queue_opts,
                tx_opts: self.tx_opts,
                rx_opts: self.rx_opts,
                ack_opts: self.ack_opts,
                nack_opts: self.nack_opts,
            }),
    {
        ProducerBuilder {
            peeker,
            ex: self.ex,
            queue: self.queue,
            queue_opts: self.queue_opts,
            tx_opts: self.tx_opts,
            rx_opts: self.rx_opts,
            ack_opts: self.ack_opts,
            nack_opts: self.nack_opts,
        }
    }

    /// The options the private reply queue is declared with: the
    /// configured queue options narrowed to an ephemeral, exclusive,
    /// auto-deleted queue, declared under an empty name so the broker
    /// assigns one.
    pub fn reply_queue_opts(&self) -> (r: QueueOptions)
        ensures
            r == (QueueOptions { exclusive: true, auto_delete: true, ..self.queue_opts }),
    {
        self.queue_opts.for_reply_queue()
    }

    /// Freeze the configuration into a producer, given the outcome of the
    /// broker round-trips: the name the broker assigned to the private
    /// reply queue, or the transport failure that ended the build.
    /// Construction is all-or-nothing: on failure no producer exists, and
    /// on success every part of it is in place with no call in flight.
    pub fn assemble(&self, reply_queue: Result<String, String>) -> (r: Result<Producer<P>, Error>)
        ensures
            reply_queue matches Result::Ok(q) ==> (r matches Result::Ok(p)
                && p.ex == self.ex
                && p.queue == self.queue
                && p.reply_queue == q
                && p.tx_opts == self.tx_opts
                && p.ack_opts == self.ack_opts
                && p.nack_opts == self.nack_opts
                && !p.in_flight
                && (forall|m: Message| #[trigger] p.peeker.peek_spec(m)
                    == self.peeker.peek_spec(m))),
            reply_queue matches Result::Err(e) ==> r matches Result::Err(err)
                && err == Error::Transport(e),
    {
        match reply_queue {
            Result::Ok(q) => Result::Ok(Producer {
                ex: self.ex.clone(),
                queue: self.queue.clone(),
                reply_queue: q,
                tx_opts: self.tx_opts,
                ack_opts: self.ack_opts,
                nack_opts: self.nack_opts,
                peeker: self.peeker.duplicate(),
                in_flight: false,
            }),
            Result::Err(e) => Result::Err(Error::Transport(e)),
        }
    }
}

/// Law: an RPC call whose peek hook rejects the reply settles with the
/// distinct `Rejected` error — never with an empty success — and decides
/// exactly one negative acknowledgment, the `Reject`, for the reply
/// delivery itself.
pub proof fn lemma_rpc_reject_is_distinct(p: crate::message::RejectPeeker, m: Message)
    ensures
        rpc_decision(p, ReplyEvent::Delivery(m)) == AckDecision::Reject,
        rpc_result(p, ReplyEvent::Delivery(m)) == Result::<Seq<u8>, Error>::Err(Error::Rejected),
        rpc_result(p, ReplyEvent::Delivery(m)) != Result::<Seq<u8>, Error>::Ok(Seq::<u8>::empty()),
{
}

/// Law: two sequential RPC calls whose replies arrive in request order
/// each settle with their own reply's payload; when the payloads differ,
/// neither call can observe the other's. The two hook states are the
/// peek hook as each call settles.
pub proof fn lemma_sequential_rpc_in_order<P: MessagePeek>(p1: P, p2: P, m1: Message, m2: Message)
    requires
        p1.peek_spec(m1) == Result::<(), MessageError>::Ok(()),
        p2.peek_spec(m2) == Result::<(), MessageError>::Ok(()),
    ensures
        rpc_result(p1, ReplyEvent::Delivery(m1)) == Result::<Seq<u8>, Error>::Ok(m1@.data),
        rpc_result(p2, ReplyEvent::Delivery(m2)) == Result::<Seq<u8>, Error>::Ok(m2@.data),
        m1@.data != m2@.data ==> rpc_result(p1, ReplyEvent::Delivery(m1))
            != rpc_result(p2, ReplyEvent::Delivery(m2)),
{
}

} // verus!
