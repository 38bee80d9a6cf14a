//! Round-trip laws that tie the producing and consuming sides together.
//!
//! Each law is stated over the spec-level decision functions that the
//! executable functions are proved to return exactly, so it holds of
//! every run whose broker delivers messages intact.

use vstd::prelude::*;

use crate::consume::{consumer_decision, consumer_reply};
use crate::message::{EchoProcessor, Message, MessageProcess, NoopPeeker};
use crate::produce::{ReplyEvent, rpc_decision, rpc_result};
use crate::transport::{AckDecision, Error};

verus! {

/// Law: a publish answered by an echoing subscriber comes back unchanged
/// within one delivery. If the broker hands the subscriber a delivery
/// carrying the published payload and a reply destination, the echo
/// hook's reply is exactly that payload, sent to that destination, and
/// the delivery itself is acknowledged.
pub proof fn lemma_publish_echo_round_trip(
    e: EchoProcessor,
    payload: Seq<u8>,
    delivered: Message,
    dest: Seq<char>,
)
    requires
        delivered@.data == payload,
        delivered@.reply_to == Option::Some(dest),
    ensures
        consumer_decision(e.process_spec(delivered)) == AckDecision::Ack,
        consumer_reply(e.process_spec(delivered), delivered@.reply_to)
            == Option::Some((dest, payload)),
{
}

/// Law: an RPC call with the default no-op peek hook against an echoing
/// peer returns the request payload. The request carries the caller's
/// private reply queue; the echo peer replies with the request's own
/// payload to that queue; and the caller accepts the reply, acknowledges
/// it, and receives exactly the payload it sent.
pub proof fn lemma_rpc_echo_round_trip(
    n: NoopPeeker,
    e: EchoProcessor,
    payload: Seq<u8>,
    request: Message,
    reply: Message,
    reply_queue: Seq<char>,
)
    requires
        request@.data == payload,
        request@.reply_to == Option::Some(reply_queue),
        consumer_reply(e.process_spec(request), request@.reply_to)
            == Option::Some((reply_queue, reply@.data)),
    ensures
        reply@.data == payload,
        rpc_decision(n, ReplyEvent::Delivery(reply)) == AckDecision::Ack,
        rpc_result(n, ReplyEvent::Delivery(reply)) == Result::<Seq<u8>, Error>::Ok(payload),
{
}

} // verus!
