//! A client-side messaging layer over a publish/subscribe broker.
//!
//! Two exchange patterns are offered: fire-and-forget `publish`, and
//! request/reply `rpc`, where the caller's next delivery on its private
//! reply queue is taken as the answer. Hooks inspect each delivery and
//! decide how it is acknowledged. The protocol decisions live here as
//! verified functions from state and event to action; the broker I/O
//! around them is ordinary async plumbing.

pub mod consume;
pub mod laws;
pub mod message;
pub mod produce;
pub mod publish;
pub mod transport;

pub use consume::{Consumer, ConsumerAction, ConsumerBuilder};
pub use message::{EchoProcessor, Message, MessageError, MessagePeek, MessageProcess, NoopPeeker,
    RejectPeeker};
pub use produce::{Producer, ProducerBuilder, ReplyEvent, RpcAction};
pub use publish::{Publisher, PublisherBuilder};
pub use transport::{AckDecision, Error, PublishRequest};
