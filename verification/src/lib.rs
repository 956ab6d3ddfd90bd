//! Publish/subscribe messaging on top of a native, callback-driven client
//! engine.
//!
//! The native engine works on one context per operation and reports the end
//! of each transaction through a callback. This library holds the rules of
//! the two bridges that turn those callbacks into a stream of payloads and a
//! one-shot result: which native calls are due and in what order, what each
//! completion amounts to, and what the consumer is told. The calls
//! themselves are made by the owner of a bridge, who is handed them as
//! values.

pub mod channel;
pub mod client;
pub mod engine;
pub mod error;
pub mod publish;
pub mod subscription;
pub mod text;

pub use client::{ChannelConfig, Client, ClientConfig};
pub use engine::{ChannelPoll, NativeCall, Operands, Polled, Transaction};
pub use error::{ClientError, JsonError};
pub use publish::{publish_callback, PublishFuture, PublishFutureUserData};
pub use subscription::{subscribe_callback, SubscribeUserData, Subscription};
pub use text::{InvalidText, TextField};
