//! Subscription bookkeeping for a JSON-RPC publish/subscribe client, together
//! with the EIP-4844 blob gas helpers.
//!
//! Every executable function in this crate carries a contract that Verus
//! proves. What is taken for granted about `tokio`, `bimap`,
//! `alloy_primitives` and `alloy_json_rpc` stands in [`channel`],
//! [`bijection`], [`keccak`] and [`request`].
#![allow(unused_imports)]

pub mod bijection;
pub mod channel;
pub mod eip4844;
pub mod id;
pub mod keccak;
pub mod managers;
pub mod request;
pub mod sub;

pub use channel::{RecvError, TryRecvError};
pub use id::{LocalId, ServerId};
pub use managers::active_sub::ActiveSubscription;
pub use managers::sub::SubscriptionManager;
pub use request::{Notification, SubscriptionRequest};
pub use sub::{RawSubscription, Subscription, SubscriptionItem};
