//! Force-closing Lightning channels on behalf of a node that has lost its
//! channel state.
//!
//! A node restoring from a static channel backup cannot resume a channel. It
//! can still make an honest peer close the channel on chain: it sends a
//! `channel_reestablish` message whose commitment numbers and secret cannot
//! belong to any real channel state, and the peer, seeing the mismatch, closes
//! unilaterally.
//!
//! [`SCBMessageHandler`] builds such messages and keeps them, in order, until a
//! peer-connection engine collects them for delivery.
//!
//! The handler is a plain value: what changes the queue takes `&mut self`, so
//! one caller works on it at a time. A host whose threads request closes while
//! its engine drains keeps the handler behind a lock.

pub mod features;
pub mod handler;
pub mod message;
pub mod pending;
pub mod point;
pub mod queue;

pub use features::FeatureFlags;
pub use handler::SCBMessageHandler;
pub use message::{ChannelReestablishPayload, QueuedMessage};
pub use queue::OutboundQueue;
