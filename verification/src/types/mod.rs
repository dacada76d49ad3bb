//! The data shared between the behaviour and its embedder.

pub mod globals;
pub mod subscriptions;
pub mod topics;
