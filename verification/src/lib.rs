//! A replicated chat-transcript application: a roster of authorized nodes that
//! only the creation chain may change, and a transcript of chat interactions
//! that grows only through a verification round trip with the creation chain.

pub mod contract;
pub mod identity;
pub mod interaction;
pub mod protocol;
pub mod service;
pub mod state;

pub use identity::{ChainId, PublicKey};
pub use interaction::{ChatInteraction, Operation};
pub use state::{Application, NodeSet};
