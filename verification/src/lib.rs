//! Session coordination and threshold key-generation worker for a
//! peer-to-peer signing node.
//!
//! The crate holds the decisions of the node: who leads a session, who its
//! members are, and how a key-generation ceremony moves through its phases.
//! Network transport and the cryptographic engine are driven by the caller,
//! which performs the actions that these state machines hand out.

pub mod coordinator;
pub mod identity;
pub mod message;
pub mod worker;
