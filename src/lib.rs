//! Typed decoding and encoding of the messages a client sends to an editor
//! backend: line-delimited JSON requests and notifications.

pub mod json;
pub mod positional;
pub mod protocol;
pub mod fields;
pub mod edit;
pub mod scope;
pub mod message;
