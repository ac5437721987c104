//! A conformance harness for agents that speak a small length-prefixed
//! command protocol: the frame codec, the scripted session that drives one
//! agent through every command, and the bounded store of recent results.

pub mod byte_format;
pub mod codec;
pub mod script;
pub mod session;
pub mod status;
pub mod store;
pub mod text;
pub mod provision;
