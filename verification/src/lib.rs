//! Typed value marshalling between untyped documents and the values of a
//! component interface, together with the decisions of one invocation.

pub mod text;
pub mod document;
pub mod json;
pub mod typed;
pub mod decode;
pub mod encode;
pub mod roundtrip;
pub mod error;
pub mod resolve;
pub mod invoke;
pub mod params;
pub mod fixtures;
pub mod markdown;
pub mod hashing;
pub mod archive;
pub mod engine;
pub mod guest;
