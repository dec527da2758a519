//! A small client library for an oracle network's REST gateway: it builds the
//! request URIs, turns the gateway's string-encoded records into typed values,
//! and decodes the binary price that a resolved request carries.

pub mod codec;
pub mod error;
pub mod records;
pub mod source;
