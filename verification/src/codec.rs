//! The wire format: one JSON document per line in either direction.

pub mod reader;
pub mod writer;
