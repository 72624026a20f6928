//! Session engines for launcher plugins that talk to their host over
//! newline-delimited JSON.
//!
//! A plugin never performs input or output itself. Each handler takes one
//! event, updates the session state and returns a [`step::Step`]: the
//! messages to send to the host, at most one side effect to carry out, and
//! the outside work whose answer the plugin waits for next. The program that
//! owns the input and output carries these out and hands the answers back.
//!
//! * [`protocol`] holds the messages, [`codec`] reads and writes them, and
//!   [`json`] is the JSON reader and writer underneath.
//! * [`vault`] is the plugin that searches a password vault, [`websearch`]
//!   the one that searches the web. Each comes as a state machine over
//!   mathematical values (`model`), the handlers that implement it
//!   (`plugin`) and what holds of every session (`laws`).
//! * [`text`] and [`listing`] hold the helpers on strings and lists.

pub mod codec;
pub mod json;
pub mod listing;
pub mod protocol;
pub mod step;
pub mod text;
pub mod vault;
pub mod websearch;
