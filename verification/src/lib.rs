//! A verified decoder for the streamed responses of three providers of
//! large language models.
//!
//! The body of a streamed response arrives as chunks of bytes, cut at
//! arbitrary places. [`assembler`] gathers the chunks into records, one line
//! each; a provider's decoder turns a record into a typed event, skips it as
//! framing, or reports that it could not be decoded; [`event_stream`] puts
//! the two together into a stream that is polled one item at a time.
//! [`stream`] holds the mathematical account of such a stream and the laws
//! that are proved of it, [`json`] the documents that payloads are made of,
//! and [`providers`] the events, decoders and settings of each provider.
//!
//! The library does no input or output: its caller owns the byte source.

pub mod assembler;
pub mod event_stream;
pub mod json;
pub mod providers;
pub mod stream;
pub mod text;
