//! The three providers: for each its events, the decoder of its stream, its
//! errors, and the settings of its client.

pub mod anthropic;
pub mod google;
pub mod openai;
