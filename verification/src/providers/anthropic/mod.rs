pub mod client;
pub mod error;
pub mod schema;
pub mod stream;

pub use error::AnthropicError;
pub use client::AnthropicClient;
