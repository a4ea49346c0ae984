pub mod client;
pub mod error;
pub mod schema;
pub mod stream;
pub mod types;

pub use error::OpenAIError;
pub use client::OpenAIClient;
