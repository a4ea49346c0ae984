pub mod client;
pub mod error;
pub mod stream;
pub mod types;

pub use error::GoogleError;
pub use client::GoogleClient;
