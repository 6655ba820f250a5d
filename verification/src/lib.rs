pub mod error;
pub mod http;
pub mod latency;
