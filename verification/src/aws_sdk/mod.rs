pub mod client;
pub mod http;
