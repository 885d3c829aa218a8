pub mod client;
pub mod stream;
