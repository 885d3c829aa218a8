pub mod result;
pub mod text;
pub mod net;
pub mod dns;
pub mod aws_sdk;
pub mod config;
pub mod http;
pub mod presigning;
pub mod util;
pub mod root;
pub mod multipart;
pub mod sign;
pub mod laws;
