pub mod central;
pub mod config;
pub mod errors;
pub mod identity;
pub mod laws;
pub mod packet;
pub mod session;
pub mod uuid_text;
