pub mod chat;
pub mod engine;
pub mod error;
pub mod fingerprint;
pub mod message;
pub mod processors;
pub mod stream;
