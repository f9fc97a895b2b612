//! Solana primitives as request handlers: keypair generation, message
//! signing and verification, and construction of unsigned transfer and
//! SPL-token instructions, each with a contract over plain values.

pub mod response;
pub mod encoding;
pub mod crypto;
pub mod text;
pub mod chain;
pub mod send;
pub mod token;
pub mod message;
pub mod keypair;
pub mod laws;
