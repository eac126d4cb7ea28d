//! Client library for a language-model routing gateway: request building,
//! response classification, the typed error taxonomy and the duplex chat
//! channel, with their behaviour stated as contracts.

mod error;

pub mod config;
pub mod dispatch;
pub mod endpoint;
pub mod json;
pub mod lang;
pub mod request;
pub mod types;

pub use error::Error;
