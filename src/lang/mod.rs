//! Language operations: chat types, router listings and the streaming chat
//! channel.

pub mod chat;
pub mod list;
pub mod stream;
