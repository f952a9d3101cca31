//! A chat-gateway bot core: the decisions taken on gateway events, the
//! start-up configuration, and the framing of completion requests.

pub mod chat;
pub mod completion;
pub mod config;
pub mod events;
pub mod home;
