//! Conversation-context assembly and reply routing for a chat-relay bot.
//!
//! The crate decides, for one inbound chat message, which channel the reply
//! belongs to, turns the recent history of that channel into a role-tagged
//! transcript, shapes the request for a hosted completion endpoint, reads the
//! endpoint's answer, and says what to do next at every stage. It performs no
//! input or output itself: a driver carries out each [`dispatcher::Action`]
//! and reports the outcome as an [`dispatcher::DispatchEvent`].

pub mod decimal;
pub mod dispatcher;
pub mod ids;
pub mod json;
pub mod openai;
pub mod router;
pub mod transcript;
