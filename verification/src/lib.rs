//! Session state for a terminal front end to a coding agent: messages, chats,
//! the registry of chats and the events that drive them.

pub mod chat;
pub mod chat_message;
pub mod command_response;
pub mod identity;
pub mod registry;
pub mod ui_event;
pub mod labels;
