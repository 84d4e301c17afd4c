//! What the backend sends to the front end while the agent works.

use vstd::prelude::*;
use vstd::string::StringExecFns;

use crate::chat_message::{text_view, ChatMessage, ChatMessageView};

verus! {

/// A response of the backend. Each one names the chat that it is for.
#[derive(Debug, Clone, PartialEq)]
pub enum CommandResponse {
    /// A chat message
    Chat(u128, ChatMessage),
    /// What the agent is busy with
    Activity(u128, String),
    /// A new display name for the chat
    RenameChat(u128, String),
    /// The branch that the agent works on
    RenameBranch(u128, String),
    /// A notice from the backend itself
    BackendMessage(u128, String),
    /// The agent has finished
    Completed(u128),
}

/// A [`CommandResponse`] as a mathematical value.
pub enum CommandResponseView {
    Chat(u128, ChatMessageView),
    Activity(u128, Seq<char>),
    RenameChat(u128, Seq<char>),
    RenameBranch(u128, Seq<char>),
    BackendMessage(u128, Seq<char>),
    Completed(u128),
}

impl CommandResponseView {
    /// The chat that the response is for.
    pub open spec fn uuid(self) -> u128 {
        match self {
            CommandResponseView::Chat(uuid, _) => uuid,
            CommandResponseView::Activity(uuid, _) => uuid,
            CommandResponseView::RenameChat(uuid, _) => uuid,
            CommandResponseView::RenameBranch(uuid, _) => uuid,
            CommandResponseView::BackendMessage(uuid, _) => uuid,
            CommandResponseView::Completed(uuid) => uuid,
        }
    }

    /// The line that a front end without a screen prints for the response:
    /// a chat message as it reads, what the agent is busy with behind ">> ",
    /// a notice of the backend behind "Backend: ", and nothing for the rest.
    pub open spec fn log_line(self) -> Option<Seq<char>> {
        match self {
            CommandResponseView::Chat(_, message) => Some(message.content),
            CommandResponseView::Activity(_, text) => Some(">> "@ + text),
            CommandResponseView::BackendMessage(_, text) => Some("Backend: "@ + text),
            _ => None,
        }
    }
}

impl View for CommandResponse {
    type V = CommandResponseView;

    open spec fn view(&self) -> CommandResponseView {
        match self {
            CommandResponse::Chat(uuid, message) => CommandResponseView::Chat(*uuid, message@),
            CommandResponse::Activity(uuid, text) => CommandResponseView::Activity(*uuid, text@),
            CommandResponse::RenameChat(uuid, name) => CommandResponseView::RenameChat(
                *uuid,
                name@,
            ),
            CommandResponse::RenameBranch(uuid, name) => CommandResponseView::RenameBranch(
                *uuid,
                name@,
            ),
            CommandResponse::BackendMessage(uuid, text) => CommandResponseView::BackendMessage(
                *uuid,
                text@,
            ),
            CommandResponse::Completed(uuid) => CommandResponseView::Completed(*uuid),
        }
    }
}

impl CommandResponse {
    /// The chat that the response is for.
    pub fn uuid(&self) -> (uuid: u128)
        ensures
            uuid == self@.uuid(),
    {
        match self {
            CommandResponse::Chat(uuid, _) => *uuid,
            CommandResponse::Activity(uuid, _) => *uuid,
            CommandResponse::RenameChat(uuid, _) => *uuid,
            CommandResponse::RenameBranch(uuid, _) => *uuid,
            CommandResponse::BackendMessage(uuid, _) => *uuid,
            CommandResponse::Completed(uuid) => *uuid,
        }
    }

    /// The line to print for the response where there is no screen, if it
    /// calls for one.
    pub fn log_line(&self) -> (line: Option<String>)
        ensures
            text_view(line) == self@.log_line(),
    {
        match self {
            CommandResponse::Chat(_, message) => Some(message.content.clone()),
            CommandResponse::Activity(_, text) => {
                let mut line = ">> ".to_owned();
                line.append(text.as_str());
                Some(line)
            },
            CommandResponse::BackendMessage(_, text) => {
                let mut line = "Backend: ".to_owned();
                line.append(text.as_str());
                Some(line)
            },
            _ => None,
        }
    }
}

} // verus!
