//! What happens in the front end, and what each event does to the chats.

use crossterm::event::KeyEvent;
use vstd::prelude::*;
use vstd::std_specs::convert::FromSpecImpl;

use crate::chat::{ChatState, ChatView};
use crate::chat_message::ChatMessage;
use crate::command_response::{CommandResponse, CommandResponseView};
use crate::identity::is_random_uuid;
use crate::registry::{Registry, RegistryView};

verus! {

/// `crossterm::event::KeyEvent`, a key press as the terminal reports it. The
/// type is declared without its fields: the crate hands a key press on and
/// never looks into it.
#[verifier::external_type_specification]
#[verifier::external_body]
pub struct ExKeyEvent(KeyEvent);

/// `KeyEvent` is `Copy`, and its `clone` is the derived one: the contract
/// claims that the clone equals the key press it was made from. Not verified.
pub assume_specification[ <KeyEvent as Clone>::clone ](key: &KeyEvent) -> (copy: KeyEvent)
    ensures
        copy == *key,
;

/// What the screen shows.
#[derive(Debug, Clone, Copy, PartialEq, Eq, Structural)]
pub enum AppMode {
    Chat,
    Logs,
    Quit,
}

// Event handling
#[derive(Debug, Clone, PartialEq)]
pub enum UIEvent {
    /// A key is pressed
    Input(KeyEvent),
    /// A frontend tick event to trigger updates, etc
    Tick,
    /// A chat message is received
    ChatMessage(u128, ChatMessage),
    /// Start a new chat
    NewChat,
    /// Switch to the next chat
    NextChat,
    /// Rename a chat
    RenameChat(u128, String),
    /// Rename a branch name
    RenameBranch(u128, String),
    /// Change the view mode of the frontend
    ChangeMode(AppMode),
    /// Command finished
    CommandDone(u128),
    /// Agent has an update (for showing intermediate progress)
    ActivityUpdate(u128, String),
    /// Quit from the frontend
    Quit,
    /// Copy last message from current chat to clipboard
    CopyLastMessage,
    /// Deletes the current chat
    DeleteChat,
    /// Received a user command (prefixed with '/') from the user, here
    /// without the prefix
    UserInputCommand(u128, String),
    /// Scroll to the end of the chat
    ScrollEnd,
    /// Scroll down
    ScrollDown,
    /// Scroll up
    ScrollUp,
    /// Pulls the current changes into the same local branch as the agent is working in
    DiffPull,
    /// Show the current changes
    DiffShow,
    /// Prints a help message
    Help,
    /// Fetch a GitHub issue and its comments and have the agent analyze and fix it
    GithubFixIssue(u128, u64),
}

impl From<KeyEvent> for UIEvent {
    fn from(key: KeyEvent) -> (event: UIEvent) {
        UIEvent::Input(key)
    }
}

impl FromSpecImpl<KeyEvent> for UIEvent {
    open spec fn obeys_from_spec() -> bool {
        true
    }

    open spec fn from_spec(key: KeyEvent) -> UIEvent {
        UIEvent::Input(key)
    }
}

impl UIEvent {
    /// The response of the backend that the event passes on, if it passes one on.
    pub open spec fn response(self) -> Option<CommandResponseView> {
        match self {
            UIEvent::ChatMessage(uuid, message) => Some(CommandResponseView::Chat(uuid, message@)),
            UIEvent::RenameChat(uuid, name) => Some(CommandResponseView::RenameChat(uuid, name@)),
            UIEvent::RenameBranch(uuid, name) => Some(
                CommandResponseView::RenameBranch(uuid, name@),
            ),
            UIEvent::CommandDone(uuid) => Some(CommandResponseView::Completed(uuid)),
            UIEvent::ActivityUpdate(uuid, text) => Some(CommandResponseView::Activity(uuid, text@)),
            _ => None,
        }
    }

    /// Whether the event is about the chats: it opens, selects or deletes one,
    /// or passes on a response of the backend.
    pub open spec fn concerns_chats(self) -> bool {
        ||| self is NewChat
        ||| self is NextChat
        ||| self is DeleteChat
        ||| self.response() is Some
    }
}

impl<R> RegistryView<R> {
    /// The registry after `event`, where `uuid` is the identity that a new
    /// chat gets.
    ///
    /// A new chat is called "Chat". The chat that is deleted is the one on
    /// screen. A response that the event passes on is applied to its chat, or
    /// dropped where the registry holds no such chat. No other event changes
    /// the registry.
    pub open spec fn after_event(self, event: UIEvent, uuid: u128) -> RegistryView<R> {
        match event {
            UIEvent::NewChat => self.create("Chat"@, uuid),
            UIEvent::NextChat => self.select_next(),
            UIEvent::DeleteChat => match self.current {
                Some(at) => self.delete(self.chats[at].uuid),
                None => self,
            },
            _ => match event.response() {
                Some(response) => self.dispatch(response),
                None => self,
            },
        }
    }

    /// Whether the chat that `event` brings a message for can count it.
    pub open spec fn can_take(self, event: UIEvent) -> bool {
        match event.response() {
            Some(response) => self.can_apply(response),
            None => true,
        }
    }
}

impl<R> Registry<R> {
    /// Applies `event` to the chats. An event that is not about the chats comes
    /// back as it is, for the caller to act on or to pass on to the backend.
    pub fn apply_event(&mut self, event: UIEvent) -> (passed_on: Option<UIEvent>)
        requires
            old(self).wf(),
            old(self)@.can_take(event),
        ensures
            final(self).wf(),
            exists|uuid: u128| final(self)@ == #[trigger] old(self)@.after_event(event, uuid),
            event is NewChat ==> is_random_uuid(final(self)@.chats.last().uuid),
            passed_on == if event.concerns_chats() {
                None
            } else {
                Some(event)
            },
    {
        match event {
            UIEvent::NewChat => {
                let uuid = self.create("Chat");
                assert(self@ == old(self)@.after_event(event, uuid));
                None
            },
            UIEvent::NextChat => {
                self.select_next();
                assert(self@ == old(self)@.after_event(event, 0));
                None
            },
            UIEvent::DeleteChat => {
                if !self.is_empty() {
                    let uuid = self.current().uuid;
                    self.delete(uuid);
                }
                assert(self@ == old(self)@.after_event(event, 0));
                None
            },
            UIEvent::ChatMessage(uuid, message) => {
                self.dispatch(CommandResponse::Chat(uuid, message));
                assert(self@ == old(self)@.after_event(event, 0));
                None
            },
            UIEvent::RenameChat(uuid, name) => {
                self.dispatch(CommandResponse::RenameChat(uuid, name));
                assert(self@ == old(self)@.after_event(event, 0));
                None
            },
            UIEvent::RenameBranch(uuid, name) => {
                self.dispatch(CommandResponse::RenameBranch(uuid, name));
                assert(self@ == old(self)@.after_event(event, 0));
                None
            },
            UIEvent::CommandDone(uuid) => {
                self.dispatch(CommandResponse::Completed(uuid));
                assert(self@ == old(self)@.after_event(event, 0));
                None
            },
            UIEvent::ActivityUpdate(uuid, text) => {
                self.dispatch(CommandResponse::Activity(uuid, text));
                assert(self@ == old(self)@.after_event(event, 0));
                None
            },
            other => {
                assert(self@ == old(self)@.after_event(event, 0));
                Some(other)
            },
        }
    }
}

} // verus!
