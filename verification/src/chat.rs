//! One conversation with the agent.

use std::sync::Arc;
use vstd::hash_set::StringHashSet;
use vstd::prelude::*;

use crate::chat_message::{text_view, ChatMessage, ChatMessageView, ChatRole};
use crate::identity::{is_random_uuid, new_uuid};

verus! {

/// Whether the agent behind a chat is at work.
#[derive(Debug, Clone, PartialEq)]
pub enum ChatState {
    Loading,
    LoadingWithMessage(String),
    Ready,
}

/// A [`ChatState`] as a mathematical value.
pub enum ChatStateView {
    Loading,
    LoadingWithMessage(Seq<char>),
    Ready,
}

impl ChatStateView {
    /// Whether the agent is at work, with or without a status text.
    pub open spec fn is_busy(self) -> bool {
        self is Loading || self is LoadingWithMessage
    }
}

impl View for ChatState {
    type V = ChatStateView;

    open spec fn view(&self) -> ChatStateView {
        match self {
            ChatState::Loading => ChatStateView::Loading,
            ChatState::LoadingWithMessage(text) => ChatStateView::LoadingWithMessage(text@),
            ChatState::Ready => ChatStateView::Ready,
        }
    }
}

impl Default for ChatState {
    fn default() -> (state: ChatState)
        ensures
            state == ChatState::Ready,
    {
        ChatState::Ready
    }
}

impl ChatState {
    pub fn is_loading(&self) -> (b: bool)
        ensures
            b == (self@ is Loading),
    {
        matches!(self, ChatState::Loading)
    }

    pub fn is_loading_with_message(&self) -> (b: bool)
        ensures
            b == (self@ is LoadingWithMessage),
    {
        matches!(self, ChatState::LoadingWithMessage(_))
    }

    pub fn is_ready(&self) -> (b: bool)
        ensures
            b == (self@ is Ready),
    {
        matches!(self, ChatState::Ready)
    }
}

/// The position of the last message of `messages` that belongs to `stream`.
pub open spec fn last_of_stream(messages: Seq<ChatMessageView>, stream: u128) -> Option<int>
    decreases messages.len(),
{
    if messages.len() == 0 {
        None
    } else if messages.last().stream_id == Some(stream) {
        Some(messages.len() - 1)
    } else {
        last_of_stream(messages.drop_last(), stream)
    }
}

/// [`last_of_stream`] finds a message of the stream with none of it behind,
/// and finds nothing only where the stream has no message.
pub proof fn lemma_last_of_stream(messages: Seq<ChatMessageView>, stream: u128)
    ensures
        match last_of_stream(messages, stream) {
            Some(at) => {
                &&& 0 <= at < messages.len()
                &&& messages[at].stream_id == Some(stream)
                &&& forall|j: int| at < j < messages.len() ==> messages[j].stream_id != Some(stream)
            },
            None => forall|j: int| 0 <= j < messages.len() ==> messages[j].stream_id != Some(stream),
        },
    decreases messages.len(),
{
    if messages.len() > 0 && messages.last().stream_id != Some(stream) {
        let front = messages.drop_last();
        lemma_last_of_stream(front, stream);
        assert(forall|j: int| 0 <= j < front.len() ==> front[j] == messages[j]);
    }
}

/// A position that holds a message of the stream, with none of it behind, is
/// the one that [`last_of_stream`] finds.
pub proof fn lemma_last_of_stream_at(messages: Seq<ChatMessageView>, stream: u128, at: int)
    requires
        0 <= at < messages.len(),
        messages[at].stream_id == Some(stream),
        forall|j: int| at < j < messages.len() ==> messages[j].stream_id != Some(stream),
    ensures
        last_of_stream(messages, stream) == Some(at),
{
    lemma_last_of_stream(messages, stream);
}

/// What a [`Chat`] holds, as mathematical values.
pub struct ChatView<R> {
    pub name: Seq<char>,
    pub uuid: u128,
    pub branch_name: Option<Seq<char>>,
    pub messages: Seq<ChatMessageView>,
    pub state: ChatStateView,
    pub new_message_count: nat,
    pub completed_tool_call_ids: Set<Seq<char>>,
    pub vertical_scroll: nat,
    pub num_lines: nat,
    pub auto_tail: bool,
    pub repository: R,
}

impl<R> ChatView<R> {
    /// A chat as it is created: named "Chat", ready, with nothing said.
    pub open spec fn fresh(uuid: u128, repository: R) -> ChatView<R> {
        ChatView {
            name: "Chat"@,
            uuid,
            branch_name: None,
            messages: Seq::empty(),
            state: ChatStateView::Ready,
            new_message_count: 0,
            completed_tool_call_ids: Set::empty(),
            vertical_scroll: 0,
            num_lines: 0,
            auto_tail: true,
            repository,
        }
    }

    /// The message that continues the stream of `message`: the last one in the
    /// history with the same stream identifier.
    pub open spec fn stream_target(self, message: ChatMessageView) -> Option<int> {
        match message.stream_id {
            Some(stream) => last_of_stream(self.messages, stream),
            None => None,
        }
    }

    /// Whether `message` is the assistant's last message sent once more: both
    /// are from the assistant and have the same content, which is not empty.
    pub open spec fn resends_last(self, message: ChatMessageView) -> bool {
        &&& message.role == ChatRole::Assistant
        &&& self.messages.len() > 0
        &&& self.messages.last().role == ChatRole::Assistant
        &&& self.messages.last().content.len() > 0
        &&& self.messages.last().content == message.content
    }

    /// Whether taking in `message` raises the count of new messages: it
    /// continues no stream and is not from the user.
    pub open spec fn counts_as_new(self, message: ChatMessageView) -> bool {
        self.stream_target(message) is None && message.role != ChatRole::User
    }

    /// The chat after it has taken in `message`. The first rule that applies
    /// decides:
    ///
    /// 1. a message that continues a stream replaces the content of the
    ///    stream's message in the history, and nothing else changes;
    /// 2. an assistant message that repeats the last one replaces it, and
    ///    counts as new;
    /// 3. any other message counts as new unless it is from the user, and
    ///    - a tool message marks the tool call it names as completed and is
    ///      not kept; one that names none is dropped;
    ///    - every other message is appended to the history.
    pub open spec fn add_message(self, message: ChatMessageView) -> ChatView<R> {
        if let Some(at) = self.stream_target(message) {
            ChatView {
                messages: self.messages.update(
                    at,
                    ChatMessageView { content: message.content, ..self.messages[at] },
                ),
                ..self
            }
        } else if self.resends_last(message) {
            ChatView {
                messages: self.messages.update(self.messages.len() - 1, message),
                new_message_count: self.new_message_count + 1,
                ..self
            }
        } else {
            let new_message_count = if message.role != ChatRole::User {
                self.new_message_count + 1
            } else {
                self.new_message_count
            };
            if message.role == ChatRole::Tool {
                match message.tool_call {
                    Some(call) => ChatView {
                        new_message_count,
                        completed_tool_call_ids: self.completed_tool_call_ids.insert(call.id),
                        ..self
                    },
                    None => ChatView { new_message_count, ..self },
                }
            } else {
                ChatView { new_message_count, messages: self.messages.push(message), ..self }
            }
        }
    }

    /// The chat after its reader has seen it, rendered as `num_lines` lines in
    /// a window of `max_height` lines. Where there were new messages, the count
    /// goes back to zero and the window moves to the end of the text.
    pub open spec fn mark_seen(self, num_lines: nat, max_height: nat) -> ChatView<R> {
        if self.new_message_count > 0 {
            ChatView {
                num_lines,
                new_message_count: 0,
                vertical_scroll: if num_lines > max_height && num_lines > self.vertical_scroll {
                    (num_lines - max_height) as nat
                } else {
                    0
                },
                ..self
            }
        } else {
            ChatView { num_lines, ..self }
        }
    }
}

/// Whether no two messages of `messages` belong to one stream.
pub open spec fn streams_apart(messages: Seq<ChatMessageView>) -> bool {
    forall|i: int, j: int|
        0 <= i < j < messages.len() && (#[trigger] messages[i]).stream_id is Some
            ==> messages[i].stream_id != (#[trigger] messages[j]).stream_id
}

/// Whether no message of `messages` is a tool's report.
pub open spec fn no_tool_outputs(messages: Seq<ChatMessageView>) -> bool {
    forall|i: int| 0 <= i < messages.len() ==> (#[trigger] messages[i]).role != ChatRole::Tool
}

impl<R> ChatView<R> {
    /// The chat after it has taken in `messages`, one after the other.
    pub open spec fn add_messages(self, messages: Seq<ChatMessageView>) -> ChatView<R>
        decreases messages.len(),
    {
        if messages.len() == 0 {
            self
        } else {
            self.add_messages(messages.drop_last()).add_message(messages.last())
        }
    }

    /// A history in which every stream has one message stays so when the chat
    /// takes in a message.
    pub proof fn lemma_add_message_keeps_streams_apart(self, message: ChatMessageView)
        requires
            streams_apart(self.messages),
        ensures
            streams_apart(self.add_message(message).messages),
    {
        if let Some(stream) = message.stream_id {
            lemma_last_of_stream(self.messages, stream);
        }
    }

    /// A history without tool reports stays so when the chat takes in a
    /// message: what a tool reports goes to the set of completed calls only.
    pub proof fn lemma_add_message_keeps_tool_outputs_out(self, message: ChatMessageView)
        requires
            no_tool_outputs(self.messages),
        ensures
            no_tool_outputs(self.add_message(message).messages),
    {
        if let Some(stream) = message.stream_id {
            lemma_last_of_stream(self.messages, stream);
        }
    }

    /// Taking in a message leaves the history as long as it was or makes it
    /// one longer, and then the new message is the last one.
    pub proof fn lemma_add_message_extends_history(self, message: ChatMessageView)
        ensures
            ({
                let after = self.add_message(message);
                ||| after.messages.len() == self.messages.len()
                ||| after.messages == self.messages.push(message)
            }),
    {
        if let Some(stream) = message.stream_id {
            lemma_last_of_stream(self.messages, stream);
        }
    }

    /// What one message of `stream` does to the stream's place in the history.
    proof fn lemma_stream_step(self, message: ChatMessageView, stream: u128)
        requires
            streams_apart(self.messages),
            message.stream_id == Some(stream),
        ensures
            ({
                let after = self.add_message(message);
                &&& streams_apart(after.messages)
                &&& match last_of_stream(self.messages, stream) {
                    Some(at) => {
                        &&& last_of_stream(after.messages, stream) == Some(at)
                        &&& after.messages[at].content == message.content
                    },
                    None => if message.role == ChatRole::Tool {
                        after.messages == self.messages
                    } else {
                        &&& last_of_stream(after.messages, stream) == Some(
                            after.messages.len() - 1,
                        )
                        &&& after.messages.last().content == message.content
                    },
                }
            }),
    {
        let after = self.add_message(message);
        lemma_last_of_stream(self.messages, stream);
        match last_of_stream(self.messages, stream) {
            Some(at) => {
                lemma_last_of_stream_at(after.messages, stream, at);
            },
            None => {
                if message.role != ChatRole::Tool {
                    lemma_last_of_stream_at(after.messages, stream, after.messages.len() - 1);
                }
            },
        }
    }

    /// Messages that share a stream share one entry of the history, and the
    /// entry reads as the last of them does.
    ///
    /// Let the history hold each stream once, and let the chat take in
    /// `messages`, all of `stream`. Then the history still holds each stream
    /// once; at most one entry belongs to `stream`; there is such an entry
    /// exactly if there was one before or one of `messages` is no tool report
    /// (a tool report that continues nothing is not kept); and the entry's
    /// content is that of the last of `messages`.
    pub proof fn lemma_stream_has_one_entry(
        self,
        messages: Seq<ChatMessageView>,
        stream: u128,
    )
        requires
            streams_apart(self.messages),
            forall|k: int|
                0 <= k < messages.len() ==> (#[trigger] messages[k]).stream_id == Some(stream),
        ensures
            ({
                let after = self.add_messages(messages);
                &&& streams_apart(after.messages)
                &&& forall|i: int, j: int|
                    0 <= i < after.messages.len() && 0 <= j < after.messages.len()
                        && (#[trigger] after.messages[i]).stream_id == Some(stream)
                        && (#[trigger] after.messages[j]).stream_id == Some(stream) ==> i == j
                &&& last_of_stream(after.messages, stream) is Some <==> {
                    ||| last_of_stream(self.messages, stream) is Some
                    ||| exists|k: int|
                        0 <= k < messages.len() && (#[trigger] messages[k]).role != ChatRole::Tool
                }
                &&& messages.len() > 0 ==> forall|i: int|
                    0 <= i < after.messages.len() && (#[trigger] after.messages[i]).stream_id
                        == Some(stream) ==> after.messages[i].content == messages.last().content
            }),
        decreases messages.len(),
    {
        let after = self.add_messages(messages);
        if messages.len() > 0 {
            let front = messages.drop_last();
            let before = self.add_messages(front);
            assert(forall|k: int| 0 <= k < front.len() ==> front[k] == messages[k]);
            self.lemma_stream_has_one_entry(front, stream);
            before.lemma_stream_step(messages.last(), stream);
            lemma_last_of_stream(before.messages, stream);
            lemma_last_of_stream(after.messages, stream);
            if messages.last().role != ChatRole::Tool {
                assert(messages[messages.len() - 1].role != ChatRole::Tool);
            }
            if exists|k: int| 0 <= k < front.len() && (#[trigger] front[k]).role != ChatRole::Tool {
                let k = choose|k: int|
                    0 <= k < front.len() && (#[trigger] front[k]).role != ChatRole::Tool;
                assert(messages[k].role != ChatRole::Tool);
            }
        }
        lemma_last_of_stream(after.messages, stream);
    }

    /// The assistant's message, sent twice, is in the history once: the second
    /// delivery replaces the entry that the first one made, adds none, and is
    /// counted as one more new message.
    pub proof fn lemma_resend_collapses(self, message: ChatMessageView)
        requires
            message.role == ChatRole::Assistant,
            message.content.len() > 0,
            message.stream_id is None,
        ensures
            ({
                let once = self.add_message(message);
                let twice = once.add_message(message);
                &&& once.messages.len() > 0
                &&& once.messages.last() == message
                &&& once.new_message_count == self.new_message_count + 1
                &&& twice == (ChatView { new_message_count: once.new_message_count + 1, ..once })
            }),
    {
        let once = self.add_message(message);
        let twice = once.add_message(message);
        assert(once.resends_last(message));
        assert(twice.messages =~= once.messages);
    }
}

/// The views of the messages of a history, in order.
pub open spec fn messages_view(messages: Seq<ChatMessage>) -> Seq<ChatMessageView> {
    messages.map_values(|m: ChatMessage| m@)
}

/// One conversation: its history, what the agent is doing, and what its
/// reader has not seen yet. `R` is whatever the front end uses to reach the
/// repository that the chat works on; the chat carries it and never looks into it.
pub struct Chat<R> {
    /// Display name of the chat
    pub name: String,
    /// Identifier used to match responses
    pub uuid: u128,
    pub branch_name: Option<String>,
    pub messages: Vec<ChatMessage>,
    pub state: ChatState,
    pub new_message_count: usize,
    pub completed_tool_call_ids: StringHashSet,
    /// The first line of the rendered history that is on screen
    pub vertical_scroll: usize,
    /// The number of lines of the rendered history
    pub num_lines: usize,
    /// Whether to auto-tail the chat on new messages
    pub auto_tail: bool,
    pub repository: Arc<R>,
}

impl<R> View for Chat<R> {
    type V = ChatView<R>;

    open spec fn view(&self) -> ChatView<R> {
        ChatView {
            name: self.name@,
            uuid: self.uuid,
            branch_name: text_view(self.branch_name),
            messages: messages_view(self.messages@),
            state: self.state@,
            new_message_count: self.new_message_count as nat,
            completed_tool_call_ids: self.completed_tool_call_ids@,
            vertical_scroll: self.vertical_scroll as nat,
            num_lines: self.num_lines as nat,
            auto_tail: self.auto_tail,
            repository: *self.repository,
        }
    }
}

impl<R> Chat<R> {
    /// A new chat on `repository`, under a random identity.
    pub fn from_repository(repository: Arc<R>) -> (chat: Chat<R>)
        ensures
            chat@ == ChatView::fresh(chat.uuid, *repository),
            is_random_uuid(chat.uuid),
    {
        Chat::with_uuid(repository, new_uuid())
    }

    /// A new chat on `repository`, under the identity `uuid`.
    pub fn with_uuid(repository: Arc<R>, uuid: u128) -> (chat: Chat<R>)
        ensures
            chat@ == ChatView::fresh(uuid, *repository),
    {
        let chat = Chat {
            name: "Chat".to_owned(),
            uuid,
            branch_name: None,
            messages: Vec::new(),
            state: ChatState::Ready,
            new_message_count: 0,
            completed_tool_call_ids: StringHashSet::new(),
            vertical_scroll: 0,
            num_lines: 0,
            auto_tail: true,
            repository,
        };
        assert(chat@.messages =~= Seq::empty());
        chat
    }

    pub fn with_name(&mut self, name: &str) -> (chat: &mut Chat<R>)
        ensures
            chat@ == (ChatView { name: name@, ..old(self)@ }),
            *final(self) == *final(chat),
    {
        self.name = name.to_owned();
        self
    }

    /// The position of the last message of the history that belongs to `stream`.
    fn find_stream(&self, stream: u128) -> (found: Option<usize>)
        ensures
            found is Some == last_of_stream(self@.messages, stream) is Some,
            found matches Some(at) ==> at < self.messages.len() && last_of_stream(
                self@.messages,
                stream,
            ) == Some(at as int),
    {
        let mut at: usize = self.messages.len();
        while at > 0
            invariant
                at <= self.messages.len(),
                forall|j: int|
                    at <= j < self.messages.len() ==> (#[trigger] self@.messages[j]).stream_id
                        != Some(stream),
            decreases at,
        {
            at -= 1;
            let here = self.messages[at].stream_id;
            if here == Some(stream) {
                proof {
                    lemma_last_of_stream_at(self@.messages, stream, at as int);
                }
                return Some(at);
            }
        }
        proof {
            lemma_last_of_stream(self@.messages, stream);
        }
        None
    }

    /// Takes `message` into the chat, as [`ChatView::add_message`] says.
    pub fn add_message(&mut self, message: ChatMessage)
        requires
            old(self)@.counts_as_new(message@) ==> old(self).new_message_count < usize::MAX,
        ensures
            final(self)@ == old(self)@.add_message(message@),
            message@.role == ChatRole::User ==> final(self).new_message_count == old(
                self,
            ).new_message_count,
            message@.role == ChatRole::Tool && old(self)@.stream_target(message@) is None ==> {
                &&& final(self)@.messages == old(self)@.messages
                &&& final(self)@.completed_tool_call_ids == match message@.tool_call {
                    Some(call) => old(self)@.completed_tool_call_ids.insert(call.id),
                    None => old(self)@.completed_tool_call_ids,
                }
            },
            streams_apart(old(self)@.messages) ==> streams_apart(final(self)@.messages),
            no_tool_outputs(old(self)@.messages) ==> no_tool_outputs(final(self)@.messages),
    {
        proof {
            if streams_apart(self@.messages) {
                self@.lemma_add_message_keeps_streams_apart(message@);
            }
            if no_tool_outputs(self@.messages) {
                self@.lemma_add_message_keeps_tool_outputs_out(message@);
            }
        }
        // If there is a stream ID, we update the existing message
        if let Some(stream) = message.stream_id {
            if let Some(at) = self.find_stream(stream) {
                let existing_streamed = &mut self.messages[at];
                existing_streamed.content = message.content;
                assert(self@.messages =~= old(self)@.add_message(message@).messages);
                return ;
            }
        }
        // If it was an assistant message and the last message is the same, assume it was
        // streamed and replace the last message

        let len = self.messages.len();
        if message.role.is_assistant() && len > 0 {
            let last_message = &self.messages[len - 1];
            if last_message.role.is_assistant() && !last_message.content.as_str().is_empty()
                && last_message.content == message.content {
                // replace the old message with the new one
                self.messages.set(len - 1, message);
                self.new_message_count += 1;
                assert(self@.messages =~= old(self)@.add_message(message@).messages);
                return ;
            }
        }
        if !message.role.is_user() {
            self.new_message_count += 1;
        }
        // If it's a completed tool call, just register it is done and do not add the message

        if message.role.is_tool() {
            match message.tool_call {
                Some(tool_call) => {
                    self.completed_tool_call_ids.insert(tool_call.id);
                },
                None => {},
            }
            return ;
        }
        self.messages.push(message);
        assert(self@.messages =~= old(self)@.add_message(message@).messages);
    }

    pub fn transition(&mut self, state: ChatState)
        ensures
            final(self)@ == (ChatView { state: state@, ..old(self)@ }),
    {
        self.state = state;
    }

    /// Whether the agent is at work on this chat.
    pub fn is_loading(&self) -> (b: bool)
        ensures
            b == self@.state.is_busy(),
            b == (self.state is Loading || self.state is LoadingWithMessage),
    {
        matches!(self.state, ChatState::Loading | ChatState::LoadingWithMessage(_))
    }

    pub fn is_tool_call_completed(&self, tool_call_id: &str) -> (b: bool)
        ensures
            b == self@.completed_tool_call_ids.contains(tool_call_id@),
    {
        self.completed_tool_call_ids.contains(tool_call_id)
    }

    /// Records that the reader has seen the chat, rendered as `num_lines`
    /// lines in a window of `max_height` lines.
    pub fn mark_seen(&mut self, num_lines: usize, max_height: usize)
        ensures
            final(self)@ == old(self)@.mark_seen(num_lines as nat, max_height as nat),
    {
        self.num_lines = num_lines;
        // If the chat has new messages, set the counter back to 0 and scroll to bottom
        if self.new_message_count > 0 {
            self.new_message_count = 0;
            if num_lines > max_height && num_lines > self.vertical_scroll {
                self.vertical_scroll = num_lines - max_height;
            } else {
                self.vertical_scroll = 0;
            }
        }
    }
}

} // verus!
