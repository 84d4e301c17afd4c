//! Messages of a conversation.

use vstd::prelude::*;

verus! {

/// Who a message comes from.
#[derive(Clone, Copy, Debug, PartialEq, Eq, Structural)]
pub enum ChatRole {
    System,
    User,
    Assistant,
    Tool,
}

impl ChatRole {
    pub fn is_system(&self) -> (b: bool)
        ensures
            b == (*self == ChatRole::System),
    {
        matches!(self, ChatRole::System)
    }

    pub fn is_user(&self) -> (b: bool)
        ensures
            b == (*self == ChatRole::User),
    {
        matches!(self, ChatRole::User)
    }

    pub fn is_assistant(&self) -> (b: bool)
        ensures
            b == (*self == ChatRole::Assistant),
    {
        matches!(self, ChatRole::Assistant)
    }

    pub fn is_tool(&self) -> (b: bool)
        ensures
            b == (*self == ChatRole::Tool),
    {
        matches!(self, ChatRole::Tool)
    }
}

/// The view of an optional string.
pub open spec fn text_view(text: Option<String>) -> Option<Seq<char>> {
    match text {
        Some(t) => Some(t@),
        None => None,
    }
}

/// A tool invocation that the agent asked for.
#[derive(Clone, Debug, PartialEq)]
pub struct ToolCall {
    pub id: String,
    pub name: String,
    pub args: Option<String>,
}

/// What a [`ToolCall`] holds, as mathematical values.
pub struct ToolCallView {
    pub id: Seq<char>,
    pub name: Seq<char>,
    pub args: Option<Seq<char>>,
}

impl View for ToolCall {
    type V = ToolCallView;

    open spec fn view(&self) -> ToolCallView {
        ToolCallView { id: self.id@, name: self.name@, args: text_view(self.args) }
    }
}

impl ToolCall {
    pub fn new(id: &str, name: &str) -> (call: ToolCall)
        ensures
            call@ == (ToolCallView { id: id@, name: name@, args: None }),
    {
        ToolCall { id: id.to_owned(), name: name.to_owned(), args: None }
    }

    /// Sets the arguments that the tool is called with.
    pub fn with_args(self, args: &str) -> (call: ToolCall)
        ensures
            call@ == (ToolCallView { args: Some(args@), ..self@ }),
    {
        ToolCall { id: self.id, name: self.name, args: Some(args.to_owned()) }
    }

    pub fn id(&self) -> (id: &str)
        ensures
            id@ == self@.id,
    {
        self.id.as_str()
    }

    pub fn name(&self) -> (name: &str)
        ensures
            name@ == self@.name,
    {
        self.name.as_str()
    }

    pub fn args(&self) -> (args: Option<&str>)
        ensures
            args is Some == self@.args is Some,
            args matches Some(a) ==> self@.args == Some(a@),
    {
        match &self.args {
            Some(a) => Some(a.as_str()),
            None => None,
        }
    }
}

/// One entry of a conversation.
///
/// A message that arrives in fragments carries a stream identifier, the same
/// for every fragment. A message of role [`ChatRole::Tool`] reports that a tool
/// call has finished and names that call.
#[derive(Clone, Debug, PartialEq)]
pub struct ChatMessage {
    pub role: ChatRole,
    pub content: String,
    pub stream_id: Option<u128>,
    pub tool_call: Option<ToolCall>,
}

/// What a [`ChatMessage`] holds, as mathematical values.
pub struct ChatMessageView {
    pub role: ChatRole,
    pub content: Seq<char>,
    pub stream_id: Option<u128>,
    pub tool_call: Option<ToolCallView>,
}

impl ChatMessageView {
    /// A message of the given role and content, not streamed, without a tool call.
    pub open spec fn plain(role: ChatRole, content: Seq<char>) -> ChatMessageView {
        ChatMessageView { role, content, stream_id: None, tool_call: None }
    }

    /// The tool call whose completion this message reports, if it reports one.
    pub open spec fn completed_tool_call(self) -> Option<ToolCallView> {
        if self.role == ChatRole::Tool {
            self.tool_call
        } else {
            None
        }
    }
}

impl View for ChatMessage {
    type V = ChatMessageView;

    open spec fn view(&self) -> ChatMessageView {
        ChatMessageView {
            role: self.role,
            content: self.content@,
            stream_id: self.stream_id,
            tool_call: match self.tool_call {
                Some(call) => Some(call@),
                None => None,
            },
        }
    }
}

impl ChatMessage {
    pub fn new_system(content: &str) -> (message: ChatMessage)
        ensures
            message@ == ChatMessageView::plain(ChatRole::System, content@),
    {
        ChatMessage {
            role: ChatRole::System,
            content: content.to_owned(),
            stream_id: None,
            tool_call: None,
        }
    }

    pub fn new_user(content: &str) -> (message: ChatMessage)
        ensures
            message@ == ChatMessageView::plain(ChatRole::User, content@),
    {
        ChatMessage {
            role: ChatRole::User,
            content: content.to_owned(),
            stream_id: None,
            tool_call: None,
        }
    }

    pub fn new_assistant(content: &str) -> (message: ChatMessage)
        ensures
            message@ == ChatMessageView::plain(ChatRole::Assistant, content@),
    {
        ChatMessage {
            role: ChatRole::Assistant,
            content: content.to_owned(),
            stream_id: None,
            tool_call: None,
        }
    }

    /// A message of role [`ChatRole::Tool`] that names no tool call.
    pub fn new_tool(content: &str) -> (message: ChatMessage)
        ensures
            message@ == ChatMessageView::plain(ChatRole::Tool, content@),
    {
        ChatMessage {
            role: ChatRole::Tool,
            content: content.to_owned(),
            stream_id: None,
            tool_call: None,
        }
    }

    /// The report that `tool_call` has finished with `output`.
    pub fn new_tool_output(tool_call: ToolCall, output: &str) -> (message: ChatMessage)
        ensures
            message@ == (ChatMessageView {
                tool_call: Some(tool_call@),
                ..ChatMessageView::plain(ChatRole::Tool, output@)
            }),
    {
        ChatMessage {
            role: ChatRole::Tool,
            content: output.to_owned(),
            stream_id: None,
            tool_call: Some(tool_call),
        }
    }

    pub fn with_role(&mut self, role: ChatRole) -> (message: &mut ChatMessage)
        ensures
            message@ == (ChatMessageView { role, ..old(self)@ }),
            *final(self) == *final(message),
    {
        self.role = role;
        self
    }

    pub fn with_content(&mut self, content: &str) -> (message: &mut ChatMessage)
        ensures
            message@ == (ChatMessageView { content: content@, ..old(self)@ }),
            *final(self) == *final(message),
    {
        self.content = content.to_owned();
        self
    }

    pub fn with_stream_id(&mut self, stream_id: u128) -> (message: &mut ChatMessage)
        ensures
            message@ == (ChatMessageView { stream_id: Some(stream_id), ..old(self)@ }),
            *final(self) == *final(message),
    {
        self.stream_id = Some(stream_id);
        self
    }

    pub fn with_tool_call(&mut self, tool_call: ToolCall) -> (message: &mut ChatMessage)
        ensures
            message@ == (ChatMessageView { tool_call: Some(tool_call@), ..old(self)@ }),
            *final(self) == *final(message),
    {
        self.tool_call = Some(tool_call);
        self
    }

    pub fn role(&self) -> (role: &ChatRole)
        ensures
            *role == self@.role,
    {
        &self.role
    }

    pub fn content(&self) -> (content: &str)
        ensures
            content@ == self@.content,
    {
        self.content.as_str()
    }

    pub fn stream_id(&self) -> (stream_id: Option<u128>)
        ensures
            stream_id == self@.stream_id,
    {
        self.stream_id
    }

    /// The tool call whose completion this message reports: the call that a
    /// message of role [`ChatRole::Tool`] names, and nothing for any other message.
    pub fn maybe_completed_tool_call(&self) -> (tool_call: Option<&ToolCall>)
        ensures
            tool_call is Some == self@.completed_tool_call() is Some,
            tool_call matches Some(call) ==> self@.completed_tool_call() == Some(call@),
    {
        if self.role.is_tool() {
            self.tool_call.as_ref()
        } else {
            None
        }
    }
}

} // verus!
