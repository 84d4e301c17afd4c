use kwaak::chat_message::{ChatMessage, ChatRole, ToolCall};

#[test]
fn constructors_set_role_and_content() {
    let system = ChatMessage::new_system("s");
    let user = ChatMessage::new_user("u");
    let assistant = ChatMessage::new_assistant("a");
    let tool = ChatMessage::new_tool("t");

    assert_eq!(*system.role(), ChatRole::System);
    assert_eq!(*user.role(), ChatRole::User);
    assert_eq!(*assistant.role(), ChatRole::Assistant);
    assert_eq!(*tool.role(), ChatRole::Tool);
    assert_eq!(system.content(), "s");
    assert_eq!(user.content(), "u");
    assert_eq!(assistant.content(), "a");
    assert_eq!(tool.content(), "t");
    for message in [&system, &user, &assistant, &tool] {
        assert_eq!(message.stream_id(), None);
        assert_eq!(message.tool_call, None);
    }
}

#[test]
fn roles_tell_themselves_apart() {
    assert!(ChatRole::System.is_system());
    assert!(ChatRole::User.is_user());
    assert!(ChatRole::Assistant.is_assistant());
    assert!(ChatRole::Tool.is_tool());
    assert!(!ChatRole::System.is_user());
    assert!(!ChatRole::User.is_assistant());
    assert!(!ChatRole::Assistant.is_tool());
    assert!(!ChatRole::Tool.is_system());
}

#[test]
fn builders_change_one_field_each() {
    let mut message = ChatMessage::new_user("draft");

    message
        .with_role(ChatRole::Assistant)
        .with_content("final")
        .with_stream_id(11)
        .with_tool_call(ToolCall::new("id", "name"));

    assert_eq!(*message.role(), ChatRole::Assistant);
    assert_eq!(message.content(), "final");
    assert_eq!(message.stream_id(), Some(11));
    assert_eq!(message.tool_call, Some(ToolCall::new("id", "name")));
}

#[test]
fn tool_call_without_arguments() {
    let call = ToolCall::new("tool_call_id", "some_tool");

    assert_eq!(call.id(), "tool_call_id");
    assert_eq!(call.name(), "some_tool");
    assert_eq!(call.args(), None);
}

#[test]
fn tool_output_names_its_call() {
    let message = ChatMessage::new_tool_output(ToolCall::new("tool_call_id", "some_tool"), "ok");

    assert_eq!(*message.role(), ChatRole::Tool);
    assert_eq!(message.content(), "ok");
    let call = message.maybe_completed_tool_call().unwrap();
    assert_eq!(call.id(), "tool_call_id");
    assert_eq!(call.name(), "some_tool");
}

#[test]
fn only_tool_messages_complete_a_call() {
    let mut request = ChatMessage::new_assistant("calling");
    request.with_tool_call(ToolCall::new("tool_call_id", "some_tool"));

    assert_eq!(request.maybe_completed_tool_call(), None);
    assert_eq!(ChatMessage::new_tool("orphan").maybe_completed_tool_call(), None);
}
