use std::sync::Arc;

use kwaak::chat::{Chat, ChatState};
use kwaak::chat_message::{ChatMessage, ChatRole, ToolCall};

struct Repository;

fn test_repository() -> Arc<Repository> {
    Arc::new(Repository)
}

fn streamed(role: ChatRole, content: &str, stream_id: u128) -> ChatMessage {
    let mut message = ChatMessage::new_system(content);
    message.with_role(role).with_stream_id(stream_id);
    message
}

#[test]
fn test_add_message_increases_new_message_count() {
    let repository = test_repository();
    let mut chat = Chat::from_repository(repository);
    let message = ChatMessage::new_system("Test message");

    chat.add_message(message);

    assert_eq!(chat.new_message_count, 1);
    assert_eq!(chat.messages.len(), 1);
}

#[test]
fn test_add_message_does_not_increase_new_message_count_for_user() {
    let repository = test_repository();
    let mut chat = Chat::from_repository(repository);
    let message = ChatMessage::new_user("Test message");

    chat.add_message(message);

    assert_eq!(chat.new_message_count, 0);
    assert_eq!(chat.messages.len(), 1);
}

#[test]
fn test_add_message_tool_call() {
    let repository = test_repository();
    let mut chat = Chat::from_repository(repository);
    let tool_call = ToolCall::new("tool_call_id", "some_tool");
    let message = ChatMessage::new_tool_output(tool_call, "");

    chat.add_message(message);

    assert!(chat.is_tool_call_completed("tool_call_id"));
    assert_eq!(chat.messages.len(), 0);
}

#[test]
fn test_transition() {
    let repository = test_repository();
    let mut chat = Chat::from_repository(repository);
    chat.transition(ChatState::Loading);

    assert!(chat.is_loading());
}

#[test]
fn test_is_loading() {
    let repository = test_repository();
    let mut chat = Chat::from_repository(repository);
    chat.transition(ChatState::Loading);

    assert!(chat.is_loading());
}

#[test]
fn test_is_tool_call_completed() {
    let repository = test_repository();
    let mut chat = Chat::from_repository(repository);

    chat.completed_tool_call_ids
        .insert("tool_call_id".to_string());

    assert!(chat.is_tool_call_completed("tool_call_id"));
}

#[test]
fn new_chat_is_ready_and_empty() {
    let repository = test_repository();
    let chat = Chat::with_uuid(repository.clone(), 42);

    assert_eq!(chat.name, "Chat");
    assert_eq!(chat.uuid, 42);
    assert_eq!(chat.branch_name, None);
    assert!(chat.messages.is_empty());
    assert_eq!(chat.state, ChatState::Ready);
    assert_eq!(chat.new_message_count, 0);
    assert!(chat.completed_tool_call_ids.is_empty());
    assert_eq!(chat.vertical_scroll, 0);
    assert_eq!(chat.num_lines, 0);
    assert!(chat.auto_tail);
    assert!(Arc::ptr_eq(&chat.repository, &repository));
    assert!(!chat.is_loading());
}

#[test]
fn with_name_renames_and_chains() {
    let mut chat = Chat::with_uuid(test_repository(), 1);

    chat.with_name("Refactor").with_name("Refactor the parser");

    assert_eq!(chat.name, "Refactor the parser");
    assert_eq!(chat.uuid, 1);
    assert!(chat.messages.is_empty());
}

#[test]
fn is_loading_is_true_for_both_busy_states_only() {
    let mut chat = Chat::with_uuid(test_repository(), 1);
    assert!(!chat.is_loading());

    chat.transition(ChatState::LoadingWithMessage("compiling".to_string()));
    assert!(chat.is_loading());
    assert_eq!(
        chat.state,
        ChatState::LoadingWithMessage("compiling".to_string())
    );

    chat.transition(ChatState::Loading);
    assert!(chat.is_loading());

    chat.transition(ChatState::Ready);
    assert!(!chat.is_loading());
}

#[test]
fn chat_state_tells_its_variants_apart() {
    assert!(ChatState::Loading.is_loading());
    assert!(!ChatState::Loading.is_loading_with_message());
    assert!(!ChatState::Loading.is_ready());

    let busy = ChatState::LoadingWithMessage("indexing".to_string());
    assert!(!busy.is_loading());
    assert!(busy.is_loading_with_message());
    assert!(!busy.is_ready());

    assert!(ChatState::Ready.is_ready());
    assert!(!ChatState::Ready.is_loading());
    assert_eq!(ChatState::default(), ChatState::Ready);
}

#[test]
fn streamed_fragments_share_one_entry_with_the_latest_content() {
    let mut chat = Chat::with_uuid(test_repository(), 1);
    chat.add_message(ChatMessage::new_user("Hello"));

    chat.add_message(streamed(ChatRole::Assistant, "Wor", 7));
    chat.add_message(streamed(ChatRole::Assistant, "Working", 7));
    chat.add_message(streamed(ChatRole::Assistant, "Working on it", 7));

    assert_eq!(chat.messages.len(), 2);
    assert_eq!(chat.messages[1].content(), "Working on it");
    assert_eq!(chat.messages[1].stream_id(), Some(7));
    assert_eq!(
        chat.messages
            .iter()
            .filter(|m| m.stream_id() == Some(7))
            .count(),
        1
    );
    // Only the fragment that opened the stream counts as new.
    assert_eq!(chat.new_message_count, 1);
}

#[test]
fn a_fragment_replaces_content_only() {
    let mut chat = Chat::with_uuid(test_repository(), 1);
    chat.add_message(streamed(ChatRole::Assistant, "first", 7));
    chat.add_message(ChatMessage::new_user("in between"));

    // Same stream, other role: the entry keeps its role and takes the content.
    chat.add_message(streamed(ChatRole::System, "second", 7));

    assert_eq!(chat.messages.len(), 2);
    assert_eq!(*chat.messages[0].role(), ChatRole::Assistant);
    assert_eq!(chat.messages[0].content(), "second");
    assert_eq!(chat.messages[1].content(), "in between");
    assert_eq!(chat.new_message_count, 1);
}

#[test]
fn the_last_entry_of_a_stream_is_the_one_that_is_continued() {
    let mut chat = Chat::with_uuid(test_repository(), 1);
    // A history as no sequence of deliveries makes it: one stream, two entries.
    chat.messages.push(streamed(ChatRole::Assistant, "older", 7));
    chat.messages.push(streamed(ChatRole::Assistant, "newer", 7));

    chat.add_message(streamed(ChatRole::Assistant, "latest", 7));

    assert_eq!(chat.messages.len(), 2);
    assert_eq!(chat.messages[0].content(), "older");
    assert_eq!(chat.messages[1].content(), "latest");
}

#[test]
fn streamed_tool_output_continues_its_stream_and_completes_nothing() {
    let mut chat = Chat::with_uuid(test_repository(), 1);
    chat.add_message(streamed(ChatRole::Assistant, "calling", 9));
    let mut report = ChatMessage::new_tool_output(ToolCall::new("call-1", "grep"), "done");
    report.with_stream_id(9);

    chat.add_message(report);

    assert_eq!(chat.messages.len(), 1);
    assert_eq!(chat.messages[0].content(), "done");
    assert!(!chat.is_tool_call_completed("call-1"));
    assert_eq!(chat.new_message_count, 1);
}

#[test]
fn streamed_tool_output_without_an_entry_is_not_kept() {
    let mut chat = Chat::with_uuid(test_repository(), 1);
    let mut report = ChatMessage::new_tool_output(ToolCall::new("call-1", "grep"), "done");
    report.with_stream_id(9);

    chat.add_message(report.clone());
    chat.add_message(report);

    assert!(chat.messages.is_empty());
    assert!(chat.is_tool_call_completed("call-1"));
    assert_eq!(chat.new_message_count, 2);
}

#[test]
fn user_messages_never_change_the_count() {
    let mut chat = Chat::with_uuid(test_repository(), 1);
    chat.add_message(ChatMessage::new_assistant("one"));
    chat.add_message(ChatMessage::new_system("two"));
    assert_eq!(chat.new_message_count, 2);

    chat.add_message(ChatMessage::new_user("three"));
    chat.add_message(streamed(ChatRole::User, "four", 3));
    chat.add_message(streamed(ChatRole::User, "four and more", 3));

    assert_eq!(chat.new_message_count, 2);
    assert_eq!(chat.messages.len(), 4);
}

#[test]
fn tool_output_completes_its_call_and_leaves_the_history() {
    let mut chat = Chat::with_uuid(test_repository(), 1);
    chat.add_message(ChatMessage::new_assistant("let me look"));
    let call = ToolCall::new("call-7", "read_file").with_args("{\"path\":\"src/lib.rs\"}");
    assert_eq!(call.id(), "call-7");
    assert_eq!(call.name(), "read_file");
    assert_eq!(call.args(), Some("{\"path\":\"src/lib.rs\"}"));

    chat.add_message(ChatMessage::new_tool_output(call, "fn main() {}"));

    assert_eq!(chat.messages.len(), 1);
    assert_eq!(chat.messages[0].content(), "let me look");
    assert!(chat.is_tool_call_completed("call-7"));
    assert!(!chat.is_tool_call_completed("call-8"));
    assert_eq!(chat.completed_tool_call_ids.len(), 1);
    assert_eq!(chat.new_message_count, 2);
}

#[test]
fn tool_message_without_a_call_is_dropped() {
    let mut chat = Chat::with_uuid(test_repository(), 1);
    chat.add_message(ChatMessage::new_user("run it"));

    chat.add_message(ChatMessage::new_tool("orphan output"));

    assert_eq!(chat.messages.len(), 1);
    assert_eq!(chat.messages[0].content(), "run it");
    assert!(chat.completed_tool_call_ids.is_empty());
    // The message is counted before it is found wanting.
    assert_eq!(chat.new_message_count, 1);
}

#[test]
fn repeated_assistant_message_collapses_into_one_entry() {
    let mut chat = Chat::with_uuid(test_repository(), 1);
    chat.add_message(ChatMessage::new_user("status?"));

    chat.add_message(ChatMessage::new_assistant("All green."));
    assert_eq!(chat.messages.len(), 2);
    assert_eq!(chat.new_message_count, 1);

    chat.add_message(ChatMessage::new_assistant("All green."));
    assert_eq!(chat.messages.len(), 2);
    assert_eq!(chat.messages[1].content(), "All green.");
    assert_eq!(*chat.messages[1].role(), ChatRole::Assistant);
    // Each delivery counts once.
    assert_eq!(chat.new_message_count, 2);
}

#[test]
fn the_repeat_replaces_the_whole_entry() {
    let mut chat = Chat::with_uuid(test_repository(), 1);
    chat.add_message(ChatMessage::new_assistant("Reading the file"));
    let mut resent = ChatMessage::new_assistant("Reading the file");
    resent.with_tool_call(ToolCall::new("call-2", "read_file"));

    chat.add_message(resent.clone());

    assert_eq!(chat.messages.len(), 1);
    assert_eq!(chat.messages[0], resent);
    assert!(!chat.is_tool_call_completed("call-2"));
}

#[test]
fn empty_assistant_messages_do_not_collapse() {
    let mut chat = Chat::with_uuid(test_repository(), 1);

    chat.add_message(ChatMessage::new_assistant(""));
    chat.add_message(ChatMessage::new_assistant(""));

    assert_eq!(chat.messages.len(), 2);
    assert_eq!(chat.new_message_count, 2);
}

#[test]
fn different_assistant_messages_do_not_collapse() {
    let mut chat = Chat::with_uuid(test_repository(), 1);

    chat.add_message(ChatMessage::new_assistant("one"));
    chat.add_message(ChatMessage::new_assistant("two"));

    assert_eq!(chat.messages.len(), 2);
}

#[test]
fn assistant_message_does_not_collapse_into_another_role() {
    let mut chat = Chat::with_uuid(test_repository(), 1);
    chat.add_message(ChatMessage::new_user("yes"));
    chat.add_message(ChatMessage::new_system("note"));

    chat.add_message(ChatMessage::new_assistant("note"));

    assert_eq!(chat.messages.len(), 3);
    assert_eq!(*chat.messages[1].role(), ChatRole::System);
    assert_eq!(*chat.messages[2].role(), ChatRole::Assistant);
}

#[test]
fn user_message_does_not_collapse() {
    let mut chat = Chat::with_uuid(test_repository(), 1);

    chat.add_message(ChatMessage::new_user("again"));
    chat.add_message(ChatMessage::new_user("again"));

    assert_eq!(chat.messages.len(), 2);
    assert_eq!(chat.new_message_count, 0);
}

#[test]
fn first_fragment_may_collapse_into_an_unmarked_message() {
    let mut chat = Chat::with_uuid(test_repository(), 1);
    chat.add_message(ChatMessage::new_assistant("Done."));

    chat.add_message(streamed(ChatRole::Assistant, "Done.", 5));
    assert_eq!(chat.messages.len(), 1);
    assert_eq!(chat.messages[0].stream_id(), Some(5));
    assert_eq!(chat.new_message_count, 2);

    chat.add_message(streamed(ChatRole::Assistant, "Done. Anything else?", 5));
    assert_eq!(chat.messages.len(), 1);
    assert_eq!(chat.messages[0].content(), "Done. Anything else?");
    assert_eq!(chat.new_message_count, 2);
}

#[test]
fn mark_seen_without_new_messages_only_records_the_lines() {
    let mut chat = Chat::with_uuid(test_repository(), 1);
    chat.vertical_scroll = 12;

    chat.mark_seen(40, 10);

    assert_eq!(chat.num_lines, 40);
    assert_eq!(chat.vertical_scroll, 12);
    assert_eq!(chat.new_message_count, 0);
}

#[test]
fn mark_seen_scrolls_to_the_end_of_a_long_history() {
    let mut chat = Chat::with_uuid(test_repository(), 1);
    chat.add_message(ChatMessage::new_assistant("a long answer"));
    chat.vertical_scroll = 12;

    chat.mark_seen(40, 10);

    assert_eq!(chat.new_message_count, 0);
    assert_eq!(chat.num_lines, 40);
    assert_eq!(chat.vertical_scroll, 30);
}

#[test]
fn mark_seen_goes_to_the_top_when_everything_fits() {
    let mut chat = Chat::with_uuid(test_repository(), 1);
    chat.add_message(ChatMessage::new_assistant("short"));
    chat.vertical_scroll = 3;

    chat.mark_seen(10, 10);

    assert_eq!(chat.new_message_count, 0);
    assert_eq!(chat.vertical_scroll, 0);
}

#[test]
fn mark_seen_goes_to_the_top_when_scrolled_past_the_end() {
    let mut chat = Chat::with_uuid(test_repository(), 1);
    chat.add_message(ChatMessage::new_assistant("short"));
    chat.vertical_scroll = 50;

    chat.mark_seen(40, 10);

    assert_eq!(chat.vertical_scroll, 0);
    assert_eq!(chat.num_lines, 40);
}
