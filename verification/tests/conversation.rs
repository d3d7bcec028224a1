use stakpak_interactive::chat::{
    ChatMessage, ContentPart, FunctionCall, MessageContent, Role, ToolCall,
};
use stakpak_interactive::conversation::{
    extract_last_checkpoint_id, find_nth_user_message_index, find_tagged_checkpoint,
    get_unresolved_tool_call_ids, has_pending_tool_calls, is_first_non_system_message, is_resolved,
};
use stakpak_interactive::events::{InputEvent, LoadingOperation};
use stakpak_interactive::session::{
    end_tool_execution_loading_if_none, start_stream_processing_loading,
};
use uuid::Uuid;

#[test]
fn start_stream_processing_emits_loading_start() {
    match start_stream_processing_loading() {
        InputEvent::StartLoadingOperation(LoadingOperation::StreamProcessing) => {}
        other => panic!("unexpected event: {:?}", other),
    }
}

#[test]
fn end_tool_execution_loading_if_none_emits_end() {
    match end_tool_execution_loading_if_none(false) {
        Some(InputEvent::EndLoadingOperation(LoadingOperation::ToolExecution)) => {}
        other => panic!("unexpected event: {:?}", other),
    }
}

#[test]
fn end_tool_execution_loading_if_none_skips_when_result_present() {
    match end_tool_execution_loading_if_none(true) {
        None => {}
        Some(other) => panic!("unexpected event: {:?}", other),
    }
}

fn test_tool_call(id: &str) -> ToolCall {
    ToolCall {
        id: id.to_string(),
        kind: "function".to_string(),
        function: FunctionCall { name: format!("{}_fn", id), arguments: "{}".to_string() },
        metadata: None,
    }
}

fn assistant_with_tool_calls(ids: &[&str]) -> ChatMessage {
    ChatMessage {
        role: Role::Assistant,
        content: Some(MessageContent::String("assistant".to_string())),
        tool_calls: Some(ids.iter().map(|id| test_tool_call(id)).collect()),
        ..Default::default()
    }
}

fn tool_message(id: &str, content: &str) -> ChatMessage {
    ChatMessage {
        role: Role::Tool,
        content: Some(MessageContent::String(content.to_string())),
        tool_call_id: Some(id.to_string()),
        ..Default::default()
    }
}

fn said_by(role: Role, content: &str) -> ChatMessage {
    ChatMessage {
        role,
        content: Some(MessageContent::String(content.to_string())),
        ..Default::default()
    }
}

#[test]
fn get_unresolved_tool_call_ids_returns_empty_when_no_messages() {
    let messages: Vec<ChatMessage> = vec![];
    assert!(get_unresolved_tool_call_ids(&messages).is_empty());
}

#[test]
fn get_unresolved_tool_call_ids_returns_empty_when_no_assistant_message() {
    let messages = vec![ChatMessage {
        role: Role::User,
        content: Some(MessageContent::String("hello".to_string())),
        ..Default::default()
    }];
    assert!(get_unresolved_tool_call_ids(&messages).is_empty());
}

#[test]
fn get_unresolved_tool_call_ids_returns_ids_for_unresolved_calls() {
    let messages = vec![assistant_with_tool_calls(&["tool_1"])];

    let unresolved = get_unresolved_tool_call_ids(&messages);
    assert_eq!(unresolved, vec!["tool_1".to_string()]);
}

#[test]
fn get_unresolved_tool_call_ids_returns_empty_when_all_resolved() {
    let messages =
        vec![assistant_with_tool_calls(&["tool_1"]), tool_message("tool_1", "result")];

    assert!(get_unresolved_tool_call_ids(&messages).is_empty());
}

#[test]
fn get_unresolved_tool_call_ids_returns_only_unresolved() {
    let messages =
        vec![assistant_with_tool_calls(&["tool_1", "tool_2"]), tool_message("tool_1", "result")];

    let unresolved = get_unresolved_tool_call_ids(&messages);
    assert_eq!(unresolved, vec!["tool_2".to_string()]);
}

#[test]
fn has_pending_tool_calls_returns_true_when_queue_not_empty() {
    let messages: Vec<ChatMessage> = vec![];
    let tools_queue = vec![test_tool_call("tool_1")];

    assert!(has_pending_tool_calls(&messages, &tools_queue));
}

#[test]
fn has_pending_tool_calls_returns_false_when_empty_queue_and_no_messages() {
    let messages: Vec<ChatMessage> = vec![];
    let tools_queue: Vec<ToolCall> = vec![];

    assert!(!has_pending_tool_calls(&messages, &tools_queue));
}

#[test]
fn has_pending_tool_calls_returns_true_when_assistant_has_unresolved_tool_calls() {
    let messages = vec![assistant_with_tool_calls(&["tool_1"])];
    let tools_queue: Vec<ToolCall> = vec![];

    assert!(has_pending_tool_calls(&messages, &tools_queue));
}

#[test]
fn has_pending_tool_calls_returns_false_when_all_tool_calls_have_results() {
    let messages =
        vec![assistant_with_tool_calls(&["tool_1"]), tool_message("tool_1", "result")];
    let tools_queue: Vec<ToolCall> = vec![];

    assert!(!has_pending_tool_calls(&messages, &tools_queue));
}

#[test]
fn has_pending_tool_calls_returns_true_when_some_tool_calls_missing_results() {
    let messages =
        vec![assistant_with_tool_calls(&["tool_1", "tool_2"]), tool_message("tool_1", "result")];
    let tools_queue: Vec<ToolCall> = vec![];

    assert!(has_pending_tool_calls(&messages, &tools_queue));
}

#[test]
fn has_pending_tool_calls_returns_false_when_assistant_has_empty_tool_calls() {
    let messages = vec![ChatMessage {
        role: Role::Assistant,
        content: Some(MessageContent::String("test".to_string())),
        tool_calls: Some(vec![]),
        ..Default::default()
    }];
    let tools_queue: Vec<ToolCall> = vec![];

    assert!(!has_pending_tool_calls(&messages, &tools_queue));
}

#[test]
fn has_pending_tool_calls_returns_false_when_assistant_has_no_tool_calls() {
    let messages = vec![ChatMessage {
        role: Role::Assistant,
        content: Some(MessageContent::String("test".to_string())),
        tool_calls: None,
        ..Default::default()
    }];
    let tools_queue: Vec<ToolCall> = vec![];

    assert!(!has_pending_tool_calls(&messages, &tools_queue));
}

#[test]
fn has_pending_tool_calls_checks_last_assistant_message_only() {
    let messages = vec![
        assistant_with_tool_calls(&["tool_old"]),
        tool_message("tool_old", "old result"),
        ChatMessage {
            role: Role::User,
            content: Some(MessageContent::String("continue".to_string())),
            ..Default::default()
        },
        assistant_with_tool_calls(&["tool_new"]),
        tool_message("tool_new", "new result"),
    ];
    let tools_queue: Vec<ToolCall> = vec![];

    // The tool calls of the last message of the assistant have their results.
    assert!(!has_pending_tool_calls(&messages, &tools_queue));
}

#[test]
fn extract_last_checkpoint_id_picks_newest_assistant() {
    let older = Uuid::from_u128(0xaaaaaaaaaaaaaaaaaaaaaaaaaaaaaaaa);
    let newer = Uuid::from_u128(0xbbbbbbbbbbbbbbbbbbbbbbbbbbbbbbbb);
    let messages = vec![
        ChatMessage {
            role: Role::Assistant,
            content: Some(MessageContent::String(format!(
                "<checkpoint_id>{}</checkpoint_id>",
                older
            ))),
            ..Default::default()
        },
        ChatMessage {
            role: Role::Tool,
            content: Some(MessageContent::String("tool output".to_string())),
            ..Default::default()
        },
        ChatMessage {
            role: Role::Assistant,
            content: Some(MessageContent::String(format!(
                "<checkpoint_id>{}</checkpoint_id>",
                newer
            ))),
            ..Default::default()
        },
    ];

    assert_eq!(extract_last_checkpoint_id(&messages), Some(newer.as_u128()));
}

#[test]
fn extract_last_checkpoint_id_returns_none_without_tag() {
    let messages = vec![ChatMessage {
        role: Role::Assistant,
        content: Some(MessageContent::String("no checkpoint".to_string())),
        ..Default::default()
    }];

    assert_eq!(extract_last_checkpoint_id(&messages), None);
}

#[test]
fn checkpoints_in_parts_and_of_others() {
    let id = Uuid::from_u128(7);
    let tag = format!("done <checkpoint_id>{}</checkpoint_id>", id);
    let parts = vec![
        ContentPart { kind: "text".to_string(), text: Some("no tag".to_string()), image_url: None },
        ContentPart { kind: "image_url".to_string(), text: None, image_url: None },
        ContentPart { kind: "text".to_string(), text: Some(tag.clone()), image_url: None },
    ];
    let in_parts = ChatMessage {
        role: Role::Assistant,
        content: Some(MessageContent::Array(parts)),
        ..Default::default()
    };
    assert_eq!(extract_last_checkpoint_id(&[in_parts]), Some(7));
    assert_eq!(extract_last_checkpoint_id(&[said_by(Role::User, &tag)]), None);
    let broken = said_by(Role::Assistant, "<checkpoint_id>not a number</checkpoint_id>");
    assert_eq!(extract_last_checkpoint_id(&[said_by(Role::Assistant, &tag), broken]), Some(7));
}

#[test]
fn tagged_text_is_the_first_pair() {
    assert_eq!(
        find_tagged_checkpoint("a<checkpoint_id>1</checkpoint_id><checkpoint_id>2</checkpoint_id>"),
        Some("1")
    );
    assert_eq!(find_tagged_checkpoint("<checkpoint_id>1"), None);
    assert_eq!(find_tagged_checkpoint("1</checkpoint_id>"), None);
    assert_eq!(find_tagged_checkpoint("<checkpoint_id></checkpoint_id>"), Some(""));
}

#[test]
fn unresolved_ids_are_among_the_requested() {
    let messages = vec![
        assistant_with_tool_calls(&["a", "b", "c"]),
        tool_message("b", "result"),
        said_by(Role::User, "c"),
    ];
    let unresolved = get_unresolved_tool_call_ids(&messages);
    assert_eq!(unresolved, vec!["a".to_string(), "c".to_string()]);
    for id in &unresolved {
        assert!(!is_resolved(&messages, id));
    }
    assert!(is_resolved(&messages, "b"));
    assert!(!is_resolved(&[said_by(Role::Tool, "x")], "b"));
}

#[test]
fn result_resolves_its_call_and_no_other() {
    let mut messages = vec![assistant_with_tool_calls(&["a", "b", "c"])];
    messages.push(tool_message("b", "result"));
    assert_eq!(get_unresolved_tool_call_ids(&messages), vec!["a", "c"]);
    messages.push(tool_message("x", "result"));
    assert_eq!(get_unresolved_tool_call_ids(&messages), vec!["a", "c"]);
    messages.push(tool_message("a", "result"));
    assert_eq!(get_unresolved_tool_call_ids(&messages), vec!["c"]);
}

#[test]
fn tagged_checkpoint_is_read_back() {
    let id = 0x0123456789abcdef_fedcba9876543210;
    let text =
        "at <checkpoint_id>01234567-89ab-cdef-fedc-ba9876543210</checkpoint_id> <checkpoint_id>";
    assert_eq!(extract_last_checkpoint_id(&[said_by(Role::Assistant, text)]), Some(id));
}

#[test]
fn user_messages_are_counted_from_one() {
    let messages = vec![
        said_by(Role::System, "s"),
        said_by(Role::User, "first"),
        said_by(Role::Assistant, "a"),
        said_by(Role::User, "second"),
    ];
    assert_eq!(find_nth_user_message_index(&messages, 0), None);
    assert_eq!(find_nth_user_message_index(&messages, 1), Some(1));
    assert_eq!(find_nth_user_message_index(&messages, 2), Some(3));
    assert_eq!(find_nth_user_message_index(&messages, 3), None);
    assert_eq!(find_nth_user_message_index(&[], 1), None);
}

#[test]
fn first_message_behind_system_messages() {
    assert!(is_first_non_system_message(&[]));
    assert!(is_first_non_system_message(&[said_by(Role::System, "s")]));
    assert!(!is_first_non_system_message(&[said_by(Role::System, "s"), said_by(Role::User, "u")]));
}
