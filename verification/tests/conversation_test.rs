use anthropic_sdk::{
    AnthropicClient, AnthropicError, Content, ContentBlock, Conversation, Message,
    MessageResponse, ResponseContentBlock, Role, StopReason, SystemPrompt, Tool, ToolChoice,
    ToolResult, ToolResultContent, Usage,
};

fn usage() -> Usage {
    Usage {
        input_tokens: 1,
        output_tokens: 1,
        cache_creation_input_tokens: None,
        cache_read_input_tokens: None,
    }
}

fn response_with(content: Vec<ResponseContentBlock>, stop: Option<StopReason>) -> MessageResponse {
    MessageResponse {
        id: "msg_1".to_string(),
        response_type: "message".to_string(),
        role: "assistant".to_string(),
        content,
        model: "m".to_string(),
        stop_reason: stop,
        stop_sequence: None,
        usage: usage(),
    }
}

fn tool_use(id: &str, name: &str) -> ResponseContentBlock {
    ResponseContentBlock::ToolUse {
        id: id.to_string(),
        name: name.to_string(),
        input: serde_json::Value::Null,
    }
}

#[test]
fn test_process_response_two_tool_uses() {
    let mut conv = Conversation::new("m", 100);
    let response = response_with(
        vec![tool_use("tu_1", "search"), tool_use("tu_2", "fetch")],
        Some(StopReason::ToolUse),
    );
    let update = conv.process_response(&response);

    assert_eq!(update.tool_uses.len(), 2);
    assert_eq!(update.tool_uses[0].id, "tu_1");
    assert_eq!(update.tool_uses[1].id, "tu_2");
    assert!(update.text_responses.is_empty());
    assert_eq!(update.stop_reason, Some(StopReason::ToolUse));

    let pending = conv.pending_tool_uses();
    assert_eq!(pending.len(), 2);
    assert_eq!(pending[0].id, "tu_1");
    assert_eq!(pending[1].id, "tu_2");

    // exactly one new assistant message holding both blocks
    let messages = conv.messages();
    assert_eq!(messages.len(), 1);
    assert_eq!(messages[0].role, Role::Assistant);
    match &messages[0].content {
        Content::Blocks(blocks) => {
            assert_eq!(blocks.len(), 2);
            assert!(matches!(&blocks[0], ContentBlock::ToolUse { id, .. } if id.as_str() == "tu_1"));
            assert!(matches!(&blocks[1], ContentBlock::ToolUse { id, .. } if id.as_str() == "tu_2"));
        }
        other => panic!("expected blocks, got {:?}", other),
    }
}

#[test]
fn test_process_response_text_and_empty() {
    let mut conv = Conversation::new("m", 100);
    let update = conv.process_response(&response_with(vec![], Some(StopReason::EndTurn)));
    assert!(update.tool_uses.is_empty());
    assert!(update.text_responses.is_empty());
    assert_eq!(conv.messages().len(), 0, "an empty response appends no message");

    let update = conv.process_response(&response_with(
        vec![
            ResponseContentBlock::Text { text: "Hello".to_string(), citations: None },
            ResponseContentBlock::Text { text: "world".to_string(), citations: None },
        ],
        Some(StopReason::EndTurn),
    ));
    assert_eq!(update.text_responses, vec!["Hello".to_string(), "world".to_string()]);
    assert_eq!(update.text(), "Hello\nworld");
    assert!(!update.has_tool_uses());
    assert_eq!(conv.messages().len(), 1);
}

#[test]
fn test_add_tool_results_unmatched_is_atomic() {
    let mut conv = Conversation::new("m", 100);
    conv.process_response(&response_with(
        vec![tool_use("tu_1", "search"), tool_use("tu_2", "fetch")],
        Some(StopReason::ToolUse),
    ));
    assert_eq!(conv.pending_tool_uses().len(), 2);
    let messages_before = conv.messages().len();

    // the first result matches, the second does not: nothing may be applied
    let results = vec![
        ToolResult::success("tu_1", "found it"),
        ToolResult::success("tu_404", "never asked"),
    ];
    let r = conv.add_tool_results(results);
    assert_eq!(
        r,
        Err(AnthropicError::InvalidResponse(
            "No pending tool use with id: tu_404".to_string()
        ))
    );
    assert_eq!(conv.pending_tool_uses().len(), 2, "pending set must be untouched");
    assert_eq!(conv.pending_tool_uses()[0].id, "tu_1");
    assert_eq!(conv.messages().len(), messages_before, "history must be untouched");
}

#[test]
fn test_add_tool_results_batch() {
    let mut conv = Conversation::new("m", 100);
    conv.process_response(&response_with(
        vec![tool_use("tu_1", "search"), tool_use("tu_2", "fetch")],
        Some(StopReason::ToolUse),
    ));
    let r = conv.add_tool_results(vec![
        ToolResult::success("tu_2", "two"),
        ToolResult::error("tu_1", "boom"),
    ]);
    assert_eq!(r, Ok(()));
    assert!(!conv.has_pending_tool_uses());

    // one user message carrying both results, in batch order
    let messages = conv.messages();
    assert_eq!(messages.len(), 2);
    assert_eq!(messages[1].role, Role::User);
    match &messages[1].content {
        Content::Blocks(blocks) => {
            assert_eq!(blocks.len(), 2);
            match &blocks[0] {
                ContentBlock::ToolResult { tool_use_id, content, is_error, .. } => {
                    assert_eq!(tool_use_id.as_str(), "tu_2");
                    assert_eq!(*is_error, Some(false));
                    assert!(matches!(content, Some(ToolResultContent::Text(t)) if t.as_str() == "two"));
                }
                other => panic!("expected a tool result, got {:?}", other),
            }
            match &blocks[1] {
                ContentBlock::ToolResult { tool_use_id, is_error, .. } => {
                    assert_eq!(tool_use_id.as_str(), "tu_1");
                    assert_eq!(*is_error, Some(true));
                }
                other => panic!("expected a tool result, got {:?}", other),
            }
        }
        other => panic!("expected blocks, got {:?}", other),
    }
}

#[test]
fn test_add_tool_results_empty_batch_is_noop() {
    let mut conv = Conversation::new("m", 100);
    assert_eq!(conv.add_tool_results(vec![]), Ok(()));
    assert_eq!(conv.messages().len(), 0);
}

#[test]
fn test_add_single_tool_result() {
    let mut conv = Conversation::new("m", 100);
    conv.process_response(&response_with(
        vec![tool_use("tu_9", "calc")],
        Some(StopReason::ToolUse),
    ));
    assert_eq!(conv.add_tool_result("tu_9".to_string(), "42", false), Ok(()));
    assert!(!conv.has_pending_tool_uses());
    assert_eq!(conv.messages().len(), 2);

    let err = conv.add_tool_result("tu_9".to_string(), "again", false);
    assert_eq!(
        err,
        Err(AnthropicError::InvalidResponse(
            "No pending tool use with id: tu_9".to_string()
        ))
    );
    assert_eq!(conv.messages().len(), 2);
}

#[test]
fn test_tool_loop_script() {
    // turn 1 requests tool "X"; turn 2, after the result, ends the turn:
    // exactly two updates, empty pending set at the end.
    let mut conv = Conversation::new("m", 100);
    conv.add_user_message("go");
    let scripted = vec![
        response_with(vec![tool_use("tu_x", "X")], Some(StopReason::ToolUse)),
        response_with(
            vec![ResponseContentBlock::Text { text: "done".to_string(), citations: None }],
            Some(StopReason::EndTurn),
        ),
    ];
    let mut updates = Vec::new();
    for response in &scripted {
        let update = conv.process_response(response);
        let has_tools = update.has_tool_uses();
        updates.push(update);
        if !has_tools {
            break;
        }
        let mut results = Vec::new();
        for pending in conv.pending_tool_uses().clone() {
            assert_eq!(pending.name, "X");
            results.push(ToolResult::success(&pending.id, "tool output"));
        }
        conv.add_tool_results(results).expect("scripted results must match");
    }
    assert_eq!(updates.len(), 2);
    assert!(!conv.has_pending_tool_uses());
    assert_eq!(updates[1].stop_reason, Some(StopReason::EndTurn));
}

#[test]
fn test_fork_keeps_settings_drops_state() {
    let tools = vec![Tool::new(
        "search",
        "finds things",
        serde_json::Value::Null,
        vec!["query".to_string()],
    )];
    let mut conv = Conversation::new("m", 512)
        .with_system("be brief")
        .with_tools(tools)
        .with_tool_choice(ToolChoice::default())
        .with_temperature(700);
    conv.add_user_message("one");
    conv.add_assistant_message("two");
    conv.add_user_message("three");
    conv.add_assistant_message("four");
    conv.process_response(&response_with(
        vec![tool_use("tu_1", "search")],
        Some(StopReason::ToolUse),
    ));
    assert_eq!(conv.messages().len(), 5);
    assert_eq!(conv.pending_tool_uses().len(), 1);

    let fork = conv.fork();
    assert_eq!(fork.messages().len(), 0);
    assert_eq!(fork.pending_tool_uses().len(), 0);
    assert_eq!(fork.model, conv.model);
    assert_eq!(fork.max_tokens, 512);
    assert_eq!(fork.system, Some("be brief".to_string()));
    assert_eq!(fork.tools.as_ref().unwrap().len(), 1);
    assert_eq!(fork.tools.as_ref().unwrap()[0].name, "search");
    assert_eq!(fork.temperature, Some(700));
    assert!(matches!(
        fork.tool_choice,
        Some(ToolChoice::Auto { disable_parallel_tool_use: None })
    ));
}

#[test]
fn test_clear() {
    let mut conv = Conversation::new("m", 100).with_system("s");
    conv.add_user_message("hello");
    conv.process_response(&response_with(
        vec![tool_use("tu_1", "t")],
        Some(StopReason::ToolUse),
    ));
    conv.clear();
    assert_eq!(conv.messages().len(), 0);
    assert_eq!(conv.pending_tool_uses().len(), 0);
    assert_eq!(conv.system, Some("s".to_string()));
}

#[test]
fn test_build_request_snapshot() {
    let mut conv = Conversation::new("model-a", 256).with_system("sys").with_temperature(300);
    conv.add_user_message("question");
    let request = conv.build_request();
    assert_eq!(request.model, "model-a");
    assert_eq!(request.max_tokens, 256);
    assert_eq!(request.stream, Some(false), "streaming must be forced off");
    assert!(matches!(request.system, Some(SystemPrompt::Text(ref t)) if t.as_str() == "sys"));
    assert_eq!(request.temperature, Some(300));
    assert_eq!(request.top_p, None);
    assert_eq!(request.messages.len(), 1);
    assert_eq!(request.messages[0].role, Role::User);
    assert!(matches!(&request.messages[0].content, Content::Text(t) if t.as_str() == "question"));
}

#[test]
fn test_create_simple_message_and_first_text() {
    let client = AnthropicClient::new("k");
    let request = client.create_simple_message("model-b", "hi there", 64);
    assert_eq!(request.model, "model-b");
    assert_eq!(request.max_tokens, 64);
    assert_eq!(request.stream, Some(false));
    assert_eq!(request.messages.len(), 1);

    let ok = response_with(
        vec![ResponseContentBlock::Text { text: "answer".to_string(), citations: None }],
        Some(StopReason::EndTurn),
    );
    assert_eq!(anthropic_sdk::first_response_text(&ok), Ok("answer".to_string()));

    let empty = response_with(vec![], Some(StopReason::EndTurn));
    assert_eq!(
        anthropic_sdk::first_response_text(&empty),
        Err(AnthropicError::InvalidResponse("Empty response content".to_string()))
    );

    let tools_first = response_with(vec![tool_use("tu", "t")], Some(StopReason::ToolUse));
    assert_eq!(
        anthropic_sdk::first_response_text(&tools_first),
        Err(AnthropicError::InvalidResponse("Expected text response".to_string()))
    );
}

#[test]
fn test_message_builders() {
    let mut conv = Conversation::new("m", 100);
    conv.add_user_message("u1");
    conv.add_assistant_message("a1");
    conv.add_user_blocks(vec![ContentBlock::Text {
        text: "ub".to_string(),
        cache_control: None,
    }]);
    conv.add_assistant_blocks(vec![ContentBlock::Text {
        text: "ab".to_string(),
        cache_control: None,
    }]);
    let messages = conv.messages();
    assert_eq!(messages.len(), 4);
    assert_eq!(messages[0].role, Role::User);
    assert_eq!(messages[1].role, Role::Assistant);
    assert!(matches!(&messages[0].content, Content::Text(t) if t.as_str() == "u1"));
    assert!(matches!(&messages[2].content, Content::Blocks(b) if b.len() == 1));
}

#[test]
fn test_tool_constructor_and_default_choice() {
    let tool = Tool::new("calc", "does sums", serde_json::Value::Null, vec!["a".to_string()]);
    assert_eq!(tool.name, "calc");
    assert_eq!(tool.description, "does sums");
    assert_eq!(tool.input_schema.schema_type, "object");
    assert_eq!(tool.input_schema.required, Some(vec!["a".to_string()]));
    assert_eq!(tool.tool_type, Some("custom".to_string()));
    assert!(matches!(
        ToolChoice::default(),
        ToolChoice::Auto { disable_parallel_tool_use: None }
    ));
}

#[test]
fn test_conversation_clone_is_independent() {
    let mut conv = Conversation::new("m", 100);
    conv.add_user_message("original");
    let mut copy = conv.clone();
    copy.add_user_message("only in the copy");
    assert_eq!(conv.messages().len(), 1);
    assert_eq!(copy.messages().len(), 2);
    assert_eq!(copy.model, conv.model);
}
