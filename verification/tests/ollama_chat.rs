use solai_coder::ollama_chat::append_ollama_message_from_response_item;
use solai_coder::ollama_chat::apply_chat_chunk;
use solai_coder::ollama_chat::chat_stream_done_events;
use solai_coder::ollama_chat::ollama_content_text;
use solai_coder::ollama_chat::split_stream_lines;
use solai_coder::ollama_chat::ChatStreamEvent;
use solai_coder::ollama_chat::ChatStreamState;
use solai_coder::ollama_chat::ChunkOutcome;
use solai_coder::ollama_chat::ContentItem;
use solai_coder::ollama_chat::OllamaChatMessage;
use solai_coder::ollama_chat::OllamaChatStreamChunk;
use solai_coder::ollama_chat::OllamaToolCall;
use solai_coder::ollama_chat::ToolArguments;
use solai_coder::ollama_chat::ResponseItem;
use solai_coder::ollama_chat::ollama_chat_messages;
use solai_coder::ollama_chat::is_function_tool_type;
use solai_coder::ollama_chat::plan_ollama_tool_conversion;
use solai_coder::ollama_chat::OllamaToolConversion;
use solai_coder::ollama_chat::ResponsesToolShape;

fn text(t: &str) -> ContentItem {
    ContentItem::InputText { text: t.to_string() }
}

#[test]
fn content_texts_are_joined_by_newlines() {
    let content = vec![
        text("first"),
        ContentItem::OutputText {
            text: "second".to_string(),
        },
    ];
    match ollama_content_text(content) {
        Ok(s) => assert_eq!(s, "first\nsecond"),
        Err(e) => panic!("unexpected error: {}", e.message),
    }
    match ollama_content_text(Vec::new()) {
        Ok(s) => assert_eq!(s, ""),
        Err(e) => panic!("unexpected error: {}", e.message),
    }
}

#[test]
fn image_content_is_refused() {
    let content = vec![
        text("look"),
        ContentItem::InputImage {
            image_url: "data:image/png;base64,AAAA".to_string(),
        },
    ];
    match ollama_content_text(content) {
        Ok(_) => panic!("images must be refused"),
        Err(e) => assert_eq!(
            e.message,
            "native Ollama smartcontext does not support image inputs yet"
        ),
    }
}

#[test]
fn developer_messages_become_system_messages() {
    let mut messages: Vec<OllamaChatMessage> = Vec::new();
    let item = ResponseItem::Message {
        role: "developer".to_string(),
        content: vec![text("rules")],
    };
    assert!(append_ollama_message_from_response_item(item, &mut messages).is_ok());
    let user = ResponseItem::Message {
        role: "user".to_string(),
        content: vec![text("hi")],
    };
    assert!(append_ollama_message_from_response_item(user, &mut messages).is_ok());
    assert_eq!(messages.len(), 2);
    assert_eq!(messages[0].role, "system");
    assert_eq!(messages[0].content, "rules");
    assert_eq!(messages[1].role, "user");
    assert!(messages[1].tool_calls.is_none());
}

#[test]
fn function_calls_carry_parsed_arguments() {
    let mut messages: Vec<OllamaChatMessage> = Vec::new();
    let call = ResponseItem::FunctionCall {
        name: "shell".to_string(),
        arguments: r#"{"command":["ls"]}"#.to_string(),
    };
    assert!(append_ollama_message_from_response_item(call, &mut messages).is_ok());
    let bad = ResponseItem::FunctionCall {
        name: "shell".to_string(),
        arguments: "not json".to_string(),
    };
    assert!(append_ollama_message_from_response_item(bad, &mut messages).is_ok());
    assert_eq!(messages.len(), 2);
    assert_eq!(messages[0].role, "assistant");
    assert_eq!(messages[0].content, "");
    let calls = messages[0].tool_calls.as_ref().expect("tool calls");
    assert_eq!(calls[0].name, "shell");
    match &calls[0].arguments {
        ToolArguments::Json(t) => assert_eq!(t, r#"{"command":["ls"]}"#),
        ToolArguments::Text(_) => panic!("valid JSON must stay JSON"),
    }
    let fallback = messages[1].tool_calls.as_ref().expect("tool calls");
    match &fallback[0].arguments {
        ToolArguments::Text(t) => assert_eq!(t, "not json"),
        ToolArguments::Json(_) => panic!("invalid JSON must be carried as text"),
    }
}

#[test]
fn tool_outputs_name_their_call() {
    let mut messages: Vec<OllamaChatMessage> = Vec::new();
    let output = ResponseItem::FunctionCallOutput {
        call_id: "call-1".to_string(),
        output: "done".to_string(),
    };
    assert!(append_ollama_message_from_response_item(output, &mut messages).is_ok());
    assert!(append_ollama_message_from_response_item(ResponseItem::Other, &mut messages).is_ok());
    assert_eq!(messages.len(), 1);
    assert_eq!(messages[0].role, "tool");
    assert_eq!(messages[0].content, "Tool output for call-1:\ndone");
}

#[test]
fn image_messages_are_not_appended() {
    let mut messages: Vec<OllamaChatMessage> = Vec::new();
    let item = ResponseItem::Message {
        role: "user".to_string(),
        content: vec![ContentItem::InputImage {
            image_url: "x".to_string(),
        }],
    };
    assert!(append_ollama_message_from_response_item(item, &mut messages).is_err());
    assert!(messages.is_empty());
}

#[test]
fn stream_lines_are_trimmed_and_blank_lines_dropped() {
    let (lines, rest) = split_stream_lines("  {\"a\":1}  \n\n \n{\"b\":2}\n{\"c\"");
    assert_eq!(lines, vec!["{\"a\":1}".to_string(), "{\"b\":2}".to_string()]);
    assert_eq!(rest, "{\"c\"");
    let (none, all) = split_stream_lines("partial");
    assert!(none.is_empty());
    assert_eq!(all, "partial");
}

#[test]
fn stream_lines_do_not_depend_on_chunking() {
    let whole = "{\"x\":1}\n{\"y\":2}\n{\"z\"";
    let (first_lines, rest) = split_stream_lines("{\"x\":1}\n{\"y");
    let (second_lines, second_rest) = split_stream_lines(&format!("{rest}\":2}}\n{{\"z\""));
    let (all_lines, all_rest) = split_stream_lines(whole);
    let mut joined = first_lines;
    joined.extend(second_lines);
    assert_eq!(joined, all_lines);
    assert_eq!(second_rest, all_rest);
}

fn chunk(content: &str, done: bool) -> OllamaChatStreamChunk {
    OllamaChatStreamChunk {
        message: Some(OllamaChatMessage {
            role: "assistant".to_string(),
            content: content.to_string(),
            tool_calls: None,
        }),
        done,
        prompt_eval_count: None,
        eval_count: None,
        error: None,
    }
}

#[test]
fn chunks_accumulate_until_done() {
    let mut state = ChatStreamState::new();
    assert!(matches!(apply_chat_chunk(&mut state, chunk("Hel", false)), ChunkOutcome::Continue));
    let mut last = chunk("lo", true);
    last.prompt_eval_count = Some(12);
    last.eval_count = Some(3);
    assert!(matches!(apply_chat_chunk(&mut state, last), ChunkOutcome::Done));
    assert_eq!(state.content, "Hello");
    assert_eq!(state.prompt_eval_count, Some(12));
    assert_eq!(state.eval_count, Some(3));
}

#[test]
fn error_chunk_fails_without_changing_state() {
    let mut state = ChatStreamState::new();
    apply_chat_chunk(&mut state, chunk("a", false));
    let mut bad = chunk("b", false);
    bad.error = Some("model not found".to_string());
    match apply_chat_chunk(&mut state, bad) {
        ChunkOutcome::Failed(m) => assert_eq!(m, "model not found"),
        _ => panic!("expected failure"),
    }
    assert_eq!(state.content, "a");
}

#[test]
fn done_events_list_calls_message_and_totals() {
    let mut state = ChatStreamState::new();
    let mut with_call = chunk("answer", true);
    if let Some(message) = with_call.message.as_mut() {
        message.tool_calls = Some(vec![OllamaToolCall {
            name: "shell".to_string(),
            arguments: ToolArguments::Json(r#"{"command":"ls"}"#.to_string()),
        }]);
    }
    with_call.prompt_eval_count = Some(10);
    with_call.eval_count = Some(5);
    apply_chat_chunk(&mut state, with_call);
    let events = chat_stream_done_events(state);
    assert_eq!(events.len(), 3);
    match &events[0] {
        ChatStreamEvent::ToolCall {
            id,
            name,
            arguments,
            call_id,
        } => {
            assert_eq!(id, "ollama-tool-call-0");
            assert_eq!(name, "shell");
            assert_eq!(arguments, r#"{"command":"ls"}"#);
            assert_eq!(call_id, "ollama-tool-call-0-shell");
        }
        _ => panic!("expected a tool call"),
    }
    match &events[1] {
        ChatStreamEvent::Message { id, text } => {
            assert_eq!(id, "ollama-message");
            assert_eq!(text, "answer");
        }
        _ => panic!("expected the message"),
    }
    match &events[2] {
        ChatStreamEvent::Completed {
            response_id,
            input_tokens,
            cached_input_tokens,
            output_tokens,
            reasoning_output_tokens,
            total_tokens,
            end_turn,
        } => {
            assert_eq!(response_id, "ollama-chat-response");
            assert_eq!(*input_tokens, 10);
            assert_eq!(*cached_input_tokens, 0);
            assert_eq!(*output_tokens, 5);
            assert_eq!(*reasoning_output_tokens, 0);
            assert_eq!(*total_tokens, 15);
            assert_eq!(*end_turn, Some(true));
        }
        _ => panic!("expected completion"),
    }
}

#[test]
fn done_events_without_text_or_counts() {
    let events = chat_stream_done_events(ChatStreamState::new());
    assert_eq!(events.len(), 1);
    assert!(matches!(
        events[0],
        ChatStreamEvent::Completed {
            input_tokens: 0,
            output_tokens: 0,
            total_tokens: 0,
            ..
        }
    ));
}

#[test]
fn chat_messages_start_with_non_blank_instructions() {
    let input = vec![
        ResponseItem::Message {
            role: "user".to_string(),
            content: vec![text("hi")],
        },
        ResponseItem::CustomToolCall {
            name: "apply_patch".to_string(),
            input: "*** Begin Patch".to_string(),
        },
    ];
    let messages = match ollama_chat_messages("Be helpful.".to_string(), input) {
        Ok(m) => m,
        Err(e) => panic!("unexpected error: {}", e.message),
    };
    assert_eq!(messages.len(), 3);
    assert_eq!(messages[0].role, "system");
    assert_eq!(messages[0].content, "Be helpful.");
    assert_eq!(messages[1].content, "hi");
    assert_eq!(messages[2].role, "assistant");
    let blank = match ollama_chat_messages("  \n".to_string(), Vec::new()) {
        Ok(m) => m,
        Err(e) => panic!("unexpected error: {}", e.message),
    };
    assert!(blank.is_empty());
    let with_image = vec![ResponseItem::Message {
        role: "user".to_string(),
        content: vec![ContentItem::InputImage {
            image_url: "x".to_string(),
        }],
    }];
    assert!(ollama_chat_messages("x".to_string(), with_image).is_err());
}

#[test]
fn tool_conversion_plan_keeps_wraps_and_drops() {
    let shape = |t: Option<&str>, has_function: bool, has_name: bool| ResponsesToolShape {
        tool_type: t.map(|s| s.to_string()),
        has_function,
        has_name,
    };
    let plan = plan_ollama_tool_conversion(Some(vec![
        shape(Some("function"), true, false),
        shape(Some("web_search"), false, true),
        shape(Some("function"), false, true),
        shape(Some("function"), false, false),
        shape(None, true, true),
    ]));
    assert_eq!(
        plan,
        Some(vec![(0, OllamaToolConversion::Keep), (2, OllamaToolConversion::Wrap)])
    );
    assert_eq!(plan_ollama_tool_conversion(None), None);
    assert_eq!(
        plan_ollama_tool_conversion(Some(vec![shape(Some("local_shell"), false, true)])),
        None
    );
    assert!(is_function_tool_type(Some("function")));
    assert!(!is_function_tool_type(Some("Function")));
    assert!(!is_function_tool_type(None));
}

#[test]
fn text_arguments_are_sent_as_a_json_string() {
    let mut state = ChatStreamState::new();
    let mut with_call = chunk("", true);
    if let Some(message) = with_call.message.as_mut() {
        message.tool_calls = Some(vec![OllamaToolCall {
            name: "note".to_string(),
            arguments: ToolArguments::Text("say \"hi\"".to_string()),
        }]);
    }
    apply_chat_chunk(&mut state, with_call);
    let events = chat_stream_done_events(state);
    assert_eq!(events.len(), 2);
    match &events[0] {
        ChatStreamEvent::ToolCall { arguments, .. } => {
            assert_eq!(arguments, r#""say \"hi\"""#)
        }
        _ => panic!("expected a tool call"),
    }
}

#[test]
fn stream_lines_do_not_depend_on_any_chunking() {
    let whole = "{\"a\":1}\n  \n{\"b\":2}\n{\"c\":3}\n{\"d\"";
    let read = |chunks: &[&str]| {
        let mut pending = String::new();
        let mut lines = Vec::new();
        for c in chunks {
            pending.push_str(c);
            let (ls, rest) = split_stream_lines(&pending);
            lines.extend(ls);
            pending = rest;
        }
        (lines, pending)
    };
    let at_once = read(&[whole]);
    assert_eq!(at_once, split_stream_lines(whole));
    assert_eq!(read(&["{\"a\"", ":1}\n ", " \n{\"b\":2}", "\n{\"c\":3}\n{", "\"d\""]), at_once);
    let singles: Vec<String> = whole.chars().map(|c| c.to_string()).collect();
    let single_refs: Vec<&str> = singles.iter().map(|s| s.as_str()).collect();
    assert_eq!(read(&single_refs), at_once);
    assert_eq!(at_once.0.len(), 3);
    assert_eq!(at_once.1, "{\"d\"");
}

#[test]
fn text_arguments_escape_control_characters_as_serde_json_does() {
    let mut state = ChatStreamState::new();
    let mut with_call = chunk("", true);
    if let Some(message) = with_call.message.as_mut() {
        message.tool_calls = Some(vec![OllamaToolCall {
            name: "note".to_string(),
            arguments: ToolArguments::Text("a\u{1}\tb\\\u{1f}é".to_string()),
        }]);
    }
    apply_chat_chunk(&mut state, with_call);
    let events = chat_stream_done_events(state);
    match &events[0] {
        ChatStreamEvent::ToolCall { arguments, .. } => {
            assert_eq!(arguments, "\"a\\u0001\\tb\\\\\\u001fé\"")
        }
        _ => panic!("expected a tool call"),
    }
}
