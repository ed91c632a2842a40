use nitro::logic::llm::json::{parse_json, Json};
use nitro::logic::conversation::{conversation_filename, last_conversation_filename, random_hex, StateFile};
use nitro::logic::llm::anthropic::{
    self, anthropic_event, cache_marker_target, event_of, max_tokens, message_to_anthropic, thinking_budget, AnthBlock,
    AnthropicEvent, AnthropicTurn, BlockDelta, BlockStart,
};
use nitro::logic::llm::messages::{AssistantContent, AssistantPart, Message, ToolCall, ToolResult, ToolResultContent};
use nitro::logic::llm::openai_compatible::{
    self, is_done_marker, message_to_oai, reasoning_effort_string, usage_from_oai, DeltaToolCall,
    OaiChoice, OaiChunk, OaiDelta, OaiTurn, OaiUsage,
};
use nitro::logic::llm::sse::{SseEvent, SseParser};
use nitro::logic::llm::stream::{StreamEvent, Usage};
use nitro::logic::llm::transcripts::AssistantBuilder;
use nitro::logic::llm::tool_def::ToolDef;
use nitro::logic::llm::GenerationOptions;
use nitro::logic::provider::{ApiType, NamedProvider, ProviderInfo};
use nitro::logic::settings::ReasoningEffort;

fn feed(chunks: &[&str]) -> Vec<SseEvent> {
    let mut p = SseParser::new();
    let mut out = Vec::new();
    for c in chunks {
        let batch = p.push(c.as_bytes());
        assert!(!batch.invalid_utf8);
        out.extend(batch.events);
    }
    out
}

#[test]
fn parses_single_event() {
    let evs = feed(&["data: hello\n\n"]);
    assert_eq!(evs.len(), 1);
    assert_eq!(evs[0].data, "hello");
    assert_eq!(evs[0].event, None);
}

#[test]
fn parses_named_event_with_data() {
    let evs = feed(&["event: message_delta\ndata: {\"a\":1}\n\nevent: ping\n:keepalive\n\n"]);
    assert_eq!(evs.len(), 2);
    assert_eq!(evs[0].event.as_deref(), Some("message_delta"));
    assert_eq!(evs[0].data, "{\"a\":1}");
    assert_eq!(evs[1].event.as_deref(), Some("ping"));
    assert!(evs[1].data.is_empty());
}

#[test]
fn buffers_across_chunk_boundaries() {
    let evs = feed(&["data: hel", "lo wor", "ld\n", "\nda", "ta: two\n\n"]);
    let datas: Vec<_> = evs.iter().map(|e| e.data.as_str()).collect();
    assert_eq!(datas, vec!["hello world", "two"]);
}

#[test]
fn merges_multi_data_lines() {
    let evs = feed(&["data: a\ndata: b\n\n"]);
    assert_eq!(evs[0].data, "a\nb");
}

#[test]
fn chunking_does_not_change_events() {
    let whole = feed(&["event: x\ndata: 1\n\ndata: 2\r\n\r\n"]);
    let split = feed(&["event: x\nda", "ta: 1\n", "\ndata: 2\r", "\n\r\n"]);
    assert_eq!(whole, split);
}

#[test]
fn invalid_utf8_frame_is_reported() {
    let mut p = SseParser::new();
    let batch = p.push(&[b'd', b'a', b't', b'a', b':', b' ', 0xff, b'\n', b'\n']);
    assert!(batch.invalid_utf8);
}

fn parts_of(m: Message) -> Vec<AssistantPart> {
    match m {
        Message::Assistant { content: AssistantContent::Parts(parts) } => parts,
        _ => panic!("expected assistant parts"),
    }
}

#[test]
fn merges_consecutive_text_deltas() {
    let mut b = AssistantBuilder::new();
    b.push_text("Hello, ");
    b.push_text("world.");
    let (m, _, _) = b.finish();
    let parts = parts_of(m);
    assert_eq!(parts.len(), 1);
    match &parts[0] {
        AssistantPart::Text { text } => assert_eq!(text, "Hello, world."),
        _ => panic!("expected text"),
    }
}

#[test]
fn separate_reasoning_from_text() {
    let mut b = AssistantBuilder::new();
    b.push_reasoning("think");
    b.push_text("answer");
    b.push_reasoning("more");
    let (m, _, _) = b.finish();
    let parts = parts_of(m);
    assert_eq!(parts.len(), 3);
    assert!(matches!(&parts[0], AssistantPart::Reasoning { .. }));
    assert!(matches!(&parts[1], AssistantPart::Text { .. }));
    assert!(matches!(&parts[2], AssistantPart::Reasoning { .. }));
}

fn call(id: &str, name: &str) -> ToolCall {
    ToolCall {
        tool_call_id: id.to_string(),
        tool_name: name.to_string(),
        input: Json::Null,
    }
}

#[test]
fn captures_tool_calls() {
    let mut b = AssistantBuilder::new();
    b.push_text("running...");
    b.push_tool_call(call("t1", "Bash"));
    let (_, calls, _) = b.finish();
    assert_eq!(calls.len(), 1);
    assert_eq!(calls[0].tool_name, "Bash");
}

#[test]
fn conversation_names() {
    assert_eq!(conversation_filename(1700000000000, None), "1700000000000.json");
    assert_eq!(conversation_filename(12, Some("ab")), "12-ab.json");
    assert_eq!(random_hex(0), "00000000");
    assert_eq!(random_hex(1), "9e3779b1");
    assert_eq!(
        last_conversation_filename(Some(StateFile { last_conversation: Some("x.json".to_string()) })),
        Some("x.json".to_string())
    );
    assert_eq!(last_conversation_filename(None), None);
}

fn piece(index: u32, id: Option<&str>, name: Option<&str>, args: Option<&str>) -> DeltaToolCall {
    DeltaToolCall {
        index,
        id: id.map(|s| s.to_string()),
        name: name.map(|s| s.to_string()),
        arguments: args.map(|s| s.to_string()),
    }
}

fn choice(content: Option<&str>, calls: Option<Vec<DeltaToolCall>>, finish: Option<&str>) -> OaiChoice {
    OaiChoice {
        delta: Some(OaiDelta {
            content: content.map(|s| s.to_string()),
            reasoning_content: None,
            reasoning: None,
            tool_calls: calls,
        }),
        finish_reason: finish.map(|s| s.to_string()),
    }
}

#[test]
fn openai_streams_text_then_tool_calls_in_index_order() {
    let mut turn = OaiTurn::new();
    let evs = turn.on_chunk(OaiChunk { choices: vec![choice(Some("hi"), None, None)], usage: None });
    assert_eq!(evs, vec![StreamEvent::TextDelta("hi".to_string())]);
    let evs = turn.on_chunk(OaiChunk {
        choices: vec![choice(
            Some(""),
            Some(vec![
                piece(1, Some("b"), Some("AskUser"), Some("{")),
                piece(0, Some("a"), Some("Bash"), Some("{\"command\":")),
            ]),
            None,
        )],
        usage: None,
    });
    assert!(evs.is_empty());
    let evs = turn.on_chunk(OaiChunk {
        choices: vec![choice(None, Some(vec![piece(0, None, None, Some("\"ls\"}")), piece(1, None, None, Some("}"))]), Some("tool_calls"))],
        usage: Some(OaiUsage { prompt_tokens: Some(3), completion_tokens: Some(4), cached_tokens: None, reasoning_tokens: None }),
    });
    assert_eq!(evs.len(), 2);
    match (&evs[0], &evs[1]) {
        (StreamEvent::ToolCall(a), StreamEvent::ToolCall(b)) => {
            assert_eq!(a.tool_call_id, "a");
            assert_eq!(a.tool_name, "Bash");
            assert_eq!(a.input.str_field("command"), Some("ls".to_string()));
            assert_eq!(b.tool_call_id, "b");
            assert_eq!(b.input, Json::Object(vec![]));
        },
        _ => panic!("expected two calls"),
    }
    let end = turn.finish();
    assert_eq!(
        end,
        vec![
            StreamEvent::Usage(Usage { input_tokens: 3, output_tokens: 4, cached_input_tokens: 0, reasoning_tokens: 0 }),
            StreamEvent::Done
        ]
    );
}

#[test]
fn openai_drops_calls_without_name_and_reads_reasoning() {
    let mut turn = OaiTurn::new();
    let evs = turn.on_chunk(OaiChunk {
        choices: vec![OaiChoice {
            delta: Some(OaiDelta {
                content: None,
                reasoning_content: None,
                reasoning: Some("hmm".to_string()),
                tool_calls: Some(vec![piece(0, Some("x"), None, None)]),
            }),
            finish_reason: None,
        }],
        usage: None,
    });
    assert_eq!(evs, vec![StreamEvent::ReasoningDelta("hmm".to_string())]);
    assert_eq!(turn.finish(), vec![StreamEvent::Done]);
    assert!(is_done_marker("[DONE]"));
    assert!(!is_done_marker("[DONE] "));
}

#[test]
fn openai_usage_and_effort_words() {
    let u = usage_from_oai(&OaiUsage { prompt_tokens: None, completion_tokens: Some(2), cached_tokens: Some(1), reasoning_tokens: Some(7) });
    assert_eq!(u, Usage { input_tokens: 0, output_tokens: 2, cached_input_tokens: 1, reasoning_tokens: 7 });
    assert_eq!(reasoning_effort_string(ReasoningEffort::Med), "medium");
    assert_eq!(reasoning_effort_string(ReasoningEffort::High), "high");
}

#[test]
fn user_text_translates_directly() {
    let m = Message::user_text("hi".to_string());
    let out = message_to_oai(&m);
    assert_eq!(out.len(), 1);
    assert_eq!(out[0].role, "user");
    assert_eq!(out[0].content, "hi");
}

#[test]
fn assistant_reasoning_is_dropped_in_history() {
    let m = Message::assistant_parts(vec![AssistantPart::Reasoning { text: "secret".to_string() }]);
    let out = message_to_oai(&m);
    assert_eq!(out[0].content, "");
    assert!(out[0].tool_calls.is_empty());
}

#[test]
fn assistant_with_tool_call_emits_tool_calls_array() {
    let m = Message::assistant_parts(vec![
        AssistantPart::Text { text: "running...".to_string() },
        AssistantPart::ToolCall {
            tool_call_id: "t1".to_string(),
            tool_name: "Bash".to_string(),
            input: parse_json("{\"command\":\"ls\"}").unwrap(),
        },
    ]);
    let out = message_to_oai(&m);
    assert_eq!(out.len(), 1);
    assert_eq!(out[0].role, "assistant");
    assert_eq!(out[0].content, "running...");
    assert_eq!(out[0].tool_calls[0].id, "t1");
    assert_eq!(out[0].tool_calls[0].name, "Bash");
    let args: serde_json::Value = serde_json::from_str(&out[0].tool_calls[0].arguments).unwrap();
    assert_eq!(args["command"], "ls");
}

#[test]
fn tool_results_become_tool_role_messages() {
    let m = Message::tool_results(vec![ToolResult {
        kind: "tool-result".to_string(),
        tool_call_id: "t1".to_string(),
        tool_name: "Bash".to_string(),
        output: ToolResultContent::ErrorText { value: "boom".to_string() },
    }]);
    let out = message_to_oai(&m);
    assert_eq!(out.len(), 1);
    assert_eq!(out[0].role, "tool");
    assert_eq!(out[0].tool_call_id.as_deref(), Some("t1"));
    assert_eq!(out[0].content, "boom");
}

fn anthropic_np() -> NamedProvider {
    NamedProvider {
        name: "anthropic".into(),
        info: ProviderInfo {
            base_url: "https://api.anthropic.com/v1".into(),
            api_key: "k".into(),
            model: "sonnet-test".into(),
            api_type: ApiType::Anthropic,
        },
    }
}

fn oai_np() -> NamedProvider {
    NamedProvider {
        name: "test".into(),
        info: ProviderInfo {
            base_url: "https://example.com/v1".into(),
            api_key: "k".into(),
            model: "m".into(),
            api_type: ApiType::OpenAiCompatible,
        },
    }
}

fn object_schema() -> Json {
    parse_json(r#"{ "type": "object" }"#).unwrap()
}

#[test]
fn body_includes_system_with_cache_control() {
    let body = anthropic::build_request_body(
        &vec![Message::user_text("hi".to_string())],
        "the system",
        &vec![],
        &anthropic_np(),
        &GenerationOptions::default(),
    );
    assert_eq!(body.system, AnthBlock::Text { text: "the system".to_string(), cache: true });
    // Last user message also gets cache_control.
    assert_eq!(body.messages[0].role, "user");
    assert_eq!(body.messages[0].content[0], AnthBlock::Text { text: "hi".to_string(), cache: true });
    let j = anthropic::request_json(&body);
    match j.field("system") {
        Some(Json::Array(s)) => {
            assert_eq!(s[0].str_field("text"), Some("the system".to_string()));
            assert_eq!(s[0].field("cache_control").and_then(|c| c.str_field("type")), Some("ephemeral".to_string()));
        }
        other => panic!("unexpected {other:?}"),
    }
    match j.field("messages") {
        Some(Json::Array(ms)) => {
            assert_eq!(ms[0].str_field("role"), Some("user".to_string()));
            match ms[0].field("content") {
                Some(Json::Array(bs)) => {
                    assert_eq!(bs[0].str_field("text"), Some("hi".to_string()));
                    assert_eq!(bs[0].field("cache_control").and_then(|c| c.str_field("type")), Some("ephemeral".to_string()));
                }
                other => panic!("unexpected {other:?}"),
            }
        }
        other => panic!("unexpected {other:?}"),
    }
    assert_eq!(j.field("stream"), Some(&Json::Bool(true)));
}

#[test]
fn only_last_message_gets_cache_marker() {
    let body = anthropic::build_request_body(
        &vec![Message::user_text("first".to_string()), Message::user_text("second".to_string())],
        "sys",
        &vec![],
        &anthropic_np(),
        &GenerationOptions::default(),
    );
    assert_eq!(body.messages[0].content[0], AnthBlock::Text { text: "first".to_string(), cache: false });
    assert_eq!(body.messages[1].content[0], AnthBlock::Text { text: "second".to_string(), cache: true });
}

#[test]
fn assistant_tool_call_translates_to_tool_use_block() {
    let m = Message::assistant_parts(vec![
        AssistantPart::Reasoning { text: "r".to_string() },
        AssistantPart::Text { text: "".to_string() },
        AssistantPart::Text { text: "ok".to_string() },
        AssistantPart::ToolCall { tool_call_id: "t1".to_string(), tool_name: "Bash".to_string(), input: Json::Null },
    ]);
    let out = message_to_anthropic(&m, true);
    assert_eq!(out.role, "assistant");
    assert_eq!(out.content.len(), 2);
    assert_eq!(out.content[0], AnthBlock::Text { text: "ok".to_string(), cache: false });
    match &out.content[1] {
        AnthBlock::ToolUse { id, name, .. } => {
            assert_eq!(id, "t1");
            assert_eq!(name, "Bash");
        },
        _ => panic!("expected tool use"),
    }
}

#[test]
fn tool_results_become_user_with_tool_result_blocks() {
    let m = Message::tool_results(vec![
        ToolResult {
            kind: "tool-result".to_string(),
            tool_call_id: "a".to_string(),
            tool_name: "Bash".to_string(),
            output: ToolResultContent::Json { value: Json::Bool(true) },
        },
        ToolResult {
            kind: "tool-result".to_string(),
            tool_call_id: "b".to_string(),
            tool_name: "Bash".to_string(),
            output: ToolResultContent::ErrorText { value: "no".to_string() },
        },
    ]);
    let out = message_to_anthropic(&m, true);
    assert_eq!(out.role, "user");
    assert_eq!(
        out.content,
        vec![
            AnthBlock::ToolResult { tool_use_id: "a".to_string(), content: "true".to_string(), is_error: false, cache: false },
            AnthBlock::ToolResult { tool_use_id: "b".to_string(), content: "no".to_string(), is_error: true, cache: true },
        ]
    );
}

#[test]
fn reasoning_effort_sends_thinking_block() {
    let body = anthropic::build_request_body(
        &vec![Message::user_text("hi".to_string())],
        "sys",
        &vec![],
        &anthropic_np(),
        &GenerationOptions { max_output_tokens: Some(2000), reasoning_effort: Some(ReasoningEffort::High) },
    );
    assert_eq!(body.max_tokens, 2000);
    assert!(body.thinking_budget.unwrap() > 0);
    assert_eq!(body.effort.as_deref(), Some("high"));
    assert_eq!(thinking_budget(ReasoningEffort::Low), 1024);
    assert_eq!(thinking_budget(ReasoningEffort::Med), 4096);
    assert_eq!(thinking_budget(ReasoningEffort::High), 16384);
    assert_eq!(max_tokens(&GenerationOptions { max_output_tokens: None, reasoning_effort: None }), 16000);
    assert_eq!(max_tokens(&GenerationOptions { max_output_tokens: Some(5), reasoning_effort: None }), 5);
    let j = anthropic::request_json(&body);
    assert_eq!(j.field("max_tokens"), Some(&Json::Number("2000".into())));
    let thinking = j.field("thinking").unwrap();
    assert_eq!(thinking.str_field("type"), Some("enabled".to_string()));
    assert!(thinking.u64_field("budget_tokens").unwrap() > 0);
    assert_eq!(j.str_field("effort"), Some("high".to_string()));
}

#[test]
fn anthropic_body_without_effort_has_no_thinking() {
    let body = anthropic::build_request_body(&vec![], "sys", &vec![], &anthropic_np(), &GenerationOptions::default());
    assert_eq!(body.model, "sonnet-test");
    assert_eq!(body.max_tokens, 16000);
    assert_eq!(body.thinking_budget, None);
    assert_eq!(body.effort, None);
    assert!(body.messages.is_empty());
    assert!(body.tools.is_empty());
}

#[test]
fn tools_translate_to_anthropic_shape() {
    let body = anthropic::build_request_body(
        &vec![],
        "sys",
        &vec![ToolDef { name: "Bash".into(), description: "run".into(), input_schema: object_schema() }],
        &anthropic_np(),
        &GenerationOptions::default(),
    );
    assert_eq!(body.tools[0].name, "Bash");
    assert_eq!(body.tools[0].description, "run");
    assert_eq!(body.tools[0].input_schema, object_schema());
    let j = anthropic::request_json(&body);
    match j.field("tools") {
        Some(Json::Array(ts)) => {
            assert_eq!(ts[0].str_field("name"), Some("Bash".to_string()));
            assert_eq!(ts[0].str_field("description"), Some("run".to_string()));
            assert_eq!(ts[0].field("input_schema").and_then(|x| x.str_field("type")), Some("object".to_string()));
            // Top-level "function" wrapper from OpenAI must not leak in.
            assert!(ts[0].field("type").is_none());
        }
        other => panic!("unexpected {other:?}"),
    }
}

#[test]
fn body_includes_max_tokens_and_reasoning_effort() {
    let body = openai_compatible::build_request_body(
        &vec![Message::user_text("hi".to_string())],
        "system",
        &vec![],
        &oai_np(),
        &GenerationOptions { max_output_tokens: Some(1234), reasoning_effort: Some(ReasoningEffort::High) },
    );
    assert_eq!(body.max_tokens, Some(1234));
    assert_eq!(body.reasoning_effort.as_deref(), Some("high"));
    assert_eq!(body.model, "m");
    assert_eq!(body.system.role, "system");
    assert_eq!(body.system.content, "system");
    assert_eq!(body.history.len(), 1);
    assert_eq!(body.history[0][0].role, "user");
    assert_eq!(body.history[0][0].content, "hi");
    let j = openai_compatible::request_json(&body);
    assert_eq!(j.field("max_tokens"), Some(&Json::Number("1234".into())));
    assert_eq!(j.str_field("reasoning_effort"), Some("high".to_string()));
    assert_eq!(j.field("stream"), Some(&Json::Bool(true)));
    assert_eq!(j.field("stream_options").and_then(|o| o.field("include_usage")), Some(&Json::Bool(true)));
    assert_eq!(j.str_field("model"), Some("m".to_string()));
    match j.field("messages") {
        Some(Json::Array(ms)) => {
            assert_eq!(ms.len(), 2);
            assert_eq!(ms[0].str_field("role"), Some("system".to_string()));
            assert_eq!(ms[1].str_field("content"), Some("hi".to_string()));
        }
        other => panic!("unexpected {other:?}"),
    }
    assert_eq!(j.field("tools"), None);
}

#[test]
fn openai_body_leaves_out_what_was_not_asked_for() {
    let body = openai_compatible::build_request_body(&vec![], "s", &vec![], &oai_np(), &GenerationOptions::default());
    assert_eq!(body.max_tokens, None);
    assert_eq!(body.reasoning_effort, None);
    assert!(body.history.is_empty());
    assert!(body.tools.is_empty());
}

#[test]
fn tool_def_translates_to_function_tool() {
    let body = openai_compatible::build_request_body(
        &vec![],
        "system",
        &vec![ToolDef { name: "Bash".into(), description: "do bash".into(), input_schema: object_schema() }],
        &oai_np(),
        &GenerationOptions::default(),
    );
    assert_eq!(body.tools.len(), 1);
    assert_eq!(body.tools[0].name, "Bash");
    assert_eq!(body.tools[0].description, "do bash");
    let j = openai_compatible::request_json(&body);
    match j.field("tools") {
        Some(Json::Array(ts)) => {
            assert_eq!(ts[0].str_field("type"), Some("function".to_string()));
            let f = ts[0].field("function").unwrap();
            assert_eq!(f.str_field("name"), Some("Bash".to_string()));
            assert_eq!(f.str_field("description"), Some("do bash".to_string()));
        }
        other => panic!("unexpected {other:?}"),
    }
    assert_eq!(j.str_field("tool_choice"), Some("auto".to_string()));
}

#[test]
fn anthropic_streams_text_thinking_and_tool_use() {
    let mut t = AnthropicTurn::new();
    let mut all = Vec::new();
    let events = vec![
        AnthropicEvent::MessageStart { usage: Some((Some(11), Some(2))) },
        AnthropicEvent::ContentBlockStart { index: Some(0), block: Some(BlockStart::Thinking) },
        AnthropicEvent::ContentBlockDelta { index: Some(0), delta: BlockDelta::Thinking(Some("plan".to_string())) },
        AnthropicEvent::ContentBlockStop { index: Some(0) },
        AnthropicEvent::ContentBlockStart { index: Some(1), block: Some(BlockStart::Text) },
        AnthropicEvent::ContentBlockDelta { index: Some(1), delta: BlockDelta::Text(Some("hi".to_string())) },
        AnthropicEvent::ContentBlockDelta { index: Some(1), delta: BlockDelta::Text(Some("".to_string())) },
        AnthropicEvent::ContentBlockStop { index: Some(1) },
        AnthropicEvent::ContentBlockStart {
            index: Some(2),
            block: Some(BlockStart::ToolUse { id: "tu1".to_string(), name: "Bash".to_string() }),
        },
        AnthropicEvent::ContentBlockDelta { index: Some(2), delta: BlockDelta::InputJson(Some("{\"command\":".to_string())) },
        AnthropicEvent::ContentBlockDelta { index: Some(2), delta: BlockDelta::InputJson(Some("\"ls\"}".to_string())) },
        AnthropicEvent::ContentBlockStop { index: Some(2) },
        AnthropicEvent::MessageDelta { usage: Some(Some(7)) },
        AnthropicEvent::MessageStop,
    ];
    for e in events {
        all.extend(t.on_event(e).unwrap());
    }
    assert_eq!(all.len(), 4);
    assert_eq!(all[0], StreamEvent::ReasoningDelta("plan".to_string()));
    assert_eq!(all[1], StreamEvent::TextDelta("hi".to_string()));
    match &all[2] {
        StreamEvent::ToolCall(c) => {
            assert_eq!(c.tool_call_id, "tu1");
            assert_eq!(c.input.str_field("command"), Some("ls".to_string()));
        },
        _ => panic!("expected a tool call"),
    }
    assert_eq!(
        all[3],
        StreamEvent::Usage(Usage { input_tokens: 11, output_tokens: 7, cached_input_tokens: 2, reasoning_tokens: 0 })
    );
    assert_eq!(t.finish(), StreamEvent::Done);
}

#[test]
fn anthropic_error_event_ends_stream() {
    let mut t = AnthropicTurn::new();
    assert_eq!(t.on_event(AnthropicEvent::Error { message: None }), Err("upstream error".to_string()));
    assert_eq!(
        t.on_event(AnthropicEvent::Error { message: Some("overloaded".to_string()) }),
        Err("overloaded".to_string())
    );
}

#[test]
fn anthropic_message_stop_drains_open_tool_use_in_order() {
    let mut t = AnthropicTurn::new();
    t.on_event(AnthropicEvent::ContentBlockStart {
        index: Some(5),
        block: Some(BlockStart::ToolUse { id: "late".to_string(), name: "Bash".to_string() }),
    })
    .unwrap();
    t.on_event(AnthropicEvent::ContentBlockStart {
        index: Some(1),
        block: Some(BlockStart::ToolUse { id: "early".to_string(), name: "AskUser".to_string() }),
    })
    .unwrap();
    let out = t.on_event(AnthropicEvent::MessageStop).unwrap();
    assert_eq!(out.len(), 3);
    match (&out[0], &out[1]) {
        (StreamEvent::ToolCall(a), StreamEvent::ToolCall(b)) => {
            assert_eq!(a.tool_call_id, "early");
            assert_eq!(b.tool_call_id, "late");
            assert_eq!(a.input, Json::Object(vec![]));
        },
        _ => panic!("expected calls"),
    }
}

#[test]
fn cache_marker_goes_on_most_recent_user_message() {
    let msgs = vec![
        Message::user_text("q".to_string()),
        Message::assistant_parts(vec![AssistantPart::Text { text: "a".into() }]),
    ];
    assert_eq!(cache_marker_target(&msgs), Some(0));
    let body = anthropic::build_request_body(&msgs, "sys", &vec![], &anthropic_np(), &GenerationOptions::default());
    assert_eq!(body.messages[0].content[0], AnthBlock::Text { text: "q".to_string(), cache: true });
    assert_eq!(body.messages[1].content[0], AnthBlock::Text { text: "a".to_string(), cache: false });
    assert_eq!(cache_marker_target(&vec![]), None);
}

#[test]
fn anthropic_frames_decode_to_events() {
    let e = anthropic_event(
        "content_block_start",
        r#"{"index":0,"content_block":{"type":"tool_use","id":"t1","name":"Bash"}}"#,
    );
    assert_eq!(
        e,
        Some(AnthropicEvent::ContentBlockStart {
            index: Some(0),
            block: Some(BlockStart::ToolUse { id: "t1".into(), name: "Bash".into() }),
        })
    );
    assert_eq!(
        anthropic_event("content_block_delta", r#"{"index":2,"delta":{"type":"input_json_delta","partial_json":"{\"a\""}}"#),
        Some(AnthropicEvent::ContentBlockDelta { index: Some(2), delta: BlockDelta::InputJson(Some("{\"a\"".into())) })
    );
    assert_eq!(
        anthropic_event("message_start", r#"{"message":{"usage":{"input_tokens":11,"cache_read_input_tokens":2}}}"#),
        Some(AnthropicEvent::MessageStart { usage: Some((Some(11), Some(2))) })
    );
    assert_eq!(
        anthropic_event("message_delta", r#"{"usage":{"output_tokens":7}}"#),
        Some(AnthropicEvent::MessageDelta { usage: Some(Some(7)) })
    );
    assert_eq!(anthropic_event("content_block_stop", r#"{"index":-1}"#), Some(AnthropicEvent::ContentBlockStop { index: None }));
    assert_eq!(anthropic_event("message_stop", "{}"), Some(AnthropicEvent::MessageStop));
    assert_eq!(
        anthropic_event("error", r#"{"error":{"message":"overloaded"}}"#),
        Some(AnthropicEvent::Error { message: Some("overloaded".into()) })
    );
    assert_eq!(anthropic_event("ping", "{}"), Some(AnthropicEvent::Other));
    assert_eq!(anthropic_event("message_stop", "not json"), None);
    assert_eq!(event_of("content_block_start", &parse_json(r#"{"index":1}"#).unwrap()), AnthropicEvent::ContentBlockStart { index: Some(1), block: None });
}

#[test]
fn anthropic_tool_call_input_is_parsed_json() {
    let mut t = AnthropicTurn::new();
    t.on_event(anthropic_event("content_block_start", r#"{"index":0,"content_block":{"type":"tool_use","id":"t1","name":"Bash"}}"#).unwrap()).unwrap();
    t.on_event(anthropic_event("content_block_delta", r#"{"index":0,"delta":{"type":"input_json_delta","partial_json":"{\"command\":"}}"#).unwrap()).unwrap();
    t.on_event(anthropic_event("content_block_delta", r#"{"index":0,"delta":{"type":"input_json_delta","partial_json":"\"ls\"}"}}"#).unwrap()).unwrap();
    let out = t.on_event(anthropic_event("content_block_stop", r#"{"index":0}"#).unwrap()).unwrap();
    assert_eq!(
        out,
        vec![StreamEvent::ToolCall(ToolCall {
            tool_call_id: "t1".into(),
            tool_name: "Bash".into(),
            input: parse_json(r#"{"command":"ls"}"#).unwrap(),
        })]
    );
    let mut t = AnthropicTurn::new();
    t.on_event(anthropic_event("content_block_start", r#"{"index":0,"content_block":{"type":"tool_use","id":"t2","name":"Bash"}}"#).unwrap()).unwrap();
    let out = t.on_event(anthropic_event("content_block_stop", r#"{"index":0}"#).unwrap()).unwrap();
    assert_eq!(
        out,
        vec![StreamEvent::ToolCall(ToolCall { tool_call_id: "t2".into(), tool_name: "Bash".into(), input: Json::Object(vec![]) })]
    );
}

#[test]
fn tool_results_carry_their_text_to_anthropic() {
    let m = Message::tool_results(vec![
        ToolResult {
            kind: "tool-result".into(),
            tool_call_id: "a".into(),
            tool_name: "Bash".into(),
            output: ToolResultContent::Json { value: parse_json(r#"{"x":1}"#).unwrap() },
        },
        ToolResult {
            kind: "tool-result".into(),
            tool_call_id: "b".into(),
            tool_name: "Bash".into(),
            output: ToolResultContent::ErrorText { value: "boom".into() },
        },
    ]);
    let w = message_to_anthropic(&m, true);
    assert_eq!(
        w.content,
        vec![
            AnthBlock::ToolResult { tool_use_id: "a".into(), content: r#"{"x":1}"#.into(), is_error: false, cache: false },
            AnthBlock::ToolResult { tool_use_id: "b".into(), content: "boom".into(), is_error: true, cache: true },
        ]
    );
}
