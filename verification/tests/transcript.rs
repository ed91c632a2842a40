use nitro::logic::llm::json::{parse_json, Json};
use nitro::logic::llm::messages::{AssistantPart, Message, ToolResult, ToolResultContent};
use nitro::screens::chat_screen::transcript::{
    shown_message, tool_body, ShownMessage, ShownPart, ShownResult, Tone, Transcript, TranscriptLine,
};

fn json(text: &str) -> Json {
    parse_json(text).unwrap()
}

fn shown(history: &[Message]) -> Vec<ShownMessage> {
    history.iter().map(|m| shown_message(m).unwrap()).collect()
}

fn render_string(t: &Transcript, history: &[Message], streaming: &str, reasoning: &str) -> String {
    let lines = t.lines(&shown(history), streaming, reasoning);
    lines
        .iter()
        .map(|l| format!("{}{}", l.head, l.text))
        .collect::<Vec<_>>()
        .join("\n")
}

fn line(tone: Tone, text: &str) -> TranscriptLine {
    TranscriptLine { tone, head: String::new(), text: text.to_string() }
}

#[test]
fn renders_user_and_assistant() {
    let history = vec![
        Message::user_text("hello".to_string()),
        Message::assistant_parts(vec![AssistantPart::Text { text: "hi back".into() }]),
    ];
    let s = render_string(&Transcript::default(), &history, "", "");
    assert!(s.contains("user"));
    assert!(s.contains("hello"));
    assert!(s.contains("assistant"));
    assert!(s.contains("hi back"));
}

#[test]
fn shows_streaming_text() {
    let s = render_string(&Transcript::default(), &[], "thinking out loud", "");
    assert!(s.contains("assistant"));
    assert!(s.contains("thinking out loud"));
}

#[test]
fn tool_call_summary_includes_command() {
    let history = vec![Message::assistant_parts(vec![AssistantPart::ToolCall {
        tool_call_id: "t1".into(),
        tool_name: "Bash".into(),
        input: json(r#"{ "command": "ls -la" }"#),
    }])];
    let s = render_string(&Transcript::default(), &history, "", "");
    assert!(s.contains("Bash"));
    assert!(s.contains("ls -la"));
}

#[test]
fn reasoning_hidden_when_show_thinking_off() {
    let t = Transcript { show_thinking: false, ..Transcript::default() };
    let history = vec![Message::assistant_parts(vec![
        AssistantPart::Reasoning { text: "secret thoughts".into() },
        AssistantPart::Text { text: "answer".into() },
    ])];
    let s = render_string(&t, &history, "", "");
    assert!(!s.contains("secret thoughts"));
    assert!(s.contains("answer"));
}

#[test]
fn lines_of_a_user_message_split_at_newlines() {
    let t = Transcript::default();
    let lines = t.lines(&shown(&[Message::user_text("a\nb".to_string())]), "", "");
    assert_eq!(
        lines,
        vec![line(Tone::UserRole, "user"), line(Tone::Primary, "a"), line(Tone::Primary, "b"), line(Tone::Blank, "")]
    );
}

#[test]
fn reasoning_shown_when_show_thinking_on() {
    let t = Transcript { scroll: 0, show_thinking: true };
    let history = vec![Message::assistant_parts(vec![AssistantPart::Reasoning { text: "hmm".into() }])];
    let lines = t.lines(&shown(&history), "", "");
    assert_eq!(
        lines,
        vec![
            line(Tone::AssistantRole, "assistant"),
            line(Tone::Secondary, "  thinking:"),
            line(Tone::Secondary, "hmm"),
            line(Tone::Blank, ""),
        ]
    );
}

#[test]
fn streaming_reasoning_comes_before_streaming_text() {
    let t = Transcript { scroll: 0, show_thinking: true };
    let lines = t.lines(&vec![], "out", "why");
    assert_eq!(
        lines,
        vec![
            line(Tone::ThinkingRole, "thinking"),
            line(Tone::Secondary, "why"),
            line(Tone::Blank, ""),
            line(Tone::AssistantRole, "assistant"),
            line(Tone::Primary, "out"),
        ]
    );
    let hidden = Transcript::default().lines(&vec![], "out", "why");
    assert_eq!(hidden, vec![line(Tone::AssistantRole, "assistant"), line(Tone::Primary, "out")]);
}

#[test]
fn tool_call_line_has_name_head_and_command() {
    let history = vec![Message::assistant_parts(vec![AssistantPart::ToolCall {
        tool_call_id: "t1".into(),
        tool_name: "Bash".into(),
        input: json(r#"{ "command": "ls" }"#),
    }])];
    let s = shown(&history);
    assert_eq!(
        s,
        vec![ShownMessage::Assistant {
            parts: vec![ShownPart::Call { tool_name: "Bash".into(), summary: "ls".into() }]
        }]
    );
    let lines = Transcript::default().lines(&s, "", "");
    assert_eq!(
        lines[1],
        TranscriptLine { tone: Tone::ToolCall, head: "  Bash → ".into(), text: "ls".into() }
    );
}

#[test]
fn tool_call_without_command_has_empty_summary() {
    let m = Message::assistant_parts(vec![AssistantPart::ToolCall {
        tool_call_id: "t1".into(),
        tool_name: "AskUser".into(),
        input: json(r#"{ "questions": [] }"#),
    }]);
    assert_eq!(
        shown_message(&m),
        Some(ShownMessage::Assistant {
            parts: vec![ShownPart::Call { tool_name: "AskUser".into(), summary: String::new() }]
        })
    );
}

fn result(output: ToolResultContent) -> ToolResult {
    ToolResult { kind: "tool-result".into(), tool_call_id: "c1".into(), tool_name: "Bash".into(), output }
}

fn body_of(output: ToolResultContent) -> String {
    match shown_message(&Message::tool_results(vec![result(output)])) {
        Some(ShownMessage::Tool { results }) => results[0].body.clone(),
        other => panic!("unexpected {other:?}"),
    }
}

#[test]
fn tool_result_bodies() {
    assert_eq!(
        body_of(ToolResultContent::Json { value: json(r#"{"approved":true,"commandOutput":"out:\thello\nerr:\toops"}"#) }),
        "hello\noops"
    );
    assert_eq!(body_of(ToolResultContent::Json { value: json(r#"{"approved":false,"userMessage":"no"}"#) }), "[denied]");
    assert_eq!(body_of(ToolResultContent::Json { value: json(r#"{"answers":[]}"#) }), r#"{"answers":[]}"#);
    assert_eq!(body_of(ToolResultContent::ErrorText { value: "bad".into() }), "bad");
    assert_eq!(body_of(ToolResultContent::ErrorJson { value: json(r#"{"e":1}"#) }), r#"{"e":1}"#);
}

#[test]
fn tool_result_lines_have_label_and_output() {
    let m = Message::tool_results(vec![result(ToolResultContent::ErrorText { value: "x\ny".into() })]);
    let s = shown(&[m]);
    assert_eq!(
        s,
        vec![ShownMessage::Tool { results: vec![ShownResult { tool_name: "Bash".into(), body: "x\ny".into() }] }]
    );
    let lines = Transcript::default().lines(&s, "", "");
    assert_eq!(
        lines,
        vec![
            line(Tone::ToolRole, "tool"),
            line(Tone::Secondary, "  Bash:"),
            line(Tone::Output, "x"),
            line(Tone::Output, "y"),
            line(Tone::Blank, ""),
        ]
    );
}

#[test]
fn command_output_that_cannot_be_cut_is_refused() {
    let m = Message::tool_results(vec![result(ToolResultContent::Json {
        value: json(r#"{"approved":true,"commandOutput":"abcdé!"}"#),
    })]);
    assert_eq!(shown_message(&m), None);
}

#[test]
fn tool_body_picks_output_then_denial_then_json() {
    assert_eq!(tool_body(Some("out:\tok".into()), Some(false), "{}".into()), "ok");
    assert_eq!(tool_body(None, Some(false), "{}".into()), "[denied]");
    assert_eq!(tool_body(None, Some(true), "{}".into()), "{}");
    assert_eq!(tool_body(None, None, "{}".into()), "{}");
}
