use nitro::logic::llm::json::Json;
use nitro::app::chat::calendar::days_to_date_string;
use nitro::app::chat::{
    print_step, turn_continues, StreamPrint,
    chosen_answer, choice_line, decide_approval, outcome_headline, parse_index, risk_line,
    token_summary, tool_kind, unknown_tool_result, user_decision, validation_failure_result,
    ApprovalStep, ToolKind, AUTO_REJECT_MESSAGE,
};
use nitro::app::eula::{accepted_settings, is_agreed};
use nitro::app::prompts::{confirm, confirm_prompt, strip_line_end};
use nitro::logic::llm::messages::{ToolCall, ToolResultContent};
use nitro::logic::llm::stream::{StreamEvent, Usage};
use nitro::logic::settings::{ReasoningEffort, Settings};
use nitro::tools::ask::QuestionChoice;
use nitro::tools::bash::{ApprovedFalse, ApprovedTrue, BashApproval, BashModelInput, BashToolOutput, BehaviorTag, RiskLevel};

fn bi(risk: RiskLevel) -> BashModelInput {
    BashModelInput {
        command: "ls".into(),
        explanation: "list".into(),
        risk_level: risk,
        behavior_tags: vec![],
        timeout: 30_000,
    }
}

#[test]
fn read_only_auto_approved_in_normal_mode() {
    let mut s = Settings::default();
    s.always_confirm = false;
    let r = decide_approval(&bi(RiskLevel::ReadOnly), &s, false, false);
    assert!(matches!(r, ApprovalStep::Decided(BashApproval::Approved)));
}

#[test]
fn strict_mode_forces_prompt_path_for_read_only() {
    let s = Settings::default();
    let r = decide_approval(&bi(RiskLevel::ReadOnly), &s, true, false);
    assert!(matches!(r, ApprovalStep::Decided(BashApproval::Rejected { .. })));
    assert_eq!(decide_approval(&bi(RiskLevel::ReadOnly), &s, true, true), ApprovalStep::AskUser);
}

#[test]
fn dangerous_command_rejected_in_non_tty() {
    let s = Settings::default();
    let r = decide_approval(&bi(RiskLevel::Dangerous), &s, false, false);
    match r {
        ApprovalStep::Decided(BashApproval::Rejected { message }) => {
            assert!(message.is_some_and(|m| m.contains("non-interactive")));
        },
        _ => panic!("expected Rejected"),
    }
}

#[test]
fn always_confirm_makes_read_only_prompt_too() {
    let mut s = Settings::default();
    s.always_confirm = true;
    let r = decide_approval(&bi(RiskLevel::ReadOnly), &s, false, false);
    assert!(matches!(r, ApprovalStep::Decided(BashApproval::Rejected { .. })));
}

#[test]
fn auto_reject_message_text() {
    assert_eq!(AUTO_REJECT_MESSAGE, "Auto-rejected: non-Read-Only command in non-interactive session.");
}

#[test]
fn user_decision_drops_empty_message() {
    assert_eq!(user_decision(true, Some("x".to_string())), BashApproval::Approved);
    assert_eq!(user_decision(false, Some(String::new())), BashApproval::Rejected { message: None });
    assert_eq!(
        user_decision(false, Some("why".to_string())),
        BashApproval::Rejected { message: Some("why".to_string()) }
    );
}

#[test]
fn date_string_formatting_smoke() {
    assert_eq!(days_to_date_string(19_723), "January 1, 2024");
    assert_eq!(days_to_date_string(19_723 + 185), "July 4, 2024");
    assert_eq!(days_to_date_string(19_723 + 366 + 365 + 365), "January 1, 2027");
}

#[test]
fn date_string_edges() {
    assert_eq!(days_to_date_string(0), "January 1, 1970");
    assert_eq!(days_to_date_string(59), "March 1, 1970");
    assert_eq!(days_to_date_string(11_016), "February 29, 2000");
    assert_eq!(days_to_date_string(47_540), "February 28, 2100");
    assert_eq!(days_to_date_string(47_541), "March 1, 2100");
}

#[test]
fn _unused_import_silencer() {
    let _ = ReasoningEffort::Med;
}

#[test]
fn tools_are_found_by_name() {
    assert_eq!(tool_kind("Bash"), ToolKind::Bash);
    assert_eq!(tool_kind("AskUser"), ToolKind::AskUser);
    assert_eq!(tool_kind("bash"), ToolKind::Unknown);
}

fn call(name: &str) -> ToolCall {
    ToolCall { tool_call_id: "c1".to_string(), tool_name: name.to_string(), input: Json::Null }
}

#[test]
fn error_results_name_the_problem() {
    let r = unknown_tool_result(&call("Nope"));
    assert_eq!(r.kind, "tool-result");
    assert_eq!(r.tool_name, "Nope");
    assert_eq!(
        r.output,
        ToolResultContent::ErrorText { value: "Unknown tool \"Nope\". Available tools: AskUser, Bash".to_string() }
    );
    let r = validation_failure_result(&call("Bash"), "Bash", "missing field");
    assert_eq!(r.tool_call_id, "c1");
    assert_eq!(r.output, ToolResultContent::ErrorText { value: "Bash tool call failed validation: missing field".to_string() });
}

#[test]
fn display_lines() {
    let mut i = bi(RiskLevel::Dangerous);
    assert_eq!(risk_line(&i), "risk: Dangerous");
    i.behavior_tags = vec![BehaviorTag::Delete, BehaviorTag::SideEffects];
    assert_eq!(risk_line(&i), "risk: Dangerous [Delete, Side Effects]");
    let approved = BashToolOutput::Approved {
        command: "ls".to_string(),
        approved: ApprovedTrue,
        command_output: String::new(),
        exit_code: -2,
    };
    assert_eq!(outcome_headline(&approved), "Bash: ls  (exit -2)");
    let rejected = BashToolOutput::Rejected { command: "rm x".to_string(), approved: ApprovedFalse, rejection_message: None };
    assert_eq!(outcome_headline(&rejected), "[Denied] Bash: rm x");
    let u = Usage { input_tokens: 1, output_tokens: 2, cached_input_tokens: 3, reasoning_tokens: 4 };
    assert_eq!(token_summary(&u), "tokens: in=1 out=2 cached=3 reasoning=4");
    let c = QuestionChoice { label: "Yes".to_string(), description: Some("go".to_string()) };
    assert_eq!(choice_line(0, &c), "  1) Yes — go");
}

#[test]
fn typed_answers_pick_choices_by_number() {
    let choices = vec![
        QuestionChoice { label: "3 months".to_string(), description: None },
        QuestionChoice { label: "1 year".to_string(), description: None },
    ];
    assert_eq!(chosen_answer("2".to_string(), &choices), "1 year");
    assert_eq!(chosen_answer("0".to_string(), &choices), "3 months");
    assert_eq!(chosen_answer("+1".to_string(), &choices), "3 months");
    assert_eq!(chosen_answer("3".to_string(), &choices), "3");
    assert_eq!(chosen_answer("soon".to_string(), &choices), "soon");
    assert_eq!(chosen_answer(" 1".to_string(), &choices), " 1");
    assert_eq!(parse_index("99999999999999999999999"), None);
    assert_eq!(parse_index("42"), Some(42));
    assert_eq!(parse_index("+"), None);
    assert_eq!(parse_index(""), None);
}

#[test]
fn confirm_answers() {
    assert!(confirm(Some("  YES "), false));
    assert!(confirm(Some("y"), false));
    assert!(!confirm(Some("No"), true));
    assert!(confirm(Some("maybe"), true));
    assert!(!confirm(None, false));
    assert_eq!(confirm_prompt("Approve and run?", false), "Approve and run? [y/N] ");
    assert_eq!(confirm_prompt("Go?", true), "Go? [Y/n] ");
    assert_eq!(strip_line_end("abc\r\n"), "abc");
}

#[test]
fn accepting_the_eula_records_the_version() {
    let s = Settings::default();
    assert!(!is_agreed(&s));
    let a = accepted_settings(&s);
    assert!(is_agreed(&a));
    assert_eq!(a.max_output_tokens, s.max_output_tokens);
}

#[test]
fn line_mode_separates_reasoning_from_text() {
    use_print_step();
}

fn use_print_step() {
    let (p, r) = print_step(false, &StreamEvent::ReasoningDelta("plan".into()), true);
    assert_eq!(p, StreamPrint::Reasoning { heading: true, text: "plan".into() });
    assert!(r);
    let (p, r) = print_step(true, &StreamEvent::ReasoningDelta("more".into()), true);
    assert_eq!(p, StreamPrint::Reasoning { heading: false, text: "more".into() });
    assert!(r);
    let (p, r) = print_step(true, &StreamEvent::TextDelta("hi".into()), true);
    assert_eq!(p, StreamPrint::Text { break_first: true, text: "hi".into() });
    assert!(!r);
    let (p, r) = print_step(false, &StreamEvent::ReasoningDelta("x".into()), false);
    assert_eq!(p, StreamPrint::Nothing);
    assert!(!r);
    let (p, r) = print_step(true, &StreamEvent::Done, true);
    assert_eq!(p, StreamPrint::Nothing);
    assert!(r);
    assert!(!turn_continues(&vec![]));
    assert!(turn_continues(&vec![call("Bash")]));
}
