use nitro::logic::llm::json::Json;
use nitro::tools::ask::{AskTool, QuestionResponse};
use nitro::tools::bash::{
    prefixed_line, run_output, truncate_for_display, BashApproval, BashModelInput, BashStep,
    BashTool, BashToolOutput, BehaviorTag, RiskLevel, RunOutcome, DEFAULT_TIMEOUT_MS,
    EXECUTION_DISABLED_OUTPUT, MAX_TIMEOUT_MS, TIMEOUT_EXIT_CODE,
};

fn input(cmd: &str, risk: RiskLevel) -> BashModelInput {
    BashModelInput {
        command: cmd.to_string(),
        explanation: "test".to_string(),
        risk_level: risk,
        behavior_tags: vec![],
        timeout: DEFAULT_TIMEOUT_MS,
    }
}

#[test]
fn execute_passes_answers_through() {
    let out = AskTool::execute(vec![QuestionResponse {
        question: "Q?".into(),
        answer: "A".into(),
    }]);
    assert_eq!(out.answers.len(), 1);
    assert_eq!(out.answers[0].question, "Q?");
}

#[test]
fn truncate_keeps_short_output() {
    let raw = "out:\tline1\nout:\tline2";
    let s = truncate_for_display(raw);
    assert_eq!(s, "line1\nline2");
}

#[test]
fn truncate_inserts_ellipsis_for_long_output() {
    let lines: Vec<String> = (0..20).map(|i| format!("out:\t{i}")).collect();
    let raw = lines.join("\n");
    let s = truncate_for_display(&raw);
    let pretty: Vec<&str> = s.split('\n').collect();
    assert_eq!(pretty.len(), 17);
    assert_eq!(pretty[0], "0");
    assert_eq!(pretty[8], "...");
    assert_eq!(pretty[16], "19");
}

#[test]
fn truncate_blanks_short_lines() {
    assert_eq!(truncate_for_display("out"), "");
    assert_eq!(truncate_for_display("err:\té"), "é");
    assert_eq!(truncate_for_display(""), "");
}

#[test]
fn execution_disabled_returns_sentinel_for_approved() {
    let r = BashTool::execute(
        &input("touch .nitro-test-sentinel-bash-rust", RiskLevel::ReadOnly),
        BashApproval::Approved,
        false,
    );
    match r {
        BashStep::Done(BashToolOutput::Approved { command, command_output, exit_code, .. }) => {
            assert_eq!(command, "touch .nitro-test-sentinel-bash-rust");
            assert_eq!(command_output, EXECUTION_DISABLED_OUTPUT);
            assert_eq!(exit_code, 0);
        },
        _ => panic!("expected Approved variant"),
    }
    assert!(!std::path::Path::new(".nitro-test-sentinel-bash-rust").exists());
}

#[test]
fn rejected_carries_message() {
    let r = BashTool::execute(
        &input("rm -rf /", RiskLevel::ExtremelyDangerous),
        BashApproval::Rejected { message: Some("nope".to_string()) },
        true,
    );
    match r {
        BashStep::Done(BashToolOutput::Rejected { command, rejection_message, .. }) => {
            assert_eq!(command, "rm -rf /");
            assert_eq!(rejection_message.as_deref(), Some("nope"));
        },
        _ => panic!("expected Rejected variant"),
    }
}

#[test]
fn approved_with_execution_runs_with_capped_timeout() {
    let mut i = input("sleep 1", RiskLevel::Normal);
    i.timeout = 500_000;
    match BashTool::execute(&i, BashApproval::Approved, true) {
        BashStep::Run { command, timeout_ms } => {
            assert_eq!(command, "sleep 1");
            assert_eq!(timeout_ms, MAX_TIMEOUT_MS);
        },
        _ => panic!("expected Run"),
    }
    i.timeout = 10;
    match BashTool::execute(&i, BashApproval::Approved, true) {
        BashStep::Run { timeout_ms, .. } => assert_eq!(timeout_ms, 10),
        _ => panic!("expected Run"),
    }
}

#[test]
fn labels_use_human_strings() {
    assert_eq!(RiskLevel::ExtremelyDangerous.label(), "Extremely Dangerous");
    assert_eq!(RiskLevel::ReadOnly.label(), "Read Only");
    assert_eq!(BehaviorTag::SideEffects.label(), "Side Effects");
}

#[test]
fn lines_are_prefixed_without_line_endings() {
    assert_eq!(prefixed_line("out:\t", "hi\r\n"), "out:\thi");
    assert_eq!(prefixed_line("err:\t", "x\n\n"), "err:\tx");
    assert_eq!(prefixed_line("out:\t", "a\rb\r\r"), "out:\ta\rb");
}

#[test]
fn run_output_assembles_streams_and_exit_codes() {
    let out = vec!["out:\thi".to_string()];
    let err = vec!["err:\toops".to_string()];
    assert_eq!(
        run_output(&out, &err, &RunOutcome::Exited { code: Some(3) }),
        ("out:\thi\nerr:\toops".to_string(), 3)
    );
    assert_eq!(run_output(&out, &err, &RunOutcome::Exited { code: None }).1, 1);
    assert_eq!(
        run_output(&out, &vec![], &RunOutcome::TimedOut),
        ("out:\thi\nTool Error: Command timed out".to_string(), TIMEOUT_EXIT_CODE)
    );
    assert_eq!(
        run_output(&vec![], &vec![], &RunOutcome::SpawnFailed { error: "no bash".to_string() }),
        ("Tool Error: Encountered the following error while running command: \"no bash\"".to_string(), 1)
    );
    assert_eq!(
        run_output(&vec![], &vec![], &RunOutcome::WaitFailed { error: "gone".to_string() }),
        ("Tool Error: Encountered the following error while running command: \"gone\"".to_string(), 1)
    );
}

fn required_names(s: &Json) -> Vec<String> {
    match s.field("required") {
        Some(Json::Array(items)) => items.iter().filter_map(|v| v.as_str()).collect(),
        other => panic!("unexpected {other:?}"),
    }
}

#[test]
fn input_schema_lists_all_required_fields() {
    let s = BashTool::input_schema();
    let strs = required_names(&s);
    assert!(strs.contains(&"command".to_string()));
    assert!(strs.contains(&"riskLevel".to_string()));
    assert!(strs.contains(&"behaviorTags".to_string()));
}

#[test]
fn schema_requires_questions() {
    let s = AskTool::input_schema();
    assert_eq!(required_names(&s), vec!["questions".to_string()]);
}

#[test]
fn bash_schema_timeout_bounds() {
    let s = BashTool::input_schema();
    let t = s.field("properties").and_then(|p| p.field("timeout")).unwrap();
    assert_eq!(t.u64_field("maximum"), Some(120000));
    assert_eq!(t.u64_field("default"), Some(30000));
    assert_eq!(t.u64_field("minimum"), Some(1));
}
