use nitro::logic::llm::json::{parse_json, Json};
use nitro::logic::provider::{get_provider, set_default_provider, set_provider, ApiType, Auth, ProviderInfo};
use nitro::logic::settings::{ReasoningEffort, Settings};
use nitro::screens::chat_screen::ask_modal::{AskModal, AskModalOutcome};
use nitro::screens::chat_screen::bash_modal::{BashModal, BashModalOutcome, ACTION_COUNT};
use nitro::screens::chat_screen::state::{is_interrupt, mode_label, ChatInput, ChatMode, IdleOutcome, StreamingTurn, ToolQueue};
use nitro::screens::chat_screen::transcript::Transcript;
use nitro::screens::eula_screen::{EulaFocus, EulaOutcome, EulaScreen};
use nitro::screens::provider_screens::{
    api_type_label, step_index, step_label, PickProviderScreen, ProviderListScreen,
    ProviderWizardScreen, WizardExit, WizardStep,
};
use nitro::screens::settings_screen::{SettingsExit, SettingsMode, SettingsScreen};
use nitro::screens::{button_text, Key, KeyCode, Step};
use nitro::logic::llm::messages::{AssistantContent, AssistantPart, Message, ToolCall, ToolResult, ToolResultContent};
use nitro::logic::llm::stream::{StreamEvent, Usage};
use nitro::tools::ask::{Question, QuestionChoice};
use nitro::tools::bash::{BashApproval, BashModelInput, BehaviorTag, RiskLevel};

fn k(code: KeyCode) -> Key {
    Key::plain(code)
}

#[test]
fn left_right_switches_focus() {
    let mut s = EulaScreen::default();
    assert_eq!(s.focus, EulaFocus::Decline);
    s.on_key(k(KeyCode::Right));
    assert_eq!(s.focus, EulaFocus::Accept);
    s.on_key(k(KeyCode::Left));
    assert_eq!(s.focus, EulaFocus::Decline);
}

#[test]
fn enter_returns_focused_choice() {
    let mut s = EulaScreen::default();
    s.on_key(k(KeyCode::Right));
    let res = s.on_key(k(KeyCode::Enter));
    assert!(matches!(res, Step::Done(EulaOutcome::Accepted)));

    let mut s = EulaScreen::default();
    let res = s.on_key(k(KeyCode::Enter));
    assert!(matches!(res, Step::Done(EulaOutcome::Declined)));
}

#[test]
fn esc_declines() {
    let mut s = EulaScreen::default();
    s.on_key(k(KeyCode::Right));
    let res = s.on_key(k(KeyCode::Esc));
    assert!(matches!(res, Step::Done(EulaOutcome::Declined)));
}

#[test]
fn up_and_down_scroll_body() {
    let mut s = EulaScreen::default();
    assert_eq!(s.scroll, 0);
    s.on_key(k(KeyCode::Down));
    assert_eq!(s.scroll, 1);
    s.on_key(k(KeyCode::Down));
    assert_eq!(s.scroll, 2);
    s.on_key(k(KeyCode::Up));
    assert_eq!(s.scroll, 1);
    s.on_key(k(KeyCode::Up));
    s.on_key(k(KeyCode::Up));
    assert_eq!(s.scroll, 0);
}

#[test]
fn buttons_show_focus() {
    assert_eq!(button_text("Accept", true), "> Accept <");
    assert_eq!(button_text("Decline", false), "  Decline  ");
}

fn bash_input() -> BashModelInput {
    BashModelInput {
        command: "rm -rf folder".into(),
        explanation: "Delete a directory".into(),
        risk_level: RiskLevel::ExtremelyDangerous,
        behavior_tags: vec![BehaviorTag::Delete],
        timeout: 30_000,
    }
}

#[test]
fn approve_returns_approved() {
    let mut m = BashModal::new(bash_input());
    let out = m.on_key(k(KeyCode::Enter));
    assert_eq!(out, Some(BashModalOutcome::Decided(BashApproval::Approved)));
}

#[test]
fn cancel_via_esc_returns_cancelled() {
    let mut m = BashModal::new(bash_input());
    let out = m.on_key(k(KeyCode::Esc));
    assert_eq!(out, Some(BashModalOutcome::Cancelled));
}

#[test]
fn reject_path_collects_message() {
    let mut m = BashModal::new(bash_input());
    m.on_key(k(KeyCode::Down));
    let out = m.on_key(k(KeyCode::Enter));
    assert!(out.is_none());
    for c in "no thanks".chars() {
        m.on_key(k(KeyCode::Char(c)));
    }
    let out = m.on_key(k(KeyCode::Enter)).unwrap();
    match out {
        BashModalOutcome::Decided(BashApproval::Rejected { message }) => {
            assert_eq!(message.as_deref(), Some("no thanks"));
        },
        _ => panic!("expected Rejected"),
    }
}

#[test]
fn reject_with_empty_message_returns_none() {
    let mut m = BashModal::new(bash_input());
    m.on_key(k(KeyCode::Down));
    m.on_key(k(KeyCode::Enter));
    let out = m.on_key(k(KeyCode::Enter)).unwrap();
    match out {
        BashModalOutcome::Decided(BashApproval::Rejected { message }) => assert_eq!(message, None),
        _ => panic!("expected Rejected"),
    }
}

#[test]
fn esc_in_edit_returns_to_choose_mode() {
    let mut m = BashModal::new(bash_input());
    m.on_key(k(KeyCode::Down));
    m.on_key(k(KeyCode::Enter));
    for c in "abc".chars() {
        m.on_key(k(KeyCode::Char(c)));
    }
    let out = m.on_key(k(KeyCode::Esc));
    assert_eq!(out, None);
    assert!(m.rejection_message().is_empty());
    assert!(!m.is_editing());
}

#[test]
fn arrow_keys_wrap_focus() {
    let mut m = BashModal::new(bash_input());
    assert_eq!(m.focus(), 0);
    m.on_key(k(KeyCode::Up));
    assert_eq!(m.focus(), ACTION_COUNT - 1);
    m.on_key(k(KeyCode::Down));
    assert_eq!(m.focus(), 0);
}

#[test]
fn cancel_action_cancels() {
    let mut m = BashModal::new(bash_input());
    m.on_key(k(KeyCode::Up));
    assert_eq!(m.on_key(k(KeyCode::Enter)), Some(BashModalOutcome::Cancelled));
}

fn questions() -> Vec<Question> {
    vec![
        Question {
            title: "Old".into(),
            question: "How old?".into(),
            choices: vec![
                QuestionChoice { label: "3 months".into(), description: None },
                QuestionChoice { label: "1 year".into(), description: Some("Year+".into()) },
            ],
        },
        Question {
            title: "Confirm".into(),
            question: "Proceed?".into(),
            choices: vec![QuestionChoice { label: "yes".into(), description: None }],
        },
    ]
}

#[test]
fn enter_with_choice_selects_label() {
    let mut m = AskModal::new(questions());
    let out = m.on_key(k(KeyCode::Enter));
    assert!(out.is_none());
    let out = m.on_key(k(KeyCode::Enter)).unwrap();
    match out {
        AskModalOutcome::Done(answers) => {
            assert_eq!(answers[0].answer, "3 months");
            assert_eq!(answers[1].answer, "yes");
            assert_eq!(answers[1].question, "Proceed?");
        },
        _ => panic!("expected Done"),
    }
    assert!(!m.is_open());
}

#[test]
fn typing_path_records_answer() {
    let mut m = AskModal::new(questions());
    m.on_key(k(KeyCode::Down));
    m.on_key(k(KeyCode::Down));
    m.on_key(k(KeyCode::Enter));
    for c in "blue".chars() {
        m.on_key(k(KeyCode::Char(c)));
    }
    let out = m.on_key(k(KeyCode::Enter));
    assert!(out.is_none());
    let out = m.on_key(k(KeyCode::Enter)).unwrap();
    match out {
        AskModalOutcome::Done(answers) => {
            assert_eq!(answers[0].answer, "blue");
            assert_eq!(answers[1].answer, "yes");
        },
        _ => panic!("expected Done"),
    }
}

#[test]
fn esc_cancels() {
    let mut m = AskModal::new(questions());
    let out = m.on_key(k(KeyCode::Esc));
    assert_eq!(out, Some(AskModalOutcome::Cancelled));
}

#[test]
fn digit_shortcut_picks_choice() {
    let mut m = AskModal::new(questions());
    let out = m.on_key(k(KeyCode::Char('2')));
    assert!(out.is_none());
    let out = m.on_key(k(KeyCode::Char('1'))).unwrap();
    match out {
        AskModalOutcome::Done(answers) => {
            assert_eq!(answers[0].answer, "1 year");
            assert_eq!(answers[1].answer, "yes");
        },
        _ => panic!("expected Done"),
    }
}

#[test]
fn empty_typed_answer_is_not_recorded() {
    let mut m = AskModal::new(questions());
    m.on_key(k(KeyCode::Up));
    assert_eq!(m.focus(), 2);
    m.on_key(k(KeyCode::Enter));
    assert!(m.is_typing());
    assert_eq!(m.on_key(k(KeyCode::Enter)), None);
    assert_eq!(m.cursor(), 0);
    m.on_key(k(KeyCode::Char('x')));
    m.on_key(k(KeyCode::Backspace));
    assert_eq!(m.typed(), "");
    m.on_key(k(KeyCode::Esc));
    assert!(!m.is_typing());
}

fn settings_screen() -> SettingsScreen {
    SettingsScreen::new(Settings::default())
}

#[test]
fn space_toggles_boolean_field() {
    let mut s = settings_screen();
    assert!(!s.settings().always_confirm);
    s.on_key(k(KeyCode::Char(' ')));
    assert!(s.settings().always_confirm);
    s.on_key(k(KeyCode::Char(' ')));
    assert!(!s.settings().always_confirm);
}

#[test]
fn cycle_through_reasoning_effort() {
    let mut s = settings_screen();
    for _ in 0..4 {
        s.on_key(k(KeyCode::Down));
    }
    assert_eq!(s.settings().reasoning_effort, ReasoningEffort::Med);
    s.on_key(k(KeyCode::Enter));
    assert_eq!(s.settings().reasoning_effort, ReasoningEffort::High);
    s.on_key(k(KeyCode::Enter));
    assert_eq!(s.settings().reasoning_effort, ReasoningEffort::Low);
}

#[test]
fn editing_int_buffer_accepts_digits_only() {
    let mut s = settings_screen();
    for _ in 0..3 {
        s.on_key(k(KeyCode::Down));
    }
    s.on_key(k(KeyCode::Enter));
    assert!(matches!(s.mode(), SettingsMode::EditingInt { .. }));
    for _ in 0..10 {
        s.on_key(k(KeyCode::Backspace));
    }
    for c in "8000".chars() {
        s.on_key(k(KeyCode::Char(c)));
    }
    s.on_key(k(KeyCode::Char('a')));
    s.on_key(k(KeyCode::Enter));
    assert_eq!(s.settings().max_output_tokens, 8000);
}

#[test]
fn zero_or_empty_token_limit_is_reverted() {
    let mut s = settings_screen();
    for _ in 0..3 {
        s.on_key(k(KeyCode::Down));
    }
    s.on_key(k(KeyCode::Enter));
    for _ in 0..10 {
        s.on_key(k(KeyCode::Backspace));
    }
    s.on_key(k(KeyCode::Char('0')));
    s.on_key(k(KeyCode::Enter));
    assert_eq!(s.settings().max_output_tokens, 16_000);
    assert_eq!(s.mode(), &SettingsMode::Status("invalid value, reverted".to_string()));
    assert_eq!(s.current_value(3), "16000");
}

#[test]
fn s_persists_settings_to_disk() {
    let mut s = settings_screen();
    s.on_key(k(KeyCode::Char(' ')));
    let res = s.on_key(k(KeyCode::Char('s')));
    match res {
        Step::Done(SettingsExit::Save(saved)) => assert!(saved.always_confirm),
        _ => panic!("expected save"),
    }
    s.save_failed("disk full");
    assert_eq!(s.mode(), &SettingsMode::Status("save failed: disk full".to_string()));
}

#[test]
fn q_quits_without_saving() {
    let mut s = settings_screen();
    s.on_key(k(KeyCode::Char(' ')));
    let res = s.on_key(k(KeyCode::Char('q')));
    assert_eq!(res, Step::Done(SettingsExit::Quit));
}

fn info(url: &str) -> ProviderInfo {
    ProviderInfo { base_url: url.to_string(), api_key: "k".to_string(), model: "m".to_string(), api_type: ApiType::OpenAiCompatible }
}

#[test]
fn list_screen_marks_default() {
    let mut auth = Auth::new();
    set_provider(&mut auth, "openai", info("https://example.com"));
    set_provider(&mut auth, "anthropic", info("https://example.com"));
    assert!(set_default_provider(&mut auth, "anthropic"));
    let mut screen = ProviderListScreen::new(&auth);
    assert_eq!(
        screen.items(),
        &vec![("anthropic".to_string(), true), ("openai".to_string(), false)]
    );
    assert_eq!(screen.selected(), Some(0));
    screen.on_key(k(KeyCode::Down));
    screen.on_key(k(KeyCode::Down));
    assert_eq!(screen.selected(), Some(1));
    assert_eq!(screen.on_key(k(KeyCode::Enter)), Step::Done(()));
}

fn type_text(s: &mut ProviderWizardScreen, text: &str) {
    for c in text.chars() {
        s.on_key(k(KeyCode::Char(c)));
    }
}

#[test]
fn add_wizard_advances_through_all_steps_and_saves() {
    let mut auth = Auth::new();
    let mut s = ProviderWizardScreen::new_add();
    type_text(&mut s, "anthropic");
    s.on_key(k(KeyCode::Enter));
    assert_eq!(s.base_url(), "https://api.anthropic.com/v1");
    assert_eq!(s.api_type(), ApiType::Anthropic);
    assert_eq!(s.step(), WizardStep::BaseUrl);

    s.on_key(k(KeyCode::Enter));
    type_text(&mut s, "sk");
    s.on_key(k(KeyCode::Enter));
    s.on_key(k(KeyCode::Enter));
    type_text(&mut s, "sonnet");
    s.on_key(k(KeyCode::Enter));
    assert_eq!(s.step(), WizardStep::Confirm);

    let res = s.on_key(k(KeyCode::F(2)));
    assert_eq!(res, Step::Done(WizardExit::Save));
    s.apply(&mut auth);
    assert!(s.saved());
    let got = get_provider(&auth, "anthropic").unwrap();
    assert_eq!(got.base_url, "https://api.anthropic.com/v1");
    assert_eq!(got.api_key, "sk");
    assert_eq!(got.model, "sonnet");
    assert_eq!(got.api_type, ApiType::Anthropic);
}

#[test]
fn add_wizard_blocks_empty_required_fields() {
    let mut s = ProviderWizardScreen::new_add();
    s.on_key(k(KeyCode::Enter));
    assert_eq!(s.step(), WizardStep::Name);
    assert_eq!(s.error(), Some("Name is required.".to_string()));
}

#[test]
fn esc_steps_back_through_wizard() {
    let mut s = ProviderWizardScreen::new_add();
    type_text(&mut s, "x");
    s.on_key(k(KeyCode::Enter));
    assert_eq!(s.step(), WizardStep::BaseUrl);
    s.on_key(k(KeyCode::Esc));
    assert_eq!(s.step(), WizardStep::Name);
    assert_eq!(s.on_key(k(KeyCode::Esc)), Step::Done(WizardExit::Quit));
}

#[test]
fn edit_wizard_renames_provider() {
    let mut auth = Auth::new();
    set_provider(&mut auth, "old", info("https://u"));
    assert!(set_default_provider(&mut auth, "old"));
    let mut s = ProviderWizardScreen::new_edit("old".to_string(), info("https://u"));
    for _ in 0..3 {
        s.on_key(k(KeyCode::Backspace));
    }
    type_text(&mut s, "new");
    s.apply(&mut auth);
    assert!(get_provider(&auth, "old").is_none());
    assert_eq!(get_provider(&auth, "new").unwrap().base_url, "https://u");
    assert_eq!(auth.default_provider(), None);
}

#[test]
fn api_type_step_cycles_types() {
    let mut s = ProviderWizardScreen::new_edit("p".to_string(), info("u"));
    s.on_key(k(KeyCode::Enter));
    s.on_key(k(KeyCode::Enter));
    s.on_key(k(KeyCode::Enter));
    assert_eq!(s.step(), WizardStep::ApiType);
    s.on_key(k(KeyCode::Char('k')));
    assert_eq!(s.api_type(), ApiType::Anthropic);
    s.on_key(k(KeyCode::Down));
    assert_eq!(s.api_type(), ApiType::OpenAiCompatible);
    assert_eq!(s.masked_api_key(), "*");
    assert_eq!(api_type_label(1), "openai-responses");
    assert_eq!(step_index(WizardStep::Model), 4);
    assert_eq!(step_label(WizardStep::BaseUrl), "Base URL");
}

#[test]
fn pick_screen_returns_selected_name() {
    let mut s = PickProviderScreen::new("Pick", vec!["a".to_string(), "b".to_string(), "c".to_string()]);
    s.on_key(k(KeyCode::Down));
    let res = s.on_key(k(KeyCode::Enter));
    match res {
        Step::Done(Some(name)) => assert_eq!(name, "b"),
        _ => panic!("expected b"),
    }
}

#[test]
fn pick_screen_esc_returns_none() {
    let mut s = PickProviderScreen::new("Pick", vec!["a".to_string()]);
    let res = s.on_key(k(KeyCode::Esc));
    assert!(matches!(res, Step::Done(None)));
}

#[test]
fn pick_screen_with_empty_list_picks_nothing() {
    let mut s = PickProviderScreen::new("Pick", vec![]);
    assert!(s.items().is_empty());
    assert_eq!(s.on_key(k(KeyCode::Enter)), Step::Done(None));
}

#[test]
fn chat_input_and_scroll() {
    let mut input = ChatInput::new();
    let mut t = Transcript { scroll: 3, show_thinking: true };
    assert_eq!(input.on_idle_key(k(KeyCode::Enter), &mut t), IdleOutcome::Continue);
    input.on_idle_key(k(KeyCode::Char('h')), &mut t);
    input.on_idle_key(k(KeyCode::Char('i')), &mut t);
    assert_eq!(input.on_idle_key(k(KeyCode::Enter), &mut t), IdleOutcome::Send("hi".to_string()));
    assert_eq!(input.text(), "");
    input.on_idle_key(k(KeyCode::PageUp), &mut t);
    assert_eq!(t.scroll, 0);
    input.on_idle_key(k(KeyCode::PageDown), &mut t);
    assert_eq!(t.scroll, 5);
    assert_eq!(input.on_idle_key(k(KeyCode::Esc), &mut t), IdleOutcome::Quit);
    assert!(is_interrupt(Key { code: KeyCode::Char('c'), ctrl: true }));
    assert!(!is_interrupt(k(KeyCode::Char('c'))));
    assert_eq!(mode_label(ChatMode::AwaitingTool), "tool approval");
}

fn tc(id: &str) -> ToolCall {
    ToolCall { tool_call_id: id.to_string(), tool_name: "Bash".to_string(), input: Json::Null }
}

fn result(id: &str) -> ToolResult {
    ToolResult {
        kind: "tool-result".to_string(),
        tool_call_id: id.to_string(),
        tool_name: "Bash".to_string(),
        output: ToolResultContent::ErrorText { value: "x".to_string() },
    }
}

#[test]
fn tool_queue_hands_out_calls_in_order() {
    assert!(ToolQueue::begin(vec![]).is_none());
    let (first, mut q) = ToolQueue::begin(vec![tc("a"), tc("b")]).unwrap();
    assert_eq!(first.tool_call_id, "a");
    let next = q.record(result("a")).unwrap();
    assert_eq!(next.tool_call_id, "b");
    assert!(q.record(result("b")).is_none());
    let results = q.take_results();
    assert_eq!(results.len(), 2);
    assert_eq!(results[1].tool_call_id, "b");
}

#[test]
fn streaming_turn_collects_a_turn() {
    let mut turn = StreamingTurn::new();
    let mut total = Usage { input_tokens: 1, output_tokens: 1, cached_input_tokens: 0, reasoning_tokens: 0 };
    assert!(!turn.on_event(StreamEvent::ReasoningDelta("think".into()), &mut total));
    assert!(!turn.on_event(StreamEvent::TextDelta("hel".into()), &mut total));
    assert!(!turn.on_event(StreamEvent::TextDelta("lo".into()), &mut total));
    let call = ToolCall { tool_call_id: "c1".into(), tool_name: "Bash".into(), input: Json::Null };
    assert!(!turn.on_event(StreamEvent::ToolCall(call.clone()), &mut total));
    let u = Usage { input_tokens: 10, output_tokens: 5, cached_input_tokens: 2, reasoning_tokens: 1 };
    assert!(!turn.on_event(StreamEvent::Usage(u), &mut total));
    assert_eq!(turn.text, "hello");
    assert_eq!(turn.reasoning, "think");
    assert_eq!(total, Usage { input_tokens: 11, output_tokens: 6, cached_input_tokens: 2, reasoning_tokens: 1 });
    assert!(turn.on_event(StreamEvent::Done, &mut total));
    let (msg, calls, usage) = turn.builder.finish();
    assert_eq!(usage, u);
    assert_eq!(calls, vec![call.clone()]);
    assert_eq!(
        msg,
        Message::Assistant {
            content: AssistantContent::Parts(vec![
                AssistantPart::Reasoning { text: "think".into() },
                AssistantPart::Text { text: "hello".into() },
                AssistantPart::ToolCall { tool_call_id: "c1".into(), tool_name: "Bash".into(), input: Json::Null },
            ])
        }
    );
}

#[test]
fn shows_command_explanation_risk_and_actions() {
    let m = BashModal::new(bash_input());
    let t = m.text();
    let s = format!("{} {} {} {} {}", t.command, t.explanation, t.risk, t.tags.clone().unwrap_or_default(), t.buttons.join(" "));
    assert!(s.contains("rm -rf folder"));
    assert!(s.contains("Delete a directory"));
    assert!(s.contains("Extremely Dangerous"));
    assert!(s.contains("Approve and Run"));
    assert!(s.contains("Reject with Message"));
    assert!(s.contains("Cancel and Exit"));
    assert!(s.contains("Delete"));
}

#[test]
fn bash_modal_text_follows_state() {
    let mut m = BashModal::new(bash_input());
    let t = m.text();
    assert_eq!(t.risk, "risk: Extremely Dangerous");
    assert_eq!(t.tags, Some("[Delete]".to_string()));
    assert_eq!(t.rejection, None);
    assert_eq!(t.buttons, vec!["> Approve and Run <".to_string(), "  Reject with Message  ".to_string(), "  Cancel and Exit  ".to_string()]);
    m.on_key(k(KeyCode::Down));
    m.on_key(k(KeyCode::Enter));
    m.on_key(k(KeyCode::Char('n')));
    let t = m.text();
    assert_eq!(t.rejection, Some("n".to_string()));
    assert_eq!(t.hint, None);
}

#[test]
fn ask_modal_text_shows_current_question() {
    let q = Question {
        title: "Pick".into(),
        question: "Which one?".into(),
        choices: vec![
            QuestionChoice { label: "A".into(), description: Some("first".into()) },
            QuestionChoice { label: "B".into(), description: None },
        ],
    };
    let mut m = AskModal::new(vec![q]);
    let t = m.text().unwrap();
    assert_eq!(t.title, "AskUser (1/1): Pick");
    assert_eq!(t.question, "Which one?");
    assert_eq!(t.rows.len(), 2);
    assert!(t.rows[0].marked && !t.rows[1].marked);
    assert_eq!(t.rows[1].number, "2) ");
    assert_eq!(t.rows[0].description, Some("first".to_string()));
    assert!(!t.own_answer_marked);
    assert_eq!(t.typed, None);
    m.on_key(k(KeyCode::Enter));
    assert_eq!(m.text(), None);
}
