//! The steps of a conversation with tools: whether a command may run without
//! asking, which tool a call is for, what the model is told when a call goes
//! wrong, and the lines the user sees.

pub mod calendar;

use vstd::prelude::*;

use crate::logic::llm::json::Json;
use crate::logic::llm::messages::{ToolCall, ToolResult, ToolResultContent};
use crate::logic::llm::stream::{StreamEvent, Usage};
use crate::logic::settings::Settings;
use crate::text::{chars_of, decimal, decimal_string, parse_unsigned, parse_unsigned_chars, str_eq};
use crate::tools::ask::QuestionChoice;
use crate::tools::bash::{
    risk_label, tag_label, BashApproval, BashModelInput, BashToolOutput, RiskLevel,
};

verus! {

/// Why a command was refused without asking, where nobody can be asked.
pub const AUTO_REJECT_MESSAGE: &'static str = "Auto-rejected: non-Read-Only command in non-interactive session.";

/// What becomes of a command before the user is asked, if anything.
#[derive(Debug, Clone, PartialEq, Eq)]
pub enum ApprovalStep {
    /// Settled without the user.
    Decided(BashApproval),
    /// The user must approve or reject it.
    AskUser,
}

/// Whether a command runs without asking: it is read-only, the user did not
/// ask to confirm every command, and the session is not strict.
pub open spec fn runs_unasked(risk: RiskLevel, settings: Settings, strict: bool) -> bool {
    risk == RiskLevel::ReadOnly && !settings.always_confirm && !strict
}

/// Only a read-only command ever runs without the user: every other risk
/// level, `always_confirm`, and a strict session each rule it out, and a
/// read-only command outside those runs unasked.
pub proof fn law_only_read_only_runs_unasked(risk: RiskLevel, settings: Settings, strict: bool)
    ensures
        risk != RiskLevel::ReadOnly ==> !runs_unasked(risk, settings, strict),
        settings.always_confirm ==> !runs_unasked(risk, settings, strict),
        strict ==> !runs_unasked(risk, settings, strict),
        risk == RiskLevel::ReadOnly && !settings.always_confirm && !strict ==> runs_unasked(risk, settings, strict),
{
}

/// Whether `model_input` runs without asking; if not, a session where
/// nobody can answer refuses it, and an interactive one asks the user.
pub fn decide_approval(model_input: &BashModelInput, settings: &Settings, strict: bool, interactive: bool) -> (r: ApprovalStep)
    ensures
        r == ApprovalStep::Decided(BashApproval::Approved) ==> model_input.risk_level == RiskLevel::ReadOnly
            && !settings.always_confirm && !strict,
        model_input.risk_level != RiskLevel::ReadOnly && interactive ==> r == ApprovalStep::AskUser,
        runs_unasked(model_input.risk_level, *settings, strict) ==> r == ApprovalStep::Decided(BashApproval::Approved),
        !runs_unasked(model_input.risk_level, *settings, strict) && !interactive ==> (r matches ApprovalStep::Decided(BashApproval::Rejected { message: Some(m) }) && m@ == AUTO_REJECT_MESSAGE@),
        !runs_unasked(model_input.risk_level, *settings, strict) && interactive ==> r == ApprovalStep::AskUser,
{
    let read_only = match model_input.risk_level {
        RiskLevel::ReadOnly => true,
        _ => false,
    };
    if read_only && !settings.always_confirm && !strict {
        ApprovalStep::Decided(BashApproval::Approved)
    } else if !interactive {
        ApprovalStep::Decided(BashApproval::Rejected { message: Some(String::from_str(AUTO_REJECT_MESSAGE)) })
    } else {
        ApprovalStep::AskUser
    }
}

/// The user's answer as a decision: an approval, or a rejection whose message
/// is dropped when it is empty.
pub fn user_decision(approved: bool, message: Option<String>) -> (r: BashApproval)
    ensures
        approved ==> r == BashApproval::Approved,
        !approved ==> r == (BashApproval::Rejected {
            message: match message {
                Some(m) => if m@.len() > 0 { Some(m) } else { None },
                None => None,
            },
        }),
{
    if approved {
        BashApproval::Approved
    } else {
        let kept = match message {
            Some(m) => if m.as_str().unicode_len() > 0 { Some(m) } else { None },
            None => None,
        };
        BashApproval::Rejected { message: kept }
    }
}

/// The tools a call can be for.
#[derive(Debug, Clone, Copy, PartialEq, Eq, Structural)]
pub enum ToolKind {
    Bash,
    AskUser,
    Unknown,
}

/// The tool named `name`.
pub fn tool_kind(name: &str) -> (r: ToolKind)
    ensures
        r == (if name@ == "Bash"@ {
            ToolKind::Bash
        } else if name@ == "AskUser"@ {
            ToolKind::AskUser
        } else {
            ToolKind::Unknown
        }),
{
    if str_eq(name, "Bash") {
        ToolKind::Bash
    } else if str_eq(name, "AskUser") {
        ToolKind::AskUser
    } else {
        ToolKind::Unknown
    }
}

pub open spec fn unknown_tool_text(name: Seq<char>) -> Seq<char> {
    "Unknown tool \""@ + name + "\". Available tools: AskUser, Bash"@
}

pub open spec fn validation_text(tool: Seq<char>, error: Seq<char>) -> Seq<char> {
    tool + " tool call failed validation: "@ + error
}

/// The result for a call of a tool that does not exist.
pub fn unknown_tool_result(call: &ToolCall) -> (r: ToolResult)
    ensures
        r.kind@ == "tool-result"@,
        r.tool_call_id@ == call.tool_call_id@,
        r.tool_name@ == call.tool_name@,
        r.output matches ToolResultContent::ErrorText { value } && value@ == unknown_tool_text(call.tool_name@),
{
    let mut text = String::from_str("Unknown tool \"");
    text.append(call.tool_name.as_str());
    text.append("\". Available tools: AskUser, Bash");
    ToolResult {
        kind: String::from_str("tool-result"),
        tool_call_id: call.tool_call_id.clone(),
        tool_name: call.tool_name.clone(),
        output: ToolResultContent::ErrorText { value: text },
    }
}

/// The result for a call of `tool` whose input did not parse, for `error`.
pub fn validation_failure_result(call: &ToolCall, tool: &str, error: &str) -> (r: ToolResult)
    ensures
        r.kind@ == "tool-result"@,
        r.tool_call_id@ == call.tool_call_id@,
        r.tool_name@ == tool@,
        r.output matches ToolResultContent::ErrorText { value } && value@ == validation_text(tool@, error@),
{
    let mut text = String::from_str(tool);
    text.append(" tool call failed validation: ");
    text.append(error);
    ToolResult {
        kind: String::from_str("tool-result"),
        tool_call_id: call.tool_call_id.clone(),
        tool_name: String::from_str(tool),
        output: ToolResultContent::ErrorText { value: text },
    }
}

/// The result for a call of `tool` that produced `value`.
pub fn json_result(call: &ToolCall, tool: &str, value: Json) -> (r: ToolResult)
    ensures
        r.kind@ == "tool-result"@,
        r.tool_call_id@ == call.tool_call_id@,
        r.tool_name@ == tool@,
        r.output == (ToolResultContent::Json { value }),
{
    ToolResult {
        kind: String::from_str("tool-result"),
        tool_call_id: call.tool_call_id.clone(),
        tool_name: String::from_str(tool),
        output: ToolResultContent::Json { value },
    }
}

} // verus!

verus! {

/// Labels joined by `", "`.
pub open spec fn comma_joined(d: Seq<Seq<char>>) -> Seq<char>
    decreases d.len(),
{
    if d.len() == 0 {
        Seq::empty()
    } else if d.len() == 1 {
        d[0]
    } else {
        comma_joined(d.drop_last()) + ", "@ + d.last()
    }
}

/// The line that shows the risk and the tags of a command.
pub open spec fn risk_text(input: BashModelInput) -> Seq<char> {
    let tags = input.behavior_tags@.map_values(|t: crate::tools::bash::BehaviorTag| tag_label(t));
    "risk: "@ + risk_label(input.risk_level) + if tags.len() == 0 {
        Seq::empty()
    } else {
        " ["@ + comma_joined(tags) + "]"@
    }
}

/// `risk: <level>`, followed by the tags in brackets where there are any.
pub fn risk_line(model_input: &BashModelInput) -> (r: String)
    ensures
        r@ == risk_text(*model_input),
{
    let ghost tags = model_input.behavior_tags@.map_values(|t: crate::tools::bash::BehaviorTag| tag_label(t));
    let mut r = String::from_str("risk: ");
    r.append(model_input.risk_level.label());
    let n = model_input.behavior_tags.len();
    if n > 0 {
        let mut joined = String::from_str(model_input.behavior_tags[0].label());
        assert(tags.take(1).drop_last() =~= Seq::<Seq<char>>::empty());
        assert(comma_joined(tags.take(1)) == tags[0]);
        let mut i: usize = 1;
        while i < n
            invariant
                1 <= i <= n,
                n == model_input.behavior_tags@.len(),
                tags == model_input.behavior_tags@.map_values(|t: crate::tools::bash::BehaviorTag| tag_label(t)),
                joined@ == comma_joined(tags.take(i as int)),
            decreases n - i,
        {
            joined.append(", ");
            joined.append(model_input.behavior_tags[i].label());
            assert(tags.take(i + 1).drop_last() =~= tags.take(i as int));
            i += 1;
        }
        assert(tags.take(n as int) =~= tags);
        r.append(" [");
        r.append(joined.as_str());
        r.append("]");
    } else {
        proof {
            reveal_strlit("");
        }
    }
    assert(r@ =~= risk_text(*model_input));
    r
}

/// `i` in decimal, with a minus sign when negative.
pub open spec fn signed_decimal(i: int) -> Seq<char> {
    if i < 0 {
        "-"@ + decimal((-i) as nat)
    } else {
        decimal(i as nat)
    }
}

fn signed_decimal_string(i: i32) -> (r: String)
    ensures
        r@ == signed_decimal(i as int),
{
    if i < 0 {
        let magnitude: i64 = -(i as i64);
        let mut r = String::from_str("-");
        r.append(decimal_string(magnitude as u128).as_str());
        r
    } else {
        decimal_string(i as u128)
    }
}

pub open spec fn headline_text(output: BashToolOutput) -> Seq<char> {
    match output {
        BashToolOutput::Approved { command, exit_code, .. } => "Bash: "@ + command@ + "  (exit "@ + signed_decimal(exit_code as int) + ")"@,
        BashToolOutput::Rejected { command, .. } => "[Denied] Bash: "@ + command@,
    }
}

/// The line shown after a command: its exit code when it was approved, or
/// that it was denied.
pub fn outcome_headline(output: &BashToolOutput) -> (r: String)
    ensures
        r@ == headline_text(*output),
{
    match output {
        BashToolOutput::Approved { command, exit_code, .. } => {
            let mut r = String::from_str("Bash: ");
            r.append(command.as_str());
            r.append("  (exit ");
            r.append(signed_decimal_string(*exit_code).as_str());
            r.append(")");
            r
        },
        BashToolOutput::Rejected { command, .. } => {
            let mut r = String::from_str("[Denied] Bash: ");
            r.append(command.as_str());
            r
        },
    }
}

pub open spec fn token_text(u: Usage) -> Seq<char> {
    "tokens: in="@ + decimal(u.input_tokens as nat) + " out="@ + decimal(u.output_tokens as nat)
        + " cached="@ + decimal(u.cached_input_tokens as nat) + " reasoning="@ + decimal(
        u.reasoning_tokens as nat,
    )
}

/// The token tally shown at the end of a run.
pub fn token_summary(usage: &Usage) -> (r: String)
    ensures
        r@ == token_text(*usage),
{
    let mut r = String::from_str("tokens: in=");
    r.append(decimal_string(usage.input_tokens as u128).as_str());
    r.append(" out=");
    r.append(decimal_string(usage.output_tokens as u128).as_str());
    r.append(" cached=");
    r.append(decimal_string(usage.cached_input_tokens as u128).as_str());
    r.append(" reasoning=");
    r.append(decimal_string(usage.reasoning_tokens as u128).as_str());
    r
}

} // verus!

verus! {

/// `str::parse::<usize>`: an optional `+`, then one digit or more, of a
/// value that fits in `usize`.
pub open spec fn parse_usize(s: Seq<char>) -> Option<nat> {
    parse_unsigned(s, usize::MAX as nat)
}

/// `s` read as a `usize` as `str::parse` reads it, if it is one.
pub fn parse_index(s: &str) -> (r: Option<usize>)
    ensures
        match parse_usize(s@) {
            Some(v) => r == Some(v as usize),
            None => r is None,
        },
{
    let cs = chars_of(s);
    match parse_unsigned_chars(&cs, usize::MAX as u64) {
        Some(v) => Some(v as usize),
        None => None,
    }
}

/// The answer to a question as recorded: the label of the choice whose
/// number was typed (`0` counting as `1`), else the typed text itself.
pub open spec fn chosen_text(answer: Seq<char>, labels: Seq<Seq<char>>) -> Seq<char> {
    match parse_usize(answer) {
        Some(i) => {
            let k = if i == 0 {
                0
            } else {
                i - 1
            };
            if k < labels.len() {
                labels[k]
            } else {
                answer
            }
        },
        None => answer,
    }
}

pub open spec fn choice_labels(choices: Seq<QuestionChoice>) -> Seq<Seq<char>> {
    choices.map_values(|c: QuestionChoice| c.label@)
}

/// The recorded answer for what the user typed.
pub fn chosen_answer(answer: String, choices: &Vec<QuestionChoice>) -> (r: String)
    ensures
        r@ == chosen_text(answer@, choice_labels(choices@)),
{
    match parse_index(answer.as_str()) {
        Some(i) => {
            let k = if i == 0 {
                0
            } else {
                i - 1
            };
            if k < choices.len() {
                choices[k].label.clone()
            } else {
                answer
            }
        },
        None => answer,
    }
}

pub open spec fn choice_text(index: int, choice: QuestionChoice) -> Seq<char> {
    "  "@ + decimal((index + 1) as nat) + ") "@ + choice.label@ + match choice.description {
        Some(d) => " — "@ + d@,
        None => Seq::empty(),
    }
}

/// The line that offers choice number `index + 1`.
pub fn choice_line(index: usize, choice: &QuestionChoice) -> (r: String)
    requires
        index < usize::MAX,
    ensures
        r@ == choice_text(index as int, *choice),
{
    let mut r = String::from_str("  ");
    r.append(decimal_string((index + 1) as u128).as_str());
    r.append(") ");
    r.append(choice.label.as_str());
    match &choice.description {
        Some(d) => {
            r.append(" — ");
            r.append(d.as_str());
        },
        None => {
            proof {
                reveal_strlit("");
            }
        },
    }
    assert(r@ =~= choice_text(index as int, *choice));
    r
}

} // verus!

verus! {

/// What the line-mode view prints for one stream event.
#[derive(Debug, Clone, PartialEq, Eq)]
pub enum StreamPrint {
    Nothing,
    /// Answer text; after reasoning, two line breaks come first.
    Text { break_first: bool, text: String },
    /// Reasoning; where reasoning starts, the `thinking:` heading comes first.
    Reasoning { heading: bool, text: String },
}

/// What to print for `ev`, and whether reasoning is then the last thing
/// printed, given whether it was before. Reasoning is printed only when
/// `show_thinking` holds.
pub fn print_step(after_reasoning: bool, ev: &StreamEvent, show_thinking: bool) -> (r: (StreamPrint, bool))
    ensures
        match *ev {
            StreamEvent::TextDelta(t) => !r.1 && (r.0 matches StreamPrint::Text { break_first, text } && break_first
                == after_reasoning && text@ == t@),
            StreamEvent::ReasoningDelta(t) => if show_thinking {
                r.1 && (r.0 matches StreamPrint::Reasoning { heading, text } && heading == !after_reasoning && text@
                    == t@)
            } else {
                r.0 == StreamPrint::Nothing && r.1 == after_reasoning
            },
            _ => r.0 == StreamPrint::Nothing && r.1 == after_reasoning,
        },
{
    match ev {
        StreamEvent::TextDelta(t) => (StreamPrint::Text { break_first: after_reasoning, text: t.clone() }, false),
        StreamEvent::ReasoningDelta(t) => {
            if show_thinking {
                (StreamPrint::Reasoning { heading: !after_reasoning, text: t.clone() }, true)
            } else {
                (StreamPrint::Nothing, after_reasoning)
            }
        },
        _ => (StreamPrint::Nothing, after_reasoning),
    }
}

/// Whether the conversation goes on after a turn: it does while the model
/// asks for tool calls.
pub fn turn_continues(tool_calls: &Vec<ToolCall>) -> (r: bool)
    ensures
        r == (tool_calls@.len() > 0),
{
    tool_calls.len() > 0
}

} // verus!
