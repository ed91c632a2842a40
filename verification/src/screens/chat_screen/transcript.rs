//! The transcript pane: how far it is scrolled, whether the model's
//! reasoning is shown, and the lines it shows for the conversation and for
//! the turn that is still streaming.

use vstd::prelude::*;

use crate::logic::llm::messages::{AssistantContent, AssistantPart, Message, ToolResult, ToolResultContent};
use crate::logic::llm::json::{bool_of, field_of, json_compact, str_of, Json, JsonSpec};
use crate::logic::llm::openai_compatible::{opt_chars, parts_of, user_text, user_text_of};
use crate::screens::{Key, KeyCode};
use crate::text::{split_lines, split_newlines, strings_view};
use crate::tools::bash::{truncatable, truncatable_text, truncate_for_display, truncated};

verus! {

#[derive(Debug, Clone, Copy, Default, PartialEq, Eq, Structural)]
pub struct Transcript {
    pub scroll: u16,
    pub show_thinking: bool,
}

/// `v - 5`, not below 0.
pub open spec fn up_five(v: u16) -> u16 {
    if v >= 5 {
        (v - 5) as u16
    } else {
        0
    }
}

/// `v + 5`, not above `u16::MAX`.
pub open spec fn down_five(v: u16) -> u16 {
    if v <= u16::MAX - 5 {
        (v + 5) as u16
    } else {
        u16::MAX
    }
}

impl Transcript {
    /// Page Up scrolls back five lines and Page Down forward five; other
    /// keys change nothing.
    pub fn on_scroll_key(&mut self, key: Key)
        ensures
            final(self).show_thinking == old(self).show_thinking,
            final(self).scroll == (match key.code {
                KeyCode::PageUp => up_five(old(self).scroll),
                KeyCode::PageDown => down_five(old(self).scroll),
                _ => old(self).scroll,
            }),
    {
        match key.code {
            KeyCode::PageUp => {
                self.scroll = self.scroll.saturating_sub(5);
            },
            KeyCode::PageDown => {
                self.scroll = self.scroll.saturating_add(5);
            },
            _ => {},
        }
    }
}

/// How a transcript line is drawn: a role heading, body text, dimmed text,
/// a tool call (its `head` in the call colour, then its `text`), tool
/// output, or an empty separator line.
#[derive(Debug, Clone, Copy, PartialEq, Eq, Structural)]
pub enum Tone {
    UserRole,
    AssistantRole,
    ToolRole,
    ThinkingRole,
    Primary,
    Secondary,
    ToolCall,
    Output,
    Blank,
}

/// One line of the transcript. `head` is empty but on tool-call lines.
#[derive(Debug, Clone, PartialEq, Eq)]
pub struct TranscriptLine {
    pub tone: Tone,
    pub head: String,
    pub text: String,
}

/// A line as its tone and the characters of its head and text.
pub type LineView = (Tone, Seq<char>, Seq<char>);

pub open spec fn line_view(l: TranscriptLine) -> LineView {
    (l.tone, l.head@, l.text@)
}

pub open spec fn lines_view(ls: Seq<TranscriptLine>) -> Seq<LineView> {
    ls.map_values(|l: TranscriptLine| line_view(l))
}

/// A line with no head.
pub open spec fn plain(tone: Tone, text: Seq<char>) -> LineView {
    (tone, Seq::empty(), text)
}

/// The lines of `s`, cut at each `\n`, all drawn in `tone`.
pub open spec fn text_lines(s: Seq<char>, tone: Tone) -> Seq<LineView> {
    split_newlines(s).map_values(|l: Seq<char>| plain(tone, l))
}

/// A part of an assistant message as the transcript shows it.
#[derive(Debug, Clone, PartialEq, Eq)]
pub enum ShownPart {
    Text(String),
    Reasoning(String),
    /// A tool call: the tool's name and a one-line summary of its input.
    Call { tool_name: String, summary: String },
}

/// A tool result as the transcript shows it.
#[derive(Debug, Clone, PartialEq, Eq)]
pub struct ShownResult {
    pub tool_name: String,
    pub body: String,
}

/// A message as the transcript shows it: plain text only.
#[derive(Debug, Clone, PartialEq, Eq)]
pub enum ShownMessage {
    User { text: String },
    Assistant { parts: Vec<ShownPart> },
    Tool { results: Vec<ShownResult> },
}

/// Text in the body colour; reasoning, when shown, under a `  thinking:`
/// line and dimmed; a tool call as `  <name> → ` and its summary.
pub open spec fn part_lines(p: ShownPart, show_thinking: bool) -> Seq<LineView> {
    match p {
        ShownPart::Text(t) => text_lines(t@, Tone::Primary),
        ShownPart::Reasoning(t) => if show_thinking {
            seq![plain(Tone::Secondary, "  thinking:"@)] + text_lines(t@, Tone::Secondary)
        } else {
            Seq::empty()
        },
        ShownPart::Call { tool_name, summary } => seq![
            (Tone::ToolCall, "  "@ + tool_name@ + " → "@, summary@),
        ],
    }
}

pub open spec fn parts_lines(ps: Seq<ShownPart>, show_thinking: bool) -> Seq<LineView>
    decreases ps.len(),
{
    if ps.len() == 0 {
        Seq::empty()
    } else {
        parts_lines(ps.drop_last(), show_thinking) + part_lines(ps.last(), show_thinking)
    }
}

/// Each result as a dimmed `  <name>:` line and its body in the output
/// colour.
pub open spec fn results_lines(rs: Seq<ShownResult>) -> Seq<LineView>
    decreases rs.len(),
{
    if rs.len() == 0 {
        Seq::empty()
    } else {
        results_lines(rs.drop_last()) + seq![plain(Tone::Secondary, "  "@ + rs.last().tool_name@ + ":"@)]
            + text_lines(rs.last().body@, Tone::Output)
    }
}

/// A message: its role heading, then its content.
pub open spec fn message_lines(m: ShownMessage, show_thinking: bool) -> Seq<LineView> {
    match m {
        ShownMessage::User { text } => seq![plain(Tone::UserRole, "user"@)] + text_lines(text@, Tone::Primary),
        ShownMessage::Assistant { parts } => seq![plain(Tone::AssistantRole, "assistant"@)] + parts_lines(
            parts@,
            show_thinking,
        ),
        ShownMessage::Tool { results } => seq![plain(Tone::ToolRole, "tool"@)] + results_lines(results@),
    }
}

/// Every message followed by an empty line.
pub open spec fn history_lines(h: Seq<ShownMessage>, show_thinking: bool) -> Seq<LineView>
    decreases h.len(),
{
    if h.len() == 0 {
        Seq::empty()
    } else {
        history_lines(h.drop_last(), show_thinking) + message_lines(h.last(), show_thinking) + seq![
            plain(Tone::Blank, Seq::empty()),
        ]
    }
}

/// The turn still streaming: its reasoning so far, when shown and not empty,
/// under a `thinking` heading and followed by an empty line; then its text so
/// far, when not empty, under an `assistant` heading.
pub open spec fn streaming_lines(text: Seq<char>, reasoning: Seq<char>, show_thinking: bool) -> Seq<
    LineView,
> {
    (if reasoning.len() > 0 && show_thinking {
        seq![plain(Tone::ThinkingRole, "thinking"@)] + text_lines(reasoning, Tone::Secondary) + seq![
            plain(Tone::Blank, Seq::empty()),
        ]
    } else {
        Seq::empty()
    }) + (if text.len() > 0 {
        seq![plain(Tone::AssistantRole, "assistant"@)] + text_lines(text, Tone::Primary)
    } else {
        Seq::empty()
    })
}

fn plain_line(tone: Tone, text: String) -> (r: TranscriptLine)
    ensures
        line_view(r) == plain(tone, text@),
{
    TranscriptLine { tone, head: String::new(), text }
}

/// Appends the lines of `text` in `tone`.
fn push_text_lines(out: &mut Vec<TranscriptLine>, text: &str, tone: Tone)
    ensures
        lines_view(final(out)@) == lines_view(old(out)@) + text_lines(text@, tone),
{
    let pieces = split_lines(text);
    let ghost start = lines_view(out@);
    let ghost want = text_lines(text@, tone);
    let mut i: usize = 0;
    while i < pieces.len()
        invariant
            i <= pieces@.len(),
            strings_view(pieces@) == split_newlines(text@),
            want == text_lines(text@, tone),
            lines_view(out@) == start + want.take(i as int),
        decreases pieces@.len() - i,
    {
        let ghost before = out@;
        out.push(plain_line(tone, pieces[i].clone()));
        assert(strings_view(pieces@)[i as int] == pieces@[i as int]@);
        assert(want[i as int] == plain(tone, pieces@[i as int]@));
        assert(lines_view(out@) =~= lines_view(before).push(want[i as int]));
        assert(want.take(i + 1) =~= want.take(i as int).push(want[i as int]));
        i += 1;
    }
    assert(want.take(i as int) =~= want);
}

fn push_line(out: &mut Vec<TranscriptLine>, l: TranscriptLine)
    ensures
        lines_view(final(out)@) == lines_view(old(out)@).push(line_view(l)),
{
    let ghost before = out@;
    out.push(l);
    assert(lines_view(out@) =~= lines_view(before).push(line_view(l)));
}

fn push_part_lines(out: &mut Vec<TranscriptLine>, p: &ShownPart, show_thinking: bool)
    ensures
        lines_view(final(out)@) == lines_view(old(out)@) + part_lines(*p, show_thinking),
{
    match p {
        ShownPart::Text(t) => push_text_lines(out, t.as_str(), Tone::Primary),
        ShownPart::Reasoning(t) => {
            if show_thinking {
                let ghost start = lines_view(out@);
                push_line(out, plain_line(Tone::Secondary, String::from_str("  thinking:")));
                push_text_lines(out, t.as_str(), Tone::Secondary);
                assert(lines_view(out@) =~= start + part_lines(*p, show_thinking));
            } else {
                assert(lines_view(out@) =~= lines_view(out@) + part_lines(*p, show_thinking));
            }
        },
        ShownPart::Call { tool_name, summary } => {
            let mut head = String::from_str("  ");
            head.append(tool_name.as_str());
            head.append(" → ");
            let ghost start = lines_view(out@);
            push_line(out, TranscriptLine { tone: Tone::ToolCall, head, text: summary.clone() });
            assert(lines_view(out@) =~= start + part_lines(*p, show_thinking));
        },
    }
}

fn push_message_lines(out: &mut Vec<TranscriptLine>, m: &ShownMessage, show_thinking: bool)
    ensures
        lines_view(final(out)@) == lines_view(old(out)@) + message_lines(*m, show_thinking),
{
    let ghost start = lines_view(out@);
    match m {
        ShownMessage::User { text } => {
            push_line(out, plain_line(Tone::UserRole, String::from_str("user")));
            push_text_lines(out, text.as_str(), Tone::Primary);
            assert(lines_view(out@) =~= start + message_lines(*m, show_thinking));
        },
        ShownMessage::Assistant { parts } => {
            push_line(out, plain_line(Tone::AssistantRole, String::from_str("assistant")));
            let ghost head = lines_view(out@);
            let mut i: usize = 0;
            while i < parts.len()
                invariant
                    i <= parts@.len(),
                    lines_view(out@) == head + parts_lines(parts@.take(i as int), show_thinking),
                decreases parts@.len() - i,
            {
                push_part_lines(out, &parts[i], show_thinking);
                assert(parts@.take(i + 1).drop_last() =~= parts@.take(i as int));
                i += 1;
                assert(lines_view(out@) =~= head + parts_lines(parts@.take(i as int), show_thinking));
            }
            assert(parts@.take(i as int) =~= parts@);
            assert(lines_view(out@) =~= start + message_lines(*m, show_thinking));
        },
        ShownMessage::Tool { results } => {
            push_line(out, plain_line(Tone::ToolRole, String::from_str("tool")));
            let ghost head = lines_view(out@);
            let mut i: usize = 0;
            while i < results.len()
                invariant
                    i <= results@.len(),
                    lines_view(out@) == head + results_lines(results@.take(i as int)),
                decreases results@.len() - i,
            {
                let r = &results[i];
                let mut label = String::from_str("  ");
                label.append(r.tool_name.as_str());
                label.append(":");
                push_line(out, plain_line(Tone::Secondary, label));
                push_text_lines(out, r.body.as_str(), Tone::Output);
                assert(results@.take(i + 1).drop_last() =~= results@.take(i as int));
                i += 1;
                assert(lines_view(out@) =~= head + results_lines(results@.take(i as int)));
            }
            assert(results@.take(i as int) =~= results@);
            assert(lines_view(out@) =~= start + message_lines(*m, show_thinking));
        },
    }
}

impl Transcript {
    /// The lines the transcript shows: each message of `history` followed
    /// by an empty line, then the turn still streaming.
    pub fn lines(&self, history: &Vec<ShownMessage>, streaming_text: &str, streaming_reasoning: &str) -> (r:
        Vec<TranscriptLine>)
        ensures
            lines_view(r@) == history_lines(history@, self.show_thinking) + streaming_lines(
                streaming_text@,
                streaming_reasoning@,
                self.show_thinking,
            ),
    {
        let show = self.show_thinking;
        let mut out: Vec<TranscriptLine> = Vec::new();
        let mut i: usize = 0;
        assert(lines_view(out@) =~= history_lines(history@.take(0), show));
        while i < history.len()
            invariant
                i <= history@.len(),
                show == self.show_thinking,
                lines_view(out@) == history_lines(history@.take(i as int), show),
            decreases history@.len() - i,
        {
            push_message_lines(&mut out, &history[i], show);
            push_line(&mut out, plain_line(Tone::Blank, String::new()));
            assert(history@.take(i + 1).drop_last() =~= history@.take(i as int));
            i += 1;
            assert(lines_view(out@) =~= history_lines(history@.take(i as int), show));
        }
        assert(history@.take(i as int) =~= history@);
        let ghost done = lines_view(out@);
        if streaming_reasoning.unicode_len() > 0 && show {
            push_line(&mut out, plain_line(Tone::ThinkingRole, String::from_str("thinking")));
            push_text_lines(&mut out, streaming_reasoning, Tone::Secondary);
            push_line(&mut out, plain_line(Tone::Blank, String::new()));
        }
        let ghost mid = lines_view(out@);
        if streaming_text.unicode_len() > 0 {
            push_line(&mut out, plain_line(Tone::AssistantRole, String::from_str("assistant")));
            push_text_lines(&mut out, streaming_text, Tone::Primary);
        }
        assert(lines_view(out@) =~= done + streaming_lines(streaming_text@, streaming_reasoning@, show));
        out
    }
}

/// The summary of a tool call: the `command` field of its input where that
/// is a string, else nothing.
pub open spec fn summary_of(input: JsonSpec) -> Seq<char> {
    match str_of(field_of(input, "command"@)) {
        Some(c) => c,
        None => Seq::empty(),
    }
}

/// How a part of an assistant message is shown: text and reasoning as they
/// are, a tool call under its tool's name with the summary of its input.
pub open spec fn part_shown(p: AssistantPart, s: ShownPart) -> bool {
    match p {
        AssistantPart::Text { text } => s matches ShownPart::Text(t) && t@ == text@,
        AssistantPart::Reasoning { text } => s matches ShownPart::Reasoning(t) && t@ == text@,
        AssistantPart::ToolCall { tool_name, input, .. } => s matches ShownPart::Call { tool_name: n, summary }
            && n@ == tool_name@ && summary@ == summary_of(input@),
    }
}

/// The command output a JSON result holds, where it holds one.
pub open spec fn command_output_of(v: JsonSpec) -> Option<Seq<char>> {
    str_of(field_of(v, "commandOutput"@))
}

/// The body shown for a tool result: an error text as it is, error JSON as
/// its compact text, and a JSON result as [`tool_body_of`] says.
pub open spec fn body_of(o: ToolResultContent) -> Seq<char> {
    match o {
        ToolResultContent::Json { value } => tool_body_of(
            command_output_of(value@),
            bool_of(field_of(value@, "approved"@)),
            json_compact(value@),
        ),
        ToolResultContent::ErrorText { value } => value@,
        ToolResultContent::ErrorJson { value } => json_compact(value@),
    }
}

/// Whether a tool result can be shown: a command output it holds must be
/// one whose kept lines can lose their first five bytes.
pub open spec fn showable(o: ToolResultContent) -> bool {
    match o {
        ToolResultContent::Json { value } => match command_output_of(value@) {
            Some(out) => truncatable(out),
            None => true,
        },
        _ => true,
    }
}

/// How a tool result is shown: under its tool's name, with its body.
pub open spec fn result_shown(r: ToolResult, s: ShownResult) -> bool {
    &&& s.tool_name@ == r.tool_name@
    &&& s.body@ == body_of(r.output)
}

/// How a message is shown: a user message as its joined text, an assistant
/// message part by part, a tool message result by result.
pub open spec fn shown_as(m: Message, s: ShownMessage) -> bool {
    match m {
        Message::User { content } => s matches ShownMessage::User { text } && text@ == user_text_of(content),
        Message::Assistant { content } => s matches ShownMessage::Assistant { parts } && parts@.len()
            == parts_of(content).len() && forall|i: int|
            0 <= i < parts@.len() ==> part_shown(parts_of(content)[i], #[trigger] parts@[i]),
        Message::Tool { content } => s matches ShownMessage::Tool { results } && results@.len()
            == content@.len() && forall|i: int|
            0 <= i < results@.len() ==> result_shown(content@[i], #[trigger] results@[i]),
    }
}

/// Whether every result of a message can be shown; see [`showable`].
pub open spec fn message_showable(m: Message) -> bool {
    match m {
        Message::Tool { content } => forall|i: int| 0 <= i < content@.len() ==> showable(#[trigger] content@[i].output),
        _ => true,
    }
}

/// The body shown for a JSON tool result, from what it holds: the command
/// output, cut for display, where there is one; else `[denied]` where the
/// call was refused; else the compact JSON text.
pub open spec fn tool_body_of(command_output: Option<Seq<char>>, approved: Option<bool>, compact: Seq<char>) -> Seq<
    char,
> {
    match command_output {
        Some(out) => truncated(out),
        None => if approved == Some(false) {
            "[denied]"@
        } else {
            compact
        },
    }
}

/// The body shown for a JSON tool result; see [`tool_body_of`].
pub fn tool_body(command_output: Option<String>, approved: Option<bool>, compact: String) -> (r: String)
    requires
        command_output matches Some(out) ==> truncatable(out@),
    ensures
        r@ == tool_body_of(opt_chars(command_output), approved, compact@),
{
    match command_output {
        Some(out) => truncate_for_display(out.as_str()),
        None => {
            if approved == Some(false) {
                String::from_str("[denied]")
            } else {
                compact
            }
        },
    }
}

/// Field `key` of `v` where it is a string.
fn str_field(v: &Json, key: &str) -> (r: Option<String>)
    ensures
        opt_chars(r) == str_of(field_of(v@, key@)),
{
    match v.field(key) {
        Some(f) => f.as_str(),
        None => None,
    }
}

/// The compact JSON text of `v`.
fn compact_json(v: &Json) -> (r: String)
    ensures
        r@ == json_compact(v@),
{
    v.to_compact_string()
}

fn shown_part(p: &AssistantPart) -> (r: ShownPart)
    ensures
        part_shown(*p, r),
{
    match p {
        AssistantPart::Text { text } => ShownPart::Text(text.clone()),
        AssistantPart::Reasoning { text } => ShownPart::Reasoning(text.clone()),
        AssistantPart::ToolCall { tool_name, input, .. } => {
            let summary = match str_field(input, "command") {
                Some(c) => c,
                None => String::new(),
            };
            ShownPart::Call { tool_name: tool_name.clone(), summary }
        },
    }
}

/// `None` only for a JSON result that holds a command output that cannot
/// be cut for display; an error result is always shown.
fn shown_result(r: &ToolResult) -> (s: Option<ShownResult>)
    ensures
        s matches Some(x) ==> result_shown(*r, x),
        !(r.output is Json) ==> s is Some,
        s is Some <==> showable(r.output),
{
    let body = match &r.output {
        ToolResultContent::Json { value } => {
            let out = str_field(value, "commandOutput");
            match &out {
                Some(o) => {
                    if !truncatable_text(o.as_str()) {
                        return None;
                    }
                },
                None => {},
            }
            let approved = match value.field("approved") {
                Some(a) => a.as_bool(),
                None => None,
            };
            tool_body(out, approved, compact_json(value))
        },
        ToolResultContent::ErrorText { value } => value.clone(),
        ToolResultContent::ErrorJson { value } => compact_json(value),
    };
    Some(ShownResult { tool_name: r.tool_name.clone(), body })
}

/// A message as the transcript shows it. `None` for a tool message with a
/// command output whose kept lines cannot lose their first five bytes.
pub fn shown_message(m: &Message) -> (r: Option<ShownMessage>)
    ensures
        r is Some <==> message_showable(*m),
        match r {
            Some(s) => shown_as(*m, s),
            None => m is Tool,
        },
{
    match m {
        Message::User { content } => Some(ShownMessage::User { text: user_text(content) }),
        Message::Assistant { content } => {
            let mut parts: Vec<ShownPart> = Vec::new();
            match content {
                AssistantContent::Text(t) => {
                    parts.push(ShownPart::Text(t.clone()));
                },
                AssistantContent::Parts(ps) => {
                    let mut i: usize = 0;
                    while i < ps.len()
                        invariant
                            i <= ps@.len(),
                            parts@.len() == i,
                            forall|j: int| 0 <= j < i ==> part_shown(ps@[j], #[trigger] parts@[j]),
                        decreases ps@.len() - i,
                    {
                        parts.push(shown_part(&ps[i]));
                        i += 1;
                    }
                },
            }
            Some(ShownMessage::Assistant { parts })
        },
        Message::Tool { content } => {
            let mut results: Vec<ShownResult> = Vec::new();
            let mut i: usize = 0;
            while i < content.len()
                invariant
                    m is Tool,
                    m->Tool_content == *content,
                    i <= content@.len(),
                    results@.len() == i,
                    forall|j: int| 0 <= j < i ==> result_shown(content@[j], #[trigger] results@[j]),
                    forall|j: int| 0 <= j < i ==> showable(#[trigger] content@[j].output),
                decreases content@.len() - i,
            {
                match shown_result(&content[i]) {
                    Some(x) => results.push(x),
                    None => {
                        assert(!showable(content@[i as int].output));
                        return None;
                    },
                }
                i += 1;
            }
            Some(ShownMessage::Tool { results })
        },
    }
}

} // verus!
