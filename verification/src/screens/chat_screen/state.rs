//! The chat screen's decisions: what a key does in each mode, and the queue
//! of tool calls waiting for the user.

use vstd::prelude::*;

use super::transcript::{down_five, up_five, Transcript};
use crate::logic::llm::messages::{ToolCall, ToolResult};
use crate::logic::llm::stream::{usage_sum, StreamEvent, Usage};
use crate::logic::llm::transcripts::{with_reasoning, with_text, AssistantBuilder, PartSpec};
use crate::screens::{Key, KeyCode};
use crate::text::string_of_chars;

verus! {

/// Whether the chat screen goes on.
#[derive(Debug, Clone, Copy, PartialEq, Eq, Structural)]
pub enum ChatScreenAction {
    Continue,
    Quit,
}

/// What the chat screen is doing.
#[derive(Debug, Clone, Copy, PartialEq, Eq, Structural)]
pub enum ChatMode {
    /// Waiting for the user's message.
    Idle,
    /// A model turn is arriving.
    Streaming,
    /// A tool call waits for the user's answer.
    AwaitingTool,
}

pub open spec fn mode_text(m: ChatMode) -> Seq<char> {
    match m {
        ChatMode::Idle => "idle"@,
        ChatMode::Streaming => "streaming…"@,
        ChatMode::AwaitingTool => "tool approval"@,
    }
}

/// The name of the mode shown in the header.
pub fn mode_label(m: ChatMode) -> (r: &'static str)
    ensures
        r@ == mode_text(m),
{
    match m {
        ChatMode::Idle => "idle",
        ChatMode::Streaming => "streaming…",
        ChatMode::AwaitingTool => "tool approval",
    }
}

/// Whether a key press is Control-C, which always quits.
pub fn is_interrupt(key: Key) -> (r: bool)
    ensures
        r == (key.ctrl && key.code == KeyCode::Char('c')),
{
    key.ctrl && match key.code {
        KeyCode::Char(c) => c == 'c',
        _ => false,
    }
}

/// What a key does while the screen is idle.
#[derive(Debug, Clone, PartialEq, Eq)]
pub enum IdleOutcome {
    Continue,
    Quit,
    /// Send this message.
    Send(String),
}

/// The message being typed.
pub struct ChatInput {
    text: Vec<char>,
}

impl ChatInput {
    pub closed spec fn view(&self) -> Seq<char> {
        self.text@
    }

    /// An empty input line.
    pub fn new() -> (r: ChatInput)
        ensures
            r.view() == Seq::<char>::empty(),
    {
        ChatInput { text: Vec::new() }
    }

    /// The text typed so far.
    pub fn text(&self) -> (r: String)
        ensures
            r@ == self.view(),
    {
        string_of_chars(&self.text)
    }

    /// Esc quits; Enter sends a non-empty message and clears the line;
    /// Backspace deletes; a character is appended; any other key scrolls
    /// the transcript.
    pub fn on_idle_key(&mut self, key: Key, transcript: &mut Transcript) -> (r: IdleOutcome)
        ensures
            final(transcript).show_thinking == old(transcript).show_thinking,
            match key.code {
                KeyCode::Esc => r == IdleOutcome::Quit && final(self).view() == old(self).view(),
                KeyCode::Enter => if old(self).view().len() > 0 {
                    r matches IdleOutcome::Send(m) && m@ == old(self).view() && final(self).view() == Seq::<char>::empty()
                } else {
                    r == IdleOutcome::Continue && final(self).view() == old(self).view()
                },
                KeyCode::Backspace => r == IdleOutcome::Continue && final(self).view() == (if old(self).view().len() > 0 {
                    old(self).view().drop_last()
                } else {
                    old(self).view()
                }),
                KeyCode::Char(c) => r == IdleOutcome::Continue && final(self).view() == old(self).view().push(c),
                _ => r == IdleOutcome::Continue && final(self).view() == old(self).view(),
            },
            match key.code {
                KeyCode::Esc | KeyCode::Enter | KeyCode::Backspace | KeyCode::Char(_) => *final(transcript) == *old(transcript),
                KeyCode::PageUp => final(transcript).scroll == up_five(old(transcript).scroll),
                KeyCode::PageDown => final(transcript).scroll == down_five(old(transcript).scroll),
                _ => *final(transcript) == *old(transcript),
            },
    {
        match key.code {
            KeyCode::Esc => IdleOutcome::Quit,
            KeyCode::Enter => {
                if self.text.len() > 0 {
                    let msg = string_of_chars(&self.text);
                    self.text = Vec::new();
                    IdleOutcome::Send(msg)
                } else {
                    IdleOutcome::Continue
                }
            },
            KeyCode::Backspace => {
                if self.text.len() > 0 {
                    self.text.pop();
                }
                IdleOutcome::Continue
            },
            KeyCode::Char(c) => {
                self.text.push(c);
                IdleOutcome::Continue
            },
            _ => {
                transcript.on_scroll_key(key);
                IdleOutcome::Continue
            },
        }
    }
}

/// The tool calls of a turn that still wait for the user, and the results
/// of those answered.
pub struct ToolQueue {
    pending: Vec<ToolCall>,
    results: Vec<ToolResult>,
}

impl ToolQueue {
    pub closed spec fn pending(&self) -> Seq<ToolCall> {
        self.pending@
    }

    pub closed spec fn results(&self) -> Seq<ToolResult> {
        self.results@
    }

    /// The queue for a turn's `calls`: the first call to answer now, and the
    /// queue of the others; nothing when the turn made no call.
    pub fn begin(calls: Vec<ToolCall>) -> (r: Option<(ToolCall, ToolQueue)>)
        ensures
            match r {
                Some((first, q)) => calls@.len() > 0 && first == calls@[0] && q.pending() == calls@.skip(1)
                    && q.results() == Seq::<ToolResult>::empty(),
                None => calls@.len() == 0,
            },
    {
        let mut pending = calls;
        if pending.len() == 0 {
            return None;
        }
        let ghost all = pending@;
        let first = pending.remove(0);
        assert(pending@ =~= all.skip(1));
        let q = ToolQueue { pending, results: Vec::new() };
        assert(q.results() =~= Seq::<ToolResult>::empty());
        Some((first, q))
    }

    /// Records the answer to the current call and hands out the next call,
    /// if one is waiting.
    pub fn record(&mut self, result: ToolResult) -> (r: Option<ToolCall>)
        ensures
            final(self).results() == old(self).results().push(result),
            match r {
                Some(next) => old(self).pending().len() > 0 && next == old(self).pending()[0]
                    && final(self).pending() == old(self).pending().skip(1),
                None => old(self).pending().len() == 0 && final(self).pending() == old(self).pending(),
            },
    {
        self.results.push(result);
        if self.pending.len() == 0 {
            None
        } else {
            let ghost all = self.pending@;
            let next = self.pending.remove(0);
            assert(self.pending@ =~= all.skip(1));
            Some(next)
        }
    }

    /// The results, in the order of the calls, leaving none behind.
    pub fn take_results(&mut self) -> (r: Vec<ToolResult>)
        ensures
            r@ == old(self).results(),
            final(self).results() == Seq::<ToolResult>::empty(),
            final(self).pending() == old(self).pending(),
    {
        let mut out: Vec<ToolResult> = Vec::new();
        std::mem::swap(&mut out, &mut self.results);
        assert(self.results() =~= Seq::<ToolResult>::empty());
        out
    }
}

/// The model turn being streamed: the message so far, and its text and
/// reasoning as the screen shows them while they arrive.
pub struct StreamingTurn {
    pub builder: AssistantBuilder,
    pub text: String,
    pub reasoning: String,
}

impl StreamingTurn {
    /// A turn with nothing received yet.
    pub fn new() -> (r: StreamingTurn)
        ensures
            r.builder.parts() == Seq::<PartSpec>::empty(),
            r.builder.calls() == Seq::<ToolCall>::empty(),
            r.text@ == Seq::<char>::empty(),
            r.reasoning@ == Seq::<char>::empty(),
    {
        StreamingTurn { builder: AssistantBuilder::new(), text: String::new(), reasoning: String::new() }
    }

    /// Takes one event of the turn and says whether the turn is over. Text
    /// and reasoning deltas grow both the message and what is shown; a tool
    /// call joins the message; token counts become the turn's and are added
    /// to `total`.
    pub fn on_event(&mut self, ev: StreamEvent, total: &mut Usage) -> (done: bool)
        ensures
            done == (ev is Done),
            match ev {
                StreamEvent::Usage(u) => final(self).builder.tally() == u && *final(total) == usage_sum(
                    *old(total),
                    u,
                ),
                _ => final(self).builder.tally() == old(self).builder.tally() && *final(total) == *old(total),
            },
            final(self).builder.parts() == (match ev {
                StreamEvent::TextDelta(t) => with_text(old(self).builder.parts(), t@),
                StreamEvent::ReasoningDelta(t) => with_reasoning(old(self).builder.parts(), t@),
                StreamEvent::ToolCall(c) => old(self).builder.parts().push(
                    PartSpec::ToolCall(c.tool_call_id@, c.tool_name@, c.input@),
                ),
                _ => old(self).builder.parts(),
            }),
            final(self).builder.calls() == (match ev {
                StreamEvent::ToolCall(c) => old(self).builder.calls().push(c),
                _ => old(self).builder.calls(),
            }),
            final(self).text@ == (match ev {
                StreamEvent::TextDelta(t) => old(self).text@ + t@,
                _ => old(self).text@,
            }),
            final(self).reasoning@ == (match ev {
                StreamEvent::ReasoningDelta(t) => old(self).reasoning@ + t@,
                _ => old(self).reasoning@,
            }),
    {
        match ev {
            StreamEvent::TextDelta(t) => {
                self.text.append(t.as_str());
                self.builder.push_text(t.as_str());
                false
            },
            StreamEvent::ReasoningDelta(t) => {
                self.reasoning.append(t.as_str());
                self.builder.push_reasoning(t.as_str());
                false
            },
            StreamEvent::ToolCall(c) => {
                self.builder.push_tool_call(c);
                false
            },
            StreamEvent::Usage(u) => {
                self.builder.set_usage(u);
                total.add(&u);
                false
            },
            StreamEvent::Done => true,
        }
    }
}

} // verus!
