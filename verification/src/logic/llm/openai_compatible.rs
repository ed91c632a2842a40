//! The Chat Completions protocol: what a streamed chunk yields, and how the
//! pieces of a tool call are put together. Sending the request and reading
//! the chunks is the caller's work.

use vstd::prelude::*;

use super::json::{empty_object, entries_view, items_view, json_compact, json_str, json_text, json_u64, parse_json, push_entry, push_item, Json, JsonSpec};
use crate::text::decimal;
use super::messages::{AssistantContent, AssistantPart, Message, MessageContent, ToolCall, ToolResult, ToolResultContent, UserPart};
use super::stream::{StreamEvent, Usage};
use super::tool_def::{duplicate_tools, tools_view, ToolDef};
use super::GenerationOptions;
use crate::logic::provider::NamedProvider;
use crate::logic::settings::ReasoningEffort;
use crate::text::{range_eq, str_eq, trim, trim_chars};

verus! {

/// The Chat Completions client. It holds no state.
#[derive(Debug, Default)]
pub struct OpenAiCompatibleClient;

impl OpenAiCompatibleClient {
    pub fn new() -> (r: OpenAiCompatibleClient) {
        OpenAiCompatibleClient
    }
}

pub open spec fn effort_word(e: ReasoningEffort) -> Seq<char> {
    match e {
        ReasoningEffort::Low => "low"@,
        ReasoningEffort::Med => "medium"@,
        ReasoningEffort::High => "high"@,
    }
}

/// The `reasoning_effort` value for `e`.
pub fn reasoning_effort_string(e: ReasoningEffort) -> (r: &'static str)
    ensures
        r@ == effort_word(e),
{
    match e {
        ReasoningEffort::Low => "low",
        ReasoningEffort::Med => "medium",
        ReasoningEffort::High => "high",
    }
}

/// The data line that ends a stream.
pub fn is_done_marker(data: &str) -> (r: bool)
    ensures
        r == (data@ == "[DONE]"@),
{
    str_eq(data, "[DONE]")
}

/// Token counts as the protocol reports them; any may be missing.
#[derive(Debug, Clone, Copy, PartialEq, Eq, Structural)]
pub struct OaiUsage {
    pub prompt_tokens: Option<u32>,
    pub completion_tokens: Option<u32>,
    pub cached_tokens: Option<u32>,
    pub reasoning_tokens: Option<u32>,
}

pub open spec fn or_zero(o: Option<u32>) -> u32 {
    match o {
        Some(v) => v,
        None => 0,
    }
}

/// The tally for reported counts, a missing count being zero.
pub open spec fn usage_of(u: OaiUsage) -> Usage {
    Usage {
        input_tokens: or_zero(u.prompt_tokens),
        output_tokens: or_zero(u.completion_tokens),
        cached_input_tokens: or_zero(u.cached_tokens),
        reasoning_tokens: or_zero(u.reasoning_tokens),
    }
}

/// The tally for reported counts, a missing count being zero.
pub fn usage_from_oai(u: &OaiUsage) -> (r: Usage)
    ensures
        r == usage_of(*u),
{
    Usage {
        input_tokens: match u.prompt_tokens {
            Some(v) => v,
            None => 0,
        },
        output_tokens: match u.completion_tokens {
            Some(v) => v,
            None => 0,
        },
        cached_input_tokens: match u.cached_tokens {
            Some(v) => v,
            None => 0,
        },
        reasoning_tokens: match u.reasoning_tokens {
            Some(v) => v,
            None => 0,
        },
    }
}

/// A piece of a tool call: the call's position in the turn, and what this
/// piece adds to it.
#[derive(Debug, Clone, PartialEq, Eq)]
pub struct DeltaToolCall {
    pub index: u32,
    pub id: Option<String>,
    pub name: Option<String>,
    pub arguments: Option<String>,
}

#[derive(Debug, Clone, PartialEq, Eq)]
pub struct OaiDelta {
    pub content: Option<String>,
    pub reasoning_content: Option<String>,
    pub reasoning: Option<String>,
    pub tool_calls: Option<Vec<DeltaToolCall>>,
}

#[derive(Debug, Clone, PartialEq, Eq)]
pub struct OaiChoice {
    pub delta: Option<OaiDelta>,
    pub finish_reason: Option<String>,
}

/// One streamed chunk.
#[derive(Debug, Clone, PartialEq, Eq)]
pub struct OaiChunk {
    pub choices: Vec<OaiChoice>,
    pub usage: Option<OaiUsage>,
}

/// A tool call being put together.
#[derive(Debug, Clone, PartialEq, Eq)]
pub struct BufferedToolCall {
    pub id: Option<String>,
    pub name: Option<String>,
    pub arguments: String,
}

/// A buffered call as the contracts see it.
pub struct BufferView {
    pub id: Option<Seq<char>>,
    pub name: Option<Seq<char>>,
    pub arguments: Seq<char>,
}

pub open spec fn opt_chars(o: Option<String>) -> Option<Seq<char>> {
    match o {
        Some(s) => Some(s@),
        None => None,
    }
}

pub open spec fn buffer_view(b: BufferedToolCall) -> BufferView {
    BufferView { id: opt_chars(b.id), name: opt_chars(b.name), arguments: b.arguments@ }
}

/// `b` with the piece `d` added: a new id or name replaces the old one, and
/// arguments are appended.
pub open spec fn with_piece(b: BufferView, d: DeltaToolCall) -> BufferView {
    BufferView {
        id: if d.id is Some { opt_chars(d.id) } else { b.id },
        name: if d.name is Some { opt_chars(d.name) } else { b.name },
        arguments: match d.arguments {
            Some(a) => b.arguments + a@,
            None => b.arguments,
        },
    }
}

pub open spec fn empty_buffer() -> BufferView {
    BufferView { id: None, name: None, arguments: Seq::empty() }
}

/// The input of a call from its arguments text: `{}` when the text is
/// blank or not JSON, else the JSON value it holds.
pub open spec fn input_of(arguments: Seq<char>) -> JsonSpec {
    if trim(arguments).len() == 0 {
        empty_object()
    } else {
        match json_text(arguments) {
            Some(j) => j,
            None => empty_object(),
        }
    }
}

/// The input of a call from its arguments text; see [`input_of`].
pub(crate) fn arguments_value(arguments: &str) -> (r: Json)
    ensures
        r@ == input_of(arguments@),
{
    let t = trim_chars(arguments);
    if t.len() == 0 {
        Json::empty_object()
    } else {
        match parse_json(arguments) {
            Some(v) => v,
            None => Json::empty_object(),
        }
    }
}

impl BufferedToolCall {
    /// The finished call: none without an id and a name.
    pub fn into_call(self) -> (r: Option<ToolCall>)
        ensures
            match (self.id, self.name) {
                (Some(id), Some(name)) => r matches Some(c) && c.tool_call_id == id && c.tool_name == name
                    && c.input@ == input_of(self.arguments@),
                _ => r is None,
            },
    {
        match (self.id, self.name) {
            (Some(id), Some(name)) => {
                let input = arguments_value(self.arguments.as_str());
                Some(ToolCall { tool_call_id: id, tool_name: name, input })
            },
            _ => None,
        }
    }
}

/// An event as the contracts see it.
pub enum EventView {
    Text(Seq<char>),
    Reasoning(Seq<char>),
    /// A tool call: its id, name and input.
    Call(Seq<char>, Seq<char>, JsonSpec),
    Usage(Usage),
    Done,
}

pub open spec fn event_view(e: StreamEvent) -> EventView {
    match e {
        StreamEvent::TextDelta(t) => EventView::Text(t@),
        StreamEvent::ReasoningDelta(t) => EventView::Reasoning(t@),
        StreamEvent::ToolCall(c) => EventView::Call(c.tool_call_id@, c.tool_name@, c.input@),
        StreamEvent::Usage(u) => EventView::Usage(u),
        StreamEvent::Done => EventView::Done,
    }
}

pub open spec fn events_view(es: Seq<StreamEvent>) -> Seq<EventView> {
    es.map_values(|e: StreamEvent| event_view(e))
}

/// The calls among `buffers` that have an id and a name, in order.
pub open spec fn finished_calls(buffers: Seq<(u32, BufferView)>) -> Seq<EventView>
    decreases buffers.len(),
{
    if buffers.len() == 0 {
        Seq::empty()
    } else {
        let rest = finished_calls(buffers.drop_last());
        let b = buffers.last().1;
        match (b.id, b.name) {
            (Some(id), Some(name)) => rest.push(EventView::Call(id, name, input_of(b.arguments))),
            _ => rest,
        }
    }
}

/// Indices strictly increase along `s`.
pub open spec fn ascending(s: Seq<(u32, BufferView)>) -> bool {
    forall|i: int, j: int| 0 <= i < j < s.len() ==> #[trigger] s[i].0 < #[trigger] s[j].0
}

pub open spec fn buffers_view(s: Seq<(u32, BufferedToolCall)>) -> Seq<(u32, BufferView)> {
    s.map_values(|p: (u32, BufferedToolCall)| (p.0, buffer_view(p.1)))
}

/// The number of entries of `s` before position `index`.
pub open spec fn insertion_point(s: Seq<(u32, BufferView)>, index: u32) -> int
    decreases s.len(),
{
    if s.len() == 0 {
        0
    } else if s.last().0 < index {
        s.len() as int
    } else {
        insertion_point(s.drop_last(), index)
    }
}

/// The buffered calls with the piece `d` added at its position, a new
/// position taking its place in order.
pub open spec fn buffers_with(s: Seq<(u32, BufferView)>, d: DeltaToolCall) -> Seq<(u32, BufferView)> {
    if exists|i: int| 0 <= i < s.len() && s[i].0 == d.index {
        let i = choose|i: int| 0 <= i < s.len() && s[i].0 == d.index;
        s.update(i, (d.index, with_piece(s[i].1, d)))
    } else {
        s.insert(insertion_point(s, d.index), (d.index, with_piece(empty_buffer(), d)))
    }
}

/// The buffered calls with the pieces `ds` added, first to last.
pub open spec fn buffers_with_all(s: Seq<(u32, BufferView)>, ds: Seq<DeltaToolCall>) -> Seq<(u32, BufferView)>
    decreases ds.len(),
{
    if ds.len() == 0 {
        s
    } else {
        buffers_with(buffers_with_all(s, ds.drop_last()), ds.last())
    }
}

pub open spec fn nonempty_text(o: Option<String>, f: spec_fn(Seq<char>) -> EventView) -> Seq<EventView> {
    match o {
        Some(t) => if t@.len() > 0 { seq![f(t@)] } else { Seq::empty() },
        None => Seq::empty(),
    }
}

pub open spec fn ends_turn(reason: Option<String>) -> bool {
    match reason {
        Some(r) => r@ == "tool_calls"@ || r@ == "stop"@,
        None => false,
    }
}

/// One choice of a chunk: its text, its reasoning (the `reasoning_content`
/// field, else `reasoning`), each when not empty; its tool-call pieces are
/// buffered; and a `tool_calls` or `stop` finish emits the finished calls
/// and forgets the buffered ones.
pub open spec fn choice_step(s: Seq<(u32, BufferView)>, c: OaiChoice) -> (Seq<(u32, BufferView)>, Seq<EventView>) {
    let (texts, s1) = match c.delta {
        Some(d) => (
            nonempty_text(d.content, |t: Seq<char>| EventView::Text(t)) + nonempty_text(
                if d.reasoning_content is Some { d.reasoning_content } else { d.reasoning },
                |t: Seq<char>| EventView::Reasoning(t),
            ),
            match d.tool_calls {
                Some(calls) => buffers_with_all(s, calls@),
                None => s,
            },
        ),
        None => (Seq::empty(), s),
    };
    if ends_turn(c.finish_reason) {
        (Seq::empty(), texts + finished_calls(s1))
    } else {
        (s1, texts)
    }
}

/// The choices of a chunk, first to last.
pub open spec fn choices_step(s: Seq<(u32, BufferView)>, cs: Seq<OaiChoice>) -> (Seq<(u32, BufferView)>, Seq<EventView>)
    decreases cs.len(),
{
    if cs.len() == 0 {
        (s, Seq::empty())
    } else {
        let (s1, e1) = choices_step(s, cs.drop_last());
        let (s2, e2) = choice_step(s1, cs.last());
        (s2, e1 + e2)
    }
}

proof fn lemma_insertion_point(s: Seq<(u32, BufferView)>, index: u32)
    requires
        ascending(s),
        forall|i: int| 0 <= i < s.len() ==> s[i].0 != index,
    ensures
        0 <= insertion_point(s, index) <= s.len(),
        forall|i: int| 0 <= i < insertion_point(s, index) ==> s[i].0 < index,
        forall|i: int| insertion_point(s, index) <= i < s.len() ==> s[i].0 > index,
    decreases s.len(),
{
    if s.len() > 0 {
        let t = s.drop_last();
        assert(ascending(t));
        lemma_insertion_point(t, index);
        assert(forall|i: int| 0 <= i < t.len() ==> t[i] == s[i]);
        if s.last().0 < index {
            assert forall|i: int| 0 <= i < s.len() implies s[i].0 < index by {
                if i < s.len() - 1 {
                    assert(s[i].0 < s[s.len() - 1].0);
                }
            }
        }
    }
}

/// The state of one streamed turn: the tool calls being put together, by
/// position, and the last usage report.
pub struct OaiTurn {
    buffers: Vec<(u32, BufferedToolCall)>,
    last_usage: Option<Usage>,
}

impl OaiTurn {
    pub closed spec fn buffers(&self) -> Seq<(u32, BufferView)> {
        buffers_view(self.buffers@)
    }

    /// The buffered calls are kept in ascending order of position.
    #[verifier::type_invariant]
    closed spec fn wf(self) -> bool {
        ascending(buffers_view(self.buffers@))
    }

    pub closed spec fn last_usage(&self) -> Option<Usage> {
        self.last_usage
    }

    /// A turn with nothing buffered.
    pub fn new() -> (r: OaiTurn)
        ensures
            r.buffers() == Seq::<(u32, BufferView)>::empty(),
            r.last_usage() is None,
    {
        let r = OaiTurn { buffers: Vec::new(), last_usage: None };
        assert(r.buffers() =~= Seq::<(u32, BufferView)>::empty());
        r
    }

    /// Adds the piece `d` to the call at its position.
    pub fn add_piece(&mut self, d: DeltaToolCall)
        ensures
            ascending(final(self).buffers()),
            final(self).buffers() == buffers_with(old(self).buffers(), d),
            final(self).last_usage() == old(self).last_usage(),
    {
        proof {
            use_type_invariant(&*self);
        }
        let mut bufs: Vec<(u32, BufferedToolCall)> = Vec::new();
        std::mem::swap(&mut bufs, &mut self.buffers);
        Self::add_piece_to(&mut bufs, d);
        self.buffers = bufs;
    }

    /// Adds the piece `d` to the call at its position among `bufs`.
    fn add_piece_to(bufs: &mut Vec<(u32, BufferedToolCall)>, d: DeltaToolCall)
        requires
            ascending(buffers_view(old(bufs)@)),
        ensures
            ascending(buffers_view(final(bufs)@)),
            buffers_view(final(bufs)@) == buffers_with(buffers_view(old(bufs)@), d),
    {
        let ghost s = buffers_view(bufs@);
        let n = bufs.len();
        let mut i: usize = 0;
        while i < n
            invariant
                i <= n,
                n == bufs@.len(),
                s == buffers_view(bufs@),
                ascending(s),
                forall|k: int| 0 <= k < i ==> s[k].0 != d.index,
                bufs@ == old(bufs)@,
            decreases n - i,
        {
            assert(s[i as int].0 == bufs@[i as int].0);
            if bufs[i].0 == d.index {
                let ghost before = bufs@;
                let (idx, mut buf) = bufs.remove(i);
                assert(buffers_view(before)[i as int] == s[i as int]);
                assert(buffer_view(buf) == s[i as int].1);
                merge(&mut buf, d);
                bufs.insert(i, (idx, buf));
                assert(bufs@ =~= before.update(i as int, (idx, buf)));
                proof {
                    assert(exists|k: int| 0 <= k < s.len() && s[k].0 == d.index);
                    let c = choose|k: int| 0 <= k < s.len() && s[k].0 == d.index;
                    if c != i {
                        assert(s[c].0 == s[i as int].0);
                    }
                    assert(buffers_view(bufs@) =~= s.update(i as int, (d.index, with_piece(s[i as int].1, d))));
                }
                return;
            }
            i += 1;
        }
        let index = d.index;
        let mut buf = BufferedToolCall { id: None, name: None, arguments: String::new() };
        assert(buffer_view(buf) =~= empty_buffer());
        merge(&mut buf, d);
        proof {
            lemma_insertion_point(s, index);
        }
        let mut k: usize = 0;
        while k < n && bufs[k].0 < index
            invariant
                k <= n,
                n == bufs@.len(),
                s == buffers_view(bufs@),
                0 <= insertion_point(s, index) <= s.len(),
                forall|j: int| 0 <= j < insertion_point(s, index) ==> s[j].0 < index,
                forall|j: int| insertion_point(s, index) <= j < s.len() ==> s[j].0 > index,
                k <= insertion_point(s, index),
            decreases n - k,
        {
            assert(s[k as int].0 == bufs@[k as int].0);
            k += 1;
        }
        if k < n {
            assert(s[k as int].0 == bufs@[k as int].0);
        }
        assert(k == insertion_point(s, index));
        bufs.insert(k, (index, buf));
        assert(buffers_view(bufs@) =~= s.insert(k as int, (index, with_piece(empty_buffer(), d))));
    }

    /// Emits the finished calls in order of position and forgets every
    /// buffered call.
    pub fn drain(&mut self) -> (r: Vec<StreamEvent>)
        ensures
            final(self).buffers() == Seq::<(u32, BufferView)>::empty(),
            final(self).last_usage() == old(self).last_usage(),
            events_view(r@) == finished_calls(old(self).buffers()),
    {
        let mut taken: Vec<(u32, BufferedToolCall)> = Vec::new();
        std::mem::swap(&mut taken, &mut self.buffers);
        let ghost s = buffers_view(taken@);
        let mut out: Vec<StreamEvent> = Vec::new();
        let n = taken.len();
        let mut i: usize = 0;
        while i < n
            invariant
                i <= n,
                n == s.len(),
                taken@.len() == n - i,
                buffers_view(taken@) == s.skip(i as int),
                events_view(out@) == finished_calls(s.take(i as int)),
            decreases n - i,
        {
            let ghost rest = taken@;
            let (_, buf) = taken.remove(0);
            assert(buffers_view(rest)[0] == s.skip(i as int)[0]);
            assert(buffer_view(buf) == s[i as int].1);
            assert(taken@ =~= rest.skip(1));
            assert(buffers_view(rest.skip(1)) =~= buffers_view(rest).skip(1));
            assert(buffers_view(taken@) =~= s.skip(i + 1));
            assert(s.take(i + 1).drop_last() =~= s.take(i as int));
            let ghost prev = out@;
            match buf.into_call() {
                Some(call) => {
                    out.push(StreamEvent::ToolCall(call));
                    assert(events_view(out@) =~= events_view(prev).push(event_view(out@.last())));
                },
                None => {},
            }
            i += 1;
        }
        assert(s.take(n as int) =~= s);
        assert(self.buffers() =~= Seq::<(u32, BufferView)>::empty());
        out
    }

    /// The events of one chunk, choice by choice; a usage report is kept for
    /// the end of the stream.
    pub fn on_chunk(&mut self, chunk: OaiChunk) -> (r: Vec<StreamEvent>)
        ensures
            ascending(final(self).buffers()),
            (final(self).buffers(), events_view(r@)) == choices_step(old(self).buffers(), chunk.choices@),
            final(self).last_usage() == (match chunk.usage {
                Some(u) => Some(usage_of(u)),
                None => old(self).last_usage(),
            }),
    {
        proof {
            use_type_invariant(&*self);
        }
        match chunk.usage {
            Some(u) => {
                self.last_usage = Some(usage_from_oai(&u));
            },
            None => {},
        }
        let ghost s0 = old(self).buffers();
        let ghost all = chunk.choices@;
        let mut choices = chunk.choices;
        let mut out: Vec<StreamEvent> = Vec::new();
        let n = choices.len();
        let mut i: usize = 0;
        while i < n
            invariant
                i <= n,
                n == all.len(),
                choices@ == all.skip(i as int),
                ascending(self.buffers()),
                (self.buffers(), events_view(out@)) == choices_step(s0, all.take(i as int)),
                self.last_usage() == (match chunk.usage {
                    Some(u) => Some(usage_of(u)),
                    None => old(self).last_usage(),
                }),
            decreases n - i,
        {
            let choice = choices.remove(0);
            assert(choice == all[i as int]);
            assert(all.take(i + 1).drop_last() =~= all.take(i as int));
            assert(all.take(i + 1).last() == choice);
            let ghost before = self.buffers();
            let ghost out0 = events_view(out@);
            let ghost texts: Seq<EventView> = Seq::empty();
            match choice.delta {
                Some(delta) => {
                    match delta.content {
                        Some(text) => {
                            if text.as_str().unicode_len() > 0 {
                                out.push(StreamEvent::TextDelta(text));
                            }
                        },
                        None => {},
                    }
                    let reasoning = match delta.reasoning_content {
                        Some(r) => Some(r),
                        None => delta.reasoning,
                    };
                    match reasoning {
                        Some(text) => {
                            if text.as_str().unicode_len() > 0 {
                                out.push(StreamEvent::ReasoningDelta(text));
                            }
                        },
                        None => {},
                    }
                    assert(events_view(out@) =~= out0 + nonempty_text(delta.content, |t: Seq<char>| EventView::Text(t)) + nonempty_text(
                        if delta.reasoning_content is Some { delta.reasoning_content } else { delta.reasoning },
                        |t: Seq<char>| EventView::Reasoning(t),
                    ));
                    match delta.tool_calls {
                        Some(calls) => {
                            let ghost ds = calls@;
                            let mut rest = calls;
                            let m = rest.len();
                            let mut j: usize = 0;
                            while j < m
                                invariant
                                    j <= m,
                                    m == ds.len(),
                                    rest@ == ds.skip(j as int),
                                    ascending(self.buffers()),
                                    self.buffers() == buffers_with_all(before, ds.take(j as int)),
                                    self.last_usage() == (match chunk.usage {
                                        Some(u) => Some(usage_of(u)),
                                        None => old(self).last_usage(),
                                    }),
                                decreases m - j,
                            {
                                let d = rest.remove(0);
                                assert(d == ds[j as int]);
                                assert(ds.take(j + 1).drop_last() =~= ds.take(j as int));
                                assert(rest@ =~= ds.skip(j + 1));
                                self.add_piece(d);
                                j += 1;
                            }
                            assert(ds.take(m as int) =~= ds);
                        },
                        None => {},
                    }
                },
                None => {
                    assert(events_view(out@) =~= out0 + Seq::<EventView>::empty());
                },
            }
            if ends_turn_exec(&choice.finish_reason) {
                let ghost mid = events_view(out@);
                let mut done = self.drain();
                let ghost d = events_view(done@);
                out.append(&mut done);
                assert(events_view(out@) =~= mid + d);
            }
            assert(choices@ =~= all.skip(i + 1));
            i += 1;
        }
        assert(all.take(n as int) =~= all);
        out
    }

    /// The end of the stream: the calls still buffered, in order of
    /// position, then the last usage report if there was one, then the end.
    pub fn finish(&mut self) -> (r: Vec<StreamEvent>)
        ensures
            final(self).buffers() == Seq::<(u32, BufferView)>::empty(),
            events_view(r@) == finished_calls(old(self).buffers()) + match old(self).last_usage() {
                Some(u) => seq![EventView::Usage(u), EventView::Done],
                None => seq![EventView::Done],
            },
    {
        let mut out = self.drain();
        let ghost calls = events_view(out@);
        match self.last_usage {
            Some(u) => {
                out.push(StreamEvent::Usage(u));
            },
            None => {},
        }
        out.push(StreamEvent::Done);
        assert(events_view(out@) =~= calls + match old(self).last_usage() {
            Some(u) => seq![EventView::Usage(u), EventView::Done],
            None => seq![EventView::Done],
        });
        out
    }
}

fn ends_turn_exec(reason: &Option<String>) -> (r: bool)
    ensures
        r == ends_turn(*reason),
{
    match reason {
        Some(r) => str_eq(r.as_str(), "tool_calls") || str_eq(r.as_str(), "stop"),
        None => false,
    }
}

fn merge(buf: &mut BufferedToolCall, d: DeltaToolCall)
    ensures
        buffer_view(*final(buf)) == with_piece(buffer_view(*old(buf)), d),
{
    match d.id {
        Some(id) => {
            buf.id = Some(id);
        },
        None => {},
    }
    match d.name {
        Some(name) => {
            buf.name = Some(name);
        },
        None => {},
    }
    match d.arguments {
        Some(a) => {
            buf.arguments.append(a.as_str());
        },
        None => {},
    }
}

} // verus!

verus! {

/// The text a tool result is sent as: the error text as it is, a JSON
/// value as its compact JSON text.
pub open spec fn result_text(o: ToolResultContent) -> Seq<char> {
    match o {
        ToolResultContent::Json { value } => json_compact(value@),
        ToolResultContent::ErrorText { value } => value@,
        ToolResultContent::ErrorJson { value } => json_compact(value@),
    }
}

/// The text a tool result is sent as; see [`result_text`].
pub fn result_payload(o: &ToolResultContent) -> (r: String)
    ensures
        r@ == result_text(*o),
{
    match o {
        ToolResultContent::Json { value } => value.to_compact_string(),
        ToolResultContent::ErrorText { value } => value.clone(),
        ToolResultContent::ErrorJson { value } => value.to_compact_string(),
    }
}

/// A tool call as a Chat Completions message carries it.
#[derive(Debug, Clone, PartialEq, Eq)]
pub struct OaiToolCallWire {
    pub id: String,
    pub name: String,
    /// The input as JSON text.
    pub arguments: String,
}

/// A message as the Chat Completions protocol takes it.
#[derive(Debug, Clone, PartialEq, Eq)]
pub struct OaiMessageWire {
    pub role: String,
    pub content: String,
    pub tool_call_id: Option<String>,
    pub tool_calls: Vec<OaiToolCallWire>,
}

/// The texts of a user message, joined.
pub open spec fn user_text_of(content: MessageContent<UserPart>) -> Seq<char> {
    match content {
        MessageContent::Text(s) => s@,
        MessageContent::Parts(ps) => user_parts_text(ps@),
    }
}

pub open spec fn user_parts_text(ps: Seq<UserPart>) -> Seq<char>
    decreases ps.len(),
{
    if ps.len() == 0 {
        Seq::empty()
    } else {
        user_parts_text(ps.drop_last()) + match ps.last() {
            UserPart::Text { text } => text@,
        }
    }
}

/// The parts of an assistant message; a bare text is one text part.
pub open spec fn parts_of(content: AssistantContent) -> Seq<AssistantPart> {
    match content {
        AssistantContent::Text(s) => seq![AssistantPart::Text { text: s }],
        AssistantContent::Parts(ps) => ps@,
    }
}

/// The text parts, joined; reasoning is left out.
pub open spec fn texts_joined(ps: Seq<AssistantPart>) -> Seq<char>
    decreases ps.len(),
{
    if ps.len() == 0 {
        Seq::empty()
    } else {
        texts_joined(ps.drop_last()) + match ps.last() {
            AssistantPart::Text { text } => text@,
            _ => Seq::empty(),
        }
    }
}

/// The tool calls among the parts, by id and name, in order.
/// The tool calls among `ps`: id, name and the compact JSON text of the
/// input.
pub open spec fn calls_of(ps: Seq<AssistantPart>) -> Seq<(Seq<char>, Seq<char>, Seq<char>)>
    decreases ps.len(),
{
    if ps.len() == 0 {
        Seq::empty()
    } else {
        calls_of(ps.drop_last()) + match ps.last() {
            AssistantPart::ToolCall { tool_call_id, tool_name, input } => seq![
                (tool_call_id@, tool_name@, json_compact(input@)),
            ],
            _ => Seq::empty(),
        }
    }
}

pub open spec fn wire_calls_view(cs: Seq<OaiToolCallWire>) -> Seq<(Seq<char>, Seq<char>, Seq<char>)> {
    cs.map_values(|c: OaiToolCallWire| (c.id@, c.name@, c.arguments@))
}

/// A tool message for the result `res`: its call's id, and the result's
/// text.
pub open spec fn tool_wire(w: OaiMessageWire, res: ToolResult) -> bool {
    &&& w.role@ == "tool"@
    &&& w.tool_calls@.len() == 0
    &&& w.tool_call_id matches Some(id) && id@ == res.tool_call_id@
    &&& w.content@ == result_text(res.output)
}

pub(crate) fn user_text(content: &MessageContent<UserPart>) -> (r: String)
    ensures
        r@ == user_text_of(*content),
{
    match content {
        MessageContent::Text(s) => s.clone(),
        MessageContent::Parts(ps) => {
            let mut r = String::new();
            let mut i: usize = 0;
            while i < ps.len()
                invariant
                    i <= ps@.len(),
                    r@ == user_parts_text(ps@.take(i as int)),
                decreases ps@.len() - i,
            {
                match &ps[i] {
                    UserPart::Text { text } => r.append(text.as_str()),
                }
                assert(ps@.take(i + 1).drop_last() =~= ps@.take(i as int));
                i += 1;
            }
            assert(ps@.take(ps@.len() as int) =~= ps@);
            r
        },
    }
}

/// Whether `r` is `m` in the Chat Completions form; see [`message_to_oai`].
pub open spec fn oai_form(m: Message, r: Seq<OaiMessageWire>) -> bool {
    match m {
        Message::User { content } => r.len() == 1 && r[0].role@ == "user"@ && r[0].content@ == user_text_of(
            content,
        ) && r[0].tool_call_id is None && r[0].tool_calls@.len() == 0,
        Message::Assistant { content } => r.len() == 1 && r[0].role@ == "assistant"@ && r[0].content@
            == texts_joined(parts_of(content)) && r[0].tool_call_id is None && wire_calls_view(
            r[0].tool_calls@,
        ) == calls_of(parts_of(content)),
        Message::Tool { content } => r.len() == content@.len() && forall|i: int|
            0 <= i < r.len() ==> tool_wire(#[trigger] r[i], content@[i]),
    }
}

/// A message in the Chat Completions form. A user message is its joined
/// text; an assistant message is its joined text (empty where there is
/// none) with its tool calls, reasoning being left out; a tool message
/// becomes one message per result, whose content is the error text or the
/// JSON text of the value.
pub fn message_to_oai(m: &Message) -> (r: Vec<OaiMessageWire>)
    ensures
        oai_form(*m, r@),
{
    match m {
        Message::User { content } => {
            let text = user_text(content);
            let mut r: Vec<OaiMessageWire> = Vec::new();
            r.push(OaiMessageWire {
                role: String::from_str("user"),
                content: text,
                tool_call_id: None,
                tool_calls: Vec::new(),
            });
            r
        },
        Message::Assistant { content } => {
            let ghost ps = parts_of(*content);
            let owned: Vec<AssistantPart>;
            let parts: &Vec<AssistantPart> = match content {
                AssistantContent::Text(s) => {
                    let mut v: Vec<AssistantPart> = Vec::new();
                    v.push(AssistantPart::Text { text: s.clone() });
                    owned = v;
                    &owned
                },
                AssistantContent::Parts(p) => p,
            };
            assert(parts@ =~= ps);
            let mut text = String::new();
            let mut calls: Vec<OaiToolCallWire> = Vec::new();
            let mut i: usize = 0;
            while i < parts.len()
                invariant
                    i <= parts@.len(),
                    parts@ == ps,
                    text@ == texts_joined(ps.take(i as int)),
                    wire_calls_view(calls@) == calls_of(ps.take(i as int)),
                decreases parts@.len() - i,
            {
                assert(ps.take(i + 1).drop_last() =~= ps.take(i as int));
                let ghost before = calls@;
                match &parts[i] {
                    AssistantPart::Text { text: t } => {
                        text.append(t.as_str());
                        assert(wire_calls_view(calls@) =~= calls_of(ps.take(i + 1)));
                    },
                    AssistantPart::Reasoning { .. } => {
                        assert(wire_calls_view(calls@) =~= calls_of(ps.take(i + 1)));
                    },
                    AssistantPart::ToolCall { tool_call_id, tool_name, input } => {
                        let arguments = input.to_compact_string();
                        calls.push(OaiToolCallWire { id: tool_call_id.clone(), name: tool_name.clone(), arguments });
                        assert(wire_calls_view(calls@) =~= wire_calls_view(before).push(
                            (tool_call_id@, tool_name@, json_compact(input@)),
                        ));
                    },
                }
                i += 1;
            }
            assert(ps.take(parts@.len() as int) =~= ps);
            let mut r: Vec<OaiMessageWire> = Vec::new();
            r.push(OaiMessageWire { role: String::from_str("assistant"), content: text, tool_call_id: None, tool_calls: calls });
            r
        },
        Message::Tool { content } => {
            let mut r: Vec<OaiMessageWire> = Vec::new();
            let mut i: usize = 0;
            while i < content.len()
                invariant
                    i <= content@.len(),
                    r@.len() == i,
                    forall|k: int| 0 <= k < i ==> tool_wire(#[trigger] r@[k], content@[k]),
                decreases content@.len() - i,
            {
                let res = &content[i];
                let payload = result_payload(&res.output);
                r.push(OaiMessageWire {
                    role: String::from_str("tool"),
                    content: payload,
                    tool_call_id: Some(res.tool_call_id.clone()),
                    tool_calls: Vec::new(),
                });
                i += 1;
            }
            r
        },
    }
}

/// A Chat Completions request as this library decides it. Its JSON adds
/// `"stream": true` and `"stream_options": {"include_usage": true}`, puts
/// `system` before the messages of `history`, leaves out `max_tokens` and
/// `reasoning_effort` where they are `None`, and, where there are tools,
/// sends them as function tools with `"tool_choice": "auto"`.
#[derive(Debug, Clone, PartialEq, Eq)]
pub struct OaiRequest {
    pub model: String,
    pub system: OaiMessageWire,
    /// The Chat Completions messages of each message of the history.
    pub history: Vec<Vec<OaiMessageWire>>,
    pub max_tokens: Option<u32>,
    pub reasoning_effort: Option<String>,
    pub tools: Vec<ToolDef>,
}

/// The request for a turn: the provider's model, the system prompt as a
/// `system` message, each message in the Chat Completions form, the output
/// limit and reasoning effort that were asked for, and the tools.
pub fn build_request_body(
    messages: &Vec<Message>,
    system_prompt: &str,
    tools: &Vec<ToolDef>,
    provider: &NamedProvider,
    options: &GenerationOptions,
) -> (r: OaiRequest)
    ensures
        r.model@ == provider.info.model@,
        r.system.role@ == "system"@,
        r.system.content@ == system_prompt@,
        r.system.tool_call_id is None,
        r.system.tool_calls@.len() == 0,
        r.history@.len() == messages@.len(),
        forall|k: int| 0 <= k < messages@.len() ==> oai_form(messages@[k], #[trigger] r.history@[k]@),
        r.max_tokens == options.max_output_tokens,
        match options.reasoning_effort {
            Some(e) => r.reasoning_effort matches Some(w) && w@ == effort_word(e),
            None => r.reasoning_effort is None,
        },
        tools_view(r.tools@) == tools_view(tools@),
{
    let system = OaiMessageWire {
        role: String::from_str("system"),
        content: system_prompt.to_string(),
        tool_call_id: None,
        tool_calls: Vec::new(),
    };
    let mut history: Vec<Vec<OaiMessageWire>> = Vec::new();
    let mut i: usize = 0;
    while i < messages.len()
        invariant
            i <= messages@.len(),
            history@.len() == i,
            forall|k: int| 0 <= k < i ==> oai_form(messages@[k], #[trigger] history@[k]@),
        decreases messages@.len() - i,
    {
        history.push(message_to_oai(&messages[i]));
        i += 1;
    }
    let reasoning_effort = match options.reasoning_effort {
        Some(e) => Some(reasoning_effort_string(e).to_string()),
        None => None,
    };
    OaiRequest {
        model: provider.info.model.clone(),
        system,
        history,
        max_tokens: options.max_output_tokens,
        reasoning_effort,
        tools: duplicate_tools(tools),
    }
}

} // verus!

verus! {

/// A tool call as Chat Completions JSON.
pub open spec fn oai_call_json(c: OaiToolCallWire) -> JsonSpec {
    JsonSpec::Object(
        seq![
            ("id"@, JsonSpec::Str(c.id@)),
            ("type"@, JsonSpec::Str("function"@)),
            ("function"@, JsonSpec::Object(seq![("name"@, JsonSpec::Str(c.name@)), ("arguments"@, JsonSpec::Str(c.arguments@))])),
        ],
    )
}

pub open spec fn oai_calls_json(cs: Seq<OaiToolCallWire>) -> Seq<JsonSpec> {
    cs.map_values(|c: OaiToolCallWire| oai_call_json(c))
}

/// A message as Chat Completions JSON: its role and content, its call's id
/// where it answers one, and its tool calls where it makes any.
pub open spec fn oai_message_json(w: OaiMessageWire) -> JsonSpec {
    JsonSpec::Object(
        seq![("role"@, JsonSpec::Str(w.role@)), ("content"@, JsonSpec::Str(w.content@))] + (match w.tool_call_id {
            Some(id) => seq![("tool_call_id"@, JsonSpec::Str(id@))],
            None => Seq::empty(),
        }) + (if w.tool_calls@.len() > 0 {
            seq![("tool_calls"@, JsonSpec::Array(oai_calls_json(w.tool_calls@)))]
        } else {
            Seq::empty()
        }),
    )
}

pub open spec fn oai_messages_json(ws: Seq<OaiMessageWire>) -> Seq<JsonSpec> {
    ws.map_values(|w: OaiMessageWire| oai_message_json(w))
}

/// The messages of each history entry, in order.
pub open spec fn oai_history_json(h: Seq<Vec<OaiMessageWire>>) -> Seq<JsonSpec>
    decreases h.len(),
{
    if h.len() == 0 {
        Seq::empty()
    } else {
        oai_history_json(h.drop_last()) + oai_messages_json(h.last()@)
    }
}

/// A tool as a Chat Completions function tool.
pub open spec fn oai_tool_json(t: ToolDef) -> JsonSpec {
    JsonSpec::Object(
        seq![
            ("type"@, JsonSpec::Str("function"@)),
            ("function"@, JsonSpec::Object(
                seq![
                    ("name"@, JsonSpec::Str(t.name@)),
                    ("description"@, JsonSpec::Str(t.description@)),
                    ("parameters"@, t.input_schema@),
                ],
            )),
        ],
    )
}

/// The JSON body of a Chat Completions request: the model, the system
/// message then the history, `"stream": true` with
/// `"stream_options": {"include_usage": true}`, `max_tokens` and
/// `reasoning_effort` where set, and where there are tools, the function
/// tools with `"tool_choice": "auto"`.
pub open spec fn oai_body_json(r: OaiRequest) -> JsonSpec {
    JsonSpec::Object(
        seq![
            ("model"@, JsonSpec::Str(r.model@)),
            ("messages"@, JsonSpec::Array(seq![oai_message_json(r.system)] + oai_history_json(r.history@))),
            ("stream"@, JsonSpec::Bool(true)),
            ("stream_options"@, JsonSpec::Object(seq![("include_usage"@, JsonSpec::Bool(true))])),
        ] + (match r.max_tokens {
            Some(m) => seq![("max_tokens"@, JsonSpec::Number(decimal(m as nat)))],
            None => Seq::empty(),
        }) + (match r.reasoning_effort {
            Some(e) => seq![("reasoning_effort"@, JsonSpec::Str(e@))],
            None => Seq::empty(),
        }) + (if r.tools@.len() > 0 {
            seq![
                ("tools"@, JsonSpec::Array(r.tools@.map_values(|t: ToolDef| oai_tool_json(t)))),
                ("tool_choice"@, JsonSpec::Str("auto"@)),
            ]
        } else {
            Seq::empty()
        }),
    )
}

fn call_json(c: &OaiToolCallWire) -> (r: Json)
    ensures
        r@ == oai_call_json(*c),
{
    let mut f: Vec<(String, Json)> = Vec::new();
    push_entry(&mut f, "name", json_str(c.name.as_str()));
    push_entry(&mut f, "arguments", json_str(c.arguments.as_str()));
    let mut es: Vec<(String, Json)> = Vec::new();
    push_entry(&mut es, "id", json_str(c.id.as_str()));
    push_entry(&mut es, "type", json_str("function"));
    push_entry(&mut es, "function", Json::Object(f));
    assert(entries_view(f@) =~= seq![("name"@, JsonSpec::Str(c.name@)), ("arguments"@, JsonSpec::Str(c.arguments@))]);
    assert(entries_view(es@) =~= seq![
        ("id"@, JsonSpec::Str(c.id@)),
        ("type"@, JsonSpec::Str("function"@)),
        ("function"@, JsonSpec::Object(seq![("name"@, JsonSpec::Str(c.name@)), ("arguments"@, JsonSpec::Str(c.arguments@))])),
    ]);
    Json::Object(es)
}

fn message_json(w: &OaiMessageWire) -> (r: Json)
    ensures
        r@ == oai_message_json(*w),
{
    let mut es: Vec<(String, Json)> = Vec::new();
    push_entry(&mut es, "role", json_str(w.role.as_str()));
    push_entry(&mut es, "content", json_str(w.content.as_str()));
    let ghost base = entries_view(es@);
    match &w.tool_call_id {
        Some(id) => push_entry(&mut es, "tool_call_id", json_str(id.as_str())),
        None => {},
    }
    let ghost mid = entries_view(es@);
    if w.tool_calls.len() > 0 {
        let mut items: Vec<Json> = Vec::new();
        let mut i: usize = 0;
        while i < w.tool_calls.len()
            invariant
                i <= w.tool_calls@.len(),
                items_view(items@) == oai_calls_json(w.tool_calls@.take(i as int)),
            decreases w.tool_calls@.len() - i,
        {
            push_item(&mut items, call_json(&w.tool_calls[i]));
            assert(oai_calls_json(w.tool_calls@.take(i + 1)) =~= oai_calls_json(w.tool_calls@.take(i as int)).push(
                oai_call_json(w.tool_calls@[i as int]),
            ));
            i += 1;
        }
        assert(w.tool_calls@.take(i as int) =~= w.tool_calls@);
        push_entry(&mut es, "tool_calls", Json::Array(items));
    }
    assert(entries_view(es@) =~= seq![("role"@, JsonSpec::Str(w.role@)), ("content"@, JsonSpec::Str(w.content@))] + (
    match w.tool_call_id {
        Some(id) => seq![("tool_call_id"@, JsonSpec::Str(id@))],
        None => Seq::empty(),
    }) + (if w.tool_calls@.len() > 0 {
        seq![("tool_calls"@, JsonSpec::Array(oai_calls_json(w.tool_calls@)))]
    } else {
        Seq::empty()
    }));
    Json::Object(es)
}

fn tool_json(t: &ToolDef) -> (r: Json)
    ensures
        r@ == oai_tool_json(*t),
{
    let mut f: Vec<(String, Json)> = Vec::new();
    push_entry(&mut f, "name", json_str(t.name.as_str()));
    push_entry(&mut f, "description", json_str(t.description.as_str()));
    push_entry(&mut f, "parameters", t.input_schema.duplicate());
    let mut es: Vec<(String, Json)> = Vec::new();
    push_entry(&mut es, "type", json_str("function"));
    push_entry(&mut es, "function", Json::Object(f));
    assert(entries_view(f@) =~= seq![
        ("name"@, JsonSpec::Str(t.name@)),
        ("description"@, JsonSpec::Str(t.description@)),
        ("parameters"@, t.input_schema@),
    ]);
    assert(entries_view(es@) =~= seq![
        ("type"@, JsonSpec::Str("function"@)),
        ("function"@, JsonSpec::Object(entries_view(f@))),
    ]);
    Json::Object(es)
}

/// The JSON body of a Chat Completions request; see [`oai_body_json`].
pub fn request_json(r: &OaiRequest) -> (j: Json)
    ensures
        j@ == oai_body_json(*r),
{
    let mut msgs: Vec<Json> = Vec::new();
    push_item(&mut msgs, message_json(&r.system));
    let ghost head = seq![oai_message_json(r.system)];
    assert(items_view(msgs@) =~= head + oai_history_json(r.history@.take(0)));
    let mut g: usize = 0;
    while g < r.history.len()
        invariant
            g <= r.history@.len(),
            items_view(msgs@) == head + oai_history_json(r.history@.take(g as int)),
        decreases r.history@.len() - g,
    {
        let group = &r.history[g];
        let ghost before = items_view(msgs@);
        let mut k: usize = 0;
        while k < group.len()
            invariant
                k <= group@.len(),
                items_view(msgs@) == before + oai_messages_json(group@.take(k as int)),
            decreases group@.len() - k,
        {
            push_item(&mut msgs, message_json(&group[k]));
            assert(oai_messages_json(group@.take(k + 1)) =~= oai_messages_json(group@.take(k as int)).push(
                oai_message_json(group@[k as int]),
            ));
            k += 1;
        }
        assert(group@.take(k as int) =~= group@);
        assert(r.history@.take(g + 1).drop_last() =~= r.history@.take(g as int));
        assert(items_view(msgs@) =~= head + oai_history_json(r.history@.take(g + 1)));
        g += 1;
    }
    assert(r.history@.take(g as int) =~= r.history@);
    let mut es: Vec<(String, Json)> = Vec::new();
    push_entry(&mut es, "model", json_str(r.model.as_str()));
    push_entry(&mut es, "messages", Json::Array(msgs));
    push_entry(&mut es, "stream", Json::Bool(true));
    let mut so: Vec<(String, Json)> = Vec::new();
    push_entry(&mut so, "include_usage", Json::Bool(true));
    push_entry(&mut es, "stream_options", Json::Object(so));
    let ghost fixed = entries_view(es@);
    match r.max_tokens {
        Some(m) => push_entry(&mut es, "max_tokens", json_u64(m as u64)),
        None => {},
    }
    let ghost with_max = entries_view(es@);
    match &r.reasoning_effort {
        Some(e) => push_entry(&mut es, "reasoning_effort", json_str(e.as_str())),
        None => {},
    }
    let ghost with_effort = entries_view(es@);
    if r.tools.len() > 0 {
        let mut ts: Vec<Json> = Vec::new();
        let mut i: usize = 0;
        while i < r.tools.len()
            invariant
                i <= r.tools@.len(),
                items_view(ts@) == r.tools@.take(i as int).map_values(|t: ToolDef| oai_tool_json(t)),
            decreases r.tools@.len() - i,
        {
            push_item(&mut ts, tool_json(&r.tools[i]));
            assert(r.tools@.take(i + 1).map_values(|t: ToolDef| oai_tool_json(t)) =~= r.tools@.take(
                i as int,
            ).map_values(|t: ToolDef| oai_tool_json(t)).push(oai_tool_json(r.tools@[i as int])));
            i += 1;
        }
        assert(r.tools@.take(i as int) =~= r.tools@);
        push_entry(&mut es, "tools", Json::Array(ts));
        push_entry(&mut es, "tool_choice", json_str("auto"));
    }
    assert(entries_view(es@) =~= oai_body_json(*r)->Object_0);
    Json::Object(es)
}

} // verus!

verus! {

proof fn lemma_finished_calls_are_calls(bs: Seq<(u32, BufferView)>)
    ensures
        forall|i: int| 0 <= i < finished_calls(bs).len() ==> #[trigger] finished_calls(bs)[i] is Call,
    decreases bs.len(),
{
    if bs.len() > 0 {
        lemma_finished_calls_are_calls(bs.drop_last());
    }
}

/// A choice whose delta carries a non-empty `reasoning_content` yields that
/// text as reasoning, and no other reasoning: `reasoning_content` wins over
/// `reasoning`.
pub proof fn law_reasoning_content_is_reasoning(s: Seq<(u32, BufferView)>, c: OaiChoice, t: Seq<char>)
    requires
        c.delta matches Some(d) && (d.reasoning_content matches Some(x) && x@ == t),
        t.len() > 0,
    ensures
        choice_step(s, c).1.contains(EventView::Reasoning(t)),
        forall|i: int|
            0 <= i < choice_step(s, c).1.len() && #[trigger] choice_step(s, c).1[i] is Reasoning
                ==> choice_step(s, c).1[i] == EventView::Reasoning(t),
{
    let d = c.delta->Some_0;
    let texts = nonempty_text(d.content, |x: Seq<char>| EventView::Text(x)) + nonempty_text(
        d.reasoning_content,
        |x: Seq<char>| EventView::Reasoning(x),
    );
    let k = nonempty_text(d.content, |x: Seq<char>| EventView::Text(x)).len();
    assert(texts[k as int] == EventView::Reasoning(t));
    let s1 = match d.tool_calls {
        Some(calls) => buffers_with_all(s, calls@),
        None => s,
    };
    lemma_finished_calls_are_calls(s1);
    if ends_turn(c.finish_reason) {
        assert((texts + finished_calls(s1))[k as int] == EventView::Reasoning(t));
    }
}

} // verus!
