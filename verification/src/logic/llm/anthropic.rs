//! The Anthropic Messages protocol: the request's knobs, and what each
//! streamed event yields. Sending the request and reading the events is the
//! caller's work.

use vstd::prelude::*;

use super::messages::{AssistantContent, AssistantPart, Message, MessageContent, ToolCall, ToolResult, ToolResultContent, UserPart};
use super::json::{entries_view, field_in, field_of, items_view, json_str, json_u64, opt_text, parse_json, json_text, push_entry, push_item, str_of, u64_of, Json, JsonSpec};
use super::openai_compatible::{arguments_value, input_of, result_payload, result_text, event_view, events_view, EventView};
use super::stream::{StreamEvent, Usage};
use super::tool_def::{duplicate_tools, tools_view, ToolDef};
use super::GenerationOptions;
use crate::logic::provider::NamedProvider;
use crate::logic::settings::ReasoningEffort;
use crate::text::{decimal, str_eq};

verus! {

/// The Anthropic client. It holds no state.
#[derive(Debug, Default)]
pub struct AnthropicClient;

impl AnthropicClient {
    pub fn new() -> (r: AnthropicClient) {
        AnthropicClient
    }
}

/// The `effort` hint for `e`.
pub fn reasoning_effort_to_anthropic(e: ReasoningEffort) -> (r: &'static str)
    ensures
        r@ == super::openai_compatible::effort_word(e),
{
    match e {
        ReasoningEffort::Low => "low",
        ReasoningEffort::Med => "medium",
        ReasoningEffort::High => "high",
    }
}

pub open spec fn budget_of(e: ReasoningEffort) -> u32 {
    match e {
        ReasoningEffort::Low => 1024,
        ReasoningEffort::Med => 4096,
        ReasoningEffort::High => 16384,
    }
}

/// The thinking budget, in tokens, for `e`.
pub fn thinking_budget(e: ReasoningEffort) -> (r: u32)
    ensures
        r == budget_of(e),
{
    match e {
        ReasoningEffort::Low => 1024,
        ReasoningEffort::Med => 4096,
        ReasoningEffort::High => 16384,
    }
}

/// The `max_tokens` of a request: the configured limit, else 16000.
pub fn max_tokens(options: &GenerationOptions) -> (r: u32)
    ensures
        r == (match options.max_output_tokens {
            Some(m) => m,
            None => 16000,
        }),
{
    match options.max_output_tokens {
        Some(m) => m,
        None => 16000,
    }
}

/// Whether `m` goes out with the `user` role: a user message, or the results
/// of tool calls.
pub open spec fn sent_as_user(m: Message) -> bool {
    m is User || m is Tool
}

/// The position of the most recent message sent with the `user` role.
pub open spec fn last_user_index(ms: Seq<Message>) -> Option<int>
    decreases ms.len(),
{
    if ms.len() == 0 {
        None
    } else if sent_as_user(ms.last()) {
        Some(ms.len() - 1)
    } else {
        last_user_index(ms.drop_last())
    }
}

/// The message that carries the prompt-cache marker: the most recent one
/// sent with the `user` role, if there is one.
pub fn cache_marker_target(messages: &Vec<Message>) -> (r: Option<usize>)
    ensures
        match r {
            Some(i) => last_user_index(messages@) == Some(i as int),
            None => last_user_index(messages@) is None,
        },
{
    let mut k: usize = messages.len();
    assert(messages@.take(k as int) =~= messages@);
    while k > 0
        invariant
            k <= messages@.len(),
            last_user_index(messages@) == last_user_index(messages@.take(k as int)),
        decreases k,
    {
        let is_user = match &messages[k - 1] {
            Message::User { .. } => true,
            Message::Tool { .. } => true,
            Message::Assistant { .. } => false,
        };
        assert(messages@.take(k as int).last() == messages@[k - 1]);
        if is_user {
            return Some(k - 1);
        }
        assert(messages@.take(k as int).drop_last() =~= messages@.take(k - 1));
        k -= 1;
    }
    None
}

/// A content block as it starts.
#[derive(Debug, Clone, PartialEq, Eq)]
pub enum BlockStart {
    Text,
    Thinking,
    ToolUse { id: String, name: String },
    Other,
}

/// What a content-block delta carries.
#[derive(Debug, Clone, PartialEq, Eq)]
pub enum BlockDelta {
    Text(Option<String>),
    Thinking(Option<String>),
    InputJson(Option<String>),
    Other,
}

/// One streamed event, with the fields the protocol gives it. Numbers are
/// as the JSON holds them; an index or count that is missing is `None`.
#[derive(Debug, Clone, PartialEq, Eq)]
pub enum AnthropicEvent {
    /// `message_start`, with its usage if it has one: the input tokens and
    /// the cached input tokens.
    MessageStart { usage: Option<(Option<u64>, Option<u64>)> },
    ContentBlockStart { index: Option<u64>, block: Option<BlockStart> },
    ContentBlockDelta { index: Option<u64>, delta: BlockDelta },
    ContentBlockStop { index: Option<u64> },
    /// `message_delta`, with its usage's output tokens if it has a usage.
    MessageDelta { usage: Option<Option<u64>> },
    MessageStop,
    Error { message: Option<String> },
    Other,
}

/// The text of field `key` of `d`, empty where it is missing or not a string.
pub open spec fn text_or_empty(d: JsonSpec, key: Seq<char>) -> Seq<char> {
    match str_of(field_of(d, key)) {
        Some(t) => t,
        None => Seq::empty(),
    }
}

/// How a `content_block` object starts a block: by its `type`; a tool use
/// with its `id` and `name`, empty where missing.
pub open spec fn block_start_of(b: JsonSpec, r: BlockStart) -> bool {
    let t = str_of(field_of(b, "type"@));
    if t == Some("text"@) {
        r == BlockStart::Text
    } else if t == Some("thinking"@) {
        r == BlockStart::Thinking
    } else if t == Some("tool_use"@) {
        r matches BlockStart::ToolUse { id, name } && id@ == text_or_empty(b, "id"@) && name@ == text_or_empty(
            b,
            "name"@,
        )
    } else {
        r == BlockStart::Other
    }
}

/// How a `delta` object is read: by its `type`, each kind with its text.
pub open spec fn block_delta_of(delta: Option<JsonSpec>, r: BlockDelta) -> bool {
    let t = str_of(field_in(delta, "type"@));
    if t == Some("text_delta"@) {
        r matches BlockDelta::Text(x) && opt_text(x) == str_of(field_in(delta, "text"@))
    } else if t == Some("thinking_delta"@) {
        r matches BlockDelta::Thinking(x) && opt_text(x) == str_of(field_in(delta, "thinking"@))
    } else if t == Some("input_json_delta"@) {
        r matches BlockDelta::InputJson(x) && opt_text(x) == str_of(field_in(delta, "partial_json"@))
    } else {
        r == BlockDelta::Other
    }
}

/// Whether `e` is the event a frame of kind `kind` with the JSON data `d`
/// stands for.
pub open spec fn decoded(kind: Seq<char>, d: JsonSpec, e: AnthropicEvent) -> bool {
    let index = u64_of(field_of(d, "index"@));
    if kind == "message_start"@ {
        e == AnthropicEvent::MessageStart {
            usage: match field_in(field_of(d, "message"@), "usage"@) {
                Some(u) => Some((u64_of(field_of(u, "input_tokens"@)), u64_of(field_of(u, "cache_read_input_tokens"@)))),
                None => None,
            },
        }
    } else if kind == "content_block_start"@ {
        e matches AnthropicEvent::ContentBlockStart { index: i, block } && i == index && match field_of(
            d,
            "content_block"@,
        ) {
            Some(b) => block matches Some(x) && block_start_of(b, x),
            None => block is None,
        }
    } else if kind == "content_block_delta"@ {
        e matches AnthropicEvent::ContentBlockDelta { index: i, delta } && i == index && block_delta_of(
            field_of(d, "delta"@),
            delta,
        )
    } else if kind == "content_block_stop"@ {
        e == AnthropicEvent::ContentBlockStop { index }
    } else if kind == "message_delta"@ {
        e == AnthropicEvent::MessageDelta {
            usage: match field_of(d, "usage"@) {
                Some(u) => Some(u64_of(field_of(u, "output_tokens"@))),
                None => None,
            },
        }
    } else if kind == "message_stop"@ {
        e == AnthropicEvent::MessageStop
    } else if kind == "error"@ {
        e matches AnthropicEvent::Error { message } && opt_text(message) == str_of(
            field_in(field_of(d, "error"@), "message"@),
        )
    } else {
        e == AnthropicEvent::Other
    }
}

fn text_field_or_empty(d: &Json, key: &str) -> (r: String)
    ensures
        r@ == text_or_empty(d@, key@),
{
    match d.str_field(key) {
        Some(t) => t,
        None => String::new(),
    }
}

fn block_start(b: &Json) -> (r: BlockStart)
    ensures
        block_start_of(b@, r),
{
    let t = b.str_field("type");
    match t {
        Some(t) => {
            if str_eq(t.as_str(), "text") {
                BlockStart::Text
            } else if str_eq(t.as_str(), "thinking") {
                BlockStart::Thinking
            } else if str_eq(t.as_str(), "tool_use") {
                BlockStart::ToolUse { id: text_field_or_empty(b, "id"), name: text_field_or_empty(b, "name") }
            } else {
                BlockStart::Other
            }
        },
        None => BlockStart::Other,
    }
}

fn block_delta(delta: Option<&Json>) -> (r: BlockDelta)
    ensures
        block_delta_of(
            match delta {
                Some(x) => Some(x@),
                None => None,
            },
            r,
        ),
{
    match delta {
        Some(d) => match d.str_field("type") {
            Some(t) => {
                if str_eq(t.as_str(), "text_delta") {
                    BlockDelta::Text(d.str_field("text"))
                } else if str_eq(t.as_str(), "thinking_delta") {
                    BlockDelta::Thinking(d.str_field("thinking"))
                } else if str_eq(t.as_str(), "input_json_delta") {
                    BlockDelta::InputJson(d.str_field("partial_json"))
                } else {
                    BlockDelta::Other
                }
            },
            None => BlockDelta::Other,
        },
        None => BlockDelta::Other,
    }
}

/// The event a frame of kind `kind` with the JSON data `data` stands for;
/// see [`decoded`].
pub fn event_of(kind: &str, data: &Json) -> (r: AnthropicEvent)
    ensures
        decoded(kind@, data@, r),
{
    let index = data.u64_field("index");
    if str_eq(kind, "message_start") {
        let usage = match data.field("message") {
            Some(m) => match m.field("usage") {
                Some(u) => Some((u.u64_field("input_tokens"), u.u64_field("cache_read_input_tokens"))),
                None => None,
            },
            None => None,
        };
        AnthropicEvent::MessageStart { usage }
    } else if str_eq(kind, "content_block_start") {
        let block = match data.field("content_block") {
            Some(b) => Some(block_start(b)),
            None => None,
        };
        AnthropicEvent::ContentBlockStart { index, block }
    } else if str_eq(kind, "content_block_delta") {
        AnthropicEvent::ContentBlockDelta { index, delta: block_delta(data.field("delta")) }
    } else if str_eq(kind, "content_block_stop") {
        AnthropicEvent::ContentBlockStop { index }
    } else if str_eq(kind, "message_delta") {
        let usage = match data.field("usage") {
            Some(u) => Some(u.u64_field("output_tokens")),
            None => None,
        };
        AnthropicEvent::MessageDelta { usage }
    } else if str_eq(kind, "message_stop") {
        AnthropicEvent::MessageStop
    } else if str_eq(kind, "error") {
        let message = match data.field("error") {
            Some(e) => e.str_field("message"),
            None => None,
        };
        AnthropicEvent::Error { message }
    } else {
        AnthropicEvent::Other
    }
}

/// The event of one streamed frame: its kind and its data text. `None`
/// where the data is not JSON; such a frame is skipped.
pub fn anthropic_event(kind: &str, data: &str) -> (r: Option<AnthropicEvent>)
    ensures
        match json_text(data@) {
            Some(j) => r matches Some(e) && decoded(kind@, j, e),
            None => r is None,
        },
{
    match parse_json(data) {
        Some(j) => Some(event_of(kind, &j)),
        None => None,
    }
}

/// A content block being received.
#[derive(Debug, Clone, PartialEq, Eq)]
pub enum BlockBuf {
    Text,
    Thinking,
    ToolUse { id: String, name: String, partial_json: String },
}

pub enum BlockView {
    Text,
    Thinking,
    ToolUse(Seq<char>, Seq<char>, Seq<char>),
}

pub open spec fn block_view(b: BlockBuf) -> BlockView {
    match b {
        BlockBuf::Text => BlockView::Text,
        BlockBuf::Thinking => BlockView::Thinking,
        BlockBuf::ToolUse { id, name, partial_json } => BlockView::ToolUse(id@, name@, partial_json@),
    }
}

pub open spec fn blocks_view(s: Seq<(u32, BlockBuf)>) -> Seq<(u32, BlockView)> {
    s.map_values(|p: (u32, BlockBuf)| (p.0, block_view(p.1)))
}

/// `n as u32`: the low 32 bits.
pub open spec fn low32(n: u64) -> u32 {
    (n % 4294967296) as u32
}

/// A block index as the protocol gives it: missing is 0.
pub open spec fn index_of(o: Option<u64>) -> u32 {
    match o {
        Some(n) => low32(n),
        None => 0,
    }
}

fn index_exec(o: Option<u64>) -> (r: u32)
    ensures
        r == index_of(o),
{
    match o {
        Some(n) => (n % 4294967296) as u32,
        None => 0,
    }
}

/// Indices strictly increase along `s`.
pub open spec fn ascending(s: Seq<(u32, BlockView)>) -> bool {
    forall|i: int, j: int| 0 <= i < j < s.len() ==> #[trigger] s[i].0 < #[trigger] s[j].0
}

/// The position of the entry for `index`, if there is one.
pub open spec fn position(s: Seq<(u32, BlockView)>, index: u32) -> Option<int> {
    if exists|i: int| 0 <= i < s.len() && s[i].0 == index {
        Some(choose|i: int| 0 <= i < s.len() && s[i].0 == index)
    } else {
        None
    }
}

/// The number of entries of `s` before `index`.
pub open spec fn slot(s: Seq<(u32, BlockView)>, index: u32) -> int
    decreases s.len(),
{
    if s.len() == 0 {
        0
    } else if s.last().0 < index {
        s.len() as int
    } else {
        slot(s.drop_last(), index)
    }
}

/// `s` with `b` stored at `index`, replacing what was there.
pub open spec fn stored(s: Seq<(u32, BlockView)>, index: u32, b: BlockView) -> Seq<(u32, BlockView)> {
    match position(s, index) {
        Some(i) => s.update(i, (index, b)),
        None => s.insert(slot(s, index), (index, b)),
    }
}

/// The events of a tool call finished from `b`, if it is one.
pub open spec fn call_events(b: BlockView) -> Seq<EventView> {
    match b {
        BlockView::ToolUse(id, name, json) => seq![EventView::Call(id, name, input_of(json))],
        _ => Seq::empty(),
    }
}

/// The tool calls among `s`, in order.
pub open spec fn all_calls(s: Seq<(u32, BlockView)>) -> Seq<EventView>
    decreases s.len(),
{
    if s.len() == 0 {
        Seq::empty()
    } else {
        all_calls(s.drop_last()) + call_events(s.last().1)
    }
}

pub open spec fn text_event(o: Option<String>, f: spec_fn(Seq<char>) -> EventView) -> Seq<EventView> {
    match o {
        Some(t) => if t@.len() > 0 { seq![f(t@)] } else { Seq::empty() },
        None => Seq::empty(),
    }
}

/// The state of a streamed turn: the open blocks, by index, and the tally.
pub struct TurnState {
    pub blocks: Seq<(u32, BlockView)>,
    pub usage: Usage,
}

/// What an event does. `message_start` sets the input and cached counts
/// from its usage (a missing count is 0); a block start opens a text,
/// thinking or tool-use block at its index; text and thinking deltas are
/// passed on when not empty; JSON deltas grow the tool-use block at their
/// index; a block stop closes its block and finishes a tool call;
/// `message_delta` sets the output count (a missing count keeps it);
/// `message_stop` finishes the remaining tool calls in index order and
/// reports the tally; `error` ends the stream with its message.
pub open spec fn turn_step(s: TurnState, e: AnthropicEvent) -> (TurnState, Result<Seq<EventView>, Seq<char>>) {
    match e {
        AnthropicEvent::MessageStart { usage } => match usage {
            Some((input, cached)) => (TurnState {
                usage: Usage {
                    input_tokens: low32(match input { Some(n) => n, None => 0 }),
                    cached_input_tokens: low32(match cached { Some(n) => n, None => 0 }),
                    ..s.usage
                },
                ..s
            }, Ok(Seq::empty())),
            None => (s, Ok(Seq::empty())),
        },
        AnthropicEvent::ContentBlockStart { index, block } => match block {
            Some(BlockStart::Text) => (TurnState { blocks: stored(s.blocks, index_of(index), BlockView::Text), ..s }, Ok(Seq::empty())),
            Some(BlockStart::Thinking) => (TurnState { blocks: stored(s.blocks, index_of(index), BlockView::Thinking), ..s }, Ok(Seq::empty())),
            Some(BlockStart::ToolUse { id, name }) => (TurnState {
                blocks: stored(s.blocks, index_of(index), BlockView::ToolUse(id@, name@, Seq::empty())),
                ..s
            }, Ok(Seq::empty())),
            _ => (s, Ok(Seq::empty())),
        },
        AnthropicEvent::ContentBlockDelta { index, delta } => match delta {
            BlockDelta::Text(t) => (s, Ok(text_event(t, |x: Seq<char>| EventView::Text(x)))),
            BlockDelta::Thinking(t) => (s, Ok(text_event(t, |x: Seq<char>| EventView::Reasoning(x)))),
            BlockDelta::InputJson(piece) => match (position(s.blocks, index_of(index)), piece) {
                (Some(i), Some(p)) => match s.blocks[i].1 {
                    BlockView::ToolUse(id, name, json) => (TurnState {
                        blocks: s.blocks.update(i, (index_of(index), BlockView::ToolUse(id, name, json + p@))),
                        ..s
                    }, Ok(Seq::empty())),
                    _ => (s, Ok(Seq::empty())),
                },
                _ => (s, Ok(Seq::empty())),
            },
            BlockDelta::Other => (s, Ok(Seq::empty())),
        },
        AnthropicEvent::ContentBlockStop { index } => match position(s.blocks, index_of(index)) {
            Some(i) => (TurnState { blocks: s.blocks.remove(i), ..s }, Ok(call_events(s.blocks[i].1))),
            None => (s, Ok(Seq::empty())),
        },
        AnthropicEvent::MessageDelta { usage } => match usage {
            Some(out) => (TurnState {
                usage: Usage {
                    output_tokens: match out {
                        Some(n) => low32(n),
                        None => s.usage.output_tokens,
                    },
                    ..s.usage
                },
                ..s
            }, Ok(Seq::empty())),
            None => (s, Ok(Seq::empty())),
        },
        AnthropicEvent::MessageStop => (
            TurnState { blocks: Seq::empty(), ..s },
            Ok(all_calls(s.blocks).push(EventView::Usage(s.usage))),
        ),
        AnthropicEvent::Error { message } => (s, Err(match message {
            Some(m) => m@,
            None => "upstream error"@,
        })),
        AnthropicEvent::Other => (s, Ok(Seq::empty())),
    }
}

proof fn lemma_slot(s: Seq<(u32, BlockView)>, index: u32)
    requires
        ascending(s),
        forall|i: int| 0 <= i < s.len() ==> s[i].0 != index,
    ensures
        0 <= slot(s, index) <= s.len(),
        forall|i: int| 0 <= i < slot(s, index) ==> s[i].0 < index,
        forall|i: int| slot(s, index) <= i < s.len() ==> s[i].0 > index,
    decreases s.len(),
{
    if s.len() > 0 {
        let t = s.drop_last();
        assert(ascending(t));
        lemma_slot(t, index);
        assert(forall|i: int| 0 <= i < t.len() ==> t[i] == s[i]);
        if s.last().0 < index {
            assert forall|i: int| 0 <= i < s.len() implies s[i].0 < index by {
                if i < s.len() - 1 {
                    assert(s[i].0 < s[s.len() - 1].0);
                }
            }
        }
    }
}

/// The blocks and tally of a turn, with no invariant of their own.
struct TurnCore {
    blocks: Vec<(u32, BlockBuf)>,
    usage: Usage,
}

impl TurnCore {
    spec fn state(&self) -> TurnState {
        TurnState { blocks: blocks_view(self.blocks@), usage: self.usage }
    }

    fn new() -> (r: TurnCore)
        ensures
            r.state().blocks == Seq::<(u32, BlockView)>::empty(),
            r.state().usage == (Usage { input_tokens: 0, output_tokens: 0, cached_input_tokens: 0, reasoning_tokens: 0 }),
    {
        let r = TurnCore {
            blocks: Vec::new(),
            usage: Usage { input_tokens: 0, output_tokens: 0, cached_input_tokens: 0, reasoning_tokens: 0 },
        };
        assert(r.state().blocks =~= Seq::<(u32, BlockView)>::empty());
        r
    }

    /// The position of the block at `index`, if there is one.
    fn find(&self, index: u32) -> (r: Option<usize>)
        requires
            ascending(self.state().blocks),
        ensures
            match r {
                Some(i) => position(self.state().blocks, index) == Some(i as int) && i < self.blocks@.len(),
                None => position(self.state().blocks, index) is None,
            },
    {
        let ghost s = self.state().blocks;
        let mut i: usize = 0;
        while i < self.blocks.len()
            invariant
                i <= self.blocks@.len(),
                s == blocks_view(self.blocks@),
                ascending(s),
                forall|k: int| 0 <= k < i ==> s[k].0 != index,
            decreases self.blocks@.len() - i,
        {
            assert(s[i as int].0 == self.blocks@[i as int].0);
            if self.blocks[i].0 == index {
                proof {
                    assert(exists|k: int| 0 <= k < s.len() && s[k].0 == index);
                    let c = choose|k: int| 0 <= k < s.len() && s[k].0 == index;
                    if c != i {
                        assert(s[c].0 == s[i as int].0);
                    }
                }
                return Some(i);
            }
            i += 1;
        }
        None
    }

    fn store(&mut self, index: u32, b: BlockBuf)
        requires
            ascending(old(self).state().blocks),
        ensures
            ascending(final(self).state().blocks),
            final(self).state() == (TurnState { blocks: stored(old(self).state().blocks, index, block_view(b)), ..old(self).state() }),
    {
        let ghost s = self.state().blocks;
        match self.find(index) {
            Some(i) => {
                let ghost before = self.blocks@;
                self.blocks.set(i, (index, b));
                assert(self.state().blocks =~= s.update(i as int, (index, block_view(b))));
            },
            None => {
                proof {
                    lemma_slot(s, index);
                }
                let n = self.blocks.len();
                let mut k: usize = 0;
                while k < n && self.blocks[k].0 < index
                    invariant
                        k <= n,
                        n == self.blocks@.len(),
                        s == blocks_view(self.blocks@),
                        forall|j: int| 0 <= j < slot(s, index) ==> s[j].0 < index,
                        forall|j: int| slot(s, index) <= j < s.len() ==> s[j].0 > index,
                        k <= slot(s, index),
                    decreases n - k,
                {
                    assert(s[k as int].0 == self.blocks@[k as int].0);
                    k += 1;
                }
                if k < n {
                    assert(s[k as int].0 == self.blocks@[k as int].0);
                }
                self.blocks.insert(k, (index, b));
                assert(self.state().blocks =~= s.insert(k as int, (index, block_view(b))));
            },
        }
    }

    fn call_of(b: BlockBuf) -> (r: Option<ToolCall>)
        ensures
            match block_view(b) {
                BlockView::ToolUse(id, name, json) => r matches Some(c) && c.tool_call_id@ == id && c.tool_name@ == name
                    && c.input@ == input_of(json),
                _ => r is None,
            },
    {
        match b {
            BlockBuf::ToolUse { id, name, partial_json } => {
                let input = arguments_value(partial_json.as_str());
                Some(ToolCall { tool_call_id: id, tool_name: name, input })
            },
            _ => None,
        }
    }

    fn on_delta(&mut self, index: Option<u64>, delta: BlockDelta) -> (r: Vec<StreamEvent>)
        requires
            ascending(old(self).state().blocks),
        ensures
            ascending(final(self).state().blocks),
            final(self).state() == turn_step(old(self).state(), AnthropicEvent::ContentBlockDelta { index, delta }).0,
            turn_step(old(self).state(), AnthropicEvent::ContentBlockDelta { index, delta }).1 == Ok::<Seq<EventView>, Seq<char>>(events_view(r@)),
    {
        let mut r: Vec<StreamEvent> = Vec::new();
        match delta {
            BlockDelta::Text(t) => {
                match t {
                    Some(text) => {
                        if text.as_str().unicode_len() > 0 {
                            r.push(StreamEvent::TextDelta(text));
                        }
                    },
                    None => {},
                }
                assert(events_view(r@) =~= text_event(t, |x: Seq<char>| EventView::Text(x)));
            },
            BlockDelta::Thinking(t) => {
                match t {
                    Some(text) => {
                        if text.as_str().unicode_len() > 0 {
                            r.push(StreamEvent::ReasoningDelta(text));
                        }
                    },
                    None => {},
                }
                assert(events_view(r@) =~= text_event(t, |x: Seq<char>| EventView::Reasoning(x)));
            },
            BlockDelta::InputJson(piece) => {
                match piece {
                    Some(p) => self.append_json(index_exec(index), p),
                    None => {},
                }
                assert(events_view(r@) =~= Seq::<EventView>::empty());
            },
            BlockDelta::Other => {
                assert(events_view(r@) =~= Seq::<EventView>::empty());
            },
        }
        r
    }

    fn append_json(&mut self, idx: u32, p: String)
        requires
            ascending(old(self).state().blocks),
        ensures
            ascending(final(self).state().blocks),
            final(self).state() == (match position(old(self).state().blocks, idx) {
                Some(i) => match old(self).state().blocks[i].1 {
                    BlockView::ToolUse(id, name, json) => TurnState {
                        blocks: old(self).state().blocks.update(i, (idx, BlockView::ToolUse(id, name, json + p@))),
                        ..old(self).state()
                    },
                    _ => old(self).state(),
                },
                None => old(self).state(),
            }),
    {
        let ghost s = self.state();
        match self.find(idx) {
            Some(i) => {
                let ghost before = self.blocks@;
                assert(blocks_view(before)[i as int] == s.blocks[i as int]);
                assert(before[i as int].0 == idx);
                let is_tool = match &self.blocks[i].1 {
                    BlockBuf::ToolUse { .. } => true,
                    _ => false,
                };
                if is_tool {
                    let (k, b) = self.blocks.remove(i);
                    let nb = match b {
                        BlockBuf::ToolUse { id, name, partial_json } => {
                            let mut json = partial_json;
                            json.append(p.as_str());
                            BlockBuf::ToolUse { id, name, partial_json: json }
                        },
                        other => other,
                    };
                    self.blocks.insert(i, (k, nb));
                    assert(self.blocks@ =~= before.update(i as int, (k, nb)));
                    assert(self.state().blocks =~= s.blocks.update(i as int, (k, block_view(nb))));
                }
            },
            None => {},
        }
    }

    fn on_stop(&mut self, index: Option<u64>) -> (r: Vec<StreamEvent>)
        requires
            ascending(old(self).state().blocks),
        ensures
            ascending(final(self).state().blocks),
            final(self).state() == turn_step(old(self).state(), AnthropicEvent::ContentBlockStop { index }).0,
            turn_step(old(self).state(), AnthropicEvent::ContentBlockStop { index }).1 == Ok::<Seq<EventView>, Seq<char>>(events_view(r@)),
    {
        let ghost s = self.state();
        let idx = index_exec(index);
        let mut r: Vec<StreamEvent> = Vec::new();
        match self.find(idx) {
            Some(i) => {
                let ghost before = self.blocks@;
                let (_, b) = self.blocks.remove(i);
                assert(blocks_view(before)[i as int] == s.blocks[i as int]);
                assert(self.state().blocks =~= s.blocks.remove(i as int));
                match Self::call_of(b) {
                    Some(c) => r.push(StreamEvent::ToolCall(c)),
                    None => {},
                }
                assert(events_view(r@) =~= call_events(s.blocks[i as int].1));
            },
            None => {
                assert(events_view(r@) =~= Seq::<EventView>::empty());
            },
        }
        r
    }

    fn on_message_stop(&mut self) -> (r: Vec<StreamEvent>)
        ensures
            final(self).state() == turn_step(old(self).state(), AnthropicEvent::MessageStop).0,
            turn_step(old(self).state(), AnthropicEvent::MessageStop).1 == Ok::<Seq<EventView>, Seq<char>>(events_view(r@)),
    {
        let ghost s = self.state();
        let mut taken: Vec<(u32, BlockBuf)> = Vec::new();
        std::mem::swap(&mut taken, &mut self.blocks);
        let ghost all = blocks_view(taken@);
        let mut out: Vec<StreamEvent> = Vec::new();
        let n = taken.len();
        let mut i: usize = 0;
        while i < n
            invariant
                i <= n,
                n == all.len(),
                taken@.len() == n - i,
                blocks_view(taken@) == all.skip(i as int),
                events_view(out@) == all_calls(all.take(i as int)),
            decreases n - i,
        {
            let ghost rest = taken@;
            let (_, b) = taken.remove(0);
            assert(blocks_view(rest)[0] == all.skip(i as int)[0]);
            assert(taken@ =~= rest.skip(1));
            assert(blocks_view(rest.skip(1)) =~= blocks_view(rest).skip(1));
            assert(all.take(i + 1).drop_last() =~= all.take(i as int));
            let ghost prev = events_view(out@);
            match Self::call_of(b) {
                Some(c) => out.push(StreamEvent::ToolCall(c)),
                None => {},
            }
            assert(events_view(out@) =~= prev + call_events(all[i as int].1));
            i += 1;
        }
        assert(all.take(n as int) =~= all);
        let ghost calls = events_view(out@);
        out.push(StreamEvent::Usage(self.usage));
        assert(events_view(out@) =~= calls.push(EventView::Usage(s.usage)));
        assert(self.state().blocks =~= Seq::<(u32, BlockView)>::empty());
        out
    }

    fn on_event(&mut self, e: AnthropicEvent) -> (r: Result<Vec<StreamEvent>, String>)
        requires
            ascending(old(self).state().blocks),
        ensures
            ascending(final(self).state().blocks),
            final(self).state() == turn_step(old(self).state(), e).0,
            match (r, turn_step(old(self).state(), e).1) {
                (Ok(es), Ok(v)) => events_view(es@) == v,
                (Err(m), Err(v)) => m@ == v,
                _ => false,
            },
    {
        let ghost s = self.state();
        match e {
            AnthropicEvent::MessageStart { usage } => {
                match usage {
                    Some((input, cached)) => {
                        self.usage.input_tokens = match input {
                            Some(n) => (n % 4294967296) as u32,
                            None => 0,
                        };
                        self.usage.cached_input_tokens = match cached {
                            Some(n) => (n % 4294967296) as u32,
                            None => 0,
                        };
                    },
                    None => {},
                }
                let r: Vec<StreamEvent> = Vec::new();
                assert(events_view(r@) =~= Seq::<EventView>::empty());
                assert(self.state() == turn_step(s, e).0);
                Ok(r)
            },
            AnthropicEvent::ContentBlockStart { index, block } => {
                let idx = index_exec(index);
                match block {
                    Some(BlockStart::Text) => self.store(idx, BlockBuf::Text),
                    Some(BlockStart::Thinking) => self.store(idx, BlockBuf::Thinking),
                    Some(BlockStart::ToolUse { id, name }) => {
                        let b = BlockBuf::ToolUse { id, name, partial_json: String::new() };
                        self.store(idx, b);
                    },
                    _ => {},
                }
                let r: Vec<StreamEvent> = Vec::new();
                assert(events_view(r@) =~= Seq::<EventView>::empty());
                assert(self.state() == turn_step(s, e).0);
                Ok(r)
            },
            AnthropicEvent::ContentBlockDelta { index, delta } => Ok(self.on_delta(index, delta)),
            AnthropicEvent::ContentBlockStop { index } => Ok(self.on_stop(index)),
            AnthropicEvent::MessageDelta { usage } => {
                match usage {
                    Some(out) => {
                        match out {
                            Some(n) => {
                                self.usage.output_tokens = (n % 4294967296) as u32;
                            },
                            None => {},
                        }
                    },
                    None => {},
                }
                let r: Vec<StreamEvent> = Vec::new();
                assert(events_view(r@) =~= Seq::<EventView>::empty());
                assert(self.state() == turn_step(s, e).0);
                Ok(r)
            },
            AnthropicEvent::MessageStop => Ok(self.on_message_stop()),
            AnthropicEvent::Error { message } => match message {
                Some(m) => Err(m),
                None => Err(String::from_str("upstream error")),
            },
            AnthropicEvent::Other => {
                let r: Vec<StreamEvent> = Vec::new();
                assert(events_view(r@) =~= Seq::<EventView>::empty());
                assert(self.state() == turn_step(s, e).0);
                Ok(r)
            },
        }
    }

}

/// The state of one streamed turn.
pub struct AnthropicTurn {
    core: TurnCore,
}

impl AnthropicTurn {
    pub closed spec fn state(&self) -> TurnState {
        self.core.state()
    }

    /// The blocks are kept in ascending order of index.
    #[verifier::type_invariant]
    closed spec fn wf(self) -> bool {
        ascending(self.core.state().blocks)
    }

    /// A turn with no blocks and a zero tally.
    pub fn new() -> (r: AnthropicTurn)
        ensures
            r.state().blocks == Seq::<(u32, BlockView)>::empty(),
            r.state().usage == (Usage { input_tokens: 0, output_tokens: 0, cached_input_tokens: 0, reasoning_tokens: 0 }),
    {
        AnthropicTurn { core: TurnCore::new() }
    }

    /// What `e` yields: the events to pass on, or the error that ends the
    /// stream.
    pub fn on_event(&mut self, e: AnthropicEvent) -> (r: Result<Vec<StreamEvent>, String>)
        ensures
            ascending(final(self).state().blocks),
            final(self).state() == turn_step(old(self).state(), e).0,
            match (r, turn_step(old(self).state(), e).1) {
                (Ok(es), Ok(v)) => events_view(es@) == v,
                (Err(m), Err(v)) => m@ == v,
                _ => false,
            },
    {
        proof {
            use_type_invariant(&*self);
        }
        let mut core = TurnCore::new();
        std::mem::swap(&mut core, &mut self.core);
        let r = core.on_event(e);
        self.core = core;
        r
    }

    /// The end of the stream.
    pub fn finish(&self) -> (r: StreamEvent)
        ensures
            r == StreamEvent::Done,
    {
        StreamEvent::Done
    }
}

} // verus!

verus! {

/// A content block as the Messages protocol takes it.
#[derive(Debug, Clone, PartialEq, Eq)]
pub enum AnthBlock {
    Text { text: String, cache: bool },
    ToolUse { id: String, name: String, input: Json },
    ToolResult { tool_use_id: String, content: String, is_error: bool, cache: bool },
}

/// A message as the Messages protocol takes it.
#[derive(Debug, Clone, PartialEq, Eq)]
pub struct AnthMessageWire {
    pub role: String,
    pub content: Vec<AnthBlock>,
}

/// A block as the contracts see it.
pub enum BlockWireView {
    Text(Seq<char>, bool),
    /// A tool call: its id, name and input.
    ToolUse(Seq<char>, Seq<char>, JsonSpec),
    /// A tool result: the call's id, its text, whether it is an error, and
    /// whether it carries the cache marker.
    ToolResult(Seq<char>, Seq<char>, bool, bool),
}

pub open spec fn wire_block_view(b: AnthBlock) -> BlockWireView {
    match b {
        AnthBlock::Text { text, cache } => BlockWireView::Text(text@, cache),
        AnthBlock::ToolUse { id, name, input } => BlockWireView::ToolUse(id@, name@, input@),
        AnthBlock::ToolResult { tool_use_id, content, is_error, cache } => BlockWireView::ToolResult(
            tool_use_id@,
            content@,
            is_error,
            cache,
        ),
    }
}

pub open spec fn wire_blocks_view(bs: Seq<AnthBlock>) -> Seq<BlockWireView> {
    bs.map_values(|b: AnthBlock| wire_block_view(b))
}

/// The blocks of a user message made of parts: one text block per part.
pub open spec fn user_blocks(ps: Seq<UserPart>) -> Seq<BlockWireView> {
    ps.map_values(|p: UserPart| match p {
        UserPart::Text { text } => BlockWireView::Text(text@, false),
    })
}

/// The blocks of an assistant message: its non-empty texts and its tool
/// calls, in order; reasoning is left out.
pub open spec fn assistant_blocks(ps: Seq<AssistantPart>) -> Seq<BlockWireView>
    decreases ps.len(),
{
    if ps.len() == 0 {
        Seq::empty()
    } else {
        assistant_blocks(ps.drop_last()) + match ps.last() {
            AssistantPart::Text { text } => if text@.len() > 0 {
                seq![BlockWireView::Text(text@, false)]
            } else {
                Seq::empty()
            },
            AssistantPart::Reasoning { .. } => Seq::empty(),
            AssistantPart::ToolCall { tool_call_id, tool_name, input } => seq![BlockWireView::ToolUse(tool_call_id@, tool_name@, input@)],
        }
    }
}

/// The blocks of a tool message: one result per tool result, with the
/// result's text, marked as an error unless it is a JSON value, the last carrying the cache marker when
/// `cache` holds.
pub open spec fn result_blocks(rs: Seq<ToolResult>, cache: bool) -> Seq<BlockWireView> {
    Seq::new(rs.len(), |i: int| BlockWireView::ToolResult(
        rs[i].tool_call_id@,
        result_text(rs[i].output),
        !(rs[i].output is Json),
        cache && i == rs.len() - 1,
    ))
}

/// Whether `r` is `m` in the Messages form; see [`message_to_anthropic`].
pub open spec fn anthropic_form(m: Message, attach_cache: bool, r: AnthMessageWire) -> bool {
    match m {
        Message::User { content } => r.role@ == "user"@ && match content {
            MessageContent::Text(s) => wire_blocks_view(r.content@) == seq![BlockWireView::Text(s@, attach_cache)],
            MessageContent::Parts(ps) => wire_blocks_view(r.content@) == user_blocks(ps@),
        },
        Message::Assistant { content } => r.role@ == "assistant"@ && wire_blocks_view(r.content@)
            == assistant_blocks(super::openai_compatible::parts_of(content)),
        Message::Tool { content } => r.role@ == "user"@ && wire_blocks_view(r.content@) == result_blocks(
            content@,
            attach_cache,
        ),
    }
}

/// A message in the Messages form; `attach_cache` puts the cache marker on
/// a user text message and on the last result of a tool message.
pub fn message_to_anthropic(m: &Message, attach_cache: bool) -> (r: AnthMessageWire)
    ensures
        anthropic_form(*m, attach_cache, r),
{
    match m {
        Message::User { content } => {
            let mut blocks: Vec<AnthBlock> = Vec::new();
            match content {
                MessageContent::Text(s) => {
                    blocks.push(AnthBlock::Text { text: s.clone(), cache: attach_cache });
                    assert(wire_blocks_view(blocks@) =~= seq![BlockWireView::Text(s@, attach_cache)]);
                },
                MessageContent::Parts(ps) => {
                    let mut i: usize = 0;
                    while i < ps.len()
                        invariant
                            i <= ps@.len(),
                            wire_blocks_view(blocks@) == user_blocks(ps@.take(i as int)),
                        decreases ps@.len() - i,
                    {
                        let ghost before = blocks@;
                        match &ps[i] {
                            UserPart::Text { text } => {
                                blocks.push(AnthBlock::Text { text: text.clone(), cache: false });
                                assert(wire_blocks_view(blocks@) =~= wire_blocks_view(before).push(BlockWireView::Text(text@, false)));
                            },
                        }
                        assert(ps@.take(i + 1) =~= ps@.take(i as int).push(ps@[i as int]));
                        assert(user_blocks(ps@.take(i + 1)) =~= user_blocks(ps@.take(i as int)).push(user_blocks(ps@)[i as int]));
                        assert(wire_blocks_view(blocks@) =~= user_blocks(ps@.take(i + 1)));
                        i += 1;
                    }
                    assert(ps@.take(ps@.len() as int) =~= ps@);
                },
            }
            AnthMessageWire { role: String::from_str("user"), content: blocks }
        },
        Message::Assistant { content } => {
            let ghost ps = super::openai_compatible::parts_of(*content);
            let owned: Vec<AssistantPart>;
            let parts: &Vec<AssistantPart> = match content {
                AssistantContent::Text(s) => {
                    let mut v: Vec<AssistantPart> = Vec::new();
                    v.push(AssistantPart::Text { text: s.clone() });
                    owned = v;
                    &owned
                },
                AssistantContent::Parts(p) => p,
            };
            assert(parts@ =~= ps);
            let mut blocks: Vec<AnthBlock> = Vec::new();
            let mut i: usize = 0;
            while i < parts.len()
                invariant
                    i <= parts@.len(),
                    parts@ == ps,
                    wire_blocks_view(blocks@) == assistant_blocks(ps.take(i as int)),
                decreases parts@.len() - i,
            {
                assert(ps.take(i + 1).drop_last() =~= ps.take(i as int));
                let ghost before = wire_blocks_view(blocks@);
                match &parts[i] {
                    AssistantPart::Text { text } => {
                        if text.as_str().unicode_len() > 0 {
                            blocks.push(AnthBlock::Text { text: text.clone(), cache: false });
                        }
                    },
                    AssistantPart::Reasoning { .. } => {},
                    AssistantPart::ToolCall { tool_call_id, tool_name, input } => {
                        blocks.push(AnthBlock::ToolUse { id: tool_call_id.clone(), name: tool_name.clone(), input: input.duplicate() });
                    },
                }
                assert(wire_blocks_view(blocks@) =~= assistant_blocks(ps.take(i + 1)));
                i += 1;
            }
            assert(ps.take(parts@.len() as int) =~= ps);
            AnthMessageWire { role: String::from_str("assistant"), content: blocks }
        },
        Message::Tool { content } => {
            let mut blocks: Vec<AnthBlock> = Vec::new();
            let n = content.len();
            let mut i: usize = 0;
            while i < n
                invariant
                    i <= n,
                    n == content@.len(),
                    wire_blocks_view(blocks@) == result_blocks(content@, attach_cache).take(i as int),
                decreases n - i,
            {
                let res = &content[i];
                let body = result_payload(&res.output);
                let is_error = match &res.output {
                    ToolResultContent::Json { .. } => false,
                    _ => true,
                };
                let cache = attach_cache && i + 1 == n;
                let ghost before = blocks@;
                blocks.push(AnthBlock::ToolResult { tool_use_id: res.tool_call_id.clone(), content: body, is_error, cache });
                assert(wire_blocks_view(blocks@) =~= wire_blocks_view(before).push(BlockWireView::ToolResult(res.tool_call_id@, body@, is_error, cache)));
                assert(result_blocks(content@, attach_cache)[i as int] == BlockWireView::ToolResult(res.tool_call_id@, body@, is_error, cache));
                assert(wire_blocks_view(blocks@) =~= result_blocks(content@, attach_cache).take(i + 1));
                i += 1;
            }
            assert(result_blocks(content@, attach_cache).take(n as int) =~= result_blocks(content@, attach_cache));
            AnthMessageWire { role: String::from_str("user"), content: blocks }
        },
    }
}

/// A Messages request as this library decides it. Its JSON adds
/// `"stream": true`, sends `system` as the one block of `system`, leaves
/// out `thinking` (with its budget) and `effort` where they are `None`, and
/// leaves out `tools` where there are none.
#[derive(Debug, Clone, PartialEq, Eq)]
pub struct AnthropicRequest {
    pub model: String,
    pub system: AnthBlock,
    pub messages: Vec<AnthMessageWire>,
    pub max_tokens: u32,
    pub thinking_budget: Option<u32>,
    pub effort: Option<String>,
    pub tools: Vec<ToolDef>,
}

/// The request for a turn: the provider's model; the system prompt as one
/// text block with the cache marker; each message in the Messages form,
/// the most recent one sent with the `user` role carrying the cache marker; the output limit (16000 where none
/// was asked for); with a reasoning effort, its thinking budget and its
/// `effort` hint; and the tools.
pub fn build_request_body(
    messages: &Vec<Message>,
    system_prompt: &str,
    tools: &Vec<ToolDef>,
    provider: &NamedProvider,
    options: &GenerationOptions,
) -> (r: AnthropicRequest)
    ensures
        r.model@ == provider.info.model@,
        r.system matches AnthBlock::Text { text, cache } && text@ == system_prompt@ && cache,
        r.messages@.len() == messages@.len(),
        forall|k: int|
            0 <= k < messages@.len() ==> anthropic_form(
                messages@[k],
                last_user_index(messages@) == Some(k),
                #[trigger] r.messages@[k],
            ),
        r.max_tokens == (match options.max_output_tokens {
            Some(m) => m,
            None => 16000,
        }),
        match options.reasoning_effort {
            Some(e) => r.thinking_budget == Some(budget_of(e)) && (r.effort matches Some(w) && w@
                == super::openai_compatible::effort_word(e)),
            None => r.thinking_budget is None && r.effort is None,
        },
        tools_view(r.tools@) == tools_view(tools@),
{
    let n = messages.len();
    let target = cache_marker_target(messages);
    let mut wire: Vec<AnthMessageWire> = Vec::new();
    let mut i: usize = 0;
    while i < n
        invariant
            n == messages@.len(),
            i <= n,
            wire@.len() == i,
            match target {
                Some(t) => last_user_index(messages@) == Some(t as int),
                None => last_user_index(messages@) is None,
            },
            forall|k: int|
                0 <= k < i ==> anthropic_form(messages@[k], last_user_index(messages@) == Some(k), #[trigger] wire@[k]),
        decreases n - i,
    {
        let attach = match target {
            Some(t) => t == i,
            None => false,
        };
        wire.push(message_to_anthropic(&messages[i], attach));
        i += 1;
    }
    let (thinking, effort) = match options.reasoning_effort {
        Some(e) => (Some(thinking_budget(e)), Some(reasoning_effort_to_anthropic(e).to_string())),
        None => (None, None),
    };
    AnthropicRequest {
        model: provider.info.model.clone(),
        system: AnthBlock::Text { text: system_prompt.to_string(), cache: true },
        messages: wire,
        max_tokens: max_tokens(options),
        thinking_budget: thinking,
        effort,
        tools: duplicate_tools(tools),
    }
}

} // verus!

verus! {

pub open spec fn ephemeral_json() -> JsonSpec {
    JsonSpec::Object(seq![("type"@, JsonSpec::Str("ephemeral"@))])
}

pub open spec fn cache_entry(cache: bool) -> Seq<(Seq<char>, JsonSpec)> {
    if cache {
        seq![("cache_control"@, ephemeral_json())]
    } else {
        Seq::empty()
    }
}

/// A content block as Messages JSON: a text, a tool use with its input, or
/// a tool result with `"is_error": true` where it is one; a block with the
/// cache marker carries `"cache_control": {"type": "ephemeral"}`.
pub open spec fn block_json(b: AnthBlock) -> JsonSpec {
    match b {
        AnthBlock::Text { text, cache } => JsonSpec::Object(
            seq![("type"@, JsonSpec::Str("text"@)), ("text"@, JsonSpec::Str(text@))] + cache_entry(cache),
        ),
        AnthBlock::ToolUse { id, name, input } => JsonSpec::Object(
            seq![
                ("type"@, JsonSpec::Str("tool_use"@)),
                ("id"@, JsonSpec::Str(id@)),
                ("name"@, JsonSpec::Str(name@)),
                ("input"@, input@),
            ],
        ),
        AnthBlock::ToolResult { tool_use_id, content, is_error, cache } => JsonSpec::Object(
            seq![
                ("type"@, JsonSpec::Str("tool_result"@)),
                ("tool_use_id"@, JsonSpec::Str(tool_use_id@)),
                ("content"@, JsonSpec::Str(content@)),
            ] + (if is_error {
                seq![("is_error"@, JsonSpec::Bool(true))]
            } else {
                Seq::empty()
            }) + cache_entry(cache),
        ),
    }
}

pub open spec fn blocks_json(bs: Seq<AnthBlock>) -> Seq<JsonSpec> {
    bs.map_values(|b: AnthBlock| block_json(b))
}

/// A message as Messages JSON: its role and its blocks.
pub open spec fn anth_message_json(w: AnthMessageWire) -> JsonSpec {
    JsonSpec::Object(seq![("role"@, JsonSpec::Str(w.role@)), ("content"@, JsonSpec::Array(blocks_json(w.content@)))])
}

/// A tool as the Messages protocol takes it.
pub open spec fn anth_tool_json(t: ToolDef) -> JsonSpec {
    JsonSpec::Object(
        seq![
            ("name"@, JsonSpec::Str(t.name@)),
            ("description"@, JsonSpec::Str(t.description@)),
            ("input_schema"@, t.input_schema@),
        ],
    )
}

/// The JSON body of a Messages request: the model, the messages, the
/// system block as a one-element array, `"stream": true`, `max_tokens`;
/// with a thinking budget, `"thinking": {"type": "enabled", "budget_tokens":
/// …}`; the `effort` hint where set; the tools where there are any.
pub open spec fn anth_body_json(r: AnthropicRequest) -> JsonSpec {
    JsonSpec::Object(
        seq![
            ("model"@, JsonSpec::Str(r.model@)),
            ("messages"@, JsonSpec::Array(r.messages@.map_values(|w: AnthMessageWire| anth_message_json(w)))),
            ("system"@, JsonSpec::Array(seq![block_json(r.system)])),
            ("stream"@, JsonSpec::Bool(true)),
            ("max_tokens"@, JsonSpec::Number(decimal(r.max_tokens as nat))),
        ] + (match r.thinking_budget {
            Some(b) => seq![
                ("thinking"@, JsonSpec::Object(
                    seq![("type"@, JsonSpec::Str("enabled"@)), ("budget_tokens"@, JsonSpec::Number(decimal(b as nat)))],
                )),
            ],
            None => Seq::empty(),
        }) + (match r.effort {
            Some(e) => seq![("effort"@, JsonSpec::Str(e@))],
            None => Seq::empty(),
        }) + (if r.tools@.len() > 0 {
            seq![("tools"@, JsonSpec::Array(r.tools@.map_values(|t: ToolDef| anth_tool_json(t))))]
        } else {
            Seq::empty()
        }),
    )
}

fn push_cache(es: &mut Vec<(String, Json)>, cache: bool)
    ensures
        entries_view(final(es)@) == entries_view(old(es)@) + cache_entry(cache),
{
    if cache {
        let mut c: Vec<(String, Json)> = Vec::new();
        push_entry(&mut c, "type", json_str("ephemeral"));
        assert(entries_view(c@) =~= seq![("type"@, JsonSpec::Str("ephemeral"@))]);
        let ghost before = entries_view(es@);
        push_entry(es, "cache_control", Json::Object(c));
        assert(entries_view(es@) =~= before + cache_entry(cache));
    } else {
        assert(entries_view(es@) =~= entries_view(es@) + cache_entry(cache));
    }
}

fn block_to_json(b: &AnthBlock) -> (r: Json)
    ensures
        r@ == block_json(*b),
{
    let mut es: Vec<(String, Json)> = Vec::new();
    match b {
        AnthBlock::Text { text, cache } => {
            push_entry(&mut es, "type", json_str("text"));
            push_entry(&mut es, "text", json_str(text.as_str()));
            let ghost base = entries_view(es@);
            assert(base =~= seq![("type"@, JsonSpec::Str("text"@)), ("text"@, JsonSpec::Str(text@))]);
            push_cache(&mut es, *cache);
        },
        AnthBlock::ToolUse { id, name, input } => {
            push_entry(&mut es, "type", json_str("tool_use"));
            push_entry(&mut es, "id", json_str(id.as_str()));
            push_entry(&mut es, "name", json_str(name.as_str()));
            push_entry(&mut es, "input", input.duplicate());
            assert(entries_view(es@) =~= seq![
                ("type"@, JsonSpec::Str("tool_use"@)),
                ("id"@, JsonSpec::Str(id@)),
                ("name"@, JsonSpec::Str(name@)),
                ("input"@, input@),
            ]);
        },
        AnthBlock::ToolResult { tool_use_id, content, is_error, cache } => {
            push_entry(&mut es, "type", json_str("tool_result"));
            push_entry(&mut es, "tool_use_id", json_str(tool_use_id.as_str()));
            push_entry(&mut es, "content", json_str(content.as_str()));
            let ghost base = entries_view(es@);
            assert(base =~= seq![
                ("type"@, JsonSpec::Str("tool_result"@)),
                ("tool_use_id"@, JsonSpec::Str(tool_use_id@)),
                ("content"@, JsonSpec::Str(content@)),
            ]);
            if *is_error {
                push_entry(&mut es, "is_error", Json::Bool(true));
            }
            let ghost mid = entries_view(es@);
            assert(mid =~= base + (if *is_error {
                seq![("is_error"@, JsonSpec::Bool(true))]
            } else {
                Seq::<(Seq<char>, JsonSpec)>::empty()
            }));
            push_cache(&mut es, *cache);
        },
    }
    Json::Object(es)
}

fn message_to_json(w: &AnthMessageWire) -> (r: Json)
    ensures
        r@ == anth_message_json(*w),
{
    let mut items: Vec<Json> = Vec::new();
    let mut i: usize = 0;
    while i < w.content.len()
        invariant
            i <= w.content@.len(),
            items_view(items@) == blocks_json(w.content@.take(i as int)),
        decreases w.content@.len() - i,
    {
        push_item(&mut items, block_to_json(&w.content[i]));
        assert(blocks_json(w.content@.take(i + 1)) =~= blocks_json(w.content@.take(i as int)).push(
            block_json(w.content@[i as int]),
        ));
        i += 1;
    }
    assert(w.content@.take(i as int) =~= w.content@);
    let mut es: Vec<(String, Json)> = Vec::new();
    push_entry(&mut es, "role", json_str(w.role.as_str()));
    push_entry(&mut es, "content", Json::Array(items));
    assert(entries_view(es@) =~= seq![
        ("role"@, JsonSpec::Str(w.role@)),
        ("content"@, JsonSpec::Array(blocks_json(w.content@))),
    ]);
    Json::Object(es)
}

fn anth_tool_to_json(t: &ToolDef) -> (r: Json)
    ensures
        r@ == anth_tool_json(*t),
{
    let mut es: Vec<(String, Json)> = Vec::new();
    push_entry(&mut es, "name", json_str(t.name.as_str()));
    push_entry(&mut es, "description", json_str(t.description.as_str()));
    push_entry(&mut es, "input_schema", t.input_schema.duplicate());
    assert(entries_view(es@) =~= seq![
        ("name"@, JsonSpec::Str(t.name@)),
        ("description"@, JsonSpec::Str(t.description@)),
        ("input_schema"@, t.input_schema@),
    ]);
    Json::Object(es)
}

/// The JSON body of a Messages request; see [`anth_body_json`].
pub fn request_json(r: &AnthropicRequest) -> (j: Json)
    ensures
        j@ == anth_body_json(*r),
{
    let mut msgs: Vec<Json> = Vec::new();
    let mut i: usize = 0;
    while i < r.messages.len()
        invariant
            i <= r.messages@.len(),
            items_view(msgs@) == r.messages@.take(i as int).map_values(|w: AnthMessageWire| anth_message_json(w)),
        decreases r.messages@.len() - i,
    {
        push_item(&mut msgs, message_to_json(&r.messages[i]));
        assert(r.messages@.take(i + 1).map_values(|w: AnthMessageWire| anth_message_json(w)) =~= r.messages@.take(
            i as int,
        ).map_values(|w: AnthMessageWire| anth_message_json(w)).push(anth_message_json(r.messages@[i as int])));
        i += 1;
    }
    assert(r.messages@.take(i as int) =~= r.messages@);
    let mut sys: Vec<Json> = Vec::new();
    push_item(&mut sys, block_to_json(&r.system));
    assert(items_view(sys@) =~= seq![block_json(r.system)]);
    let mut es: Vec<(String, Json)> = Vec::new();
    push_entry(&mut es, "model", json_str(r.model.as_str()));
    push_entry(&mut es, "messages", Json::Array(msgs));
    push_entry(&mut es, "system", Json::Array(sys));
    push_entry(&mut es, "stream", Json::Bool(true));
    push_entry(&mut es, "max_tokens", json_u64(r.max_tokens as u64));
    match r.thinking_budget {
        Some(b) => {
            let mut t: Vec<(String, Json)> = Vec::new();
            push_entry(&mut t, "type", json_str("enabled"));
            push_entry(&mut t, "budget_tokens", json_u64(b as u64));
            assert(entries_view(t@) =~= seq![
                ("type"@, JsonSpec::Str("enabled"@)),
                ("budget_tokens"@, JsonSpec::Number(decimal(b as nat))),
            ]);
            push_entry(&mut es, "thinking", Json::Object(t));
        },
        None => {},
    }
    match &r.effort {
        Some(e) => push_entry(&mut es, "effort", json_str(e.as_str())),
        None => {},
    }
    if r.tools.len() > 0 {
        let mut ts: Vec<Json> = Vec::new();
        let mut k: usize = 0;
        while k < r.tools.len()
            invariant
                k <= r.tools@.len(),
                items_view(ts@) == r.tools@.take(k as int).map_values(|t: ToolDef| anth_tool_json(t)),
            decreases r.tools@.len() - k,
        {
            push_item(&mut ts, anth_tool_to_json(&r.tools[k]));
            assert(r.tools@.take(k + 1).map_values(|t: ToolDef| anth_tool_json(t)) =~= r.tools@.take(
                k as int,
            ).map_values(|t: ToolDef| anth_tool_json(t)).push(anth_tool_json(r.tools@[k as int])));
            k += 1;
        }
        assert(r.tools@.take(k as int) =~= r.tools@);
        push_entry(&mut es, "tools", Json::Array(ts));
    }
    assert(entries_view(es@) =~= anth_body_json(*r)->Object_0);
    Json::Object(es)
}

} // verus!

verus! {

/// A `text_delta` frame is answer text: decoded and taken by the turn, a
/// non-empty `text` comes out as exactly one text event with that text,
/// whatever the turn's state.
pub proof fn law_text_delta_is_answer_text(s: TurnState, d: JsonSpec, e: AnthropicEvent, t: Seq<char>)
    requires
        decoded("content_block_delta"@, d, e),
        str_of(field_in(field_of(d, "delta"@), "type"@)) == Some("text_delta"@),
        str_of(field_in(field_of(d, "delta"@), "text"@)) == Some(t),
        t.len() > 0,
    ensures
        turn_step(s, e) == (s, Ok::<Seq<EventView>, Seq<char>>(seq![EventView::Text(t)])),
{
    reveal_strlit("content_block_delta");
    reveal_strlit("message_start");
    reveal_strlit("content_block_start");
    assert("content_block_delta"@.len() == 19 && "message_start"@.len() == 13 && "content_block_start"@.len() == 19);
    assert("content_block_delta"@[14] == 'd' && "content_block_start"@[14] == 's');
}

/// Reasoning comes only from a `thinking_delta`: a delta frame of any other
/// type yields no reasoning event.
pub proof fn law_reasoning_only_from_thinking_delta(s: TurnState, d: JsonSpec, e: AnthropicEvent)
    requires
        decoded("content_block_delta"@, d, e),
        str_of(field_in(field_of(d, "delta"@), "type"@)) != Some("thinking_delta"@),
    ensures
        turn_step(s, e).1 matches Ok(v) && forall|i: int| 0 <= i < v.len() ==> !(#[trigger] v[i] is Reasoning),
{
    reveal_strlit("content_block_delta");
    reveal_strlit("message_start");
    reveal_strlit("content_block_start");
    assert("content_block_delta"@.len() == 19 && "message_start"@.len() == 13 && "content_block_start"@.len() == 19);
    assert("content_block_delta"@[14] == 'd' && "content_block_start"@[14] == 's');
}

} // verus!
