//! Building an assistant message from streamed deltas.
//!
//! Consecutive text deltas merge into one text part, consecutive reasoning
//! deltas into one reasoning part; a change of kind starts a new part. Tool
//! calls become parts of their own and are also collected for execution.

use vstd::prelude::*;

use super::json::JsonSpec;
use super::messages::{AssistantContent, AssistantPart, Message, ToolCall};
use super::stream::Usage;

verus! {

/// What an [`AssistantPart`] holds.
pub enum PartSpec {
    Text(Seq<char>),
    Reasoning(Seq<char>),
    ToolCall(Seq<char>, Seq<char>, JsonSpec),
}

pub open spec fn part_view(p: AssistantPart) -> PartSpec {
    match p {
        AssistantPart::Text { text } => PartSpec::Text(text@),
        AssistantPart::Reasoning { text } => PartSpec::Reasoning(text@),
        AssistantPart::ToolCall { tool_call_id, tool_name, input } => PartSpec::ToolCall(
            tool_call_id@,
            tool_name@,
            input@,
        ),
    }
}

pub open spec fn parts_view(ps: Seq<AssistantPart>) -> Seq<PartSpec> {
    ps.map_values(|p: AssistantPart| part_view(p))
}

/// The parts after a text delta `d`.
pub open spec fn with_text(ps: Seq<PartSpec>, d: Seq<char>) -> Seq<PartSpec> {
    if ps.len() > 0 && ps.last() is Text {
        ps.drop_last().push(PartSpec::Text(ps.last()->Text_0 + d))
    } else {
        ps.push(PartSpec::Text(d))
    }
}

/// The parts after a reasoning delta `d`.
pub open spec fn with_reasoning(ps: Seq<PartSpec>, d: Seq<char>) -> Seq<PartSpec> {
    if ps.len() > 0 && ps.last() is Reasoning {
        ps.drop_last().push(PartSpec::Reasoning(ps.last()->Reasoning_0 + d))
    } else {
        ps.push(PartSpec::Reasoning(d))
    }
}

/// Accumulates one assistant turn.
#[derive(Debug, Default)]
pub struct AssistantBuilder {
    parts: Vec<AssistantPart>,
    pub usage: Usage,
    pub tool_calls: Vec<ToolCall>,
}

impl AssistantBuilder {
    pub closed spec fn parts(&self) -> Seq<PartSpec> {
        parts_view(self.parts@)
    }

    pub closed spec fn calls(&self) -> Seq<ToolCall> {
        self.tool_calls@
    }

    pub closed spec fn tally(&self) -> Usage {
        self.usage
    }

    /// An empty turn.
    pub fn new() -> (r: AssistantBuilder)
        ensures
            r.parts() == Seq::<PartSpec>::empty(),
            r.calls() == Seq::<ToolCall>::empty(),
            r.tally() == (Usage {
                input_tokens: 0,
                output_tokens: 0,
                cached_input_tokens: 0,
                reasoning_tokens: 0,
            }),
    {
        let r = AssistantBuilder {
            parts: Vec::new(),
            usage: Usage {
                input_tokens: 0,
                output_tokens: 0,
                cached_input_tokens: 0,
                reasoning_tokens: 0,
            },
            tool_calls: Vec::new(),
        };
        assert(r.parts() =~= Seq::<PartSpec>::empty());
        r
    }

    /// Add a text delta.
    pub fn push_text(&mut self, delta: &str)
        ensures
            final(self).parts() == with_text(old(self).parts(), delta@),
            final(self).calls() == old(self).calls(),
            final(self).tally() == old(self).tally(),
    {
        let ghost before = self.parts@;
        let last = self.parts.pop();
        match last {
            Some(AssistantPart::Text { text }) => {
                let mut t = text;
                t.append(delta);
                self.parts.push(AssistantPart::Text { text: t });
                assert(parts_view(self.parts@) =~= with_text(parts_view(before), delta@));
            },
            Some(other) => {
                self.parts.push(other);
                self.parts.push(AssistantPart::Text { text: delta.to_owned() });
                assert(self.parts@.drop_last() =~= before);
                assert(parts_view(self.parts@) =~= with_text(parts_view(before), delta@));
            },
            None => {
                self.parts.push(AssistantPart::Text { text: delta.to_owned() });
                assert(parts_view(self.parts@) =~= with_text(parts_view(before), delta@));
            },
        }
    }

    /// Add a reasoning delta.
    pub fn push_reasoning(&mut self, delta: &str)
        ensures
            final(self).parts() == with_reasoning(old(self).parts(), delta@),
            final(self).calls() == old(self).calls(),
            final(self).tally() == old(self).tally(),
    {
        let ghost before = self.parts@;
        let last = self.parts.pop();
        match last {
            Some(AssistantPart::Reasoning { text }) => {
                let mut t = text;
                t.append(delta);
                self.parts.push(AssistantPart::Reasoning { text: t });
                assert(parts_view(self.parts@) =~= with_reasoning(parts_view(before), delta@));
            },
            Some(other) => {
                self.parts.push(other);
                self.parts.push(AssistantPart::Reasoning { text: delta.to_owned() });
                assert(self.parts@.drop_last() =~= before);
                assert(parts_view(self.parts@) =~= with_reasoning(parts_view(before), delta@));
            },
            None => {
                self.parts.push(AssistantPart::Reasoning { text: delta.to_owned() });
                assert(parts_view(self.parts@) =~= with_reasoning(parts_view(before), delta@));
            },
        }
    }

    /// Add a complete tool call, both as a part and to the calls to run.
    pub fn push_tool_call(&mut self, call: ToolCall)
        ensures
            final(self).parts() == old(self).parts().push(
                PartSpec::ToolCall(call.tool_call_id@, call.tool_name@, call.input@),
            ),
            final(self).calls() == old(self).calls().push(call),
            final(self).tally() == old(self).tally(),
    {
        let ghost before = self.parts@;
        let copy = call.duplicate();
        self.parts.push(
            AssistantPart::ToolCall {
                tool_call_id: copy.tool_call_id,
                tool_name: copy.tool_name,
                input: copy.input,
            },
        );
        assert(parts_view(self.parts@) =~= parts_view(before).push(
            PartSpec::ToolCall(call.tool_call_id@, call.tool_name@, call.input@),
        ));
        self.tool_calls.push(call);
    }

    /// Record the turn's token counts.
    pub fn set_usage(&mut self, usage: Usage)
        ensures
            final(self).parts() == old(self).parts(),
            final(self).calls() == old(self).calls(),
            final(self).tally() == usage,
    {
        self.usage = usage;
    }

    /// The finished assistant message, the tool calls to run, and the usage.
    pub fn finish(self) -> (r: (Message, Vec<ToolCall>, Usage))
        ensures
            r.0 matches Message::Assistant { content: AssistantContent::Parts(ps) } && parts_view(
                ps@,
            ) == self.parts(),
            r.1@ == self.calls(),
            r.2 == self.tally(),
    {
        let msg = Message::assistant_parts(self.parts);
        (msg, self.tool_calls, self.usage)
    }
}

/// Two text deltas in a row give what their concatenation gives, so how the
/// provider splits its text into deltas does not change the message.
pub proof fn law_text_deltas_merge(ps: Seq<PartSpec>, a: Seq<char>, b: Seq<char>)
    ensures
        with_text(with_text(ps, a), b) == with_text(ps, a + b),
{
    let once = with_text(ps, a);
    assert(once.len() > 0 && once.last() is Text);
    if ps.len() > 0 && ps.last() is Text {
        assert(ps.last()->Text_0 + a + b =~= ps.last()->Text_0 + (a + b));
        assert(once.drop_last() =~= ps.drop_last());
    } else {
        assert(once.drop_last() =~= ps);
    }
}

/// Two reasoning deltas in a row give what their concatenation gives.
pub proof fn law_reasoning_deltas_merge(ps: Seq<PartSpec>, a: Seq<char>, b: Seq<char>)
    ensures
        with_reasoning(with_reasoning(ps, a), b) == with_reasoning(ps, a + b),
{
    let once = with_reasoning(ps, a);
    assert(once.len() > 0 && once.last() is Reasoning);
    if ps.len() > 0 && ps.last() is Reasoning {
        assert(ps.last()->Reasoning_0 + a + b =~= ps.last()->Reasoning_0 + (a + b));
        assert(once.drop_last() =~= ps.drop_last());
    } else {
        assert(once.drop_last() =~= ps);
    }
}

} // verus!

verus! {

/// No two parts in a row are both text.
pub open spec fn texts_separate(ps: Seq<PartSpec>) -> bool {
    forall|i: int| 0 <= i < ps.len() - 1 ==> !(#[trigger] ps[i] is Text && ps[i + 1] is Text)
}

/// The texts of the parts, joined in order.
pub open spec fn all_text(ps: Seq<PartSpec>) -> Seq<char>
    decreases ps.len(),
{
    if ps.len() == 0 {
        Seq::empty()
    } else {
        all_text(ps.drop_last()) + match ps.last() {
            PartSpec::Text(t) => t,
            _ => Seq::empty(),
        }
    }
}

/// A text delta keeps texts separate by adjacent parts of other kinds, and
/// the message's text grows by exactly the delta.
pub proof fn law_text_delta_appends(ps: Seq<PartSpec>, d: Seq<char>)
    requires
        texts_separate(ps),
    ensures
        texts_separate(with_text(ps, d)),
        all_text(with_text(ps, d)) == all_text(ps) + d,
{
    let r = with_text(ps, d);
    if ps.len() > 0 && ps.last() is Text {
        let t = ps.last()->Text_0;
        assert(r.drop_last() =~= ps.drop_last());
        if ps.len() >= 2 {
            assert(!(ps[ps.len() - 2] is Text && ps[ps.len() - 1] is Text));
            assert(ps.drop_last().len() > 0 && !(ps.drop_last().last() is Text));
        }
        assert(all_text(ps) == all_text(ps.drop_last()) + t);
        assert(all_text(r) == all_text(ps.drop_last()) + (t + d));
        assert(all_text(ps.drop_last()) + (t + d) =~= all_text(ps.drop_last()) + t + d);
        assert forall|i: int| 0 <= i < r.len() - 1 implies !(#[trigger] r[i] is Text && r[i + 1] is Text) by {
            if i + 1 < r.len() - 1 {
                assert(r[i] == ps[i] && r[i + 1] == ps[i + 1]);
            } else {
                assert(r[i] == ps[i]);
                assert(ps[i + 1] is Text);
            }
        }
    } else {
        assert(r.drop_last() =~= ps);
        assert(all_text(r) == all_text(ps) + d);
        assert forall|i: int| 0 <= i < r.len() - 1 implies !(#[trigger] r[i] is Text && r[i + 1] is Text) by {
            assert(r[i] == ps[i]);
            if i + 1 < r.len() - 1 {
                assert(r[i + 1] == ps[i + 1]);
            } else {
                assert(i == ps.len() - 1);
            }
        }
    }
}

} // verus!
