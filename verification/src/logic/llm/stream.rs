//! Token usage as providers report it.

use vstd::prelude::*;

use super::messages::ToolCall;

verus! {

/// Token counts of one or more model turns.
#[derive(Debug, Clone, Copy, Default, PartialEq, Eq, Structural)]
pub struct Usage {
    pub input_tokens: u32,
    pub output_tokens: u32,
    pub cached_input_tokens: u32,
    pub reasoning_tokens: u32,
}

/// `a + b`, capped at `u32::MAX`.
pub open spec fn sat_add(a: u32, b: u32) -> u32 {
    if a + b > u32::MAX {
        u32::MAX
    } else {
        (a + b) as u32
    }
}

/// The field-wise capped sum of two tallies.
pub open spec fn usage_sum(a: Usage, b: Usage) -> Usage {
    Usage {
        input_tokens: sat_add(a.input_tokens, b.input_tokens),
        output_tokens: sat_add(a.output_tokens, b.output_tokens),
        cached_input_tokens: sat_add(a.cached_input_tokens, b.cached_input_tokens),
        reasoning_tokens: sat_add(a.reasoning_tokens, b.reasoning_tokens),
    }
}

pub open spec fn zero_usage() -> Usage {
    Usage { input_tokens: 0, output_tokens: 0, cached_input_tokens: 0, reasoning_tokens: 0 }
}

impl Usage {
    /// Add `other` into `self`, each count capped at `u32::MAX`.
    pub fn add(&mut self, other: &Usage)
        ensures
            *final(self) == usage_sum(*old(self), *other),
    {
        self.input_tokens = self.input_tokens.saturating_add(other.input_tokens);
        self.output_tokens = self.output_tokens.saturating_add(other.output_tokens);
        self.cached_input_tokens = self.cached_input_tokens.saturating_add(
            other.cached_input_tokens,
        );
        self.reasoning_tokens = self.reasoning_tokens.saturating_add(other.reasoning_tokens);
    }
}

/// Adding tallies does not depend on their order: the capped sum is
/// commutative and associative, and zero adds nothing.
pub proof fn law_usage_sum_order_free(a: Usage, b: Usage, c: Usage)
    ensures
        usage_sum(a, b) == usage_sum(b, a),
        usage_sum(usage_sum(a, b), c) == usage_sum(a, usage_sum(b, c)),
        usage_sum(zero_usage(), a) == a,
{
}

/// One piece of progress of a model turn.
#[derive(Debug, Clone, PartialEq, Eq)]
pub enum StreamEvent {
    TextDelta(String),
    ReasoningDelta(String),
    /// A complete tool call.
    ToolCall(ToolCall),
    /// The turn's token counts.
    Usage(Usage),
    /// The turn ended.
    Done,
}

} // verus!
