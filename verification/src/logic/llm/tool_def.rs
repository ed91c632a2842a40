//! A tool as offered to the model.

use vstd::prelude::*;

use super::json::{Json, JsonSpec};

verus! {

/// A tool's name, its description, and the JSON schema of its input.
#[derive(Debug, Clone, PartialEq, Eq)]
pub struct ToolDef {
    pub name: String,
    pub description: String,
    pub input_schema: Json,
}

/// A tool as the contracts see it.
pub open spec fn tool_view(t: ToolDef) -> (Seq<char>, Seq<char>, JsonSpec) {
    (t.name@, t.description@, t.input_schema@)
}

pub open spec fn tools_view(s: Seq<ToolDef>) -> Seq<(Seq<char>, Seq<char>, JsonSpec)> {
    s.map_values(|t: ToolDef| tool_view(t))
}

impl ToolDef {
    /// A field-by-field copy.
    pub fn duplicate(&self) -> (r: ToolDef)
        ensures
            tool_view(r) == tool_view(*self),
    {
        ToolDef {
            name: self.name.clone(),
            description: self.description.clone(),
            input_schema: self.input_schema.duplicate(),
        }
    }
}

/// A copy of each tool, in order.
pub fn duplicate_tools(tools: &Vec<ToolDef>) -> (r: Vec<ToolDef>)
    ensures
        tools_view(r@) == tools_view(tools@),
{
    let mut r: Vec<ToolDef> = Vec::new();
    let mut i: usize = 0;
    while i < tools.len()
        invariant
            i <= tools@.len(),
            tools_view(r@) == tools_view(tools@.take(i as int)),
        decreases tools@.len() - i,
    {
        let ghost before = r@;
        r.push(tools[i].duplicate());
        assert(tools@.take(i + 1) =~= tools@.take(i as int).push(tools@[i as int]));
        assert(tools_view(r@) =~= tools_view(before).push(tool_view(tools@[i as int])));
        assert(tools_view(r@) =~= tools_view(tools@.take(i + 1)));
        i += 1;
    }
    assert(tools@.take(i as int) =~= tools@);
    r
}

} // verus!
