//! The AskUser tool: structured questions for the user. The answers are
//! collected by the interface and handed back to the model as they are.

use vstd::prelude::*;

use crate::logic::llm::json::{entries_view, json_str, json_str_array, json_string_prop, push_entry, str_array, string_prop, Json, JsonSpec};

verus! {

#[derive(Debug, Clone, PartialEq, Eq)]
pub struct QuestionChoice {
    pub label: String,
    pub description: Option<String>,
}

#[derive(Debug, Clone, PartialEq, Eq)]
pub struct Question {
    pub title: String,
    pub question: String,
    pub choices: Vec<QuestionChoice>,
}

#[derive(Debug, Clone, PartialEq, Eq)]
pub struct QuestionResponse {
    pub question: String,
    pub answer: String,
}

/// What the model sends.
#[derive(Debug, Clone, PartialEq, Eq)]
pub struct AskModelInput {
    pub questions: Vec<Question>,
}

/// What the model gets back.
#[derive(Debug, Clone, PartialEq, Eq)]
pub struct AskToolOutput {
    pub answers: Vec<QuestionResponse>,
}

#[derive(Debug, Default)]
pub struct AskTool;

impl AskTool {
    pub const NAME: &'static str = "AskUser";

    /// The tool's description for the model.
    pub fn description() -> (r: &'static str)
        ensures
            r@ == ASK_TOOL_DESCRIPTION@,
    {
        ASK_TOOL_DESCRIPTION
    }

    /// The output for the answers the user gave, unchanged.
    pub fn execute(answers: Vec<QuestionResponse>) -> (r: AskToolOutput)
        ensures
            r.answers == answers,
    {
        AskToolOutput { answers }
    }
}

pub const ASK_TOOL_DESCRIPTION: &'static str = "Ask the user one or more questions. Each question should come with predetermined choices for users to choose from. If no choices are adequate, users can choose to type their own answer.
Use this tool to clarify ambiguous requests or gather user decisions.

Tool Usage Guidelines:
- Use the tool only if:
  - The user's intention is unclear and cannot be determined with 80% accuracy; or
  - The user's request is dangerous and may result in unintended consequences.
- Do not use the tool if the user's intention is clear and the request is reasonably safe or reversible.
- **Do not manually add a \"Type your own answer\" option. This option is automatically provided by the UI.**

Example Usage:
<example>
Context:
- The user wants to remove all \"old files\" inside a projects folder to reclaim disk space
- The definition of \"old\" is ambiguous. What is old? 3 months? 1 year?
- In addition, you notice that most of the disk space is occupied by node_modules folders; may be better to only delete node_modules

Agent Action: Ask two questions:

\"What is the specific timeframe for 'old'?\"
Choices:
- 3 months
- 6 months
- 1 year

\"Should I remove entire projects or only the node_modules folders? The node_modules folders are taking up a majority of the space.\"
Choices:
- Remove entire projects
- Remove only node_modules folders
</example>";

} // verus!

verus! {

pub const CHOICES_DESCRIPTION: &'static str = "Choices the user can select to answer the question. Limit choices to 2-4. Provide only the most common choices; if none are adequate, the user can type their own answer. The user may select only one choice per question.";

pub const CHOICE_DESCRIPTION_DESCRIPTION: &'static str = "1 to 2 sentence description of the choice. Provide this if the label is not self-explanatory.";

/// The schema of one choice.
pub open spec fn choice_schema() -> JsonSpec {
    JsonSpec::Object(
        seq![
            ("type"@, JsonSpec::Str("object"@)),
            ("required"@, str_array(seq!["label"])),
            ("additionalProperties"@, JsonSpec::Bool(false)),
            ("properties"@, JsonSpec::Object(
                seq![
                    ("label"@, string_prop("Short label describing the choice (5 words max)"@)),
                    ("description"@, string_prop(CHOICE_DESCRIPTION_DESCRIPTION@)),
                ],
            )),
        ],
    )
}

/// The schema of one question.
pub open spec fn question_schema() -> JsonSpec {
    JsonSpec::Object(
        seq![
            ("type"@, JsonSpec::Str("object"@)),
            ("required"@, str_array(seq!["title", "question", "choices"])),
            ("additionalProperties"@, JsonSpec::Bool(false)),
            ("properties"@, JsonSpec::Object(
                seq![
                    ("title"@, string_prop("Short title describing the question (5 words max)"@)),
                    ("question"@, string_prop("Question for the user to answer. Limit to 1 to 3 sentences."@)),
                    ("choices"@, JsonSpec::Object(
                        seq![
                            ("type"@, JsonSpec::Str("array"@)),
                            ("items"@, choice_schema()),
                            ("description"@, JsonSpec::Str(CHOICES_DESCRIPTION@)),
                        ],
                    )),
                ],
            )),
        ],
    )
}

/// The JSON schema of an AskUser call's input, as the model is told it.
pub open spec fn ask_schema() -> JsonSpec {
    JsonSpec::Object(
        seq![
            ("type"@, JsonSpec::Str("object"@)),
            ("required"@, str_array(seq!["questions"])),
            ("additionalProperties"@, JsonSpec::Bool(false)),
            ("properties"@, JsonSpec::Object(
                seq![
                    ("questions"@, JsonSpec::Object(
                        seq![("type"@, JsonSpec::Str("array"@)), ("items"@, question_schema())],
                    )),
                ],
            )),
        ],
    )
}

fn choice_schema_json() -> (r: Json)
    ensures
        r@ == choice_schema(),
{
    let mut props: Vec<(String, Json)> = Vec::new();
    push_entry(&mut props, "label", json_string_prop("Short label describing the choice (5 words max)"));
    push_entry(&mut props, "description", json_string_prop(CHOICE_DESCRIPTION_DESCRIPTION));
    let mut es: Vec<(String, Json)> = Vec::new();
    push_entry(&mut es, "type", json_str("object"));
    let req = vec!["label"];
    assert(req@ =~= seq!["label"]);
    push_entry(&mut es, "required", json_str_array(&req));
    push_entry(&mut es, "additionalProperties", Json::Bool(false));
    push_entry(&mut es, "properties", Json::Object(props));
    assert(entries_view(props@) =~= choice_schema()->Object_0[3].1->Object_0);
    assert(entries_view(es@) =~= choice_schema()->Object_0);
    Json::Object(es)
}

fn question_schema_json() -> (r: Json)
    ensures
        r@ == question_schema(),
{
    let mut choices: Vec<(String, Json)> = Vec::new();
    push_entry(&mut choices, "type", json_str("array"));
    push_entry(&mut choices, "items", choice_schema_json());
    push_entry(&mut choices, "description", json_str(CHOICES_DESCRIPTION));
    let mut props: Vec<(String, Json)> = Vec::new();
    push_entry(&mut props, "title", json_string_prop("Short title describing the question (5 words max)"));
    push_entry(&mut props, "question", json_string_prop("Question for the user to answer. Limit to 1 to 3 sentences."));
    push_entry(&mut props, "choices", Json::Object(choices));
    let mut es: Vec<(String, Json)> = Vec::new();
    push_entry(&mut es, "type", json_str("object"));
    push_entry(&mut es, "required", json_str_array(&vec!["title", "question", "choices"]));
    push_entry(&mut es, "additionalProperties", Json::Bool(false));
    push_entry(&mut es, "properties", Json::Object(props));
    let ghost pp = question_schema()->Object_0[3].1->Object_0;
    assert(entries_view(choices@) =~= pp[2].1->Object_0);
    assert(entries_view(props@) =~= pp);
    assert(entries_view(es@) =~= question_schema()->Object_0);
    Json::Object(es)
}

impl AskTool {
    /// The JSON schema of the tool's input; see [`ask_schema`].
    pub fn input_schema() -> (r: Json)
        ensures
            r@ == ask_schema(),
    {
        let mut questions: Vec<(String, Json)> = Vec::new();
        push_entry(&mut questions, "type", json_str("array"));
        push_entry(&mut questions, "items", question_schema_json());
        let mut props: Vec<(String, Json)> = Vec::new();
        push_entry(&mut props, "questions", Json::Object(questions));
        let mut es: Vec<(String, Json)> = Vec::new();
        push_entry(&mut es, "type", json_str("object"));
        let req = vec!["questions"];
        assert(req@ =~= seq!["questions"]);
        push_entry(&mut es, "required", json_str_array(&req));
        push_entry(&mut es, "additionalProperties", Json::Bool(false));
        push_entry(&mut es, "properties", Json::Object(props));
        let ghost pp = ask_schema()->Object_0[3].1->Object_0;
        assert(entries_view(questions@) =~= pp[0].1->Object_0);
        assert(entries_view(props@) =~= pp);
        assert(entries_view(es@) =~= ask_schema()->Object_0);
        Json::Object(es)
    }
}

} // verus!
