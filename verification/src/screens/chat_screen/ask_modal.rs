//! The modal for the AskUser tool: one question at a time, answered by
//! picking a numbered choice or by typing an answer.

use vstd::prelude::*;

use crate::screens::{Key, KeyCode};
use crate::text::{decimal, decimal_string, string_of_chars};
use crate::tools::ask::{Question, QuestionChoice, QuestionResponse};

verus! {

#[derive(Debug, Clone, PartialEq, Eq)]
pub enum AskModalOutcome {
    Done(Vec<QuestionResponse>),
    Cancelled,
}

/// A recorded answer as the contracts see it: the question, then the answer.
pub open spec fn response_view(r: QuestionResponse) -> (Seq<char>, Seq<char>) {
    (r.question@, r.answer@)
}

pub open spec fn responses_view(rs: Seq<QuestionResponse>) -> Seq<(Seq<char>, Seq<char>)> {
    rs.map_values(|r: QuestionResponse| response_view(r))
}

/// The modal's state: the questions, the answers so far, the current
/// question, the focused entry (a choice, or the typed answer after the
/// last choice), whether an answer is being typed, and what was typed.
pub struct AskState {
    pub questions: Seq<Question>,
    pub answers: Seq<(Seq<char>, Seq<char>)>,
    pub cursor: int,
    pub focus: int,
    pub typing: bool,
    pub typed: Seq<char>,
}

pub enum AskOutcomeView {
    Done(Seq<(Seq<char>, Seq<char>)>),
    Cancelled,
}

pub open spec fn ask_outcome_view(o: Option<AskModalOutcome>) -> Option<AskOutcomeView> {
    match o {
        None => None,
        Some(AskModalOutcome::Cancelled) => Some(AskOutcomeView::Cancelled),
        Some(AskModalOutcome::Done(rs)) => Some(AskOutcomeView::Done(responses_view(rs@))),
    }
}

/// Records `answer` for the current question and moves to the next one;
/// after the last question the modal is done with all the answers.
pub open spec fn commit(s: AskState, answer: Seq<char>) -> (AskState, Option<AskOutcomeView>) {
    let answers = s.answers.push((s.questions[s.cursor].question@, answer));
    if s.cursor + 1 >= s.questions.len() {
        (AskState { answers: Seq::empty(), cursor: s.cursor + 1, focus: 0, ..s }, Some(AskOutcomeView::Done(answers)))
    } else {
        (AskState { answers, cursor: s.cursor + 1, focus: 0, ..s }, None)
    }
}

pub open spec fn labels_of(q: Question) -> Seq<Seq<char>> {
    q.choices@.map_values(|c: crate::tools::ask::QuestionChoice| c.label@)
}

/// What `key` does. Choosing: Up and Down move the focus round the choices
/// and the typed-answer entry, Esc cancels, Enter picks the focused choice
/// or starts typing, and a digit from 1 to 9 picks that choice where there
/// is one. Typing: Esc goes back to choosing, Enter records a non-empty
/// answer, Backspace deletes, and a character is appended.
pub open spec fn ask_key(s: AskState, key: Key) -> (AskState, Option<AskOutcomeView>) {
    let labels = labels_of(s.questions[s.cursor]);
    let n = labels.len() as int + 1;
    if !s.typing {
        match key.code {
            KeyCode::Up => (AskState { focus: (s.focus + n - 1) % n, ..s }, None),
            KeyCode::Down => (AskState { focus: (s.focus + 1) % n, ..s }, None),
            KeyCode::Esc => (s, Some(AskOutcomeView::Cancelled)),
            KeyCode::Enter => if s.focus < labels.len() {
                commit(s, labels[s.focus])
            } else {
                (AskState { typing: true, typed: Seq::empty(), ..s }, None)
            },
            KeyCode::Char(c) => if '1' <= c && c <= '9' && (c as int) - ('1' as int) < labels.len() {
                commit(s, labels[(c as int) - ('1' as int)])
            } else {
                (s, None)
            },
            _ => (s, None),
        }
    } else {
        match key.code {
            KeyCode::Esc => (AskState { typing: false, typed: Seq::empty(), ..s }, None),
            KeyCode::Enter => if s.typed.len() > 0 {
                commit(AskState { typing: false, typed: Seq::empty(), ..s }, s.typed)
            } else {
                (s, None)
            },
            KeyCode::Backspace => (AskState { typed: if s.typed.len() > 0 { s.typed.drop_last() } else { s.typed }, ..s }, None),
            KeyCode::Char(c) => (AskState { typed: s.typed.push(c), ..s }, None),
            _ => (s, None),
        }
    }
}

proof fn lemma_wrap_back(f: int, n: int)
    requires
        0 <= f < n,
    ensures
        (f + n - 1) % n == (if f == 0 { n - 1 } else { f - 1 }),
{
    if f == 0 {
        assert((n - 1) % n == n - 1) by (nonlinear_arith)
            requires
                n >= 1,
        ;
    } else {
        assert((f + n - 1) % n == f - 1) by (nonlinear_arith)
            requires
                1 <= f < n,
        ;
    }
}

proof fn lemma_wrap_forward(f: int, n: int)
    requires
        0 <= f < n,
    ensures
        (f + 1) % n == (if f == n - 1 { 0 } else { f + 1 }),
{
    if f == n - 1 {
        assert(n % n == 0) by (nonlinear_arith)
            requires
                n >= 1,
        ;
    } else {
        assert((f + 1) % n == f + 1) by (nonlinear_arith)
            requires
                0 <= f < n - 1,
        ;
    }
}

/// The AskUser modal.
pub struct AskModal {
    questions: Vec<Question>,
    answers: Vec<QuestionResponse>,
    cursor: usize,
    focus: usize,
    typing: bool,
    typed: Vec<char>,
}

impl AskModal {
    pub closed spec fn state(&self) -> AskState {
        AskState {
            questions: self.questions@,
            answers: responses_view(self.answers@),
            cursor: self.cursor as int,
            focus: self.focus as int,
            typing: self.typing,
            typed: self.typed@,
        }
    }

    /// The modal is consistent: the current question exists while it is
    /// open, and the focus points at one of its entries.
    pub open spec fn wf_state(s: AskState) -> bool {
        &&& 0 <= s.cursor <= s.questions.len()
        &&& s.cursor < s.questions.len() ==> 0 <= s.focus <= s.questions[s.cursor].choices@.len()
        &&& s.cursor < s.questions.len() ==> s.answers.len() == s.cursor
        &&& forall|k: int| 0 <= k < s.answers.len() ==> #[trigger] s.answers[k].0 == s.questions[k].question@
    }

    pub open spec fn is_open_state(s: AskState) -> bool {
        s.cursor < s.questions.len()
    }

    /// A modal asking `questions`, first to last.
    pub fn new(questions: Vec<Question>) -> (r: AskModal)
        ensures
            r.state() == (AskState {
                questions: questions@,
                answers: Seq::empty(),
                cursor: 0,
                focus: 0,
                typing: false,
                typed: Seq::empty(),
            }),
            Self::wf_state(r.state()),
    {
        let r = AskModal { questions, answers: Vec::new(), cursor: 0, focus: 0, typing: false, typed: Vec::new() };
        assert(responses_view(r.answers@) =~= Seq::empty());
        r
    }

    /// Whether a question is still waiting for its answer.
    pub fn is_open(&self) -> (r: bool)
        ensures
            r == Self::is_open_state(self.state()),
    {
        self.cursor < self.questions.len()
    }

    /// The index of the current question.
    pub fn cursor(&self) -> (r: usize)
        ensures
            r == self.state().cursor,
    {
        self.cursor
    }

    /// The index of the focused entry.
    pub fn focus(&self) -> (r: usize)
        ensures
            r == self.state().focus,
    {
        self.focus
    }

    /// Whether an answer is being typed.
    pub fn is_typing(&self) -> (r: bool)
        ensures
            r == self.state().typing,
    {
        self.typing
    }

    /// What was typed so far.
    pub fn typed(&self) -> (r: String)
        ensures
            r@ == self.state().typed,
    {
        string_of_chars(&self.typed)
    }

    /// The questions asked.
    pub fn questions(&self) -> (r: &Vec<Question>)
        ensures
            r@ == self.state().questions,
    {
        &self.questions
    }

    fn commit(&mut self, answer: String) -> (r: Option<AskModalOutcome>)
        requires
            Self::wf_state(old(self).state()),
            Self::is_open_state(old(self).state()),
        ensures
            Self::wf_state(final(self).state()),
            (final(self).state(), ask_outcome_view(r)) == commit(old(self).state(), answer@),
    {
        let ghost before = self.answers@;
        let qn = self.questions.len();
        assert(self.cursor < qn);
        let next = self.cursor + 1;
        let question = self.questions[self.cursor].question.clone();
        self.answers.push(QuestionResponse { question, answer });
        assert(responses_view(self.answers@) =~= responses_view(before).push(
            (old(self).questions@[old(self).cursor as int].question@, answer@),
        ));
        self.cursor = next;
        self.focus = 0;
        if self.cursor >= self.questions.len() {
            let mut done: Vec<QuestionResponse> = Vec::new();
            std::mem::swap(&mut done, &mut self.answers);
            assert(responses_view(self.answers@) =~= Seq::empty());
            Some(AskModalOutcome::Done(done))
        } else {
            None
        }
    }

    pub fn on_key(&mut self, key: Key) -> (r: Option<AskModalOutcome>)
        requires
            Self::wf_state(old(self).state()),
            Self::is_open_state(old(self).state()),
        ensures
            Self::wf_state(final(self).state()),
            (final(self).state(), ask_outcome_view(r)) == ask_key(old(self).state(), key),
    {
        let count = self.questions[self.cursor].choices.len();
        let ghost labels = labels_of(self.questions@[self.cursor as int]);
        assert(labels.len() == count);
        if !self.typing {
            match key.code {
                KeyCode::Up => {
                    let f = self.focus;
                    proof {
                        lemma_wrap_back(f as int, count as int + 1);
                    }
                    self.focus = if f == 0 {
                        count
                    } else {
                        f - 1
                    };
                    None
                },
                KeyCode::Down => {
                    let f = self.focus;
                    proof {
                        lemma_wrap_forward(f as int, count as int + 1);
                    }
                    self.focus = if f == count {
                        0
                    } else {
                        f + 1
                    };
                    None
                },
                KeyCode::Esc => Some(AskModalOutcome::Cancelled),
                KeyCode::Enter => {
                    if self.focus < count {
                        let answer = self.questions[self.cursor].choices[self.focus].label.clone();
                        self.commit(answer)
                    } else {
                        self.typing = true;
                        self.typed = Vec::new();
                        None
                    }
                },
                KeyCode::Char(c) => {
                    if '1' <= c && c <= '9' {
                        let idx = (c as u32 - '1' as u32) as usize;
                        if idx < count {
                            let answer = self.questions[self.cursor].choices[idx].label.clone();
                            self.commit(answer)
                        } else {
                            None
                        }
                    } else {
                        None
                    }
                },
                _ => None,
            }
        } else {
            match key.code {
                KeyCode::Esc => {
                    self.typing = false;
                    self.typed = Vec::new();
                    None
                },
                KeyCode::Enter => {
                    if self.typed.len() > 0 {
                        let answer = string_of_chars(&self.typed);
                        self.typed = Vec::new();
                        self.typing = false;
                        self.commit(answer)
                    } else {
                        None
                    }
                },
                KeyCode::Backspace => {
                    if self.typed.len() > 0 {
                        self.typed.pop();
                    }
                    None
                },
                KeyCode::Char(c) => {
                    self.typed.push(c);
                    None
                },
                _ => None,
            }
        }
    }
}

/// Every question is answered exactly once: when the modal is done, it
/// hands back one answer per question, in the order of the questions.
pub proof fn law_all_questions_answered(s: AskState, key: Key)
    requires
        AskModal::wf_state(s),
        AskModal::is_open_state(s),
    ensures
        ask_key(s, key).1 matches Some(AskOutcomeView::Done(answers)) ==> answers.len() == s.questions.len()
            && forall|k: int| 0 <= k < answers.len() ==> #[trigger] answers[k].0 == s.questions[k].question@,
{
}

} // verus!

verus! {

/// One choice as the modal shows it: whether the marker points at it, its
/// number (`1) `, `2) `, …), its label and its description.
#[derive(Debug, Clone, PartialEq, Eq)]
pub struct ChoiceRow {
    pub marked: bool,
    pub number: String,
    pub label: String,
    pub description: Option<String>,
}

/// What the modal shows for the current question.
#[derive(Debug, Clone, PartialEq, Eq)]
pub struct AskText {
    /// `AskUser (<k>/<n>): <title>`.
    pub title: String,
    pub question: String,
    pub rows: Vec<ChoiceRow>,
    /// Whether the marker points at the "type your own answer" entry.
    pub own_answer_marked: bool,
    /// The answer being typed, while one is.
    pub typed: Option<String>,
    pub footer: String,
}

pub open spec fn ask_title(s: AskState) -> Seq<char> {
    "AskUser ("@ + decimal((s.cursor + 1) as nat) + "/"@ + decimal(s.questions.len()) + "): "@
        + s.questions[s.cursor].title@
}

pub open spec fn ask_footer(typing: bool) -> Seq<char> {
    if typing {
        "Enter: submit • Esc: back"@
    } else {
        "↑/↓: choose • Enter: confirm • Esc: cancel"@
    }
}

/// Whether `r` shows choice `i` of `c` in state `s`.
pub open spec fn row_shows(s: AskState, i: int, c: QuestionChoice, r: ChoiceRow) -> bool {
    &&& r.marked == (s.focus == i && !s.typing)
    &&& r.number@ == decimal((i + 1) as nat) + ") "@
    &&& r.label@ == c.label@
    &&& match (r.description, c.description) {
        (Some(a), Some(b)) => a@ == b@,
        (None, None) => true,
        _ => false,
    }
}

impl AskModal {
    /// What the modal shows: nothing once every question is answered.
    pub fn text(&self) -> (r: Option<AskText>)
        ensures
            r is Some <==> Self::is_open_state(self.state()),
            r matches Some(t) ==> {
                let s = self.state();
                let q = s.questions[s.cursor];
                &&& t.title@ == ask_title(s)
                &&& t.question@ == q.question@
                &&& t.rows@.len() == q.choices@.len()
                &&& forall|i: int| 0 <= i < t.rows@.len() ==> row_shows(s, i, q.choices@[i], #[trigger] t.rows@[i])
                &&& t.own_answer_marked == (s.focus == q.choices@.len())
                &&& match t.typed {
                    Some(x) => s.typing && x@ == s.typed,
                    None => !s.typing,
                }
                &&& t.footer@ == ask_footer(s.typing)
            },
    {
        if self.cursor >= self.questions.len() {
            return None;
        }
        let q = &self.questions[self.cursor];
        let mut title = String::from_str("AskUser (");
        title.append(decimal_string((self.cursor as u128) + 1).as_str());
        title.append("/");
        title.append(decimal_string(self.questions.len() as u128).as_str());
        title.append("): ");
        title.append(q.title.as_str());
        let mut rows: Vec<ChoiceRow> = Vec::new();
        let mut i: usize = 0;
        while i < q.choices.len()
            invariant
                i <= q.choices@.len(),
                rows@.len() == i,
                *q == self.questions@[self.cursor as int],
                forall|k: int| 0 <= k < i ==> row_shows(self.state(), k, q.choices@[k], #[trigger] rows@[k]),
            decreases q.choices@.len() - i,
        {
            let c = &q.choices[i];
            let mut number = decimal_string((i as u128) + 1);
            number.append(") ");
            let description = match &c.description {
                Some(d) => Some(d.clone()),
                None => None,
            };
            rows.push(ChoiceRow {
                marked: self.focus == i && !self.typing,
                number,
                label: c.label.clone(),
                description,
            });
            i += 1;
        }
        let typed = if self.typing {
            Some(string_of_chars(&self.typed))
        } else {
            None
        };
        let footer = if self.typing {
            String::from_str("Enter: submit • Esc: back")
        } else {
            String::from_str("↑/↓: choose • Enter: confirm • Esc: cancel")
        };
        Some(AskText {
            title,
            question: q.question.clone(),
            rows,
            own_answer_marked: self.focus == q.choices.len(),
            typed,
            footer,
        })
    }
}

} // verus!
