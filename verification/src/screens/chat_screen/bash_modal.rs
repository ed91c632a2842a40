//! The modal that asks whether to run a command: approve it, reject it with
//! an optional message, or cancel the session.

use vstd::prelude::*;

use crate::screens::{button_text, Key, KeyCode};
use crate::text::string_of_chars;
use crate::tools::bash::{risk_label, tag_label, BashApproval, BashModelInput, BehaviorTag};

verus! {

/// The number of actions the modal offers: approve, reject, cancel.
pub const ACTION_COUNT: usize = 3;

/// What the modal's buttons do, in order.
#[derive(Debug, Clone, Copy, PartialEq, Eq, Structural)]
pub enum BashAction {
    Approve,
    Reject,
    Cancel,
}

pub open spec fn action_at(i: int) -> BashAction {
    if i == 0 {
        BashAction::Approve
    } else if i == 1 {
        BashAction::Reject
    } else {
        BashAction::Cancel
    }
}

#[derive(Debug, Clone, PartialEq, Eq)]
pub enum BashModalOutcome {
    Decided(BashApproval),
    Cancelled,
}

/// The modal's state: the focused action, whether a rejection message is
/// being typed, and that message.
pub struct BashModalState {
    pub focus: int,
    pub editing: bool,
    pub message: Seq<char>,
}

/// An outcome as the contracts see it.
pub enum ModalOutcomeView {
    Approved,
    Rejected(Option<Seq<char>>),
    Cancelled,
}

pub open spec fn outcome_view(o: Option<BashModalOutcome>) -> Option<ModalOutcomeView> {
    match o {
        None => None,
        Some(BashModalOutcome::Cancelled) => Some(ModalOutcomeView::Cancelled),
        Some(BashModalOutcome::Decided(BashApproval::Approved)) => Some(ModalOutcomeView::Approved),
        Some(BashModalOutcome::Decided(BashApproval::Rejected { message })) => Some(
            ModalOutcomeView::Rejected(
                match message {
                    Some(m) => Some(m@),
                    None => None,
                },
            ),
        ),
    }
}

/// What `key` does. Choosing: Up and Down move the focus round the three
/// actions, Esc cancels, Enter approves, cancels, or starts the rejection
/// message. Typing the message: Esc clears it and goes back, Enter rejects
/// with the message (none where it is empty), Backspace deletes, and a
/// character is appended.
pub open spec fn bash_modal_key(s: BashModalState, key: Key) -> (BashModalState, Option<ModalOutcomeView>) {
    if !s.editing {
        match key.code {
            KeyCode::Up => (BashModalState { focus: (s.focus + 2) % 3, ..s }, None),
            KeyCode::Down => (BashModalState { focus: (s.focus + 1) % 3, ..s }, None),
            KeyCode::Esc => (s, Some(ModalOutcomeView::Cancelled)),
            KeyCode::Enter => match action_at(s.focus) {
                BashAction::Approve => (s, Some(ModalOutcomeView::Approved)),
                BashAction::Cancel => (s, Some(ModalOutcomeView::Cancelled)),
                BashAction::Reject => (BashModalState { editing: true, ..s }, None),
            },
            _ => (s, None),
        }
    } else {
        match key.code {
            KeyCode::Esc => (BashModalState { editing: false, message: Seq::empty(), ..s }, None),
            KeyCode::Enter => (
                BashModalState { message: Seq::empty(), ..s },
                Some(ModalOutcomeView::Rejected(if s.message.len() == 0 { None } else { Some(s.message) })),
            ),
            KeyCode::Backspace => (BashModalState { message: if s.message.len() > 0 { s.message.drop_last() } else { s.message }, ..s }, None),
            KeyCode::Char(c) => (BashModalState { message: s.message.push(c), ..s }, None),
            _ => (s, None),
        }
    }
}

/// The command-approval modal.
pub struct BashModal {
    pub model_input: BashModelInput,
    focus: usize,
    editing: bool,
    rejection_message: Vec<char>,
}

impl BashModal {
    pub closed spec fn state(&self) -> BashModalState {
        BashModalState { focus: self.focus as int, editing: self.editing, message: self.rejection_message@ }
    }

    pub closed spec fn input(&self) -> BashModelInput {
        self.model_input
    }

    pub closed spec fn wf(&self) -> bool {
        self.focus < ACTION_COUNT
    }

    /// A modal for `model_input`, with Approve focused.
    pub fn new(model_input: BashModelInput) -> (r: BashModal)
        ensures
            r.wf(),
            r.input() == model_input,
            r.state() == (BashModalState { focus: 0, editing: false, message: Seq::empty() }),
    {
        BashModal { model_input, focus: 0, editing: false, rejection_message: Vec::new() }
    }

    /// The index of the focused action.
    pub fn focus(&self) -> (r: usize)
        ensures
            r == self.state().focus,
    {
        self.focus
    }

    /// Whether the rejection message is being typed.
    pub fn is_editing(&self) -> (r: bool)
        ensures
            r == self.state().editing,
    {
        self.editing
    }

    /// The rejection message typed so far.
    pub fn rejection_message(&self) -> (r: String)
        ensures
            r@ == self.state().message,
    {
        string_of_chars(&self.rejection_message)
    }

    pub fn on_key(&mut self, key: Key) -> (r: Option<BashModalOutcome>)
        requires
            old(self).wf(),
        ensures
            final(self).wf(),
            final(self).input() == old(self).input(),
            (final(self).state(), outcome_view(r)) == bash_modal_key(old(self).state(), key),
    {
        if !self.editing {
            match key.code {
                KeyCode::Up => {
                    self.focus = (self.focus + ACTION_COUNT - 1) % ACTION_COUNT;
                    None
                },
                KeyCode::Down => {
                    self.focus = (self.focus + 1) % ACTION_COUNT;
                    None
                },
                KeyCode::Esc => Some(BashModalOutcome::Cancelled),
                KeyCode::Enter => {
                    if self.focus == 0 {
                        Some(BashModalOutcome::Decided(BashApproval::Approved))
                    } else if self.focus == 2 {
                        Some(BashModalOutcome::Cancelled)
                    } else {
                        self.editing = true;
                        None
                    }
                },
                _ => None,
            }
        } else {
            match key.code {
                KeyCode::Esc => {
                    self.rejection_message = Vec::new();
                    self.editing = false;
                    None
                },
                KeyCode::Enter => {
                    let message = if self.rejection_message.len() == 0 {
                        None
                    } else {
                        Some(string_of_chars(&self.rejection_message))
                    };
                    self.rejection_message = Vec::new();
                    Some(BashModalOutcome::Decided(BashApproval::Rejected { message }))
                },
                KeyCode::Backspace => {
                    if self.rejection_message.len() > 0 {
                        self.rejection_message.pop();
                    }
                    None
                },
                KeyCode::Char(c) => {
                    self.rejection_message.push(c);
                    None
                },
                _ => None,
            }
        }
    }
}

} // verus!

verus! {

/// What the command modal shows, besides its buttons.
#[derive(Debug, Clone, PartialEq, Eq)]
pub struct BashModalText {
    pub command: String,
    pub explanation: String,
    /// `risk: <level>`.
    pub risk: String,
    /// The behaviour tags as `[<tag>, <tag>]`, where there are any.
    pub tags: Option<String>,
    /// The rejection message being typed, while it is.
    pub rejection: Option<String>,
    /// The key hint shown while choosing.
    pub hint: Option<String>,
    /// The three actions' buttons, the focused one marked.
    pub buttons: Vec<String>,
}

pub open spec fn action_label(i: int) -> Seq<char> {
    if i == 0 {
        "Approve and Run"@
    } else if i == 1 {
        "Reject with Message"@
    } else {
        "Cancel and Exit"@
    }
}

/// The tags' labels, joined by `, `.
pub open spec fn tags_joined(tags: Seq<BehaviorTag>) -> Seq<char>
    decreases tags.len(),
{
    if tags.len() == 0 {
        Seq::empty()
    } else if tags.len() == 1 {
        tag_label(tags[0])
    } else {
        tags_joined(tags.drop_last()) + ", "@ + tag_label(tags.last())
    }
}

fn join_tags(tags: &Vec<BehaviorTag>) -> (r: String)
    ensures
        r@ == tags_joined(tags@),
{
    let n = tags.len();
    if n == 0 {
        return String::new();
    }
    let mut r = String::from_str(tags[0].label());
    assert(tags@.take(1).len() == 1);
    let mut i: usize = 1;
    while i < n
        invariant
            1 <= i <= n,
            n == tags@.len(),
            r@ == tags_joined(tags@.take(i as int)),
        decreases n - i,
    {
        r.append(", ");
        r.append(tags[i].label());
        assert(tags@.take(i + 1).drop_last() =~= tags@.take(i as int));
        i += 1;
    }
    assert(tags@.take(n as int) =~= tags@);
    r
}

impl BashModal {
    /// What the modal shows: the command, its explanation, its risk, its
    /// tags, and either the rejection message being typed or the key hint.
    pub fn text(&self) -> (r: BashModalText)
        ensures
            r.command@ == self.input().command@,
            r.explanation@ == self.input().explanation@,
            r.risk@ == "risk: "@ + risk_label(self.input().risk_level),
            match r.tags {
                Some(t) => self.input().behavior_tags@.len() > 0 && t@ == "["@ + tags_joined(
                    self.input().behavior_tags@,
                ) + "]"@,
                None => self.input().behavior_tags@.len() == 0,
            },
            match r.rejection {
                Some(m) => self.state().editing && m@ == self.state().message,
                None => !self.state().editing,
            },
            match r.hint {
                Some(h) => !self.state().editing && h@ == "↑/↓: choose • Enter: confirm • Esc: cancel"@,
                None => self.state().editing,
            },
            r.buttons@.len() == 3,
            forall|i: int|
                0 <= i < 3 ==> (#[trigger] r.buttons@[i])@ == (if self.state().focus == i {
                    "> "@ + action_label(i) + " <"@
                } else {
                    "  "@ + action_label(i) + "  "@
                }),
    {
        let mut risk = String::from_str("risk: ");
        risk.append(self.model_input.risk_level.label());
        let tags = if self.model_input.behavior_tags.len() > 0 {
            let mut t = String::from_str("[");
            t.append(join_tags(&self.model_input.behavior_tags).as_str());
            t.append("]");
            Some(t)
        } else {
            None
        };
        let (rejection, hint) = if self.editing {
            (Some(string_of_chars(&self.rejection_message)), None)
        } else {
            (None, Some(String::from_str("↑/↓: choose • Enter: confirm • Esc: cancel")))
        };
        let mut buttons: Vec<String> = Vec::new();
        buttons.push(button_text("Approve and Run", self.focus == 0));
        buttons.push(button_text("Reject with Message", self.focus == 1));
        buttons.push(button_text("Cancel and Exit", self.focus == 2));
        BashModalText {
            buttons,
            command: self.model_input.command.clone(),
            explanation: self.model_input.explanation.clone(),
            risk,
            tags,
            rejection,
            hint,
        }
    }
}

} // verus!
