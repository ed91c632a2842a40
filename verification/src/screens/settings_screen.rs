//! The settings menu: a list of fields, toggled, cycled or edited in place.
//! Writing the settings out is the caller's work.

use vstd::prelude::*;

use super::{Key, KeyCode, Step};
use crate::logic::settings::{ReasoningEffort, Settings};
use crate::text::{chars_of, decimal, decimal_string, parse_unsigned, parse_unsigned_chars, string_of_chars};

verus! {

/// The number of fields the menu lists.
pub const FIELD_COUNT: usize = 5;

/// How a field is changed.
#[derive(Debug, Clone, Copy, PartialEq, Eq, Structural)]
pub enum FieldKind {
    Bool,
    Int,
    ReasoningEffort,
}

/// The kind of field `i`: three switches, the output-token limit, and the
/// reasoning effort.
pub open spec fn kind_of(i: int) -> FieldKind {
    if i < 3 {
        FieldKind::Bool
    } else if i == 3 {
        FieldKind::Int
    } else {
        FieldKind::ReasoningEffort
    }
}

pub fn field_kind(i: usize) -> (r: FieldKind)
    requires
        i < FIELD_COUNT,
    ensures
        r == kind_of(i as int),
{
    if i < 3 {
        FieldKind::Bool
    } else if i == 3 {
        FieldKind::Int
    } else {
        FieldKind::ReasoningEffort
    }
}

pub open spec fn label_of(i: int) -> Seq<char> {
    if i == 0 {
        "Always Confirm"@
    } else if i == 1 {
        "Show Thinking"@
    } else if i == 2 {
        "Show Token Summary"@
    } else if i == 3 {
        "Max Output Tokens"@
    } else {
        "Reasoning Effort"@
    }
}

/// The name of field `i`.
pub fn field_label(i: usize) -> (r: &'static str)
    requires
        i < FIELD_COUNT,
    ensures
        r@ == label_of(i as int),
{
    if i == 0 {
        "Always Confirm"
    } else if i == 1 {
        "Show Thinking"
    } else if i == 2 {
        "Show Token Summary"
    } else if i == 3 {
        "Max Output Tokens"
    } else {
        "Reasoning Effort"
    }
}

pub open spec fn description_of(i: int) -> Seq<char> {
    if i == 0 {
        "Prompt for confirmation before all commands"@
    } else if i == 1 {
        "Show AI thinking/summary for supported models"@
    } else if i == 2 {
        "Display token usage summary on session exit"@
    } else if i == 3 {
        "Maximum output tokens for model responses"@
    } else {
        "How much the model reasons before responding"@
    }
}

/// What field `i` controls.
pub fn field_description(i: usize) -> (r: &'static str)
    requires
        i < FIELD_COUNT,
    ensures
        r@ == description_of(i as int),
{
    if i == 0 {
        "Prompt for confirmation before all commands"
    } else if i == 1 {
        "Show AI thinking/summary for supported models"
    } else if i == 2 {
        "Display token usage summary on session exit"
    } else if i == 3 {
        "Maximum output tokens for model responses"
    } else {
        "How much the model reasons before responding"
    }
}

/// `on` or `off`.
pub open spec fn bool_text(b: bool) -> Seq<char> {
    if b {
        "on"@
    } else {
        "off"@
    }
}

pub fn bool_str(b: bool) -> (r: &'static str)
    ensures
        r@ == bool_text(b),
{
    if b {
        "on"
    } else {
        "off"
    }
}

pub open spec fn effort_text(e: ReasoningEffort) -> Seq<char> {
    match e {
        ReasoningEffort::Low => "low"@,
        ReasoningEffort::Med => "med"@,
        ReasoningEffort::High => "high"@,
    }
}

pub fn effort_str(e: ReasoningEffort) -> (r: &'static str)
    ensures
        r@ == effort_text(e),
{
    match e {
        ReasoningEffort::Low => "low",
        ReasoningEffort::Med => "med",
        ReasoningEffort::High => "high",
    }
}

/// The value field `i` shows for `s`.
pub open spec fn value_text(s: Settings, i: int) -> Seq<char> {
    if i == 0 {
        bool_text(s.always_confirm)
    } else if i == 1 {
        bool_text(s.show_thinking)
    } else if i == 2 {
        bool_text(s.show_token_summary)
    } else if i == 3 {
        decimal(s.max_output_tokens as nat)
    } else {
        effort_text(s.reasoning_effort)
    }
}

/// What the menu is doing.
#[derive(Debug, Clone, PartialEq, Eq)]
pub enum SettingsMode {
    Browsing,
    /// The token limit is being typed; `original` is restored if the value
    /// is refused.
    EditingInt { buffer: Vec<char>, original: u32 },
    /// A message about the last change.
    Status(String),
}

/// A mode as the contracts see it.
pub enum ModeView {
    Browsing,
    EditingInt(Seq<char>, u32),
    Status(Seq<char>),
}

pub open spec fn mode_view(m: SettingsMode) -> ModeView {
    match m {
        SettingsMode::Browsing => ModeView::Browsing,
        SettingsMode::EditingInt { buffer, original } => ModeView::EditingInt(buffer@, original),
        SettingsMode::Status(msg) => ModeView::Status(msg@),
    }
}

/// How the menu was left: saving these settings, or without saving.
#[derive(Debug, Clone, Copy, PartialEq, Eq, Structural)]
pub enum SettingsExit {
    Save(Settings),
    Quit,
}

pub struct SettingsState {
    pub settings: Settings,
    pub cursor: int,
    pub mode: ModeView,
}

pub open spec fn updated_text() -> Seq<char> {
    "updated (unsaved)"@
}

pub open spec fn reverted_text() -> Seq<char> {
    "invalid value, reverted"@
}

/// Field `cursor` switched, for the three switches.
pub open spec fn toggled(s: Settings, cursor: int) -> Settings {
    if cursor == 0 {
        Settings { always_confirm: !s.always_confirm, ..s }
    } else if cursor == 1 {
        Settings { show_thinking: !s.show_thinking, ..s }
    } else if cursor == 2 {
        Settings { show_token_summary: !s.show_token_summary, ..s }
    } else {
        s
    }
}

pub open spec fn next_effort(e: ReasoningEffort) -> ReasoningEffort {
    match e {
        ReasoningEffort::Low => ReasoningEffort::Med,
        ReasoningEffort::Med => ReasoningEffort::High,
        ReasoningEffort::High => ReasoningEffort::Low,
    }
}

/// Enter on the current field: a switch flips, the effort moves to the
/// next level, and the token limit opens for editing with its value.
pub open spec fn activated(s: SettingsState) -> SettingsState {
    match kind_of(s.cursor) {
        FieldKind::Bool => SettingsState { settings: toggled(s.settings, s.cursor), mode: ModeView::Status(updated_text()), ..s },
        FieldKind::ReasoningEffort => SettingsState {
            settings: Settings { reasoning_effort: next_effort(s.settings.reasoning_effort), ..s.settings },
            mode: ModeView::Status(updated_text()),
            ..s
        },
        FieldKind::Int => SettingsState {
            mode: ModeView::EditingInt(decimal(s.settings.max_output_tokens as nat), s.settings.max_output_tokens),
            ..s
        },
    }
}

/// What `key` does. While the token limit is edited: Esc leaves it as it
/// is, Enter keeps a positive value that fits in `u32` and otherwise
/// restores the original, Backspace deletes, and digits are appended.
/// Otherwise: Up and Down move between the fields, Enter activates one,
/// Space flips a switch or activates the others, `s` leaves saving, `q`
/// and Esc leave without saving.
pub open spec fn settings_key(s: SettingsState, key: Key) -> (SettingsState, Step<SettingsExit>) {
    match s.mode {
        ModeView::EditingInt(buffer, original) => match key.code {
            KeyCode::Esc => (SettingsState { mode: ModeView::Browsing, ..s }, Step::Continue),
            KeyCode::Enter => match parse_unsigned(buffer, u32::MAX as nat) {
                Some(v) => if v > 0 {
                    (SettingsState {
                        settings: Settings { max_output_tokens: v as u32, ..s.settings },
                        mode: ModeView::Status(updated_text()),
                        ..s
                    }, Step::Continue)
                } else {
                    (SettingsState {
                        settings: Settings { max_output_tokens: original, ..s.settings },
                        mode: ModeView::Status(reverted_text()),
                        ..s
                    }, Step::Continue)
                },
                None => (SettingsState {
                    settings: Settings { max_output_tokens: original, ..s.settings },
                    mode: ModeView::Status(reverted_text()),
                    ..s
                }, Step::Continue),
            },
            KeyCode::Backspace => (SettingsState {
                mode: ModeView::EditingInt(if buffer.len() > 0 { buffer.drop_last() } else { buffer }, original),
                ..s
            }, Step::Continue),
            KeyCode::Char(c) => if '0' <= c && c <= '9' {
                (SettingsState { mode: ModeView::EditingInt(buffer.push(c), original), ..s }, Step::Continue)
            } else {
                (s, Step::Continue)
            },
            _ => (s, Step::Continue),
        },
        _ => match key.code {
            KeyCode::Up => (SettingsState {
                cursor: if s.cursor > 0 { s.cursor - 1 } else { s.cursor },
                mode: ModeView::Browsing,
                ..s
            }, Step::Continue),
            KeyCode::Down => (SettingsState {
                cursor: if s.cursor + 1 < FIELD_COUNT { s.cursor + 1 } else { s.cursor },
                mode: ModeView::Browsing,
                ..s
            }, Step::Continue),
            KeyCode::Enter => (activated(s), Step::Continue),
            KeyCode::Char(' ') => (if kind_of(s.cursor) == FieldKind::Bool {
                SettingsState { settings: toggled(s.settings, s.cursor), mode: ModeView::Status(updated_text()), ..s }
            } else {
                activated(s)
            }, Step::Continue),
            KeyCode::Char('s') => (s, Step::Done(SettingsExit::Save(s.settings))),
            KeyCode::Char('q') | KeyCode::Esc => (s, Step::Done(SettingsExit::Quit)),
            _ => (s, Step::Continue),
        },
    }
}

/// The settings menu.
pub struct SettingsScreen {
    settings: Settings,
    cursor: usize,
    mode: SettingsMode,
}

impl SettingsScreen {
    pub closed spec fn state(&self) -> SettingsState {
        SettingsState { settings: self.settings, cursor: self.cursor as int, mode: mode_view(self.mode) }
    }

    pub closed spec fn wf(&self) -> bool {
        self.cursor < FIELD_COUNT
    }

    /// The menu over `settings`, on the first field.
    pub fn new(settings: Settings) -> (r: SettingsScreen)
        ensures
            r.wf(),
            r.state() == (SettingsState { settings, cursor: 0, mode: ModeView::Browsing }),
    {
        SettingsScreen { settings, cursor: 0, mode: SettingsMode::Browsing }
    }

    /// The settings as edited so far.
    pub fn settings(&self) -> (r: Settings)
        ensures
            r == self.state().settings,
    {
        self.settings
    }

    /// The selected field.
    pub fn cursor(&self) -> (r: usize)
        ensures
            r == self.state().cursor,
    {
        self.cursor
    }

    /// The current mode.
    pub fn mode(&self) -> (r: &SettingsMode)
        ensures
            mode_view(*r) == self.state().mode,
    {
        &self.mode
    }

    /// The value field `idx` shows.
    pub fn current_value(&self, idx: usize) -> (r: String)
        requires
            idx < FIELD_COUNT,
        ensures
            r@ == value_text(self.state().settings, idx as int),
    {
        if idx == 0 {
            String::from_str(bool_str(self.settings.always_confirm))
        } else if idx == 1 {
            String::from_str(bool_str(self.settings.show_thinking))
        } else if idx == 2 {
            String::from_str(bool_str(self.settings.show_token_summary))
        } else if idx == 3 {
            decimal_string(self.settings.max_output_tokens as u128)
        } else {
            String::from_str(effort_str(self.settings.reasoning_effort))
        }
    }

    /// Reports that saving failed with `error`.
    pub fn save_failed(&mut self, error: &str)
        ensures
            final(self).state() == (SettingsState {
                mode: ModeView::Status("save failed: "@ + error@),
                ..old(self).state()
            }),
            old(self).wf() ==> final(self).wf(),
    {
        let mut msg = String::from_str("save failed: ");
        msg.append(error);
        self.mode = SettingsMode::Status(msg);
    }

    fn activate(&mut self)
        requires
            old(self).wf(),
        ensures
            final(self).wf(),
            final(self).state() == activated(old(self).state()),
    {
        match field_kind(self.cursor) {
            FieldKind::Bool => self.toggle(),
            FieldKind::ReasoningEffort => {
                self.settings.reasoning_effort = match self.settings.reasoning_effort {
                    ReasoningEffort::Low => ReasoningEffort::Med,
                    ReasoningEffort::Med => ReasoningEffort::High,
                    ReasoningEffort::High => ReasoningEffort::Low,
                };
                self.mode = SettingsMode::Status(String::from_str("updated (unsaved)"));
            },
            FieldKind::Int => {
                let buffer = chars_of(decimal_string(self.settings.max_output_tokens as u128).as_str());
                self.mode = SettingsMode::EditingInt { buffer, original: self.settings.max_output_tokens };
            },
        }
    }

    fn toggle(&mut self)
        requires
            old(self).wf(),
        ensures
            final(self).wf(),
            final(self).state() == (SettingsState {
                settings: toggled(old(self).state().settings, old(self).state().cursor),
                mode: ModeView::Status(updated_text()),
                ..old(self).state()
            }),
    {
        if self.cursor == 0 {
            self.settings.always_confirm = !self.settings.always_confirm;
        } else if self.cursor == 1 {
            self.settings.show_thinking = !self.settings.show_thinking;
        } else if self.cursor == 2 {
            self.settings.show_token_summary = !self.settings.show_token_summary;
        }
        self.mode = SettingsMode::Status(String::from_str("updated (unsaved)"));
    }

    pub fn on_key(&mut self, key: Key) -> (r: Step<SettingsExit>)
        requires
            old(self).wf(),
        ensures
            final(self).wf(),
            (final(self).state(), r) == settings_key(old(self).state(), key),
    {
        let editing = match &self.mode {
            SettingsMode::EditingInt { .. } => true,
            _ => false,
        };
        if editing {
            let mut mode = SettingsMode::Browsing;
            std::mem::swap(&mut mode, &mut self.mode);
            match mode {
                SettingsMode::EditingInt { mut buffer, original } => {
                    match key.code {
                        KeyCode::Esc => {
                            Step::Continue
                        },
                        KeyCode::Enter => {
                            let parsed = parse_unsigned_chars(&buffer, 4294967295u64);
                            match parsed {
                                Some(v) => {
                                    if v > 0 {
                                        self.settings.max_output_tokens = v as u32;
                                        self.mode = SettingsMode::Status(String::from_str("updated (unsaved)"));
                                        return Step::Continue;
                                    }
                                },
                                None => {},
                            }
                            self.settings.max_output_tokens = original;
                            self.mode = SettingsMode::Status(String::from_str("invalid value, reverted"));
                            Step::Continue
                        },
                        KeyCode::Backspace => {
                            if buffer.len() > 0 {
                                buffer.pop();
                            }
                            self.mode = SettingsMode::EditingInt { buffer, original };
                            Step::Continue
                        },
                        KeyCode::Char(c) => {
                            if '0' <= c && c <= '9' {
                                buffer.push(c);
                            }
                            self.mode = SettingsMode::EditingInt { buffer, original };
                            Step::Continue
                        },
                        _ => {
                            self.mode = SettingsMode::EditingInt { buffer, original };
                            Step::Continue
                        },
                    }
                },
                other => {
                    self.mode = other;
                    Step::Continue
                },
            }
        } else {
            match key.code {
                KeyCode::Up => {
                    if self.cursor > 0 {
                        self.cursor = self.cursor - 1;
                    }
                    self.mode = SettingsMode::Browsing;
                    Step::Continue
                },
                KeyCode::Down => {
                    if self.cursor + 1 < FIELD_COUNT {
                        self.cursor = self.cursor + 1;
                    }
                    self.mode = SettingsMode::Browsing;
                    Step::Continue
                },
                KeyCode::Enter => {
                    self.activate();
                    Step::Continue
                },
                KeyCode::Char(' ') => {
                    match field_kind(self.cursor) {
                        FieldKind::Bool => self.toggle(),
                        _ => self.activate(),
                    }
                    Step::Continue
                },
                KeyCode::Char('s') => Step::Done(SettingsExit::Save(self.settings)),
                KeyCode::Char('q') | KeyCode::Esc => Step::Done(SettingsExit::Quit),
                _ => Step::Continue,
            }
        }
    }
}

} // verus!

verus! {

/// Space or Enter on a switch changes what that switch's row shows, and
/// nothing that any other row shows; the settings no row shows stay as
/// they are.
pub proof fn law_switch_flips_its_own_row(s: SettingsState, key: Key)
    requires
        !(s.mode is EditingInt),
        0 <= s.cursor < 3,
        key.code == KeyCode::Char(' ') || key.code == KeyCode::Enter,
    ensures
        value_text(settings_key(s, key).0.settings, s.cursor) != value_text(s.settings, s.cursor),
        forall|j: int|
            0 <= j < FIELD_COUNT && j != s.cursor ==> #[trigger] value_text(settings_key(s, key).0.settings, j)
                == value_text(s.settings, j),
        settings_key(s, key).0.settings.agreed_to_eula == s.settings.agreed_to_eula,
        settings_key(s, key).0.settings.setup_completed == s.settings.setup_completed,
{
    reveal_strlit("on");
    reveal_strlit("off");
    assert("on"@.len() == 2 && "off"@.len() == 3);
}

/// The switch setting a label names.
pub open spec fn switch_named(s: Settings, label: Seq<char>) -> bool {
    if label == "Always Confirm"@ {
        s.always_confirm
    } else if label == "Show Thinking"@ {
        s.show_thinking
    } else {
        s.show_token_summary
    }
}

/// Each switch row shows the setting its label names, and Space or Enter
/// on it flips exactly that setting.
pub proof fn law_switch_row_is_its_label(s: SettingsState, key: Key)
    requires
        !(s.mode is EditingInt),
        0 <= s.cursor < 3,
        key.code == KeyCode::Char(' ') || key.code == KeyCode::Enter,
    ensures
        value_text(s.settings, s.cursor) == bool_text(switch_named(s.settings, label_of(s.cursor))),
        switch_named(settings_key(s, key).0.settings, label_of(s.cursor)) == !switch_named(
            s.settings,
            label_of(s.cursor),
        ),
{
    reveal_strlit("Always Confirm");
    reveal_strlit("Show Thinking");
    reveal_strlit("Show Token Summary");
    assert("Always Confirm"@.len() == 14 && "Show Thinking"@.len() == 13 && "Show Token Summary"@.len() == 18);
}

} // verus!
