//! The agreement screen: the text, which can be scrolled, and two buttons.
//! Recording the answer is the caller's work.

use vstd::prelude::*;

use super::{Key, KeyCode, Step};

verus! {

#[derive(Debug, Clone, Copy, PartialEq, Eq, Structural)]
pub enum EulaOutcome {
    Accepted,
    Declined,
}

/// The button that has the focus.
#[derive(Debug, Clone, Copy, PartialEq, Eq, Structural)]
pub enum EulaFocus {
    Accept,
    Decline,
}

#[derive(Debug, Clone, Copy, PartialEq, Eq, Structural)]
pub struct EulaScreen {
    pub focus: EulaFocus,
    pub scroll: u16,
}

impl Default for EulaScreen {
    /// Decline has the focus and the text is at its top.
    fn default() -> (r: EulaScreen)
        ensures
            r == (EulaScreen { focus: EulaFocus::Decline, scroll: 0 }),
    {
        EulaScreen { focus: EulaFocus::Decline, scroll: 0 }
    }
}

pub open spec fn other_focus(f: EulaFocus) -> EulaFocus {
    match f {
        EulaFocus::Accept => EulaFocus::Decline,
        EulaFocus::Decline => EulaFocus::Accept,
    }
}

/// What `key` does: the arrows and Tab move the focus to the other button,
/// Up and Down scroll (not past the top, not past `u16::MAX`), `q` and Esc
/// decline, and Enter chooses the focused button.
pub open spec fn eula_key(s: EulaScreen, key: Key) -> (EulaScreen, Step<EulaOutcome>) {
    match key.code {
        KeyCode::Left | KeyCode::Right | KeyCode::Tab => (EulaScreen { focus: other_focus(s.focus), ..s }, Step::Continue),
        KeyCode::Up => (EulaScreen { scroll: if s.scroll > 0 { (s.scroll - 1) as u16 } else { 0 }, ..s }, Step::Continue),
        KeyCode::Down => (EulaScreen { scroll: if s.scroll < u16::MAX { (s.scroll + 1) as u16 } else { u16::MAX }, ..s }, Step::Continue),
        KeyCode::Char('q') | KeyCode::Esc => (s, Step::Done(EulaOutcome::Declined)),
        KeyCode::Enter => (s, Step::Done(if s.focus == EulaFocus::Accept { EulaOutcome::Accepted } else { EulaOutcome::Declined })),
        _ => (s, Step::Continue),
    }
}

impl EulaScreen {
    pub fn on_key(&mut self, key: Key) -> (r: Step<EulaOutcome>)
        ensures
            (*final(self), r) == eula_key(*old(self), key),
    {
        match key.code {
            KeyCode::Left | KeyCode::Right | KeyCode::Tab => {
                self.focus = match self.focus {
                    EulaFocus::Accept => EulaFocus::Decline,
                    EulaFocus::Decline => EulaFocus::Accept,
                };
                Step::Continue
            },
            KeyCode::Up => {
                self.scroll = self.scroll.saturating_sub(1);
                Step::Continue
            },
            KeyCode::Down => {
                self.scroll = self.scroll.saturating_add(1);
                Step::Continue
            },
            KeyCode::Char('q') | KeyCode::Esc => Step::Done(EulaOutcome::Declined),
            KeyCode::Enter => Step::Done(
                match self.focus {
                    EulaFocus::Accept => EulaOutcome::Accepted,
                    EulaFocus::Decline => EulaOutcome::Declined,
                },
            ),
            _ => Step::Continue,
        }
    }
}

} // verus!
