//! The provider screens: the list, the add/edit wizard, and the picker used
//! to choose a provider to edit, remove or make the default. Reading and
//! writing the provider store is the caller's work; the wizard applies its
//! result to a store in memory.

use vstd::prelude::*;

use super::{Key, KeyCode, Step};
use crate::logic::defaults::{find_default_provider, presets, preset_view};
use crate::logic::provider::{
    list_providers, remove_provider, set_provider, ApiType, Auth, AuthView, ProviderInfo,
};
use crate::text::{str_eq, string_of_chars, chars_of};

verus! {

/// The number of API types the wizard offers.
pub const API_TYPE_COUNT: usize = 3;

/// The API types in the order the wizard lists them.
pub open spec fn api_type_at(i: int) -> ApiType {
    if i == 0 {
        ApiType::OpenAiCompatible
    } else if i == 1 {
        ApiType::OpenAiResponses
    } else {
        ApiType::Anthropic
    }
}

/// The position of `t` in the wizard's list.
pub open spec fn api_index(t: ApiType) -> int {
    match t {
        ApiType::OpenAiCompatible => 0,
        ApiType::OpenAiResponses => 1,
        ApiType::Anthropic => 2,
    }
}

pub fn api_type_at_index(i: usize) -> (r: ApiType)
    requires
        i < API_TYPE_COUNT,
    ensures
        r == api_type_at(i as int),
{
    if i == 0 {
        ApiType::OpenAiCompatible
    } else if i == 1 {
        ApiType::OpenAiResponses
    } else {
        ApiType::Anthropic
    }
}

pub fn api_type_index(t: ApiType) -> (r: usize)
    ensures
        r == api_index(t),
        r < API_TYPE_COUNT,
        api_type_at(r as int) == t,
{
    match t {
        ApiType::OpenAiCompatible => 0,
        ApiType::OpenAiResponses => 1,
        ApiType::Anthropic => 2,
    }
}

pub open spec fn api_label_of(i: int) -> Seq<char> {
    if i == 0 {
        "openai-compatible"@
    } else if i == 1 {
        "openai-responses"@
    } else {
        "anthropic"@
    }
}

/// The name shown for API type number `i`.
pub fn api_type_label(i: usize) -> (r: &'static str)
    requires
        i < API_TYPE_COUNT,
    ensures
        r@ == api_label_of(i as int),
{
    if i == 0 {
        "openai-compatible"
    } else if i == 1 {
        "openai-responses"
    } else {
        "anthropic"
    }
}

/// The selection after Up: one higher, not past the top.
pub open spec fn moved_up(sel: Option<int>) -> Option<int> {
    match sel {
        Some(i) => if i > 0 { Some(i - 1) } else { Some(i) },
        None => None,
    }
}

/// The selection after Down: one lower, not past the last of `len` items.
pub open spec fn moved_down(sel: Option<int>, len: int) -> Option<int> {
    match sel {
        Some(i) => if i + 1 < len { Some(i + 1) } else { Some(i) },
        None => None,
    }
}

pub open spec fn sel_view(sel: Option<usize>) -> Option<int> {
    match sel {
        Some(i) => Some(i as int),
        None => None,
    }
}

fn move_up(sel: Option<usize>) -> (r: Option<usize>)
    ensures
        sel_view(r) == moved_up(sel_view(sel)),
{
    match sel {
        Some(i) => if i > 0 {
            Some(i - 1)
        } else {
            Some(i)
        },
        None => None,
    }
}

fn move_down(sel: Option<usize>, len: usize) -> (r: Option<usize>)
    ensures
        sel_view(r) == moved_down(sel_view(sel), len as int),
{
    match sel {
        Some(i) => if i < len && i + 1 < len {
            Some(i + 1)
        } else {
            Some(i)
        },
        None => None,
    }
}

/// The list of providers, with the default marked.
pub struct ProviderListScreen {
    items: Vec<(String, bool)>,
    selected: Option<usize>,
}

/// The marked names as the contracts see them.
pub open spec fn marked_view(items: Seq<(String, bool)>) -> Seq<(Seq<char>, bool)> {
    items.map_values(|p: (String, bool)| (p.0@, p.1))
}

/// What `key` does to a list or picker: Up and Down move the selection.
pub open spec fn list_key(sel: Option<int>, len: int, key: Key) -> Option<int> {
    match key.code {
        KeyCode::Up => moved_up(sel),
        KeyCode::Down => moved_down(sel, len),
        _ => sel,
    }
}

impl ProviderListScreen {
    pub closed spec fn items_view(&self) -> Seq<(Seq<char>, bool)> {
        marked_view(self.items@)
    }

    pub closed spec fn selection(&self) -> Option<int> {
        sel_view(self.selected)
    }

    /// The providers of `auth` by name, each marked when it is the default;
    /// the first is selected.
    pub fn new(auth: &Auth) -> (r: ProviderListScreen)
        ensures
            r.items_view().map_values(|p: (Seq<char>, bool)| p.0).to_set() == auth@.providers.dom(),
            r.items_view().len() == auth@.providers.dom().len(),
            forall|i: int| 0 <= i < r.items_view().len() ==> #[trigger] r.items_view()[i].1 == (
                auth@.default_provider == Some(r.items_view()[i].0)),
            r.selection() == (if r.items_view().len() == 0 { None } else { Some(0int) }),
    {
        let names = list_providers(auth);
        let default = auth.default_provider();
        let mut items: Vec<(String, bool)> = Vec::new();
        let mut i: usize = 0;
        while i < names.len()
            invariant
                i <= names@.len(),
                items@.len() == i,
                default == default,
                crate::logic::provider::opt_view(default) == auth@.default_provider,
                forall|k: int| 0 <= k < i ==> (#[trigger] items@[k]).0@ == names@[k]@ && items@[k].1 == (
                    auth@.default_provider == Some(names@[k]@)),
            decreases names@.len() - i,
        {
            let name = names[i].clone();
            let is_default = match &default {
                Some(d) => str_eq(d.as_str(), name.as_str()),
                None => false,
            };
            items.push((name, is_default));
            i += 1;
        }
        let selected = if items.len() == 0 {
            None
        } else {
            Some(0)
        };
        let r = ProviderListScreen { items, selected };
        assert(r.items_view().map_values(|p: (Seq<char>, bool)| p.0) =~= names@.map_values(|s: String| s@));
        r
    }

    /// The names with their default marks.
    pub fn items(&self) -> (r: &Vec<(String, bool)>)
        ensures
            marked_view(r@) == self.items_view(),
    {
        &self.items
    }

    /// The selected row.
    pub fn selected(&self) -> (r: Option<usize>)
        ensures
            sel_view(r) == self.selection(),
    {
        self.selected
    }

    /// Up and Down move the selection; Enter, `q` and Esc close the list.
    pub fn on_key(&mut self, key: Key) -> (r: Step<()>)
        ensures
            final(self).items_view() == old(self).items_view(),
            final(self).selection() == list_key(old(self).selection(), old(self).items_view().len() as int, key),
            r == (match key.code {
                KeyCode::Enter | KeyCode::Char('q') | KeyCode::Esc => Step::Done(()),
                _ => Step::Continue,
            }),
    {
        match key.code {
            KeyCode::Up => {
                self.selected = move_up(self.selected);
                Step::Continue
            },
            KeyCode::Down => {
                self.selected = move_down(self.selected, self.items.len());
                Step::Continue
            },
            KeyCode::Enter | KeyCode::Char('q') | KeyCode::Esc => Step::Done(()),
            _ => Step::Continue,
        }
    }
}

/// A list of provider names to pick one from.
pub struct PickProviderScreen {
    title: String,
    items: Vec<String>,
    selected: Option<usize>,
    chosen: Option<String>,
}

pub open spec fn names_view(items: Seq<String>) -> Seq<Seq<char>> {
    items.map_values(|s: String| s@)
}

impl PickProviderScreen {
    pub closed spec fn title_view(&self) -> Seq<char> {
        self.title@
    }

    pub closed spec fn items_view(&self) -> Seq<Seq<char>> {
        names_view(self.items@)
    }

    pub closed spec fn selection(&self) -> Option<int> {
        sel_view(self.selected)
    }

    pub closed spec fn chosen_view(&self) -> Option<Seq<char>> {
        match self.chosen {
            Some(s) => Some(s@),
            None => None,
        }
    }

    pub closed spec fn wf(&self) -> bool {
        match self.selected {
            Some(i) => i < self.items@.len(),
            None => self.items@.len() == 0,
        }
    }

    /// A picker titled `title` over `items`, the first selected.
    pub fn new(title: &str, items: Vec<String>) -> (r: PickProviderScreen)
        ensures
            r.wf(),
            r.title_view() == title@,
            r.items_view() == names_view(items@),
            r.selection() == (if items@.len() == 0 { None } else { Some(0int) }),
            r.chosen_view() is None,
    {
        let selected = if items.len() == 0 {
            None
        } else {
            Some(0)
        };
        PickProviderScreen { title: String::from_str(title), items, selected, chosen: None }
    }

    /// The title.
    pub fn title(&self) -> (r: &str)
        ensures
            r@ == self.title_view(),
    {
        self.title.as_str()
    }

    /// The names offered.
    pub fn items(&self) -> (r: &Vec<String>)
        ensures
            names_view(r@) == self.items_view(),
    {
        &self.items
    }

    /// The selected row.
    pub fn selected(&self) -> (r: Option<usize>)
        ensures
            sel_view(r) == self.selection(),
    {
        self.selected
    }

    /// Up and Down move the selection; Enter picks the selected name (none
    /// when the list is empty); Esc and `q` pick nothing.
    pub fn on_key(&mut self, key: Key) -> (r: Step<Option<String>>)
        requires
            old(self).wf(),
        ensures
            final(self).wf(),
            final(self).items_view() == old(self).items_view(),
            final(self).title_view() == old(self).title_view(),
            final(self).selection() == list_key(old(self).selection(), old(self).items_view().len() as int, key),
            match key.code {
                KeyCode::Enter => match old(self).selection() {
                    Some(i) => r matches Step::Done(Some(name)) && name@ == old(self).items_view()[i],
                    None => r matches Step::Done(c) && (match c {
                        Some(name) => old(self).chosen_view() == Some(name@),
                        None => old(self).chosen_view() is None,
                    }),
                },
                KeyCode::Esc | KeyCode::Char('q') => r == Step::<Option<String>>::Done(None),
                _ => r == Step::<Option<String>>::Continue,
            },
    {
        match key.code {
            KeyCode::Up => {
                self.selected = move_up(self.selected);
                Step::Continue
            },
            KeyCode::Down => {
                self.selected = move_down(self.selected, self.items.len());
                Step::Continue
            },
            KeyCode::Enter => {
                match self.selected {
                    Some(i) => {
                        self.chosen = Some(self.items[i].clone());
                    },
                    None => {},
                }
                let out = match &self.chosen {
                    Some(c) => Some(c.clone()),
                    None => None,
                };
                Step::Done(out)
            },
            KeyCode::Esc | KeyCode::Char('q') => Step::Done(None),
            _ => Step::Continue,
        }
    }
}

} // verus!

verus! {

/// The wizard's steps, in order.
#[derive(Debug, Clone, Copy, PartialEq, Eq, Structural)]
pub enum WizardStep {
    Name,
    BaseUrl,
    ApiKey,
    ApiType,
    Model,
    Confirm,
}

pub open spec fn step_number(s: WizardStep) -> int {
    match s {
        WizardStep::Name => 0,
        WizardStep::BaseUrl => 1,
        WizardStep::ApiKey => 2,
        WizardStep::ApiType => 3,
        WizardStep::Model => 4,
        WizardStep::Confirm => 5,
    }
}

/// The position of step `s`, from 0.
pub fn step_index(s: WizardStep) -> (r: usize)
    ensures
        r == step_number(s),
{
    match s {
        WizardStep::Name => 0,
        WizardStep::BaseUrl => 1,
        WizardStep::ApiKey => 2,
        WizardStep::ApiType => 3,
        WizardStep::Model => 4,
        WizardStep::Confirm => 5,
    }
}

pub open spec fn step_text(s: WizardStep) -> Seq<char> {
    match s {
        WizardStep::Name => "Name"@,
        WizardStep::BaseUrl => "Base URL"@,
        WizardStep::ApiKey => "API Key"@,
        WizardStep::ApiType => "API Type"@,
        WizardStep::Model => "Model"@,
        WizardStep::Confirm => "Confirm"@,
    }
}

/// The name of step `s`.
pub fn step_label(s: WizardStep) -> (r: &'static str)
    ensures
        r@ == step_text(s),
{
    match s {
        WizardStep::Name => "Name",
        WizardStep::BaseUrl => "Base URL",
        WizardStep::ApiKey => "API Key",
        WizardStep::ApiType => "API Type",
        WizardStep::Model => "Model",
        WizardStep::Confirm => "Confirm",
    }
}

/// How the wizard was left: to save its provider, or without saving.
#[derive(Debug, Clone, Copy, PartialEq, Eq, Structural)]
pub enum WizardExit {
    Save,
    Quit,
}

pub struct WizardState {
    pub editing: Option<Seq<char>>,
    pub step: WizardStep,
    pub name: Seq<char>,
    pub base_url: Seq<char>,
    pub api_key: Seq<char>,
    pub model: Seq<char>,
    pub api_type_idx: int,
    pub error: Option<Seq<char>>,
    pub saved: bool,
}

/// Whether `i` is the first preset named `name`.
pub open spec fn is_first_preset(name: Seq<char>, i: int) -> bool {
    0 <= i < presets().len() && presets()[i].0 == name && forall|j: int|
        0 <= j < i ==> presets()[j].0 != name
}

/// The first preset named `name`, if any.
pub open spec fn preset_for(name: Seq<char>) -> Option<(Seq<char>, Seq<char>, ApiType)> {
    if exists|i: int| is_first_preset(name, i) {
        Some(presets()[choose|i: int| is_first_preset(name, i)])
    } else {
        None
    }
}

/// Enter: the step's field must not be empty (the error says which is
/// missing); leaving the name fills an empty base URL and the API type from
/// the preset of that name, if there is one.
pub open spec fn wizard_next(s: WizardState) -> WizardState {
    let s = WizardState { error: None, ..s };
    match s.step {
        WizardStep::Name => if s.name.len() == 0 {
            WizardState { error: Some("Name is required."@), ..s }
        } else if s.base_url.len() == 0 && preset_for(s.name) is Some {
            let p = preset_for(s.name)->0;
            WizardState { base_url: p.1, api_type_idx: api_index(p.2), step: WizardStep::BaseUrl, ..s }
        } else {
            WizardState { step: WizardStep::BaseUrl, ..s }
        },
        WizardStep::BaseUrl => if s.base_url.len() == 0 {
            WizardState { error: Some("Base URL is required."@), ..s }
        } else {
            WizardState { step: WizardStep::ApiKey, ..s }
        },
        WizardStep::ApiKey => if s.api_key.len() == 0 {
            WizardState { error: Some("API key is required."@), ..s }
        } else {
            WizardState { step: WizardStep::ApiType, ..s }
        },
        WizardStep::ApiType => WizardState { step: WizardStep::Model, ..s },
        WizardStep::Model => if s.model.len() == 0 {
            WizardState { error: Some("Model is required."@), ..s }
        } else {
            WizardState { step: WizardStep::Confirm, ..s }
        },
        WizardStep::Confirm => s,
    }
}

/// Esc: one step back, the error cleared.
pub open spec fn wizard_prev(s: WizardState) -> WizardState {
    WizardState {
        error: None,
        step: match s.step {
            WizardStep::Name => WizardStep::Name,
            WizardStep::BaseUrl => WizardStep::Name,
            WizardStep::ApiKey => WizardStep::BaseUrl,
            WizardStep::ApiType => WizardStep::ApiKey,
            WizardStep::Model => WizardStep::ApiType,
            WizardStep::Confirm => WizardStep::Model,
        },
        ..s
    }
}

/// The text field of the current step with `f` applied.
pub open spec fn edit_field(s: WizardState, f: spec_fn(Seq<char>) -> Seq<char>) -> WizardState {
    match s.step {
        WizardStep::Name => WizardState { name: f(s.name), ..s },
        WizardStep::BaseUrl => WizardState { base_url: f(s.base_url), ..s },
        WizardStep::ApiKey => WizardState { api_key: f(s.api_key), ..s },
        WizardStep::Model => WizardState { model: f(s.model), ..s },
        _ => s,
    }
}

pub open spec fn backspaced(t: Seq<char>) -> Seq<char> {
    if t.len() > 0 {
        t.drop_last()
    } else {
        t
    }
}

/// What `key` does. Esc goes back a step, or leaves from the first; `q`
/// leaves except on the last step; F2 on the last step leaves to save;
/// Enter goes forward; Backspace and characters edit the step's field, and
/// on the API type step `j`, Space and Down select the next type, `k` and
/// Up the previous.
pub open spec fn wizard_key(s: WizardState, key: Key) -> (WizardState, Step<WizardExit>) {
    match key.code {
        KeyCode::Esc => if s.step == WizardStep::Name {
            (s, Step::Done(WizardExit::Quit))
        } else {
            (wizard_prev(s), Step::Continue)
        },
        KeyCode::Char('q') if s.step != WizardStep::Confirm => (s, Step::Done(WizardExit::Quit)),
        KeyCode::F(2) if s.step == WizardStep::Confirm => (s, Step::Done(WizardExit::Save)),
        KeyCode::Enter => (wizard_next(s), Step::Continue),
        KeyCode::Backspace => (edit_field(s, |t: Seq<char>| backspaced(t)), Step::Continue),
        KeyCode::Char(c) => if s.step == WizardStep::ApiType {
            if c == 'j' || c == ' ' {
                (WizardState { api_type_idx: (s.api_type_idx + 1) % 3, ..s }, Step::Continue)
            } else if c == 'k' {
                (WizardState { api_type_idx: (s.api_type_idx + 2) % 3, ..s }, Step::Continue)
            } else {
                (s, Step::Continue)
            }
        } else {
            (edit_field(s, |t: Seq<char>| t.push(c)), Step::Continue)
        },
        KeyCode::Up if s.step == WizardStep::ApiType => (WizardState { api_type_idx: (s.api_type_idx + 2) % 3, ..s }, Step::Continue),
        KeyCode::Down if s.step == WizardStep::ApiType => (WizardState { api_type_idx: (s.api_type_idx + 1) % 3, ..s }, Step::Continue),
        _ => (s, Step::Continue),
    }
}

/// The store as it is before the wizard's provider goes in: without the
/// provider's old name when an edit renamed it.
pub open spec fn before_insert(a: AuthView, s: WizardState) -> AuthView {
    match s.editing {
        Some(old) => if old != s.name && a.providers.dom().contains(old) {
            AuthView {
                providers: a.providers.remove(old),
                default_provider: if a.default_provider == Some(old) { None } else { a.default_provider },
            }
        } else if old != s.name {
            AuthView { providers: a.providers.remove(old), ..a }
        } else {
            a
        },
        None => a,
    }
}

/// The add/edit wizard.
pub struct ProviderWizardScreen {
    editing: Option<String>,
    step: WizardStep,
    name: Vec<char>,
    base_url: Vec<char>,
    api_key: Vec<char>,
    api_type_idx: usize,
    model: Vec<char>,
    error: Option<String>,
    saved: bool,
}

impl ProviderWizardScreen {
    pub closed spec fn state(&self) -> WizardState {
        WizardState {
            editing: match self.editing {
                Some(s) => Some(s@),
                None => None,
            },
            step: self.step,
            name: self.name@,
            base_url: self.base_url@,
            api_key: self.api_key@,
            model: self.model@,
            api_type_idx: self.api_type_idx as int,
            error: match self.error {
                Some(s) => Some(s@),
                None => None,
            },
            saved: self.saved,
        }
    }

    pub closed spec fn wf(&self) -> bool {
        self.api_type_idx < API_TYPE_COUNT
    }

    fn base(editing: Option<String>, name: Vec<char>, info: ProviderInfo) -> (r: ProviderWizardScreen)
        ensures
            r.wf(),
            r.state() == (WizardState {
                editing: match editing {
                    Some(s) => Some(s@),
                    None => None,
                },
                step: WizardStep::Name,
                name: name@,
                base_url: info.base_url@,
                api_key: info.api_key@,
                model: info.model@,
                api_type_idx: api_index(info.api_type),
                error: None,
                saved: false,
            }),
    {
        ProviderWizardScreen {
            editing,
            step: WizardStep::Name,
            name,
            base_url: chars_of(info.base_url.as_str()),
            api_key: chars_of(info.api_key.as_str()),
            api_type_idx: api_type_index(info.api_type),
            model: chars_of(info.model.as_str()),
            error: None,
            saved: false,
        }
    }

    /// A wizard for a new provider, every field empty.
    pub fn new_add() -> (r: ProviderWizardScreen)
        ensures
            r.wf(),
            r.state() == (WizardState {
                editing: None,
                step: WizardStep::Name,
                name: Seq::empty(),
                base_url: Seq::empty(),
                api_key: Seq::empty(),
                model: Seq::empty(),
                api_type_idx: 0,
                error: None,
                saved: false,
            }),
    {
        let info = ProviderInfo {
            base_url: String::new(),
            api_key: String::new(),
            model: String::new(),
            api_type: ApiType::OpenAiCompatible,
        };
        Self::base(None, Vec::new(), info)
    }

    /// A wizard that edits the provider `name`, filled with `info`.
    pub fn new_edit(name: String, info: ProviderInfo) -> (r: ProviderWizardScreen)
        ensures
            r.wf(),
            r.state() == (WizardState {
                editing: Some(name@),
                step: WizardStep::Name,
                name: name@,
                base_url: info.base_url@,
                api_key: info.api_key@,
                model: info.model@,
                api_type_idx: api_index(info.api_type),
                error: None,
                saved: false,
            }),
    {
        let chars = chars_of(name.as_str());
        Self::base(Some(name), chars, info)
    }

    /// The current step.
    pub fn step(&self) -> (r: WizardStep)
        ensures
            r == self.state().step,
    {
        self.step
    }

    /// The provider's name as typed.
    pub fn name(&self) -> (r: String)
        ensures
            r@ == self.state().name,
    {
        string_of_chars(&self.name)
    }

    /// The base URL as typed.
    pub fn base_url(&self) -> (r: String)
        ensures
            r@ == self.state().base_url,
    {
        string_of_chars(&self.base_url)
    }

    /// The API key as typed.
    pub fn api_key(&self) -> (r: String)
        ensures
            r@ == self.state().api_key,
    {
        string_of_chars(&self.api_key)
    }

    /// The model as typed.
    pub fn model(&self) -> (r: String)
        ensures
            r@ == self.state().model,
    {
        string_of_chars(&self.model)
    }

    /// The selected API type's position.
    pub fn api_type_idx(&self) -> (r: usize)
        ensures
            r == self.state().api_type_idx,
    {
        self.api_type_idx
    }

    /// The selected API type.
    pub fn api_type(&self) -> (r: ApiType)
        requires
            self.wf(),
        ensures
            r == api_type_at(self.state().api_type_idx),
    {
        api_type_at_index(self.api_type_idx)
    }

    /// The error shown, if any.
    pub fn error(&self) -> (r: Option<String>)
        ensures
            match r {
                Some(e) => self.state().error == Some(e@),
                None => self.state().error is None,
            },
    {
        match &self.error {
            Some(e) => Some(e.clone()),
            None => None,
        }
    }

    /// The name of the provider being edited, if this is an edit.
    pub fn editing(&self) -> (r: Option<String>)
        ensures
            match r {
                Some(e) => self.state().editing == Some(e@),
                None => self.state().editing is None,
            },
    {
        match &self.editing {
            Some(e) => Some(e.clone()),
            None => None,
        }
    }

    /// Whether the provider was saved.
    pub fn saved(&self) -> (r: bool)
        ensures
            r == self.state().saved,
    {
        self.saved
    }

    /// The API key as shown: one `*` per character.
    pub fn masked_api_key(&self) -> (r: String)
        ensures
            r@ == Seq::new(self.state().api_key.len(), |i: int| '*'),
    {
        let mut stars: Vec<char> = Vec::new();
        let mut i: usize = 0;
        while i < self.api_key.len()
            invariant
                i <= self.api_key@.len(),
                stars@ == Seq::new(i as nat, |k: int| '*'),
            decreases self.api_key@.len() - i,
        {
            stars.push('*');
            i += 1;
            assert(stars@ =~= Seq::new(i as nat, |k: int| '*'));
        }
        string_of_chars(&stars)
    }

    fn next_step(&mut self)
        requires
            old(self).wf(),
        ensures
            final(self).wf(),
            final(self).state() == wizard_next(old(self).state()),
    {
        self.error = None;
        match self.step {
            WizardStep::Name => {
                if self.name.len() == 0 {
                    self.error = Some(String::from_str("Name is required."));
                    return;
                }
                if self.base_url.len() == 0 {
                    let typed = string_of_chars(&self.name);
                    match find_default_provider(typed.as_str()) {
                        Some(p) => {
                            proof {
                                let i = choose|i: int|
                                    0 <= i < presets().len() && presets()[i] == preset_view(p)
                                        && presets()[i].0 == typed@ && forall|j: int|
                                        0 <= j < i ==> presets()[j].0 != typed@;
                                assert(is_first_preset(typed@, i));
                                let k = choose|k: int| is_first_preset(typed@, k);
                                assert(is_first_preset(typed@, k));
                                if k < i {
                                    assert(presets()[k].0 != typed@);
                                } else if i < k {
                                    assert(presets()[i].0 != typed@);
                                }
                                assert(preset_for(typed@) == Some(preset_view(p)));
                            }
                            self.base_url = chars_of(p.base_url);
                            self.api_type_idx = api_type_index(p.api_type);
                        },
                        None => {
                            assert(!(exists|i: int| is_first_preset(typed@, i)));
                        },
                    }
                }
                self.step = WizardStep::BaseUrl;
            },
            WizardStep::BaseUrl => {
                if self.base_url.len() == 0 {
                    self.error = Some(String::from_str("Base URL is required."));
                    return;
                }
                self.step = WizardStep::ApiKey;
            },
            WizardStep::ApiKey => {
                if self.api_key.len() == 0 {
                    self.error = Some(String::from_str("API key is required."));
                    return;
                }
                self.step = WizardStep::ApiType;
            },
            WizardStep::ApiType => {
                self.step = WizardStep::Model;
            },
            WizardStep::Model => {
                if self.model.len() == 0 {
                    self.error = Some(String::from_str("Model is required."));
                    return;
                }
                self.step = WizardStep::Confirm;
            },
            WizardStep::Confirm => {},
        }
    }

    fn prev_step(&mut self)
        ensures
            old(self).wf() ==> final(self).wf(),
            final(self).state() == wizard_prev(old(self).state()),
    {
        self.error = None;
        self.step = match self.step {
            WizardStep::Name => WizardStep::Name,
            WizardStep::BaseUrl => WizardStep::Name,
            WizardStep::ApiKey => WizardStep::BaseUrl,
            WizardStep::ApiType => WizardStep::ApiKey,
            WizardStep::Model => WizardStep::ApiType,
            WizardStep::Confirm => WizardStep::Model,
        };
    }

    pub fn on_key(&mut self, key: Key) -> (r: Step<WizardExit>)
        requires
            old(self).wf(),
        ensures
            final(self).wf(),
            (final(self).state(), r) == wizard_key(old(self).state(), key),
    {
        let step = self.step;
        let on_types = step == WizardStep::ApiType;
        match key.code {
            KeyCode::Esc => {
                if step == WizardStep::Name {
                    Step::Done(WizardExit::Quit)
                } else {
                    self.prev_step();
                    Step::Continue
                }
            },
            KeyCode::F(2) => {
                if step == WizardStep::Confirm {
                    Step::Done(WizardExit::Save)
                } else {
                    Step::Continue
                }
            },
            KeyCode::Enter => {
                self.next_step();
                Step::Continue
            },
            KeyCode::Backspace => {
                match step {
                    WizardStep::Name => {
                        if self.name.len() > 0 {
                            self.name.pop();
                        }
                    },
                    WizardStep::BaseUrl => {
                        if self.base_url.len() > 0 {
                            self.base_url.pop();
                        }
                    },
                    WizardStep::ApiKey => {
                        if self.api_key.len() > 0 {
                            self.api_key.pop();
                        }
                    },
                    WizardStep::Model => {
                        if self.model.len() > 0 {
                            self.model.pop();
                        }
                    },
                    _ => {},
                }
                Step::Continue
            },
            KeyCode::Char(c) => {
                if c == 'q' && step != WizardStep::Confirm {
                    Step::Done(WizardExit::Quit)
                } else {
                    if on_types {
                        if c == 'j' || c == ' ' {
                            self.api_type_idx = if self.api_type_idx == 2 {
                                0
                            } else {
                                self.api_type_idx + 1
                            };
                        } else if c == 'k' {
                            self.api_type_idx = if self.api_type_idx == 0 {
                                2
                            } else {
                                self.api_type_idx - 1
                            };
                        }
                    } else {
                        match step {
                            WizardStep::Name => self.name.push(c),
                            WizardStep::BaseUrl => self.base_url.push(c),
                            WizardStep::ApiKey => self.api_key.push(c),
                            WizardStep::Model => self.model.push(c),
                            _ => {},
                        }
                    }
                    Step::Continue
                }
            },
            KeyCode::Up => {
                if on_types {
                    self.api_type_idx = if self.api_type_idx == 0 {
                        2
                    } else {
                        self.api_type_idx - 1
                    };
                }
                Step::Continue
            },
            KeyCode::Down => {
                if on_types {
                    self.api_type_idx = if self.api_type_idx == 2 {
                        0
                    } else {
                        self.api_type_idx + 1
                    };
                }
                Step::Continue
            },
            _ => Step::Continue,
        }
    }

    /// Puts the wizard's provider into `auth`: under its name, with the
    /// fields as typed and the selected API type, after removing the old
    /// entry when an edit renamed the provider.
    pub fn apply(&mut self, auth: &mut Auth)
        requires
            old(self).wf(),
        ensures
            final(self).wf(),
            final(self).state() == (WizardState { saved: true, ..old(self).state() }),
            final(auth)@.default_provider == before_insert(old(auth)@, old(self).state()).default_provider,
            final(auth)@.providers.dom() == before_insert(old(auth)@, old(self).state()).providers.dom().insert(old(self).state().name),
            forall|k: Seq<char>| k != old(self).state().name && #[trigger] final(auth)@.providers.dom().contains(k)
                ==> final(auth)@.providers[k] == before_insert(old(auth)@, old(self).state()).providers[k],
            final(auth)@.providers[old(self).state().name].base_url@ == old(self).state().base_url,
            final(auth)@.providers[old(self).state().name].api_key@ == old(self).state().api_key,
            final(auth)@.providers[old(self).state().name].model@ == old(self).state().model,
            final(auth)@.providers[old(self).state().name].api_type == api_type_at(old(self).state().api_type_idx),
    {
        let info = ProviderInfo {
            base_url: string_of_chars(&self.base_url),
            api_key: string_of_chars(&self.api_key),
            model: string_of_chars(&self.model),
            api_type: api_type_at_index(self.api_type_idx),
        };
        let name = string_of_chars(&self.name);
        match &self.editing {
            Some(old_name) => {
                if !str_eq(old_name.as_str(), name.as_str()) {
                    remove_provider(auth, old_name.as_str());
                }
            },
            None => {},
        }
        set_provider(auth, name.as_str(), info);
        self.saved = true;
    }

    /// Reports that writing the store failed with `error`.
    pub fn save_failed(&mut self, error: &str)
        ensures
            final(self).state() == (WizardState { error: Some("save failed: "@ + error@), ..old(self).state() }),
            old(self).wf() ==> final(self).wf(),
    {
        let mut msg = String::from_str("save failed: ");
        msg.append(error);
        self.error = Some(msg);
    }
}

} // verus!
