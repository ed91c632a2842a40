//! Provider configurations (the contents of `auth.json`).
//!
//! Providers are kept by name in code-point order with no name twice, which
//! is how the on-disk map orders them. At most one provider is the default.

use vstd::prelude::*;

use super::config::{join, spec_join};
use crate::text::{chars_less, chars_of, lemma_seq_lt_asymmetric, lemma_seq_lt_irreflexive,
    lemma_seq_lt_total, lemma_seq_lt_transitive, seq_lt, str_eq};

verus! {

pub const AUTH_FILENAME: &'static str = "auth.json";

/// API flavour of a provider.
#[derive(Debug, Clone, Copy, PartialEq, Eq, Structural)]
pub enum ApiType {
    OpenAiCompatible,
    OpenAiResponses,
    Anthropic,
}

/// One provider's connection details.
#[derive(Debug, Clone, PartialEq, Eq)]
pub struct ProviderInfo {
    pub base_url: String,
    pub api_key: String,
    pub model: String,
    pub api_type: ApiType,
}

impl ProviderInfo {
    /// A field-by-field copy.
    pub fn duplicate(&self) -> (r: ProviderInfo)
        ensures
            r == *self,
    {
        ProviderInfo {
            base_url: self.base_url.clone(),
            api_key: self.api_key.clone(),
            model: self.model.clone(),
            api_type: self.api_type,
        }
    }
}

/// A provider together with its name.
#[derive(Debug, Clone, PartialEq, Eq)]
pub struct NamedProvider {
    pub name: String,
    pub info: ProviderInfo,
}

/// The provider store: an optional default name and the named providers.
#[derive(Debug, PartialEq, Eq)]
pub struct Auth {
    default_provider: Option<String>,
    providers: Vec<(String, ProviderInfo)>,
}

/// What an [`Auth`] holds: the default name and a map from names to providers.
pub struct AuthView {
    pub default_provider: Option<Seq<char>>,
    pub providers: Map<Seq<char>, ProviderInfo>,
}

pub open spec fn opt_view(o: Option<String>) -> Option<Seq<char>> {
    match o {
        Some(s) => Some(s@),
        None => None,
    }
}

/// Whether some entry of `s` is named `k`.
pub open spec fn has_key(s: Seq<(String, ProviderInfo)>, k: Seq<char>) -> bool {
    exists|i: int| 0 <= i < s.len() && #[trigger] s[i].0@ == k
}

/// The index of the entry named `k`.
pub open spec fn index_of(s: Seq<(String, ProviderInfo)>, k: Seq<char>) -> int {
    choose|i: int| 0 <= i < s.len() && #[trigger] s[i].0@ == k
}

/// The map from names to providers that the entries `s` describe.
pub open spec fn entries_map(s: Seq<(String, ProviderInfo)>) -> Map<Seq<char>, ProviderInfo> {
    Map::new(|k: Seq<char>| has_key(s, k), |k: Seq<char>| s[index_of(s, k)].1)
}

/// Names strictly increase along `s`.
pub open spec fn sorted_entries(s: Seq<(String, ProviderInfo)>) -> bool {
    forall|i: int, j: int| 0 <= i < j < s.len() ==> seq_lt(#[trigger] s[i].0@, #[trigger] s[j].0@)
}

/// Names strictly increase along `s`.
pub open spec fn sorted_names(s: Seq<Seq<char>>) -> bool {
    forall|i: int, j: int| 0 <= i < j < s.len() ==> seq_lt(#[trigger] s[i], #[trigger] s[j])
}

impl View for Auth {
    type V = AuthView;

    closed spec fn view(&self) -> AuthView {
        AuthView {
            default_provider: opt_view(self.default_provider),
            providers: entries_map(self.providers@),
        }
    }
}

proof fn lemma_sorted_unique(s: Seq<(String, ProviderInfo)>, i: int, j: int)
    requires
        sorted_entries(s),
        0 <= i < s.len(),
        0 <= j < s.len(),
        s[i].0@ == s[j].0@,
    ensures
        i == j,
{
    if i < j {
        lemma_seq_lt_irreflexive(s[i].0@);
    } else if j < i {
        lemma_seq_lt_irreflexive(s[i].0@);
    }
}

proof fn lemma_map_at(s: Seq<(String, ProviderInfo)>, i: int)
    requires
        sorted_entries(s),
        0 <= i < s.len(),
    ensures
        entries_map(s).dom().contains(s[i].0@),
        entries_map(s)[s[i].0@] == s[i].1,
{
    let k = s[i].0@;
    assert(has_key(s, k));
    let j = index_of(s, k);
    lemma_sorted_unique(s, i, j);
}

impl Auth {
    #[verifier::type_invariant]
    closed spec fn wf(self) -> bool {
        sorted_entries(self.providers@)
    }

    /// An empty store with no default.
    pub fn new() -> (r: Auth)
        ensures
            r@.default_provider is None,
            r@.providers == Map::<Seq<char>, ProviderInfo>::empty(),
    {
        let r = Auth { default_provider: None, providers: Vec::new() };
        assert(entries_map(r.providers@) =~= Map::<Seq<char>, ProviderInfo>::empty());
        r
    }

    /// The default provider's name as stored, whether or not it names a provider.
    pub fn default_provider(&self) -> (r: Option<String>)
        ensures
            opt_view(r) == self@.default_provider,
    {
        match &self.default_provider {
            Some(s) => Some(s.clone()),
            None => None,
        }
    }

    /// Store `name` as the default provider's name as it is, as a loaded
    /// file may hold it.
    pub fn replace_default_provider(&mut self, name: Option<String>)
        ensures
            final(self)@.default_provider == opt_view(name),
            final(self)@.providers == old(self)@.providers,
    {
        proof {
            use_type_invariant(&*self);
        }
        self.default_provider = name;
    }

    /// The index of the entry named `name`, if any.
    fn find(&self, name: &str) -> (r: Option<usize>)
        ensures
            match r {
                Some(i) => i < self.providers@.len() && self.providers@[i as int].0@ == name@,
                None => !has_key(self.providers@, name@),
            },
    {
        let n = self.providers.len();
        let mut i: usize = 0;
        while i < n
            invariant
                n == self.providers@.len(),
                i <= n,
                forall|k: int| 0 <= k < i ==> self.providers@[k].0@ != name@,
            decreases n - i,
        {
            if str_eq(self.providers[i].0.as_str(), name) {
                return Some(i);
            }
            i += 1;
        }
        None
    }
}

impl Default for Auth {
    fn default() -> (r: Auth)
        ensures
            r@.default_provider is None,
            r@.providers == Map::<Seq<char>, ProviderInfo>::empty(),
    {
        Auth::new()
    }
}

/// `<data_dir>/auth.json`.
pub fn auth_path(data_dir: &str) -> (r: String)
    ensures
        r@ == spec_join(data_dir@, AUTH_FILENAME@),
{
    join(data_dir, AUTH_FILENAME)
}

/// The names of all providers, in code-point order.
pub fn list_providers(auth: &Auth) -> (r: Vec<String>)
    ensures
        sorted_names(r@.map_values(|s: String| s@)),
        r@.map_values(|s: String| s@).to_set() == auth@.providers.dom(),
        r@.len() == auth@.providers.dom().len(),
{
    proof {
        use_type_invariant(auth);
    }
    let ghost s = auth.providers@;
    let n = auth.providers.len();
    let mut r: Vec<String> = Vec::new();
    let mut i: usize = 0;
    while i < n
        invariant
            s == auth.providers@,
            sorted_entries(s),
            n == s.len(),
            i <= n,
            r@.len() == i,
            forall|k: int| 0 <= k < i ==> #[trigger] r@[k]@ == s[k].0@,
        decreases n - i,
    {
        r.push(auth.providers[i].0.clone());
        i += 1;
    }
    let ghost names = r@.map_values(|x: String| x@);
    assert forall|a: int, b: int| 0 <= a < b < names.len() implies seq_lt(
        #[trigger] names[a],
        #[trigger] names[b],
    ) by {
        assert(names[a] == s[a].0@);
        assert(names[b] == s[b].0@);
    }
    assert forall|k: Seq<char>| names.to_set().contains(k) <==> entries_map(s).dom().contains(k) by {
        if names.to_set().contains(k) {
            let j = choose|j: int| 0 <= j < names.len() && names[j] == k;
            assert(s[j].0@ == k);
        }
        if has_key(s, k) {
            let j = choose|j: int| 0 <= j < s.len() && #[trigger] s[j].0@ == k;
            assert(names[j] == k);
        }
    }
    assert(names.to_set() =~= entries_map(s).dom());
    proof {
        assert forall|a: int, b: int| 0 <= a < names.len() && 0 <= b < names.len() && a != b
            implies names[a] != names[b] by {
            if a < b {
                lemma_seq_lt_irreflexive(names[a]);
            } else {
                lemma_seq_lt_irreflexive(names[b]);
            }
        }
        names.unique_seq_to_set();
    }
    r
}

/// The provider named `name`, if there is one.
pub fn get_provider(auth: &Auth, name: &str) -> (r: Option<ProviderInfo>)
    ensures
        r == (if auth@.providers.dom().contains(name@) {
            Some(auth@.providers[name@])
        } else {
            None
        }),
{
    proof {
        use_type_invariant(auth);
    }
    match auth.find(name) {
        Some(i) => {
            proof {
                lemma_map_at(auth.providers@, i as int);
            }
            Some(auth.providers[i].1.duplicate())
        },
        None => None,
    }
}

/// The default provider with its name, when the default names a provider.
pub fn get_default_provider(auth: &Auth) -> (r: Option<NamedProvider>)
    ensures
        match auth@.default_provider {
            Some(n) => if auth@.providers.dom().contains(n) {
                r matches Some(p) && p.name@ == n && p.info == auth@.providers[n]
            } else {
                r is None
            },
            None => r is None,
        },
{
    match &auth.default_provider {
        None => None,
        Some(name) => {
            match get_provider(auth, name.as_str()) {
                Some(info) => Some(NamedProvider { name: name.clone(), info }),
                None => None,
            }
        },
    }
}

/// Make `name` the default. Returns `false`, changing nothing, when no
/// provider is named `name`.
pub fn set_default_provider(auth: &mut Auth, name: &str) -> (r: bool)
    ensures
        r == old(auth)@.providers.dom().contains(name@),
        final(auth)@.providers == old(auth)@.providers,
        final(auth)@.default_provider == (if r {
            Some(name@)
        } else {
            old(auth)@.default_provider
        }),
{
    proof {
        use_type_invariant(&*auth);
    }
    match auth.find(name) {
        Some(i) => {
            proof {
                lemma_map_at(auth.providers@, i as int);
            }
            auth.default_provider = Some(name.to_owned());
            true
        },
        None => false,
    }
}

/// Add the provider `name`, or replace it when it exists.
pub fn set_provider(auth: &mut Auth, name: &str, info: ProviderInfo)
    ensures
        final(auth)@.providers == old(auth)@.providers.insert(name@, info),
        final(auth)@.default_provider == old(auth)@.default_provider,
{
    proof {
        use_type_invariant(&*auth);
    }
    let ghost old_s = auth.providers@;
    let mut entries: Vec<(String, ProviderInfo)> = Vec::new();
    std::mem::swap(&mut entries, &mut auth.providers);
    assert(entries@ == old_s);
    let found = find_in(&entries, name);
    match found {
        Some(i) => {
            let ghost before = entries@;
            entries.set(i, (name.to_owned(), info));
            proof {
                lemma_replace_keeps(before, i as int, entries@);
            }
        },
        None => {
            let key = chars_of(name);
            let n = entries.len();
            let mut pos: usize = 0;
            while pos < n && chars_less(&chars_of(entries[pos].0.as_str()), &key)
                invariant
                    entries@ == old_s,
                    sorted_entries(old_s),
                    n == old_s.len(),
                    pos <= n,
                    key@ == name@,
                    forall|k: int| 0 <= k < pos ==> seq_lt(#[trigger] old_s[k].0@, name@),
                decreases n - pos,
            {
                pos += 1;
            }
            proof {
                lemma_insert_position(old_s, pos as int, name@);
            }
            entries.insert(pos, (name.to_owned(), info));
            proof {
                lemma_insert_keeps(old_s, pos as int, entries@);
            }
        },
    }
    auth.providers = entries;
}

/// Remove the provider `name`; a default that named it is cleared. Returns
/// whether such a provider existed.
pub fn remove_provider(auth: &mut Auth, name: &str) -> (r: bool)
    ensures
        r == old(auth)@.providers.dom().contains(name@),
        final(auth)@.providers == old(auth)@.providers.remove(name@),
        final(auth)@.default_provider == (if r && old(auth)@.default_provider == Some(name@) {
            None
        } else {
            old(auth)@.default_provider
        }),
{
    proof {
        use_type_invariant(&*auth);
    }
    let ghost old_s = auth.providers@;
    let mut entries: Vec<(String, ProviderInfo)> = Vec::new();
    std::mem::swap(&mut entries, &mut auth.providers);
    match find_in(&entries, name) {
        None => {
            auth.providers = entries;
            assert(entries_map(old_s).remove(name@) =~= entries_map(old_s));
            false
        },
        Some(i) => {
            entries.remove(i);
            proof {
                lemma_remove_keeps(old_s, i as int, entries@);
            }
            auth.providers = entries;
            let clears = match &auth.default_provider {
                Some(d) => str_eq(d.as_str(), name),
                None => false,
            };
            if clears {
                auth.default_provider = None;
            }
            true
        },
    }
}

fn find_in(entries: &Vec<(String, ProviderInfo)>, name: &str) -> (r: Option<usize>)
    ensures
        match r {
            Some(i) => i < entries@.len() && entries@[i as int].0@ == name@,
            None => !has_key(entries@, name@),
        },
{
    let n = entries.len();
    let mut i: usize = 0;
    while i < n
        invariant
            n == entries@.len(),
            i <= n,
            forall|k: int| 0 <= k < i ==> entries@[k].0@ != name@,
        decreases n - i,
    {
        if str_eq(entries[i].0.as_str(), name) {
            return Some(i);
        }
        i += 1;
    }
    None
}

proof fn lemma_replace_keeps(
    s: Seq<(String, ProviderInfo)>,
    i: int,
    t: Seq<(String, ProviderInfo)>,
)
    requires
        sorted_entries(s),
        0 <= i < s.len(),
        t.len() == s.len(),
        t[i].0@ == s[i].0@,
        forall|k: int| 0 <= k < s.len() && k != i ==> t[k] == s[k],
    ensures
        sorted_entries(t),
        entries_map(t) == entries_map(s).insert(s[i].0@, t[i].1),
{
    assert forall|a: int, b: int| 0 <= a < b < t.len() implies seq_lt(
        #[trigger] t[a].0@,
        #[trigger] t[b].0@,
    ) by {
        assert(s[a].0@ == t[a].0@);
        assert(s[b].0@ == t[b].0@);
    }
    let m = entries_map(s).insert(s[i].0@, t[i].1);
    assert forall|k: Seq<char>| entries_map(t).dom().contains(k) <==> m.dom().contains(k) by {
        if has_key(t, k) {
            let j = choose|j: int| 0 <= j < t.len() && #[trigger] t[j].0@ == k;
            if j != i {
                assert(s[j].0@ == k);
            }
        }
        if has_key(s, k) {
            let j = choose|j: int| 0 <= j < s.len() && #[trigger] s[j].0@ == k;
            if j != i {
                assert(t[j].0@ == k);
            }
        }
        if k == s[i].0@ {
            assert(t[i].0@ == k);
        }
    }
    assert forall|k: Seq<char>| #[trigger] entries_map(t).dom().contains(k) implies entries_map(
        t,
    )[k] == m[k] by {
        let j = index_of(t, k);
        if j == i {
            lemma_map_at(t, i);
        } else {
            lemma_map_at(t, j);
            assert(s[j] == t[j]);
            lemma_map_at(s, j);
            if k == s[i].0@ {
                lemma_sorted_unique(s, i, j);
            }
        }
    }
    assert(entries_map(t) =~= m);
}

proof fn lemma_insert_position(s: Seq<(String, ProviderInfo)>, pos: int, key: Seq<char>)
    requires
        sorted_entries(s),
        0 <= pos <= s.len(),
        !has_key(s, key),
        forall|k: int| 0 <= k < pos ==> seq_lt(#[trigger] s[k].0@, key),
        pos < s.len() ==> !seq_lt(s[pos].0@, key),
    ensures
        forall|k: int| pos <= k < s.len() ==> seq_lt(key, #[trigger] s[k].0@),
{
    if pos < s.len() {
        assert(s[pos].0@ != key);
        lemma_seq_lt_total(s[pos].0@, key);
        assert forall|k: int| pos <= k < s.len() implies seq_lt(key, #[trigger] s[k].0@) by {
            if k > pos {
                lemma_seq_lt_transitive(key, s[pos].0@, s[k].0@);
            }
        }
    }
}

proof fn lemma_insert_keeps(s: Seq<(String, ProviderInfo)>, pos: int, t: Seq<(String, ProviderInfo)>)
    requires
        sorted_entries(s),
        0 <= pos <= s.len(),
        t == s.insert(pos, t[pos]),
        !has_key(s, t[pos].0@),
        forall|k: int| 0 <= k < pos ==> seq_lt(#[trigger] s[k].0@, t[pos].0@),
        forall|k: int| pos <= k < s.len() ==> seq_lt(t[pos].0@, #[trigger] s[k].0@),
    ensures
        sorted_entries(t),
        entries_map(t) == entries_map(s).insert(t[pos].0@, t[pos].1),
{
    let key = t[pos].0@;
    assert forall|a: int, b: int| 0 <= a < b < t.len() implies seq_lt(
        #[trigger] t[a].0@,
        #[trigger] t[b].0@,
    ) by {
        if b < pos {
            assert(t[a] == s[a] && t[b] == s[b]);
        } else if b == pos {
            assert(t[a] == s[a]);
        } else if a < pos {
            assert(t[a] == s[a] && t[b] == s[b - 1]);
            lemma_seq_lt_transitive(s[a].0@, key, s[b - 1].0@);
        } else if a == pos {
            assert(t[b] == s[b - 1]);
        } else {
            assert(t[a] == s[a - 1] && t[b] == s[b - 1]);
        }
    }
    let m = entries_map(s).insert(key, t[pos].1);
    assert forall|k: Seq<char>| entries_map(t).dom().contains(k) <==> m.dom().contains(k) by {
        if has_key(t, k) {
            let j = choose|j: int| 0 <= j < t.len() && #[trigger] t[j].0@ == k;
            if j < pos {
                assert(s[j] == t[j]);
            } else if j > pos {
                assert(s[j - 1] == t[j]);
            }
        }
        if has_key(s, k) {
            let j = choose|j: int| 0 <= j < s.len() && #[trigger] s[j].0@ == k;
            if j < pos {
                assert(t[j] == s[j]);
            } else {
                assert(t[j + 1] == s[j]);
            }
        }
        if k == key {
            assert(t[pos].0@ == k);
        }
    }
    assert forall|k: Seq<char>| #[trigger] entries_map(t).dom().contains(k) implies entries_map(
        t,
    )[k] == m[k] by {
        let j = index_of(t, k);
        lemma_map_at(t, j);
        if j < pos {
            assert(s[j] == t[j]);
            lemma_map_at(s, j);
        } else if j > pos {
            assert(s[j - 1] == t[j]);
            lemma_map_at(s, j - 1);
        }
    }
    assert(entries_map(t) =~= m);
}

proof fn lemma_remove_keeps(s: Seq<(String, ProviderInfo)>, i: int, t: Seq<(String, ProviderInfo)>)
    requires
        sorted_entries(s),
        0 <= i < s.len(),
        t == s.remove(i),
    ensures
        sorted_entries(t),
        entries_map(t) == entries_map(s).remove(s[i].0@),
{
    let key = s[i].0@;
    assert forall|a: int, b: int| 0 <= a < b < t.len() implies seq_lt(
        #[trigger] t[a].0@,
        #[trigger] t[b].0@,
    ) by {
        if b < i {
            assert(t[a] == s[a] && t[b] == s[b]);
        } else if a < i {
            assert(t[a] == s[a] && t[b] == s[b + 1]);
        } else {
            assert(t[a] == s[a + 1] && t[b] == s[b + 1]);
        }
    }
    let m = entries_map(s).remove(key);
    assert forall|k: Seq<char>| entries_map(t).dom().contains(k) <==> m.dom().contains(k) by {
        if has_key(t, k) {
            let j = choose|j: int| 0 <= j < t.len() && #[trigger] t[j].0@ == k;
            if j < i {
                assert(s[j] == t[j]);
                if k == key {
                    lemma_sorted_unique(s, i, j);
                }
            } else {
                assert(s[j + 1] == t[j]);
                if k == key {
                    lemma_sorted_unique(s, i, j + 1);
                }
            }
        }
        if has_key(s, k) && k != key {
            let j = choose|j: int| 0 <= j < s.len() && #[trigger] s[j].0@ == k;
            if j < i {
                assert(t[j] == s[j]);
            } else if j > i {
                assert(t[j - 1] == s[j]);
            }
        }
    }
    assert forall|k: Seq<char>| #[trigger] entries_map(t).dom().contains(k) implies entries_map(
        t,
    )[k] == m[k] by {
        let j = index_of(t, k);
        lemma_map_at(t, j);
        assert(m.dom().contains(k));
        if j < i {
            assert(s[j] == t[j]);
            lemma_map_at(s, j);
        } else {
            assert(s[j + 1] == t[j]);
            lemma_map_at(s, j + 1);
        }
    }
    assert(entries_map(t) =~= m);
}

/// A read gives back what a write wrote: after `set_provider` of `name`,
/// `get_provider` of `name` is the provider written, and every other name
/// reads as before.
pub proof fn law_read_after_set(before: AuthView, name: Seq<char>, info: ProviderInfo, other: Seq<char>)
    ensures
        before.providers.insert(name, info).dom().contains(name),
        before.providers.insert(name, info)[name] == info,
        other != name ==> (before.providers.insert(name, info).dom().contains(other) <==> before.providers.dom().contains(other)),
        other != name && before.providers.dom().contains(other) ==> before.providers.insert(name, info)[other] == before.providers[other],
{
}

/// A removed provider reads as missing, and writing a provider that was
/// missing then removing it leaves the store as it was.
pub proof fn law_remove_undoes_set(before: AuthView, name: Seq<char>, info: ProviderInfo)
    ensures
        !before.providers.remove(name).dom().contains(name),
        !before.providers.dom().contains(name) ==> before.providers.insert(name, info).remove(name) == before.providers,
{
    if !before.providers.dom().contains(name) {
        assert(before.providers.insert(name, info).remove(name) =~= before.providers);
    }
}

/// The providers of `m` after writing `entries` into it, first to last.
pub open spec fn with_entries(m: Map<Seq<char>, ProviderInfo>, entries: Seq<(String, ProviderInfo)>) -> Map<Seq<char>, ProviderInfo>
    decreases entries.len(),
{
    if entries.len() == 0 {
        m
    } else {
        with_entries(m, entries.drop_last()).insert(entries.last().0@, entries.last().1)
    }
}

/// The store that a file holds: its default name, as written, and its
/// providers, a later entry under the same name replacing an earlier one.
pub fn auth_from_entries(default_provider: Option<String>, entries: Vec<(String, ProviderInfo)>) -> (r: Auth)
    ensures
        r@.default_provider == opt_view(default_provider),
        r@.providers == with_entries(Map::empty(), entries@),
{
    let mut auth = Auth::new();
    let ghost all = entries@;
    let mut rest = entries;
    let n = rest.len();
    let mut i: usize = 0;
    while i < n
        invariant
            i <= n,
            n == all.len(),
            rest@ == all.skip(i as int),
            auth@.providers == with_entries(Map::empty(), all.take(i as int)),
            auth@.default_provider is None,
        decreases n - i,
    {
        let (name, info) = rest.remove(0);
        assert(all.take(i + 1).drop_last() =~= all.take(i as int));
        assert(rest@ =~= all.skip(i + 1));
        set_provider(&mut auth, name.as_str(), info);
        i += 1;
    }
    assert(all.take(n as int) =~= all);
    auth.replace_default_provider(default_provider);
    auth
}

} // verus!
