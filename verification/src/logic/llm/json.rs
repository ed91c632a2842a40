//! JSON values as plain data: tool inputs, tool results and streamed event
//! payloads. Text is read into a value, and a value written as compact
//! text, by `serde_json`.

use vstd::prelude::*;

use crate::text::{chars_of, decimal, decimal_string, parse_unsigned, parse_unsigned_chars, str_eq};

verus! {

#[verifier::external_type_specification]
#[verifier::external_body]
pub struct ExJsonValue(serde_json::Value);

/// A JSON value. A number is kept as its JSON text.
#[derive(Debug, PartialEq, Eq)]
pub enum Json {
    Null,
    Bool(bool),
    Number(String),
    Str(String),
    Array(Vec<Json>),
    Object(Vec<(String, Json)>),
}

/// A JSON value as the contracts see it.
pub enum JsonSpec {
    Null,
    Bool(bool),
    Number(Seq<char>),
    Str(Seq<char>),
    Array(Seq<JsonSpec>),
    Object(Seq<(Seq<char>, JsonSpec)>),
}

pub open spec fn json_view(j: Json) -> JsonSpec
    decreases j,
{
    match j {
        Json::Null => JsonSpec::Null,
        Json::Bool(b) => JsonSpec::Bool(b),
        Json::Number(t) => JsonSpec::Number(t@),
        Json::Str(s) => JsonSpec::Str(s@),
        Json::Array(items) => JsonSpec::Array(items_view(items@)),
        Json::Object(es) => JsonSpec::Object(entries_view(es@)),
    }
}

pub open spec fn items_view(s: Seq<Json>) -> Seq<JsonSpec>
    decreases s,
{
    if s.len() == 0 {
        Seq::empty()
    } else {
        items_view(s.subrange(0, s.len() - 1)).push(json_view(s[s.len() - 1]))
    }
}

pub open spec fn entries_view(s: Seq<(String, Json)>) -> Seq<(Seq<char>, JsonSpec)>
    decreases s,
{
    if s.len() == 0 {
        Seq::empty()
    } else {
        entries_view(s.subrange(0, s.len() - 1)).push((s[s.len() - 1].0@, json_view(s[s.len() - 1].1)))
    }
}

impl View for Json {
    type V = JsonSpec;

    open spec fn view(&self) -> JsonSpec {
        json_view(*self)
    }
}

pub proof fn lemma_items_view(s: Seq<Json>)
    ensures
        items_view(s).len() == s.len(),
        forall|i: int| 0 <= i < s.len() ==> #[trigger] items_view(s)[i] == json_view(s[i]),
    decreases s.len(),
{
    if s.len() > 0 {
        let t = s.subrange(0, s.len() - 1);
        lemma_items_view(t);
        assert forall|i: int| 0 <= i < s.len() implies #[trigger] items_view(s)[i] == json_view(s[i]) by {
            if i < s.len() - 1 {
                assert(t[i] == s[i]);
            }
        }
    }
}

pub proof fn lemma_entries_view(s: Seq<(String, Json)>)
    ensures
        entries_view(s).len() == s.len(),
        forall|i: int|
            0 <= i < s.len() ==> #[trigger] entries_view(s)[i] == (s[i].0@, json_view(s[i].1)),
    decreases s.len(),
{
    if s.len() > 0 {
        let t = s.subrange(0, s.len() - 1);
        lemma_entries_view(t);
        assert forall|i: int| 0 <= i < s.len() implies #[trigger] entries_view(s)[i] == (
            s[i].0@,
            json_view(s[i].1),
        ) by {
            if i < s.len() - 1 {
                assert(t[i] == s[i]);
            }
        }
    }
}

/// The value of the first entry named `key`.
pub open spec fn lookup(es: Seq<(Seq<char>, JsonSpec)>, key: Seq<char>) -> Option<JsonSpec>
    decreases es.len(),
{
    if es.len() == 0 {
        None
    } else if es[0].0 == key {
        Some(es[0].1)
    } else {
        lookup(es.drop_first(), key)
    }
}

/// Field `key` of an object; nothing for anything else.
pub open spec fn field_of(j: JsonSpec, key: Seq<char>) -> Option<JsonSpec> {
    match j {
        JsonSpec::Object(es) => lookup(es, key),
        _ => None,
    }
}

/// Field `key` of `j`, where `j` is there.
pub open spec fn field_in(j: Option<JsonSpec>, key: Seq<char>) -> Option<JsonSpec> {
    match j {
        Some(v) => field_of(v, key),
        None => None,
    }
}

/// The text of a JSON string.
pub open spec fn str_of(j: Option<JsonSpec>) -> Option<Seq<char>> {
    match j {
        Some(JsonSpec::Str(s)) => Some(s),
        _ => None,
    }
}

/// The value of a JSON boolean.
pub open spec fn bool_of(j: Option<JsonSpec>) -> Option<bool> {
    match j {
        Some(JsonSpec::Bool(b)) => Some(b),
        _ => None,
    }
}

/// A JSON number that is a whole number from 0 to `u64::MAX`.
pub open spec fn u64_of(j: Option<JsonSpec>) -> Option<u64> {
    match j {
        Some(JsonSpec::Number(t)) => match parse_unsigned(t, u64::MAX as nat) {
            Some(v) => Some(v as u64),
            None => None,
        },
        _ => None,
    }
}

pub open spec fn empty_object() -> JsonSpec {
    JsonSpec::Object(Seq::empty())
}

/// What `serde_json` reads from `text`, as a JSON value; `None` where the
/// text is not JSON.
pub uninterp spec fn json_text(text: Seq<char>) -> Option<JsonSpec>;

/// The compact JSON text `serde_json` writes for a value.
pub uninterp spec fn json_compact(j: JsonSpec) -> Seq<char>;

pub open spec fn opt_json_view(j: Option<Json>) -> Option<JsonSpec> {
    match j {
        Some(v) => Some(v@),
        None => None,
    }
}

/// Converts a `serde_json::Value` into a [`Json`], one node for one node;
/// a number becomes the text `serde_json` prints for it.
#[verifier::external_body]
fn json_of_value(v: serde_json::Value) -> Json {
    match v {
        serde_json::Value::Null => Json::Null,
        serde_json::Value::Bool(b) => Json::Bool(b),
        serde_json::Value::Number(n) => Json::Number(n.to_string()),
        serde_json::Value::String(s) => Json::Str(s),
        serde_json::Value::Array(a) => Json::Array(a.into_iter().map(json_of_value).collect()),
        serde_json::Value::Object(m) => Json::Object(m.into_iter().map(entry_of_value).collect()),
    }
}

/// Converts one entry of a `serde_json` object; see [`json_of_value`].
#[verifier::external_body]
fn entry_of_value(e: (String, serde_json::Value)) -> (String, Json) {
    (e.0, json_of_value(e.1))
}

/// Converts a [`Json`] into a `serde_json::Value`, one node for one node;
/// a number is read back from its text by `serde_json::Number::from_str`,
/// and is `null` where that fails.
#[verifier::external_body]
fn value_of_json(j: &Json) -> serde_json::Value {
    match j {
        Json::Null => serde_json::Value::Null,
        Json::Bool(b) => serde_json::Value::Bool(*b),
        Json::Number(t) => t.parse::<serde_json::Number>().map(serde_json::Value::Number).unwrap_or(serde_json::Value::Null),
        Json::Str(s) => serde_json::Value::String(s.clone()),
        Json::Array(a) => serde_json::Value::Array(a.iter().map(value_of_json).collect()),
        Json::Object(es) => serde_json::Value::Object(es.iter().map(value_entry).collect()),
    }
}

/// Converts one entry of an object; see [`value_of_json`].
#[verifier::external_body]
fn value_entry(e: &(String, Json)) -> (String, serde_json::Value) {
    (e.0.clone(), value_of_json(&e.1))
}

/// `serde_json::from_str::<serde_json::Value>`, the value converted to a
/// [`Json`]: the result is named [`json_text`] of the text.
#[verifier::external_body]
fn read_json(text: &str) -> (r: Option<Json>)
    ensures
        opt_json_view(r) == json_text(text@),
{
    serde_json::from_str::<serde_json::Value>(text).ok().map(json_of_value)
}

/// `serde_json::to_string` of the value: the text is named
/// [`json_compact`] of the value. Writing a `serde_json::Value` does not
/// fail, as its map keys are strings.
#[verifier::external_body]
fn write_json(j: &Json) -> (r: String)
    ensures
        r@ == json_compact(j@),
{
    serde_json::to_string(&value_of_json(j)).unwrap_or_default()
}

/// The JSON value that `text` holds, `None` where it is not JSON.
pub fn parse_json(text: &str) -> (r: Option<Json>)
    ensures
        opt_json_view(r) == json_text(text@),
{
    read_json(text)
}

impl Clone for Json {
    fn clone(&self) -> (r: Json)
        ensures
            r@ == self@,
    {
        self.duplicate()
    }
}

impl Json {
    /// `{}`.
    pub fn empty_object() -> (r: Json)
        ensures
            r@ == empty_object(),
    {
        let r = Json::Object(Vec::new());
        assert(entries_view(Seq::<(String, Json)>::empty()) =~= Seq::empty());
        r
    }

    /// The compact JSON text of this value.
    pub fn to_compact_string(&self) -> (r: String)
        ensures
            r@ == json_compact(self@),
    {
        write_json(self)
    }

    /// A copy of this value.
    pub fn duplicate(&self) -> (r: Json)
        ensures
            r@ == self@,
        decreases self,
    {
        match self {
            Json::Null => Json::Null,
            Json::Bool(b) => Json::Bool(*b),
            Json::Number(t) => Json::Number(t.clone()),
            Json::Str(s) => Json::Str(s.clone()),
            Json::Array(items) => {
                let mut out: Vec<Json> = Vec::new();
                let mut i: usize = 0;
                proof {
                    lemma_items_view(items@);
                    assert forall|k: int| 0 <= k < items@.len() implies decreases_to!(*self => items@[k]) by {
                        assert(decreases_to!(*self => *items));
                        assert(decreases_to!(*items => items@));
                        assert(decreases_to!(items@ => items@[k]));
                    }
                }
                while i < items.len()
                    invariant
                        forall|k: int| 0 <= k < items@.len() ==> decreases_to!(*self => items@[k]),
                        i <= items@.len(),
                        out@.len() == i,
                        forall|k: int| 0 <= k < i ==> json_view(#[trigger] out@[k]) == json_view(items@[k]),
                        items_view(items@).len() == items@.len(),
                        forall|k: int|
                            0 <= k < items@.len() ==> #[trigger] items_view(items@)[k] == json_view(items@[k]),
                    decreases items@.len() - i,
                {
                    let c = items[i].duplicate();
                    out.push(c);
                    i += 1;
                }
                proof {
                    lemma_items_view(out@);
                    assert(items_view(out@) =~= items_view(items@));
                }
                Json::Array(out)
            },
            Json::Object(es) => {
                let mut out: Vec<(String, Json)> = Vec::new();
                let mut i: usize = 0;
                proof {
                    lemma_entries_view(es@);
                    assert forall|k: int| 0 <= k < es@.len() implies decreases_to!(*self => es@[k].1) by {
                        assert(decreases_to!(*self => *es));
                        assert(decreases_to!(*es => es@));
                        assert(decreases_to!(es@ => es@[k]));
                        assert(decreases_to!(es@[k] => es@[k].1));
                    }
                }
                while i < es.len()
                    invariant
                        forall|k: int| 0 <= k < es@.len() ==> decreases_to!(*self => es@[k].1),
                        i <= es@.len(),
                        out@.len() == i,
                        forall|k: int|
                            0 <= k < i ==> (#[trigger] out@[k]).0@ == es@[k].0@ && json_view(out@[k].1)
                                == json_view(es@[k].1),
                        entries_view(es@).len() == es@.len(),
                        forall|k: int|
                            0 <= k < es@.len() ==> #[trigger] entries_view(es@)[k] == (
                                es@[k].0@,
                                json_view(es@[k].1),
                            ),
                    decreases es@.len() - i,
                {
                    let e = &es[i];
                    let c = e.1.duplicate();
                    out.push((e.0.clone(), c));
                    i += 1;
                }
                proof {
                    lemma_entries_view(out@);
                    assert(entries_view(out@) =~= entries_view(es@));
                }
                Json::Object(out)
            },
        }
    }

    /// Field `key` of an object; nothing for anything else or where the
    /// object has no such field.
    pub fn field(&self, key: &str) -> (r: Option<&Json>)
        ensures
            opt_json_view(match r {
                Some(v) => Some(*v),
                None => None,
            }) == field_of(self@, key@),
    {
        match self {
            Json::Object(es) => {
                proof {
                    lemma_entries_view(es@);
                }
                let ghost ev = entries_view(es@);
                let mut i: usize = 0;
                assert(ev.skip(0) =~= ev);
                while i < es.len()
                    invariant
                        i <= es@.len(),
                        ev == entries_view(es@),
                        self@ == JsonSpec::Object(ev),
                        ev.len() == es@.len(),
                        forall|k: int| 0 <= k < es@.len() ==> #[trigger] ev[k] == (es@[k].0@, json_view(es@[k].1)),
                        lookup(ev, key@) == lookup(ev.skip(i as int), key@),
                    decreases es@.len() - i,
                {
                    let e = &es[i];
                    assert(ev.skip(i as int)[0] == ev[i as int]);
                    if str_eq(e.0.as_str(), key) {
                        assert(ev[i as int].0 == key@);
                        assert(lookup(ev.skip(i as int), key@) == Some(ev[i as int].1));
                        assert(ev[i as int].1 == json_view(e.1));
                        return Some(&e.1);
                    }
                    assert(ev.skip(i as int).drop_first() =~= ev.skip(i + 1));
                    i += 1;
                }
                None
            },
            _ => None,
        }
    }

    /// The text of a JSON string.
    pub fn as_str(&self) -> (r: Option<String>)
        ensures
            match r {
                Some(s) => str_of(Some(self@)) == Some(s@),
                None => str_of(Some(self@)) is None,
            },
    {
        match self {
            Json::Str(s) => Some(s.clone()),
            _ => None,
        }
    }

    /// The value of a JSON boolean.
    pub fn as_bool(&self) -> (r: Option<bool>)
        ensures
            r == bool_of(Some(self@)),
    {
        match self {
            Json::Bool(b) => Some(*b),
            _ => None,
        }
    }

    /// A whole number from 0 to `u64::MAX`.
    pub fn as_u64(&self) -> (r: Option<u64>)
        ensures
            r == u64_of(Some(self@)),
    {
        match self {
            Json::Number(t) => {
                let cs = chars_of(t.as_str());
                parse_unsigned_chars(&cs, u64::MAX)
            },
            _ => None,
        }
    }
}

pub open spec fn opt_text(o: Option<String>) -> Option<Seq<char>> {
    match o {
        Some(s) => Some(s@),
        None => None,
    }
}

impl Json {
    /// Field `key` where it is a string.
    pub fn str_field(&self, key: &str) -> (r: Option<String>)
        ensures
            opt_text(r) == str_of(field_of(self@, key@)),
    {
        match self.field(key) {
            Some(f) => f.as_str(),
            None => None,
        }
    }

    /// Field `key` where it is a whole number from 0 to `u64::MAX`.
    pub fn u64_field(&self, key: &str) -> (r: Option<u64>)
        ensures
            r == u64_of(field_of(self@, key@)),
    {
        match self.field(key) {
            Some(f) => f.as_u64(),
            None => None,
        }
    }
}

pub proof fn lemma_items_push(s: Seq<Json>, j: Json)
    ensures
        items_view(s.push(j)) == items_view(s).push(json_view(j)),
{
    assert(s.push(j).subrange(0, s.len() as int) =~= s);
}

pub proof fn lemma_entries_push(s: Seq<(String, Json)>, e: (String, Json))
    ensures
        entries_view(s.push(e)) == entries_view(s).push((e.0@, json_view(e.1))),
{
    assert(s.push(e).subrange(0, s.len() as int) =~= s);
}

/// A JSON string.
pub fn json_str(s: &str) -> (r: Json)
    ensures
        r@ == JsonSpec::Str(s@),
{
    Json::Str(s.to_string())
}

/// A JSON number, written in decimal.
pub fn json_u64(n: u64) -> (r: Json)
    ensures
        r@ == JsonSpec::Number(decimal(n as nat)),
{
    Json::Number(decimal_string(n as u128))
}

/// Adds the entry `key: value` at the end of an object's entries.
pub fn push_entry(es: &mut Vec<(String, Json)>, key: &str, value: Json)
    ensures
        entries_view(final(es)@) == entries_view(old(es)@).push((key@, value@)),
{
    let k = key.to_string();
    proof {
        lemma_entries_push(es@, (k, value));
    }
    es.push((k, value));
}

/// Adds `j` at the end of an array's items.
pub fn push_item(items: &mut Vec<Json>, j: Json)
    ensures
        items_view(final(items)@) == items_view(old(items)@).push(j@),
{
    proof {
        lemma_items_push(items@, j);
    }
    items.push(j);
}

/// A JSON array of strings.
pub open spec fn str_array(ts: Seq<&str>) -> JsonSpec {
    JsonSpec::Array(ts.map_values(|t: &str| JsonSpec::Str(t@)))
}

/// A schema property of type `string` with a description.
pub open spec fn string_prop(desc: Seq<char>) -> JsonSpec {
    JsonSpec::Object(seq![("type"@, JsonSpec::Str("string"@)), ("description"@, JsonSpec::Str(desc))])
}

/// A JSON array of the strings `ts`.
pub fn json_str_array(ts: &Vec<&str>) -> (r: Json)
    ensures
        r@ == str_array(ts@),
{
    let mut items: Vec<Json> = Vec::new();
    let mut i: usize = 0;
    while i < ts.len()
        invariant
            i <= ts@.len(),
            items_view(items@) == ts@.take(i as int).map_values(|t: &str| JsonSpec::Str(t@)),
        decreases ts@.len() - i,
    {
        push_item(&mut items, json_str(ts[i]));
        assert(ts@.take(i + 1).map_values(|t: &str| JsonSpec::Str(t@)) =~= ts@.take(i as int).map_values(
            |t: &str| JsonSpec::Str(t@),
        ).push(JsonSpec::Str(ts@[i as int]@)));
        i += 1;
    }
    assert(ts@.take(i as int) =~= ts@);
    Json::Array(items)
}

/// A schema property of type `string` with the description `desc`.
pub fn json_string_prop(desc: &str) -> (r: Json)
    ensures
        r@ == string_prop(desc@),
{
    let mut es: Vec<(String, Json)> = Vec::new();
    push_entry(&mut es, "type", json_str("string"));
    push_entry(&mut es, "description", json_str(desc));
    assert(entries_view(es@) =~= seq![("type"@, JsonSpec::Str("string"@)), ("description"@, JsonSpec::Str(desc@))]);
    Json::Object(es)
}

} // verus!
