//! A model of YAML documents, with parsing and emitting done by `serde_yaml`
//! and the lookups that the configuration logic needs.

use serde_yaml::value::{Tag, TaggedValue};
use serde_yaml::Value;
use vstd::prelude::*;

verus! {

/// A YAML value as a plain tree. Numbers are kept as `serde_yaml` holds
/// them: non-negative integers, negative integers, and floating-point
/// numbers by their YAML text.
pub enum YamlValue {
    Null,
    Bool(bool),
    PosInt(u64),
    NegInt(i64),
    Float(Seq<char>),
    Str(Seq<char>),
    Sequence(Seq<YamlValue>),
    Mapping(Seq<(YamlValue, YamlValue)>),
    Tagged(Seq<char>, Box<YamlValue>),
}

/// A YAML value held by the library; its view is a [`YamlValue`].
#[derive(Debug)]
pub enum Yaml {
    Null,
    Bool(bool),
    PosInt(u64),
    NegInt(i64),
    Float(String),
    Str(String),
    Sequence(Vec<Yaml>),
    Mapping(Vec<(Yaml, Yaml)>),
    Tagged(String, Box<Yaml>),
}

impl Yaml {
    pub open spec fn model(&self) -> YamlValue
        decreases self,
    {
        match self {
            Yaml::Null => YamlValue::Null,
            Yaml::Bool(b) => YamlValue::Bool(*b),
            Yaml::PosInt(n) => YamlValue::PosInt(*n),
            Yaml::NegInt(n) => YamlValue::NegInt(*n),
            Yaml::Float(t) => YamlValue::Float(t@),
            Yaml::Str(s) => YamlValue::Str(s@),
            Yaml::Sequence(items) => YamlValue::Sequence(
                Seq::new(
                    items@.len(),
                    |i: int|
                        if 0 <= i < items@.len() {
                            items@[i].model()
                        } else {
                            YamlValue::Null
                        },
                ),
            ),
            Yaml::Mapping(entries) => YamlValue::Mapping(
                Seq::new(
                    entries@.len(),
                    |i: int|
                        if 0 <= i < entries@.len() {
                            (entries@[i].0.model(), entries@[i].1.model())
                        } else {
                            (YamlValue::Null, YamlValue::Null)
                        },
                ),
            ),
            Yaml::Tagged(t, v) => YamlValue::Tagged(t@, Box::new(v.model())),
        }
    }
}

impl View for Yaml {
    type V = YamlValue;

    open spec fn view(&self) -> YamlValue {
        self.model()
    }
}

/// The value under any tags.
pub open spec fn untag(v: YamlValue) -> YamlValue
    decreases v,
{
    match v {
        YamlValue::Tagged(_, inner) => untag(*inner),
        _ => v,
    }
}

/// The value of the first entry whose key is the string `key`.
pub open spec fn entry_value(entries: Seq<(YamlValue, YamlValue)>, key: Seq<char>) -> Option<
    YamlValue,
>
    decreases entries.len(),
{
    if entries.len() == 0 {
        None
    } else if entries[0].0 == YamlValue::Str(key) {
        Some(entries[0].1)
    } else {
        entry_value(entries.drop_first(), key)
    }
}

/// `Value::get` with a string key: the value under `key` when the (untagged)
/// value is a mapping.
pub open spec fn yaml_get(v: YamlValue, key: Seq<char>) -> Option<YamlValue> {
    match untag(v) {
        YamlValue::Mapping(entries) => entry_value(entries, key),
        _ => None,
    }
}

/// `Value::as_str`.
pub open spec fn yaml_as_str(v: YamlValue) -> Option<Seq<char>> {
    match untag(v) {
        YamlValue::Str(s) => Some(s),
        _ => None,
    }
}

/// `Value::as_u64`.
pub open spec fn yaml_as_u64(v: YamlValue) -> Option<u64> {
    match untag(v) {
        YamlValue::PosInt(n) => Some(n),
        _ => None,
    }
}

/// `Value::as_bool`.
pub open spec fn yaml_as_bool(v: YamlValue) -> Option<bool> {
    match untag(v) {
        YamlValue::Bool(b) => Some(b),
        _ => None,
    }
}

/// `Value::as_sequence`.
pub open spec fn yaml_as_sequence(v: YamlValue) -> Option<Seq<YamlValue>> {
    match untag(v) {
        YamlValue::Sequence(items) => Some(items),
        _ => None,
    }
}

/// `Value::get(key).and_then(Value::as_str)`.
pub open spec fn yaml_str_at(v: YamlValue, key: Seq<char>) -> Option<Seq<char>> {
    match yaml_get(v, key) {
        Some(x) => yaml_as_str(x),
        None => None,
    }
}

/// `Value::get(key).and_then(Value::as_u64)`.
pub open spec fn yaml_u64_at(v: YamlValue, key: Seq<char>) -> Option<u64> {
    match yaml_get(v, key) {
        Some(x) => yaml_as_u64(x),
        None => None,
    }
}

/// `Value::get(key).and_then(Value::as_bool)`.
pub open spec fn yaml_bool_at(v: YamlValue, key: Seq<char>) -> Option<bool> {
    match yaml_get(v, key) {
        Some(x) => yaml_as_bool(x),
        None => None,
    }
}

/// Every tag in the value is non-empty (as `serde_yaml` requires of tags).
pub open spec fn tags_nonempty(v: YamlValue) -> bool
    decreases v,
{
    match v {
        YamlValue::Sequence(items) => forall|i: int| 0 <= i < items.len() ==> tags_nonempty(#[trigger] items[i]),
        YamlValue::Mapping(es) => forall|i: int| 0 <= i < es.len() ==> tags_nonempty(#[trigger] es[i].0) && tags_nonempty(es[i].1),
        YamlValue::Tagged(t, inner) => t.len() > 0 && tags_nonempty(*inner),
        _ => true,
    }
}

/// Removing tags keeps every remaining tag non-empty.
pub proof fn lemma_untag_tags_nonempty(v: YamlValue)
    requires
        tags_nonempty(v),
    ensures
        tags_nonempty(untag(v)),
    decreases v,
{
    if let YamlValue::Tagged(_, inner) = v {
        lemma_untag_tags_nonempty(*inner);
    }
}

/// The value under a key is that of the first entry with that key.
pub proof fn lemma_entry_value_at(es: Seq<(YamlValue, YamlValue)>, key: Seq<char>, j: int)
    requires
        0 <= j < es.len(),
        es[j].0 == YamlValue::Str(key),
        forall|i: int| 0 <= i < j ==> #[trigger] es[i].0 != YamlValue::Str(key),
    ensures
        entry_value(es, key) == Some(es[j].1),
    decreases j,
{
    if j > 0 {
        assert(es[0].0 != YamlValue::Str(key));
        assert forall|i: int| 0 <= i < j - 1 implies #[trigger] es.drop_first()[i].0 != YamlValue::Str(key) by {
            assert(es.drop_first()[i] == es[i + 1]);
        }
        lemma_entry_value_at(es.drop_first(), key, j - 1);
    }
}

/// An item of a sequence keeps its tags non-empty.
proof fn lemma_item_tags_nonempty(v: YamlValue, items: Seq<YamlValue>, i: int)
    requires
        0 <= i < items.len(),
        v == YamlValue::Sequence(items),
        tags_nonempty(v),
    ensures
        tags_nonempty(items[i]),
{
    assert(v matches YamlValue::Sequence(xs) && xs == items);
    assert(tags_nonempty(v) == (forall|k: int| 0 <= k < items.len() ==> tags_nonempty(#[trigger] items[k])));
}

/// An entry of a mapping keeps its tags non-empty.
proof fn lemma_entry_tags_nonempty(v: YamlValue, es: Seq<(YamlValue, YamlValue)>, i: int)
    requires
        0 <= i < es.len(),
        v == YamlValue::Mapping(es),
        tags_nonempty(v),
    ensures
        tags_nonempty(es[i].0) && tags_nonempty(es[i].1),
{
    assert(v matches YamlValue::Mapping(xs) && xs == es);
    assert(tags_nonempty(v) == (forall|k: int| 0 <= k < es.len() ==> tags_nonempty(#[trigger] es[k].0) && tags_nonempty(es[k].1)));
}

/// Values found under a key keep their tags non-empty.
pub proof fn lemma_entry_value_tags_nonempty(es: Seq<(YamlValue, YamlValue)>, key: Seq<char>)
    requires
        forall|i: int| 0 <= i < es.len() ==> tags_nonempty(#[trigger] es[i].0) && tags_nonempty(es[i].1),
    ensures
        entry_value(es, key) matches Some(x) ==> tags_nonempty(x),
    decreases es.len(),
{
    if es.len() > 0 {
        assert(tags_nonempty(es[0].0));
        assert forall|i: int| 0 <= i < es.drop_first().len() implies tags_nonempty(#[trigger] es.drop_first()[i].0)
            && tags_nonempty(es.drop_first()[i].1) by {
            assert(es.drop_first()[i] == es[i + 1]);
            assert(tags_nonempty(es[i + 1].0));
        }
        lemma_entry_value_tags_nonempty(es.drop_first(), key);
    }
}

/// Values found under a key keep their tags non-empty.
pub proof fn lemma_get_tags_nonempty(v: YamlValue, key: Seq<char>)
    requires
        tags_nonempty(v),
    ensures
        yaml_get(v, key) matches Some(x) ==> tags_nonempty(x),
{
    lemma_untag_tags_nonempty(v);
    if let YamlValue::Mapping(es) = untag(v) {
        lemma_entry_value_tags_nonempty(es, key);
    }
}

/// The items of a sequence keep their tags non-empty.
pub proof fn lemma_sequence_tags_nonempty(v: YamlValue)
    requires
        tags_nonempty(v),
    ensures
        yaml_as_sequence(v) matches Some(items) ==> forall|i: int| 0 <= i < items.len() ==> tags_nonempty(#[trigger] items[i]),
{
    lemma_untag_tags_nonempty(v);
}

/// What `serde_yaml::from_str::<Value>` makes of a text, when it parses.
pub uninterp spec fn yaml_parse(text: Seq<char>) -> Option<YamlValue>;

/// What `serde_yaml::to_string` makes of a value, when it succeeds.
pub uninterp spec fn yaml_emit(v: YamlValue) -> Option<Seq<char>>;

#[verifier::external_type_specification]
#[verifier::external_body]
pub struct ExYamlValue(Value);

#[verifier::external_type_specification]
#[verifier::external_body]
pub struct ExYamlNumber(serde_yaml::Number);

/// Converts a `serde_yaml::Number`: an integer that fits `u64`, else one
/// that fits `i64`, else its text.
#[verifier::external_body]
fn from_number(n: &serde_yaml::Number) -> Yaml {
    match (n.as_u64(), n.as_i64()) {
        (Some(u), _) => Yaml::PosInt(u),
        (None, Some(i)) => Yaml::NegInt(i),
        (None, None) => Yaml::Float(n.to_string()),
    }
}

/// Converts a `serde_yaml::Value` into the library's tree, variant by variant.
#[verifier::external_body]
fn from_value(v: &Value) -> Yaml {
    match v {
        Value::Null => Yaml::Null,
        Value::Bool(b) => Yaml::Bool(*b),
        Value::Number(n) => from_number(n),
        Value::String(s) => Yaml::Str(s.clone()),
        Value::Sequence(items) => Yaml::Sequence(items.iter().map(from_value).collect()),
        Value::Mapping(m) => Yaml::Mapping(m.iter().map(|(k, x)| (from_value(k), from_value(x))).collect()),
        Value::Tagged(t) => Yaml::Tagged(t.tag.to_string(), Box::new(from_value(&t.value))),
    }
}

/// Converts a number's text back into a `serde_yaml::Value`.
#[verifier::external_body]
fn to_number(t: &String) -> Value {
    t.parse().map(Value::Number).unwrap_or(Value::Null)
}

/// Converts a tagged value back into a `serde_yaml::Value`. `Tag::new`
/// panics on an empty tag, so the tag and those inside must be non-empty.
#[verifier::external_body]
fn to_tagged(t: &String, x: &Yaml) -> Value
    requires
        t@.len() > 0,
        tags_nonempty(x@),
{
    Value::Tagged(Box::new(TaggedValue { tag: Tag::new(t.clone()), value: to_value(x) }))
}

/// Converts the library's tree back into a `serde_yaml::Value`, variant by
/// variant. Its tags go through `Tag::new`, which panics on an empty one.
#[verifier::external_body]
fn to_value(v: &Yaml) -> Value
    requires
        tags_nonempty(v@),
{
    match v {
        Yaml::Null => Value::Null,
        Yaml::Bool(b) => Value::Bool(*b),
        Yaml::PosInt(u) => Value::Number((*u).into()),
        Yaml::NegInt(i) => Value::Number((*i).into()),
        Yaml::Float(t) => to_number(t),
        Yaml::Str(s) => Value::String(s.clone()),
        Yaml::Sequence(items) => Value::Sequence(items.iter().map(to_value).collect()),
        Yaml::Mapping(m) => Value::Mapping(m.iter().map(|(k, x)| (to_value(k), to_value(x))).collect()),
        Yaml::Tagged(t, x) => to_tagged(t, x),
    }
}

/// `serde_yaml::from_str::<Value>`: a parsed document, or the parser's
/// error message. What the parser makes of a text is named, not restated;
/// its tags are non-empty, as `Tag`'s `Display` always writes a `!`.
#[verifier::external_body]
pub(crate) fn parse_yaml(text: &str) -> (r: Result<Yaml, String>)
    ensures
        r matches Ok(v) ==> yaml_parse(text@) == Some(v@) && tags_nonempty(v@),
        r is Err <==> yaml_parse(text@) is None,
{
    match serde_yaml::from_str::<Value>(text) {
        Ok(v) => Ok(from_value(&v)),
        Err(e) => Err(e.to_string()),
    }
}

/// `serde_yaml::to_string`: the emitted text, or `None` when emitting fails.
/// What the emitter makes of a value is named, not restated. `Tag::new`
/// panics on an empty tag, so every tag must be non-empty.
#[verifier::external_body]
pub(crate) fn emit_yaml(v: &Yaml) -> (r: Option<String>)
    requires
        tags_nonempty(v@),
    ensures
        r matches Some(s) ==> yaml_emit(v@) == Some(s@),
        r is None <==> yaml_emit(v@) is None,
{
    serde_yaml::to_string(&to_value(v)).ok()
}

impl Yaml {
    /// Whether every tag in the value is non-empty, as `serde_yaml`'s
    /// `Tag::new` needs.
    pub fn tags_are_nonempty(&self) -> (b: bool)
        ensures
            b == tags_nonempty(self@),
        decreases self,
    {
        match self {
            Yaml::Sequence(items) => {
                let ghost vs = self@->Sequence_0;
                assert(self@ == YamlValue::Sequence(vs));
                let mut i: usize = 0;
                while i < items.len()
                    invariant
                        *self == Yaml::Sequence(*items),
                        self@ == YamlValue::Sequence(vs),
                        i <= items@.len(),
                        vs.len() == items@.len(),
                        forall|j: int| 0 <= j < items@.len() ==> #[trigger] vs[j] == items@[j]@,
                        forall|j: int| 0 <= j < i ==> tags_nonempty(#[trigger] vs[j]),
                    decreases items@.len() - i,
                {
                    proof {
                        assert(decreases_to!(*self => *items));
                        assert(decreases_to!(*items => items@));
                        assert(decreases_to!(items@ => items@[i as int]));
                        assert(decreases_to!(*self => items@[i as int]));
                    }
                    if !items[i].tags_are_nonempty() {
                        assert(!tags_nonempty(vs[i as int]));
                        assert(tags_nonempty(self@) ==> tags_nonempty(vs[i as int])) by {
                            if tags_nonempty(self@) {
                                lemma_item_tags_nonempty(self@, vs, i as int);
                            }
                        }
                        return false;
                    }
                    i = i + 1;
                }
                true
            },
            Yaml::Mapping(entries) => {
                let ghost es = self@->Mapping_0;
                assert(self@ == YamlValue::Mapping(es));
                let mut i: usize = 0;
                while i < entries.len()
                    invariant
                        *self == Yaml::Mapping(*entries),
                        self@ == YamlValue::Mapping(es),
                        i <= entries@.len(),
                        es.len() == entries@.len(),
                        forall|j: int| 0 <= j < entries@.len() ==> #[trigger] es[j] == (entries@[j].0@, entries@[j].1@),
                        forall|j: int| 0 <= j < i ==> tags_nonempty(#[trigger] es[j].0) && tags_nonempty(es[j].1),
                    decreases entries@.len() - i,
                {
                    proof {
                        assert(decreases_to!(*self => *entries));
                        assert(decreases_to!(*entries => entries@));
                        assert(decreases_to!(entries@ => entries@[i as int]));
                        assert(decreases_to!(entries@[i as int] => entries@[i as int].0));
                        assert(decreases_to!(entries@[i as int] => entries@[i as int].1));
                        assert(decreases_to!(*self => entries@[i as int].0));
                        assert(decreases_to!(*self => entries@[i as int].1));
                    }
                    if !entries[i].0.tags_are_nonempty() || !entries[i].1.tags_are_nonempty() {
                        assert(!(tags_nonempty(es[i as int].0) && tags_nonempty(es[i as int].1)));
                        assert(tags_nonempty(self@) ==> tags_nonempty(es[i as int].0) && tags_nonempty(es[i as int].1)) by {
                            if tags_nonempty(self@) {
                                lemma_entry_tags_nonempty(self@, es, i as int);
                            }
                        }
                        return false;
                    }
                    i = i + 1;
                }
                true
            },
            Yaml::Tagged(t, inner) => !crate::text::str_is_empty(t.as_str()) && inner.tags_are_nonempty(),
            _ => true,
        }
    }

    /// The value under any tags.
    pub fn untag_ref(&self) -> (r: &Yaml)
        ensures
            r@ == untag(self@),
        decreases self,
    {
        match self {
            Yaml::Tagged(_, inner) => inner.untag_ref(),
            _ => self,
        }
    }

    /// `Value::get` with a string key.
    pub fn get(&self, key: &str) -> (r: Option<&Yaml>)
        ensures
            r matches Some(x) ==> yaml_get(self@, key@) == Some(x@),
            r is None <==> yaml_get(self@, key@) is None,
    {
        let v = self.untag_ref();
        match v {
            Yaml::Mapping(entries) => {
                let ghost es = v@->Mapping_0;
                assert(es.skip(0) =~= es);
                assert forall|j: int| 0 <= j < entries@.len() implies #[trigger] es[j] == (
                    entries@[j].0@,
                    entries@[j].1@,
                ) by {}
                let mut i: usize = 0;
                while i < entries.len()
                    invariant
                        i <= entries@.len(),
                        es.len() == entries@.len(),
                        forall|j: int| 0 <= j < entries@.len() ==> #[trigger] es[j] == (
                        entries@[j].0@, entries@[j].1@),
                        entry_value(es, key@) == entry_value(es.skip(i as int), key@),
                        yaml_get(self@, key@) == entry_value(es, key@),
                    decreases entries@.len() - i,
                {
                    let ghost rest = es.skip(i as int);
                    assert(rest.drop_first() =~= es.skip(i + 1));
                    assert(rest[0] == es[i as int]);
                    if let Yaml::Str(k) = &entries[i].0 {
                        if crate::text::str_eq(k.as_str(), key) {
                            assert(es[i as int].0 == YamlValue::Str(key@));
                            return Some(&entries[i].1);
                        }
                    }
                    i = i + 1;
                }
                None
            },
            _ => None,
        }
    }
}

impl Yaml {
    /// `Value::as_str`.
    pub fn as_str(&self) -> (r: Option<&str>)
        ensures
            r matches Some(s) ==> yaml_as_str(self@) == Some(s@),
            r is None <==> yaml_as_str(self@) is None,
    {
        match self.untag_ref() {
            Yaml::Str(s) => Some(s.as_str()),
            _ => None,
        }
    }

    /// `Value::as_u64`.
    pub fn as_u64(&self) -> (r: Option<u64>)
        ensures
            r == yaml_as_u64(self@),
    {
        match self.untag_ref() {
            Yaml::PosInt(n) => Some(*n),
            _ => None,
        }
    }

    /// `Value::as_bool`.
    pub fn as_bool(&self) -> (r: Option<bool>)
        ensures
            r == yaml_as_bool(self@),
    {
        match self.untag_ref() {
            Yaml::Bool(b) => Some(*b),
            _ => None,
        }
    }

    /// `Value::as_sequence`.
    pub fn as_sequence(&self) -> (r: Option<&Vec<Yaml>>)
        ensures
            r matches Some(items) ==> yaml_as_sequence(self@) == Some(
                items@.map_values(|x: Yaml| x@),
            ),
            r is None <==> yaml_as_sequence(self@) is None,
    {
        let v = self.untag_ref();
        match v {
            Yaml::Sequence(items) => {
                assert(v@->Sequence_0 =~= items@.map_values(|x: Yaml| x@));
                Some(items)
            },
            _ => None,
        }
    }

    /// `Value::get(key).and_then(Value::as_str)`.
    pub fn str_at(&self, key: &str) -> (r: Option<&str>)
        ensures
            r matches Some(s) ==> yaml_str_at(self@, key@) == Some(s@),
            r is None <==> yaml_str_at(self@, key@) is None,
    {
        match self.get(key) {
            Some(x) => x.as_str(),
            None => None,
        }
    }

    /// `Value::get(key).and_then(Value::as_u64)`.
    pub fn u64_at(&self, key: &str) -> (r: Option<u64>)
        ensures
            r == yaml_u64_at(self@, key@),
    {
        match self.get(key) {
            Some(x) => x.as_u64(),
            None => None,
        }
    }

    /// `Value::get(key).and_then(Value::as_bool)`.
    pub fn bool_at(&self, key: &str) -> (r: Option<bool>)
        ensures
            r == yaml_bool_at(self@, key@),
    {
        match self.get(key) {
            Some(x) => x.as_bool(),
            None => None,
        }
    }

    /// Whether the value holds the string key `key`.
    pub fn has_key(&self, key: &str) -> (r: bool)
        ensures
            r == yaml_get(self@, key@) is Some,
    {
        self.get(key).is_some()
    }
}

} // verus!
