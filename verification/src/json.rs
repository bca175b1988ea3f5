//! JSON values as the library reads and writes them.
//!
//! [`parse`] reads a text through `serde_json`. What comes back is a tree of
//! plain values, so that the stages can be specified over it.

use vstd::prelude::*;
use vstd::string::*;

use crate::text;
use crate::text::{decimal_int_text, decimal_text, parse_u64, same};

verus! {

/// A JSON value.
///
/// `Number` holds the number's text. `Single` holds a single-precision number
/// by its IEEE-754 bits; the library only writes such numbers.
/// An object is the list of its entries.
#[derive(Debug, PartialEq, Eq)]
pub enum Json {
    Null,
    Bool(bool),
    Number(String),
    Single(u32),
    Text(String),
    Array(Vec<Json>),
    Object(Vec<(String, Json)>),
}

/// What a [`Json`] stands for.
#[verifier::ext_equal]
pub enum JsonView {
    Null,
    Bool(bool),
    Number(Seq<char>),
    Single(u32),
    Text(Seq<char>),
    Array(Seq<JsonView>),
    Object(Seq<(Seq<char>, JsonView)>),
}

impl Json {
    /// The mathematical value of this tree.
    pub open spec fn model(self) -> JsonView
        decreases self,
    {
        match self {
            Json::Null => JsonView::Null,
            Json::Bool(b) => JsonView::Bool(b),
            Json::Number(s) => JsonView::Number(s@),
            Json::Single(bits) => JsonView::Single(bits),
            Json::Text(s) => JsonView::Text(s@),
            Json::Array(items) => JsonView::Array(
                Seq::new(
                    items@.len(),
                    |i: int|
                        if 0 <= i < items@.len() {
                            items@[i].model()
                        } else {
                            JsonView::Null
                        },
                ),
            ),
            Json::Object(entries) => JsonView::Object(
                Seq::new(
                    entries@.len(),
                    |i: int|
                        if 0 <= i < entries@.len() {
                            (entries@[i].0@, entries@[i].1.model())
                        } else {
                            (Seq::empty(), JsonView::Null)
                        },
                ),
            ),
        }
    }
}

impl View for Json {
    type V = JsonView;

    open spec fn view(&self) -> JsonView {
        self.model()
    }
}

/// The views of a list of entries.
pub open spec fn entries_view(entries: Seq<(String, Json)>) -> Seq<(Seq<char>, JsonView)> {
    Seq::new(entries.len(), |i: int| (entries[i].0@, entries[i].1@))
}

/// The value stored under `key`: that of the first entry with this key.
pub open spec fn lookup(entries: Seq<(Seq<char>, JsonView)>, key: Seq<char>) -> Option<JsonView>
    decreases entries.len(),
{
    if entries.len() == 0 {
        None
    } else if entries[0].0 == key {
        Some(entries[0].1)
    } else {
        lookup(entries.drop_first(), key)
    }
}

/// Some entries with `value` under `key`: in the place of the first entry with this
/// key, or behind them all where there is none.
pub open spec fn inserted(
    entries: Seq<(Seq<char>, JsonView)>,
    key: Seq<char>,
    value: JsonView,
) -> Seq<(Seq<char>, JsonView)>
    decreases entries.len(),
{
    if entries.len() == 0 {
        seq![(key, value)]
    } else if entries[0].0 == key {
        seq![(key, value)] + entries.drop_first()
    } else {
        seq![entries[0]] + inserted(entries.drop_first(), key, value)
    }
}

/// What was inserted is found under its key, and what is under another key stays.
pub proof fn lemma_lookup_inserted(
    entries: Seq<(Seq<char>, JsonView)>,
    key: Seq<char>,
    value: JsonView,
    other: Seq<char>,
)
    ensures
        lookup(inserted(entries, key, value), key) == Some(value),
        other != key ==> lookup(inserted(entries, key, value), other) == lookup(entries, other),
    decreases entries.len(),
{
    let after = inserted(entries, key, value);
    if entries.len() == 0 {
        assert(after.drop_first() =~= entries);
    } else if entries[0].0 == key {
        assert(after.drop_first() =~= entries.drop_first());
    } else {
        lemma_lookup_inserted(entries.drop_first(), key, value, other);
        assert(after.drop_first() =~= inserted(entries.drop_first(), key, value));
    }
}

/// What is looked up in two lists of entries is looked up in the first one first.
pub proof fn lemma_lookup_in_two(
    a: Seq<(Seq<char>, JsonView)>,
    b: Seq<(Seq<char>, JsonView)>,
    key: Seq<char>,
)
    ensures
        lookup(a + b, key) == match lookup(a, key) {
            Some(v) => Some(v),
            None => lookup(b, key),
        },
    decreases a.len(),
{
    if a.len() == 0 {
        assert(a + b =~= b);
    } else {
        lemma_lookup_in_two(a.drop_first(), b, key);
        assert((a + b).drop_first() =~= a.drop_first() + b);
    }
}

/// Nothing is found under a key that no entry has.
pub proof fn lemma_lookup_absent(entries: Seq<(Seq<char>, JsonView)>, key: Seq<char>)
    requires
        forall|i: int| 0 <= i < entries.len() ==> (#[trigger] entries[i]).0 != key,
    ensures
        lookup(entries, key) is None,
    decreases entries.len(),
{
    if entries.len() > 0 {
        assert(entries[0].0 != key);
        let rest = entries.drop_first();
        assert forall|i: int| 0 <= i < rest.len() implies (#[trigger] rest[i]).0 != key by {
            assert(rest[i] == entries[i + 1]);
        }
        lemma_lookup_absent(rest, key);
    }
}

/// The natural number that a value is, where it is one up to `max`.
pub open spec fn natural_of(v: JsonView, max: nat) -> Option<nat> {
    match v {
        JsonView::Number(t) => if text::is_digits(t) && text::number_of(t) <= max {
            Some(text::number_of(t))
        } else {
            None
        },
        _ => None,
    }
}

/// The member `key` of an object; nothing for any other value.
pub open spec fn member(v: JsonView, key: Seq<char>) -> Option<JsonView> {
    match v {
        JsonView::Object(entries) => lookup(entries, key),
        _ => None,
    }
}

/// A field of a record. A record is written as an object, its fields under their
/// keys, or as an array, its fields in their places.
pub open spec fn field(v: JsonView, key: Seq<char>, place: nat) -> Option<JsonView> {
    match v {
        JsonView::Object(entries) => lookup(entries, key),
        JsonView::Array(items) => if place < items.len() {
            Some(items[place as int])
        } else {
            None
        },
        _ => None,
    }
}

/// `v` has the form of a record of `n` fields: an object, or an array without an item
/// too many.
pub open spec fn is_record(v: JsonView, n: nat) -> bool {
    match v {
        JsonView::Object(_) => true,
        JsonView::Array(items) => items.len() <= n,
        _ => false,
    }
}

/// The text in a field: none where the field is missing or holds `null`; `None` where
/// it holds something else than text.
pub open spec fn text_at(v: JsonView, key: Seq<char>, place: nat) -> Option<Option<Seq<char>>> {
    match field(v, key, place) {
        None => Some(None),
        Some(JsonView::Null) => Some(None),
        Some(JsonView::Text(t)) => Some(Some(t)),
        Some(_) => None,
    }
}

/// The number in a field: none where the field is missing or holds `null`; `None`
/// where it holds something else than a natural number up to `max`.
pub open spec fn number_at(v: JsonView, key: Seq<char>, place: nat, max: nat) -> Option<
    Option<nat>,
> {
    match field(v, key, place) {
        None => Some(None),
        Some(JsonView::Null) => Some(None),
        Some(x) => match natural_of(x, max) {
            Some(n) => Some(Some(n)),
            None => None,
        },
    }
}

/// The number in a field, `default` where the field is missing; `None` where it holds
/// something else than a natural number up to `max`.
pub open spec fn count_at(
    v: JsonView,
    key: Seq<char>,
    place: nat,
    default: nat,
    max: nat,
) -> Option<nat> {
    match field(v, key, place) {
        None => Some(default),
        Some(x) => natural_of(x, max),
    }
}

/// The text in a field, `default` where the field is missing; `None` where it holds
/// something else than text.
pub open spec fn text_or(v: JsonView, key: Seq<char>, place: nat, default: Seq<char>) -> Option<
    Seq<char>,
> {
    match field(v, key, place) {
        Some(JsonView::Text(t)) => Some(t),
        Some(_) => None,
        None => Some(default),
    }
}

/// An optional number of 32 bits as a natural number.
pub open spec fn widened(n: Option<u32>) -> Option<nat> {
    match n {
        Some(m) => Some(m as nat),
        None => None,
    }
}

/// What `serde_json` reads from a text, or what it says of a text that is not JSON
/// to it.
pub uninterp spec fn json_of_text(text: Seq<char>) -> Result<JsonView, Seq<char>>;

/// The tree that a `serde_json` value holds.
pub uninterp spec fn value_view(v: serde_json::Value) -> JsonView;

/// `serde_json`'s value type, which the library only takes apart.
#[verifier::external_type_specification]
#[verifier::external_body]
pub struct ExValue(serde_json::Value);

/// One level of a `serde_json` value.
pub(crate) enum JsonNode<'a> {
    Null,
    Bool(bool),
    Number(String),
    Text(String),
    Array(Vec<&'a serde_json::Value>),
    Object(Vec<(&'a str, &'a serde_json::Value)>),
}

/// Calls `serde_json::from_str`: a value where the text is JSON, else the text of
/// the error. Which texts are JSON, and what value each stands for, is named by
/// `json_of_text` and not spelled out.
#[verifier::external_body]
fn parse_value(text: &str) -> (r: Result<serde_json::Value, String>)
    ensures
        match r {
            Ok(v) => json_of_text(text@) == Ok::<JsonView, Seq<char>>(value_view(v)),
            Err(e) => json_of_text(text@) == Err::<JsonView, Seq<char>>(e@),
        },
{
    serde_json::from_str(text).map_err(|e| e.to_string())
}

/// Tells the variants of a `serde_json::Value` apart and hands out what each
/// holds: a number as its text, an array as its items, an object as its entries.
#[verifier::external_body]
fn node_of<'a>(v: &'a serde_json::Value) -> (r: JsonNode<'a>)
    ensures
        value_view(*v) == match r {
            JsonNode::Null => JsonView::Null,
            JsonNode::Bool(b) => JsonView::Bool(b),
            JsonNode::Number(s) => JsonView::Number(s@),
            JsonNode::Text(s) => JsonView::Text(s@),
            JsonNode::Array(items) => JsonView::Array(
                Seq::new(items@.len(), |i: int| value_view(*items@[i])),
            ),
            JsonNode::Object(entries) => JsonView::Object(
                Seq::new(entries@.len(), |i: int| (entries@[i].0@, value_view(*entries@[i].1))),
            ),
        },
{
    match v {
        serde_json::Value::Null => JsonNode::Null,
        serde_json::Value::Bool(b) => JsonNode::Bool(*b),
        serde_json::Value::Number(n) => JsonNode::Number(n.to_string()),
        serde_json::Value::String(s) => JsonNode::Text(s.clone()),
        serde_json::Value::Array(items) => JsonNode::Array(items.iter().collect()),
        serde_json::Value::Object(map) => {
            JsonNode::Object(map.iter().map(|e| (e.0.as_str(), e.1)).collect())
        },
    }
}

/// Reads a `serde_json` value into the library's own tree.
fn json_of(v: &serde_json::Value) -> (r: Json)
    ensures
        r@ == value_view(*v),
    decreases value_view(*v),
{
    match node_of(v) {
        JsonNode::Null => Json::Null,
        JsonNode::Bool(b) => Json::Bool(b),
        JsonNode::Number(s) => Json::Number(s),
        JsonNode::Text(s) => Json::Text(s),
        JsonNode::Array(items) => {
            let ghost inner = value_view(*v)->Array_0;
            let mut out: Vec<Json> = Vec::new();
            let mut i: usize = 0;
            while i < items.len()
                invariant
                    i <= items.len(),
                    out.len() == i,
                    value_view(*v) == JsonView::Array(inner),
                    inner == Seq::new(items@.len(), |k: int| value_view(*items@[k])),
                    forall|k: int| 0 <= k < i ==> (#[trigger] out@[k])@ == inner[k],
                decreases items.len() - i,
            {
                assert(decreases_to!(value_view(*v) => value_view(*v)->Array_0));
                assert(decreases_to!(inner => inner[i as int]));
                out.push(json_of(items[i]));
                i += 1;
            }
            let r = Json::Array(out);
            assert(r@->Array_0 =~= inner);
            r
        },
        JsonNode::Object(entries) => {
            let ghost inner = value_view(*v)->Object_0;
            let mut out: Vec<(String, Json)> = Vec::new();
            let mut i: usize = 0;
            while i < entries.len()
                invariant
                    i <= entries.len(),
                    out.len() == i,
                    value_view(*v) == JsonView::Object(inner),
                    inner == Seq::new(
                        entries@.len(),
                        |k: int| (entries@[k].0@, value_view(*entries@[k].1)),
                    ),
                    forall|k: int|
                        0 <= k < i ==> (#[trigger] out@[k]).0@ == inner[k].0 && out@[k].1@
                            == inner[k].1,
                decreases entries.len() - i,
            {
                assert(decreases_to!(value_view(*v) => value_view(*v)->Object_0));
                assert(decreases_to!(inner => inner[i as int]));
                assert(decreases_to!(inner[i as int] => inner[i as int].1));
                let (key, item) = entries[i];
                out.push((key.to_string(), json_of(item)));
                i += 1;
            }
            let r = Json::Object(out);
            assert(r@->Object_0 =~= inner);
            r
        },
    }
}

/// What a reading came to.
pub open spec fn read_as(r: Result<Json, String>) -> Result<JsonView, Seq<char>> {
    match r {
        Ok(v) => Ok(v@),
        Err(e) => Err(e@),
    }
}

/// Reads a JSON text. Where `serde_json` refuses it, what it says.
pub fn parse(text: &str) -> (r: Result<Json, String>)
    ensures
        read_as(r) == json_of_text(text@),
{
    match parse_value(text) {
        Ok(v) => Ok(json_of(&v)),
        Err(e) => Err(e),
    }
}

impl Json {
    /// A copy of this tree.
    pub fn duplicate(&self) -> (r: Json)
        ensures
            r@ == self@,
        decreases self,
    {
        match self {
            Json::Null => Json::Null,
            Json::Bool(b) => Json::Bool(*b),
            Json::Number(s) => Json::Number(s.clone()),
            Json::Single(bits) => Json::Single(*bits),
            Json::Text(s) => Json::Text(s.clone()),
            Json::Array(items) => {
                let mut out: Vec<Json> = Vec::new();
                let mut i: usize = 0;
                while i < items.len()
                    invariant
                        i <= items.len(),
                        *self == Json::Array(*items),
                        out.len() == i,
                        forall|k: int| 0 <= k < i ==> (#[trigger] out@[k])@ == items@[k]@,
                    decreases items.len() - i,
                {
                    assert(decreases_to!(*self => self->Array_0));
                    assert(decreases_to!(items => items@));
                    assert(decreases_to!(items@ => items@[i as int]));
                    out.push(items[i].duplicate());
                    i += 1;
                }
                let r = Json::Array(out);
                assert(r@->Array_0 =~= self@->Array_0);
                r
            },
            Json::Object(entries) => {
                let out = duplicate_entries(entries);
                let r = Json::Object(out);
                assert(r@->Object_0 =~= entries_view(out@));
                assert(self@->Object_0 =~= entries_view(entries@));
                r
            },
        }
    }
}

impl Json {
    /// The member `key` of an object: the value of the first entry with this key.
    pub fn get(&self, key: &str) -> (r: Option<&Json>)
        ensures
            match r {
                Some(v) => member(self@, key@) == Some(v@),
                None => member(self@, key@) is None,
            },
    {
        match self {
            Json::Object(entries) => {
                let ghost whole = self@->Object_0;
                let mut i: usize = 0;
                assert(whole.skip(0) =~= whole);
                while i < entries.len()
                    invariant
                        i <= entries.len(),
                        *self == Json::Object(*entries),
                        whole == self@->Object_0,
                        self@ == JsonView::Object(whole),
                        whole.len() == entries.len(),
                        lookup(whole, key@) == lookup(whole.skip(i as int), key@),
                    decreases entries.len() - i,
                {
                    let ghost rest = whole.skip(i as int);
                    assert(rest[0] == (entries@[i as int].0@, entries@[i as int].1@));
                    if same(entries[i].0.as_str(), key) {
                        return Some(&entries[i].1);
                    }
                    assert(rest.drop_first() =~= whole.skip(i + 1));
                    i += 1;
                }
                None
            },
            _ => None,
        }
    }

    /// The field of a record that is written under `key`, or in this place.
    pub fn field(&self, key: &str, place: usize) -> (r: Option<&Json>)
        ensures
            match r {
                Some(v) => field(self@, key@, place as nat) == Some(v@),
                None => field(self@, key@, place as nat) is None,
            },
    {
        match self {
            Json::Array(items) => if place < items.len() {
                assert(self@->Array_0[place as int] == items@[place as int]@);
                Some(&items[place])
            } else {
                None
            },
            _ => self.get(key),
        }
    }

    /// Whether the value has the form of a record of `n` fields.
    pub fn is_record(&self, n: usize) -> (r: bool)
        ensures
            r == is_record(self@, n as nat),
    {
        match self {
            Json::Object(_) => true,
            Json::Array(items) => items.len() <= n,
            _ => false,
        }
    }

    /// The text of a string value.
    pub fn as_str(&self) -> (r: Option<&str>)
        ensures
            match r {
                Some(s) => self@ == JsonView::Text(s@),
                None => !(self@ is Text),
            },
    {
        match self {
            Json::Text(s) => Some(s.as_str()),
            _ => None,
        }
    }
}

impl Json {
    /// The natural number that the value is, where it is one up to `max`.
    pub fn as_natural(&self, max: u64) -> (r: Option<u64>)
        ensures
            match r {
                Some(n) => natural_of(self@, max as nat) == Some(n as nat),
                None => natural_of(self@, max as nat) is None,
            },
    {
        match self {
            Json::Number(t) => match parse_u64(t.as_str()) {
                Some(n) => if n <= max {
                    Some(n)
                } else {
                    None
                },
                None => None,
            },
            _ => None,
        }
    }
}

/// The text in a field.
pub fn get_text(v: &Json, key: &str, place: usize) -> (r: Option<Option<String>>)
    ensures
        match r {
            Some(t) => text_at(v@, key@, place as nat) == Some(text::optional(t)),
            None => text_at(v@, key@, place as nat) is None,
        },
{
    match v.field(key, place) {
        None => Some(None),
        Some(Json::Null) => Some(None),
        Some(Json::Text(t)) => Some(Some(t.clone())),
        Some(_) => None,
    }
}

/// The number in a field.
pub fn get_number(v: &Json, key: &str, place: usize, max: u64) -> (r: Option<Option<u64>>)
    ensures
        match r {
            Some(Some(n)) => number_at(v@, key@, place as nat, max as nat) == Some(Some(n as nat))
                && n <= max,
            Some(None) => number_at(v@, key@, place as nat, max as nat) == Some(None::<nat>),
            None => number_at(v@, key@, place as nat, max as nat) is None,
        },
{
    match v.field(key, place) {
        None => Some(None),
        Some(Json::Null) => Some(None),
        Some(x) => match x.as_natural(max) {
            Some(n) => Some(Some(n)),
            None => None,
        },
    }
}

/// The number in a field, `default` where the field is missing.
pub fn get_count(v: &Json, key: &str, place: usize, default: u64, max: u64) -> (r: Option<u64>)
    requires
        default <= max,
    ensures
        match r {
            Some(n) => count_at(v@, key@, place as nat, default as nat, max as nat) == Some(
                n as nat,
            ) && n <= max,
            None => count_at(v@, key@, place as nat, default as nat, max as nat) is None,
        },
{
    match v.field(key, place) {
        None => Some(default),
        Some(x) => x.as_natural(max),
    }
}

/// The number of 32 bits in a field.
pub fn get_optional_u32(v: &Json, key: &str, place: usize) -> (r: Option<Option<u32>>)
    ensures
        match r {
            Some(n) => number_at(v@, key@, place as nat, u32::MAX as nat) == Some(widened(n)),
            None => number_at(v@, key@, place as nat, u32::MAX as nat) is None,
        },
{
    match get_number(v, key, place, u32::MAX as u64) {
        Some(Some(n)) => Some(Some(n as u32)),
        Some(None) => Some(None),
        None => None,
    }
}

/// The text in a field, `default` where the field is missing.
pub fn get_text_or(v: &Json, key: &str, place: usize, default: &str) -> (r: Option<String>)
    ensures
        match r {
            Some(t) => text_or(v@, key@, place as nat, default@) == Some(t@),
            None => text_or(v@, key@, place as nat, default@) is None,
        },
{
    match v.field(key, place) {
        Some(Json::Text(t)) => Some(t.clone()),
        Some(_) => None,
        None => Some(default.to_string()),
    }
}

/// An object of these entries.
pub fn object(entries: Vec<(String, Json)>) -> (r: Json)
    ensures
        r@ == JsonView::Object(entries_view(entries@)),
{
    let r = Json::Object(entries);
    assert(r@->Object_0 =~= entries_view(entries@));
    r
}

proof fn lemma_inserted_replaces(
    entries: Seq<(Seq<char>, JsonView)>,
    key: Seq<char>,
    value: JsonView,
    i: int,
)
    requires
        0 <= i < entries.len(),
        entries[i].0 == key,
        forall|k: int| 0 <= k < i ==> (#[trigger] entries[k]).0 != key,
    ensures
        inserted(entries, key, value) == entries.update(i, (key, value)),
    decreases entries.len(),
{
    if i == 0 {
        assert(seq![(key, value)] + entries.drop_first() =~= entries.update(i, (key, value)));
    } else {
        let rest = entries.drop_first();
        assert forall|k: int| 0 <= k < i - 1 implies (#[trigger] rest[k]).0 != key by {
            assert(rest[k] == entries[k + 1]);
        }
        assert(entries[0].0 != key);
        lemma_inserted_replaces(rest, key, value, i - 1);
        assert(seq![entries[0]] + rest.update(i - 1, (key, value)) =~= entries.update(
            i,
            (key, value),
        ));
    }
}

proof fn lemma_inserted_appends(
    entries: Seq<(Seq<char>, JsonView)>,
    key: Seq<char>,
    value: JsonView,
)
    requires
        forall|k: int| 0 <= k < entries.len() ==> (#[trigger] entries[k]).0 != key,
    ensures
        inserted(entries, key, value) == entries.push((key, value)),
    decreases entries.len(),
{
    if entries.len() > 0 {
        let rest = entries.drop_first();
        assert forall|k: int| 0 <= k < rest.len() implies (#[trigger] rest[k]).0 != key by {
            assert(rest[k] == entries[k + 1]);
        }
        assert(entries[0].0 != key);
        lemma_inserted_appends(rest, key, value);
        assert(seq![entries[0]] + rest.push((key, value)) =~= entries.push((key, value)));
    } else {
        assert(inserted(entries, key, value) =~= entries.push((key, value)));
    }
}

/// Puts `value` under `key`: it replaces what was there.
pub fn insert(entries: &mut Vec<(String, Json)>, key: &str, value: Json)
    ensures
        entries_view(final(entries)@) == inserted(entries_view(old(entries)@), key@, value@),
{
    let ghost before = entries_view(entries@);
    let mut i: usize = 0;
    while i < entries.len()
        invariant
            i <= entries.len(),
            before == entries_view(entries@),
            before == entries_view(old(entries)@),
            forall|k: int| 0 <= k < i ==> (#[trigger] before[k]).0 != key@,
        decreases entries.len() - i,
    {
        assert(before[i as int].0 == entries@[i as int].0@);
        if same(entries[i].0.as_str(), key) {
            proof {
                lemma_inserted_replaces(before, key@, value@, i as int);
            }
            entries[i] = (key.to_string(), value);
            assert(entries_view(entries@) =~= before.update(i as int, (key@, value@)));
            return;
        }
        i += 1;
    }
    proof {
        lemma_inserted_appends(before, key@, value@);
    }
    add_entry(entries, key, value);
}

/// Appends an entry to a list of entries.
pub fn add_entry(entries: &mut Vec<(String, Json)>, key: &str, value: Json)
    ensures
        entries_view(final(entries)@) == entries_view(old(entries)@).push((key@, value@)),
{
    entries.push((key.to_string(), value));
    assert(entries_view(entries@) =~= entries_view(old(entries)@).push((key@, value@)));
}

/// A string value.
pub fn text_value(s: &str) -> (r: Json)
    ensures
        r@ == JsonView::Text(s@),
{
    Json::Text(s.to_string())
}

/// A natural number.
pub fn count_value(n: u64) -> (r: Json)
    ensures
        r@ == JsonView::Number(text::decimal(n as nat)),
{
    Json::Number(decimal_text(n))
}

/// A whole number.
pub fn integer_value(n: i64) -> (r: Json)
    ensures
        r@ == JsonView::Number(text::decimal_int(n as int)),
{
    Json::Number(decimal_int_text(n))
}

/// An optional natural number; `null` where there is none.
pub open spec fn count_or_null(n: Option<u32>) -> JsonView {
    match n {
        Some(m) => JsonView::Number(text::decimal(m as nat)),
        None => JsonView::Null,
    }
}

/// An optional natural number.
pub fn optional_count_value(n: Option<u32>) -> (r: Json)
    ensures
        r@ == count_or_null(n),
{
    match n {
        Some(m) => count_value(m as u64),
        None => Json::Null,
    }
}

/// An optional single-precision number; `null` where there is none.
pub open spec fn single_or_null(bits: Option<u32>) -> JsonView {
    match bits {
        Some(b) => JsonView::Single(b),
        None => JsonView::Null,
    }
}

/// An optional single-precision number.
pub fn single_value(bits: Option<u32>) -> (r: Json)
    ensures
        r@ == single_or_null(bits),
{
    match bits {
        Some(b) => Json::Single(b),
        None => Json::Null,
    }
}

/// An optional string; `null` where there is none.
pub open spec fn text_or_null(s: Option<Seq<char>>) -> JsonView {
    match s {
        Some(t) => JsonView::Text(t),
        None => JsonView::Null,
    }
}

/// An optional string.
pub fn optional_text_value(s: &Option<String>) -> (r: Json)
    ensures
        r@ == text_or_null(text::optional(*s)),
{
    match s {
        Some(t) => text_value(t.as_str()),
        None => Json::Null,
    }
}

/// A copy of a list of entries.
pub fn duplicate_entries(entries: &Vec<(String, Json)>) -> (r: Vec<(String, Json)>)
    ensures
        entries_view(r@) == entries_view(entries@),
    decreases entries,
{
    let mut out: Vec<(String, Json)> = Vec::new();
    let mut i: usize = 0;
    while i < entries.len()
        invariant
            i <= entries.len(),
            out.len() == i,
            forall|k: int|
                0 <= k < i ==> (#[trigger] out@[k]).0@ == entries@[k].0@ && out@[k].1@
                    == entries@[k].1@,
        decreases entries.len() - i,
    {
        assert(decreases_to!(entries => entries@));
        assert(decreases_to!(entries@ => entries@[i as int]));
        assert(decreases_to!(entries@[i as int] => entries@[i as int].1));
        out.push((entries[i].0.clone(), entries[i].1.duplicate()));
        i += 1;
    }
    assert(entries_view(out@) =~= entries_view(entries@));
    out
}

/// What is looked up is what the first entry with the key holds, and nothing is found
/// exactly where no entry has the key.
pub proof fn lemma_lookup_finds_the_first(entries: Seq<(Seq<char>, JsonView)>, key: Seq<char>)
    ensures
        match lookup(entries, key) {
            Some(v) => exists|i: int|
                0 <= i < entries.len() && #[trigger] entries[i] == (key, v) && forall|j: int|
                    0 <= j < i ==> (#[trigger] entries[j]).0 != key,
            None => forall|j: int| 0 <= j < entries.len() ==> (#[trigger] entries[j]).0 != key,
        },
    decreases entries.len(),
{
    if entries.len() > 0 {
        if entries[0].0 == key {
            assert(entries[0] == (key, lookup(entries, key)->0));
        } else {
            let rest = entries.drop_first();
            lemma_lookup_finds_the_first(rest, key);
            match lookup(rest, key) {
                Some(v) => {
                    let i = choose|i: int|
                        0 <= i < rest.len() && #[trigger] rest[i] == (key, v) && forall|j: int|
                            0 <= j < i ==> (#[trigger] rest[j]).0 != key;
                    assert(entries[i + 1] == (key, v));
                    assert forall|j: int| 0 <= j < i + 1 implies (#[trigger] entries[j]).0
                        != key by {
                        if j > 0 {
                            assert(rest[j - 1] == entries[j]);
                        }
                    }
                },
                None => {
                    assert forall|j: int| 0 <= j < entries.len() implies (#[trigger] entries[j]).0
                        != key by {
                        if j > 0 {
                            assert(rest[j - 1] == entries[j]);
                        }
                    }
                },
            }
        }
    }
}

/// An entry is found under its key where no entry before it has the key.
pub proof fn lemma_lookup_at(entries: Seq<(Seq<char>, JsonView)>, i: int)
    requires
        0 <= i < entries.len(),
        forall|j: int| 0 <= j < i ==> (#[trigger] entries[j]).0 != entries[i].0,
    ensures
        lookup(entries, entries[i].0) == Some(entries[i].1),
{
    let key = entries[i].0;
    lemma_lookup_finds_the_first(entries, key);
    match lookup(entries, key) {
        Some(v) => {
            let k = choose|k: int|
                0 <= k < entries.len() && #[trigger] entries[k] == (key, v) && forall|j: int|
                    0 <= j < k ==> (#[trigger] entries[j]).0 != key;
            assert(k == i);
        },
        None => {
            assert(entries[i].0 != key);
        },
    }
}

/// A natural number is read back from what is written for it, as long as it is in
/// range; nothing but a number is read as one.
pub proof fn lemma_counts_read_back(n: nat, max: nat)
    ensures
        natural_of(JsonView::Number(text::decimal(n)), max) == (if n <= max {
            Some(n)
        } else {
            None
        }),
        forall|v: JsonView| !(v is Number) ==> #[trigger] natural_of(v, max) is None,
{
    text::lemma_decimal_reads_back(n);
}

/// What is written for an optional value is read back as that value, and two values are
/// written alike only where they are the same.
pub proof fn lemma_optional_values_read_back(
    n: Option<u32>,
    m: Option<u32>,
    s: Option<Seq<char>>,
    t: Option<Seq<char>>,
)
    ensures
        match n {
            Some(x) => natural_of(count_or_null(n), u32::MAX as nat) == Some(x as nat),
            None => count_or_null(n) is Null,
        },
        match s {
            Some(x) => text_or_null(s) == JsonView::Text(x),
            None => text_or_null(s) is Null,
        },
        match n {
            Some(x) => single_or_null(n) == JsonView::Single(x),
            None => single_or_null(n) is Null,
        },
        count_or_null(n) == count_or_null(m) ==> n == m,
        text_or_null(s) == text_or_null(t) ==> s == t,
        single_or_null(n) == single_or_null(m) ==> n == m,
{
    match n {
        Some(x) => text::lemma_decimal_reads_back(x as nat),
        None => {},
    }
    match m {
        Some(x) => text::lemma_decimal_reads_back(x as nat),
        None => {},
    }
}

/// The fields of a record are read alike from an object, by their keys alone, and from
/// an array, by their places alone. A missing field gives the default; one of another
/// type gives nothing.
pub proof fn lemma_fields_are_read_by_key_or_by_place(
    v: JsonView,
    key: Seq<char>,
    place: nat,
    default: nat,
    fallback: Seq<char>,
    max: nat,
)
    ensures
        v is Object ==> field(v, key, place) == member(v, key),
        v matches JsonView::Array(items) ==> field(v, key, place) == (if place < items.len() {
            Some(items[place as int])
        } else {
            None
        }),
        !(v is Object) && !(v is Array) ==> field(v, key, place) is None && !is_record(v, place),
        is_record(v, place) && v is Array ==> field(v, key, place) is None,
        v matches JsonView::Array(items) && items.len() > place ==> !is_record(v, place)
            && field(v, key, place) is Some,
        v is Object ==> is_record(v, place),
        v matches JsonView::Array(items) && items.len() <= place ==> is_record(v, place),
        field(v, key, place) is None ==> {
            &&& text_at(v, key, place) == Some(None::<Seq<char>>)
            &&& number_at(v, key, place, max) == Some(None::<nat>)
            &&& count_at(v, key, place, default, max) == Some(default)
            &&& text_or(v, key, place, fallback) == Some(fallback)
        },
        field(v, key, place) matches Some(JsonView::Text(t)) ==> {
            &&& text_at(v, key, place) == Some(Some(t))
            &&& text_or(v, key, place, fallback) == Some(t)
            &&& number_at(v, key, place, max) is None
            &&& count_at(v, key, place, default, max) is None
        },
        field(v, key, place) == Some(JsonView::Null) ==> {
            &&& text_at(v, key, place) == Some(None::<Seq<char>>)
            &&& number_at(v, key, place, max) == Some(None::<nat>)
            &&& text_or(v, key, place, fallback) is None
            &&& count_at(v, key, place, default, max) is None
        },
        forall|n: nat|
            #![trigger text::decimal(n)]
            field(v, key, place) == Some(JsonView::Number(text::decimal(n))) ==> {
                &&& number_at(v, key, place, max) == (if n <= max {
                    Some(Some(n))
                } else {
                    None
                })
                &&& count_at(v, key, place, default, max) == (if n <= max {
                    Some(n)
                } else {
                    None
                })
                &&& text_at(v, key, place) is None
                &&& text_or(v, key, place, fallback) is None
            },
{
    assert forall|n: nat|
        #![trigger text::decimal(n)]
        field(v, key, place) == Some(JsonView::Number(text::decimal(n))) implies {
        &&& number_at(v, key, place, max) == (if n <= max {
            Some(Some(n))
        } else {
            None
        })
        &&& count_at(v, key, place, default, max) == (if n <= max {
            Some(n)
        } else {
            None
        })
        &&& text_at(v, key, place) is None
        &&& text_or(v, key, place, fallback) is None
    } by {
        lemma_counts_read_back(n, max);
    }
}

/// Values are seen as they are: an object by its entries, one for one and in their order, a
/// reading by what was read or what was said, and an optional number by itself.
pub proof fn lemma_values_are_seen_as_they_are(
    entries: Seq<(String, Json)>,
    items: Vec<Json>,
    i: int,
    r: Result<Json, String>,
    n: Option<u32>,
)
    ensures
        Json::Array(items)@ matches JsonView::Array(views) && {
            &&& views.len() == items@.len()
            &&& 0 <= i < views.len() ==> views[i] == items@[i]@
        },
        entries_view(entries).len() == entries.len(),
        0 <= i < entries.len() ==> entries_view(entries)[i] == (entries[i].0@, entries[i].1@),
        r matches Ok(v) ==> read_as(r) == Ok::<JsonView, Seq<char>>(v@),
        r matches Err(e) ==> read_as(r) == Err::<JsonView, Seq<char>>(e@),
        n matches Some(m) ==> widened(n) == Some(m as nat),
        n is None ==> widened(n) is None,
        Json::Null@ is Null,
        forall|b: bool| #[trigger] Json::Bool(b)@ == JsonView::Bool(b),
        forall|s: String| #[trigger] Json::Text(s)@ == JsonView::Text(s@),
        forall|s: String| #[trigger] Json::Number(s)@ == JsonView::Number(s@),
        forall|bits: u32| #[trigger] Json::Single(bits)@ == JsonView::Single(bits),
{
}

} // verus!
