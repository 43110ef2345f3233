//! JSON values as plain data.
//!
//! Payloads on the wire, tool arguments, tool results and request bodies are
//! all JSON.  The engine reads and builds them as [`Json`] trees; turning
//! bytes into a tree and a tree into text is left to `serde_json`, behind
//! [`parse_json`] and [`Json::to_text`].

use vstd::prelude::*;
use serde_json::Value;
use crate::text::same_text;

verus! {

/// A JSON number: an integer where it fits one, else its decimal text.
#[derive(Debug, PartialEq, Eq)]
pub enum JsonNumber {
    Int(i64),
    UInt(u64),
    Float(String),
}

/// A JSON value.  An object keeps its members as a list of pairs; where a
/// key occurs twice the last occurrence is the one that counts.
#[derive(Debug, PartialEq, Eq)]
pub enum Json {
    Null,
    Bool(bool),
    Number(JsonNumber),
    Str(String),
    Array(Vec<Json>),
    Object(Vec<(String, Json)>),
}

/// The mathematical value of a [`JsonNumber`].
pub ghost enum NumberView {
    Int(int),
    Float(Seq<char>),
}

/// The mathematical value of a [`Json`].
pub ghost enum JsonView {
    Null,
    Bool(bool),
    Number(NumberView),
    Str(Seq<char>),
    Array(Seq<JsonView>),
    Object(Seq<(Seq<char>, JsonView)>),
}

impl View for JsonNumber {
    type V = NumberView;

    open spec fn view(&self) -> NumberView {
        match self {
            JsonNumber::Int(i) => NumberView::Int(*i as int),
            JsonNumber::UInt(u) => NumberView::Int(*u as int),
            JsonNumber::Float(t) => NumberView::Float(t@),
        }
    }
}

/// The value of `j`, member by member.
pub open spec fn json_view(j: Json) -> JsonView
    decreases j,
{
    match j {
        Json::Null => JsonView::Null,
        Json::Bool(b) => JsonView::Bool(b),
        Json::Number(n) => JsonView::Number(n@),
        Json::Str(s) => JsonView::Str(s@),
        Json::Array(items) => JsonView::Array(
            Seq::new(
                items@.len(),
                |i: int|
                    if 0 <= i < items@.len() {
                        json_view(items@[i])
                    } else {
                        JsonView::Null
                    },
            ),
        ),
        Json::Object(members) => JsonView::Object(
            Seq::new(
                members@.len(),
                |i: int|
                    if 0 <= i < members@.len() {
                        (members@[i].0@, json_view(members@[i].1))
                    } else {
                        (Seq::empty(), JsonView::Null)
                    },
            ),
        ),
    }
}

impl View for Json {
    type V = JsonView;

    open spec fn view(&self) -> JsonView {
        json_view(*self)
    }
}

/// The values of a list of [`Json`] values.
pub open spec fn items_view(items: Seq<Json>) -> Seq<JsonView> {
    Seq::new(items.len(), |i: int| items[i]@)
}

/// The values of a list of object members.
pub open spec fn members_view(members: Seq<(String, Json)>) -> Seq<(Seq<char>, JsonView)> {
    Seq::new(members.len(), |i: int| (members[i].0@, members[i].1@))
}

/// The value bound to `key` among `members`: that of its last occurrence.
pub open spec fn lookup(members: Seq<(Seq<char>, JsonView)>, key: Seq<char>) -> Option<JsonView>
    decreases members.len(),
{
    if members.len() == 0 {
        None
    } else if members.last().0 == key {
        Some(members.last().1)
    } else {
        lookup(members.drop_last(), key)
    }
}

impl JsonView {
    /// The member `key` of an object; `None` for a missing key and for
    /// anything that is not an object.
    pub open spec fn field(self, key: Seq<char>) -> Option<JsonView> {
        match self {
            JsonView::Object(members) => lookup(members, key),
            _ => None,
        }
    }

    /// The text of a string value.
    pub open spec fn text(self) -> Option<Seq<char>> {
        match self {
            JsonView::Str(s) => Some(s),
            _ => None,
        }
    }

    /// The items of an array value.
    pub open spec fn items(self) -> Option<Seq<JsonView>> {
        match self {
            JsonView::Array(items) => Some(items),
            _ => None,
        }
    }

    /// The value of an integer that is not negative.
    pub open spec fn natural(self) -> Option<nat> {
        match self {
            JsonView::Number(NumberView::Int(i)) if i >= 0 => Some(i as nat),
            _ => None,
        }
    }
}

pub proof fn lemma_array_view(items: Vec<Json>)
    ensures
        Json::Array(items)@ == JsonView::Array(items_view(items@)),
{
    assert(json_view(Json::Array(items))->Array_0 =~= items_view(items@));
}

pub proof fn lemma_object_view(members: Vec<(String, Json)>)
    ensures
        Json::Object(members)@ == JsonView::Object(members_view(members@)),
{
    assert(json_view(Json::Object(members))->Object_0 =~= members_view(members@));
}

impl Clone for JsonNumber {
    fn clone(&self) -> (r: Self)
        ensures
            r@ == self@,
    {
        match self {
            JsonNumber::Int(i) => JsonNumber::Int(*i),
            JsonNumber::UInt(u) => JsonNumber::UInt(*u),
            JsonNumber::Float(t) => JsonNumber::Float(t.clone()),
        }
    }
}

impl Clone for Json {
    #[verifier::loop_isolation(false)]
    fn clone(&self) -> (r: Self)
        ensures
            r@ == self@,
        decreases self,
    {
        match self {
            Json::Null => Json::Null,
            Json::Bool(b) => Json::Bool(*b),
            Json::Number(n) => Json::Number(n.clone()),
            Json::Str(s) => Json::Str(s.clone()),
            Json::Array(items) => {
                let mut out: Vec<Json> = Vec::new();
                let mut i: usize = 0;
                while i < items.len()
                    invariant
                        i <= items.len(),
                        out.len() == i,
                        forall|k: int| 0 <= k < i ==> out@[k]@ == items@[k]@,
                    decreases items.len() - i,
                {
                    let item = &items[i];
                    assert(decreases_to!(self => item)) by {
                        assert(*self == Json::Array(*items));
                        assert(decreases_to!(self => items));
                        assert(decreases_to!(items => items@));
                        assert(decreases_to!(items@ => items@[i as int]));
                    }
                    out.push(item.clone());
                    i += 1;
                }
                proof {
                    lemma_array_view(*items);
                    lemma_array_view(out);
                    assert(items_view(out@) =~= items_view(items@));
                }
                Json::Array(out)
            },
            Json::Object(members) => {
                let mut out: Vec<(String, Json)> = Vec::new();
                let mut i: usize = 0;
                while i < members.len()
                    invariant
                        i <= members.len(),
                        out.len() == i,
                        forall|k: int|
                            0 <= k < i ==> out@[k].0@ == members@[k].0@ && out@[k].1@
                                == members@[k].1@,
                    decreases members.len() - i,
                {
                    let member = &members[i];
                    assert(decreases_to!(self => member.1)) by {
                        assert(*self == Json::Object(*members));
                        assert(decreases_to!(self => members));
                        assert(decreases_to!(members => members@));
                        assert(decreases_to!(members@ => members@[i as int]));
                        assert(decreases_to!(members@[i as int] => members@[i as int].1));
                    }
                    out.push((member.0.clone(), member.1.clone()));
                    i += 1;
                }
                proof {
                    lemma_object_view(*members);
                    lemma_object_view(out);
                    assert(members_view(out@) =~= members_view(members@));
                }
                Json::Object(out)
            },
        }
    }
}

impl Json {
    /// The member `key` of an object.
    #[verifier::loop_isolation(false)]
    pub fn get(&self, key: &str) -> (r: Option<&Json>)
        ensures
            r.is_some() == self@.field(key@).is_some(),
            r matches Some(j) ==> self@.field(key@) == Some(j@),
    {
        match self {
            Json::Object(members) => {
                proof {
                    lemma_object_view(*members);
                }
                let ghost all = members_view(members@);
                let mut i: usize = members.len();
                assert(all.take(i as int) =~= all);
                while i > 0
                    invariant
                        i <= members.len(),
                        all == members_view(members@),
                        lookup(all, key@) == lookup(all.take(i as int), key@),
                    decreases i,
                {
                    i -= 1;
                    let member = &members[i];
                    proof {
                        let upto = all.take(i + 1);
                        assert(upto.last() == all[i as int]);
                        assert(upto.drop_last() =~= all.take(i as int));
                        assert(all[i as int] == (member.0@, member.1@));
                    }
                    if same_text(member.0.as_str(), key) {
                        return Some(&member.1);
                    }
                }
                proof {
                    assert(all.take(0).len() == 0);
                }
                None
            },
            _ => None,
        }
    }

    /// The text of a string value.
    pub fn as_str(&self) -> (r: Option<&String>)
        ensures
            r.is_some() == self@.text().is_some(),
            r matches Some(s) ==> self@.text() == Some(s@),
    {
        match self {
            Json::Str(s) => Some(s),
            _ => None,
        }
    }

    /// The items of an array value.
    pub fn as_array(&self) -> (r: Option<&Vec<Json>>)
        ensures
            r.is_some() == self@.items().is_some(),
            r matches Some(items) ==> self@.items() == Some(items_view(items@)),
    {
        match self {
            Json::Array(items) => {
                proof {
                    lemma_array_view(*items);
                }
                Some(items)
            },
            _ => None,
        }
    }

    /// The value of an integer that is not negative.
    pub fn as_u64(&self) -> (r: Option<u64>)
        ensures
            r.is_some() == (self@.natural() matches Some(n) && n <= u64::MAX),
            r matches Some(u) ==> self@.natural() == Some(u as nat),
    {
        match self {
            Json::Number(JsonNumber::UInt(u)) => Some(*u),
            Json::Number(JsonNumber::Int(i)) => {
                if *i >= 0 {
                    Some(*i as u64)
                } else {
                    None
                }
            },
            _ => None,
        }
    }

    /// Whether this is `null`.
    pub fn is_null(&self) -> (r: bool)
        ensures
            r == (self@ == JsonView::Null),
    {
        match self {
            Json::Null => true,
            _ => false,
        }
    }
}

impl Json {
    /// The string value `text`.
    pub fn string(text: &str) -> (r: Json)
        ensures
            r@ == JsonView::Str(text@),
    {
        Json::Str(text.to_string())
    }

    /// The array of `items`.
    pub fn array(items: Vec<Json>) -> (r: Json)
        ensures
            r@ == JsonView::Array(items_view(items@)),
    {
        proof {
            lemma_array_view(items);
        }
        Json::Array(items)
    }

    /// The object with `members`.
    pub fn object(members: Vec<(String, Json)>) -> (r: Json)
        ensures
            r@ == JsonView::Object(members_view(members@)),
    {
        proof {
            lemma_object_view(members);
        }
        Json::Object(members)
    }

    /// The object without members.
    pub fn empty_object() -> (r: Json)
        ensures
            r@ == JsonView::Object(Seq::empty()),
    {
        let members: Vec<(String, Json)> = Vec::new();
        assert(members_view(members@) =~= Seq::empty());
        Json::object(members)
    }
}

impl JsonView {
    /// The text of the member `key` where the member is optional: no text
    /// where the member is missing or `null`, and `None` where it is there
    /// and is not a string.
    pub open spec fn optional_text(self, key: Seq<char>) -> Option<Option<Seq<char>>> {
        match self.field(key) {
            None => Some(None),
            Some(JsonView::Null) => Some(None),
            Some(JsonView::Str(text)) => Some(Some(text)),
            Some(_) => None,
        }
    }

    /// The items of the member `key` where the member is optional: no
    /// items where the member is missing or `null`, and `None` where it is
    /// there and is not an array.
    pub open spec fn optional_items(self, key: Seq<char>) -> Option<Seq<JsonView>> {
        match self.field(key) {
            None => Some(Seq::empty()),
            Some(JsonView::Null) => Some(Seq::empty()),
            Some(JsonView::Array(items)) => Some(items),
            Some(_) => None,
        }
    }
}

/// The value of an optional text that may have failed to be one.
pub open spec fn optional_text_view(text: Option<Option<String>>) -> Option<Option<Seq<char>>> {
    match text {
        Some(Some(text)) => Some(Some(text@)),
        Some(None) => Some(None),
        None => None,
    }
}

impl Json {
    /// Whether this is an object.
    pub fn is_object(&self) -> (r: bool)
        ensures
            r == (self@ is Object),
    {
        match self {
            Json::Object(_) => true,
            _ => false,
        }
    }

    /// The text of the optional member `key`.
    pub fn optional_text(&self, key: &str) -> (r: Option<Option<String>>)
        ensures
            optional_text_view(r) == self@.optional_text(key@),
    {
        match self.get(key) {
            None => Some(None),
            Some(Json::Null) => Some(None),
            Some(Json::Str(text)) => Some(Some(text.clone())),
            Some(_) => None,
        }
    }
}

/// Adds the member `key: value` at the end of `members`.
pub fn push_member(members: &mut Vec<(String, Json)>, key: &str, value: Json)
    ensures
        members_view(final(members)@) == members_view(old(members)@).push((key@, value@)),
{
    members.push((key.to_string(), value));
    assert(members_view(members@) =~= members_view(old(members)@).push((key@, value@)));
}

/// Adds `item` at the end of `items`.
pub fn push_item(items: &mut Vec<Json>, item: Json)
    ensures
        items_view(final(items)@) == items_view(old(items)@).push(item@),
{
    items.push(item);
    assert(items_view(items@) =~= items_view(old(items)@).push(item@));
}

/// `serde_json::Value`, the tree that `serde_json` parses into and prints
/// from.  Nothing is known of a value of it; it only passes between the
/// conversions below and the parser and printer.
#[verifier::external_type_specification]
#[verifier::external_body]
pub struct ExValue(Value);

/// What `serde_json::from_slice` makes of `bytes`, read as a
/// `serde_json::Value`: the value, or the message of its error.
pub uninterp spec fn json_parse(bytes: Seq<u8>) -> Result<JsonView, Seq<char>>;

/// What `serde_json::to_string` prints for the `serde_json::Value` that
/// stands for `value`.
pub uninterp spec fn json_text(value: JsonView) -> Seq<char>;

/// The value of what a parse returned: the value of the tree, or the text
/// of the message.
pub open spec fn outcome_view(outcome: Result<Json, String>) -> Result<JsonView, Seq<char>> {
    match outcome {
        Ok(json) => Ok(json@),
        Err(message) => Err(message@),
    }
}

/// Copies a `serde_json::Value` into a [`Json`], node by node.  A number
/// becomes `Int` where `as_i64` gives it, `UInt` where only `as_u64` does,
/// and otherwise `Float` with the text that `serde_json` prints for it.
/// Object members come in the order in which `serde_json` walks them.
#[verifier::external_body]
fn json_of_value(value: &Value) -> Json {
    match value {
        Value::Null => Json::Null,
        Value::Bool(b) => Json::Bool(*b),
        Value::Number(n) => Json::Number(match (n.as_i64(), n.as_u64()) {
            (Some(i), _) => JsonNumber::Int(i),
            (_, Some(u)) => JsonNumber::UInt(u),
            _ => JsonNumber::Float(n.to_string()),
        }),
        Value::String(s) => Json::Str(s.clone()),
        Value::Array(a) => Json::Array(a.iter().map(json_of_value).collect()),
        Value::Object(o) => Json::Object(o.iter().map(|(k, v)| (k.clone(), json_of_value(v))).collect()),
    }
}

/// Copies a [`Json`] into a `serde_json::Value`, node by node.  The text of
/// a `Float` is read back by `serde_json` as a number and stands as `null`
/// where it is none; object members are inserted in order, so a later
/// member replaces an earlier one with the same key.
#[verifier::external_body]
fn value_of_json(json: &Json) -> Value {
    match json {
        Json::Null => Value::Null,
        Json::Bool(b) => Value::Bool(*b),
        Json::Number(JsonNumber::Int(i)) => Value::from(*i),
        Json::Number(JsonNumber::UInt(u)) => Value::from(*u),
        Json::Number(JsonNumber::Float(t)) => serde_json::from_str(t).map_or(Value::Null, Value::Number),
        Json::Str(s) => Value::String(s.clone()),
        Json::Array(a) => Value::Array(a.iter().map(value_of_json).collect()),
        Json::Object(o) => Value::Object(o.iter().map(|(k, v)| (k.clone(), value_of_json(v))).collect()),
    }
}

/// Parses `bytes` as one JSON value with `serde_json::from_slice`.  The
/// outcome depends on the bytes alone: the same bytes give the same value
/// or the same error message.
#[verifier::external_body]
fn parse_with_serde(bytes: &[u8]) -> (r: Result<Json, String>)
    ensures
        outcome_view(r) == json_parse(bytes@),
{
    match serde_json::from_slice::<Value>(bytes) {
        Ok(value) => Ok(json_of_value(&value)),
        Err(error) => Err(error.to_string()),
    }
}

/// Prints `json` as compact JSON text with `serde_json::to_string`.  The
/// text depends on the value alone.
#[verifier::external_body]
fn print_with_serde(json: &Json) -> (r: String)
    ensures
        r@ == json_text(json@),
{
    serde_json::to_string(&value_of_json(json)).unwrap_or_default()
}

/// Parses `bytes` as one JSON value: gives the value, or the message that
/// says why the bytes are none.
pub fn parse_json(bytes: &[u8]) -> (r: Result<Json, String>)
    ensures
        outcome_view(r) == json_parse(bytes@),
{
    parse_with_serde(bytes)
}

impl Json {
    /// The value as compact JSON text.
    pub fn to_text(&self) -> (r: String)
        ensures
            r@ == json_text(self@),
    {
        print_with_serde(self)
    }
}

} // verus!
