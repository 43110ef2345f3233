//! The parameters of a tool call, read out of the JSON arguments.
//!
//! Every tool reads its parameters in the same way: a parameter that is
//! needed must be there and of its type; one that is optional may be
//! missing or `null`, and must be of its type where it is there.  Members
//! that the tool does not know are ignored.

use vstd::prelude::*;
use crate::json::{items_view, lemma_array_view, Json, JsonView, NumberView};
use crate::text::{join3, split_words, strings_view, words};
use crate::tools::{locations_view, ToolLocation, ToolLocationView};

verus! {

/// The report of a parameter that is needed and missing.
pub open spec fn missing_field(name: Seq<char>) -> Seq<char> {
    "missing field `"@ + name + "`"@
}

/// The report of a parameter of the wrong type.
pub open spec fn wrong_type(name: Seq<char>) -> Seq<char> {
    "invalid type for field `"@ + name + "`"@
}

/// The string parameter `name`, which is needed.
pub open spec fn required_text(params: JsonView, name: Seq<char>) -> Result<Seq<char>, Seq<char>> {
    match params.field(name) {
        Some(JsonView::Str(text)) => Ok(text),
        Some(_) => Err(wrong_type(name)),
        None => Err(missing_field(name)),
    }
}

/// The string parameter `name`, which is optional.
pub open spec fn optional_text(params: JsonView, name: Seq<char>) -> Result<
    Option<Seq<char>>,
    Seq<char>,
> {
    match params.field(name) {
        None => Ok(None),
        Some(JsonView::Null) => Ok(None),
        Some(JsonView::Str(text)) => Ok(Some(text)),
        Some(_) => Err(wrong_type(name)),
    }
}

/// The boolean parameter `name`, which is optional.
pub open spec fn optional_flag(params: JsonView, name: Seq<char>) -> Result<
    Option<bool>,
    Seq<char>,
> {
    match params.field(name) {
        None => Ok(None),
        Some(JsonView::Null) => Ok(None),
        Some(JsonView::Bool(flag)) => Ok(Some(flag)),
        Some(_) => Err(wrong_type(name)),
    }
}

/// The parameter `name` that counts something, which is optional: an
/// integer that is not negative and fits a machine word.
pub open spec fn optional_count(params: JsonView, name: Seq<char>) -> Result<
    Option<usize>,
    Seq<char>,
> {
    match params.field(name) {
        None => Ok(None),
        Some(JsonView::Null) => Ok(None),
        Some(JsonView::Number(NumberView::Int(n))) => if 0 <= n <= usize::MAX {
            Ok(Some(n as usize))
        } else {
            Err(wrong_type(name))
        },
        Some(_) => Err(wrong_type(name)),
    }
}

/// The texts of a list of strings, or `None` where an item is no string.
pub open spec fn texts_of(items: Seq<JsonView>) -> Option<Seq<Seq<char>>>
    decreases items.len(),
{
    if items.len() == 0 {
        Some(Seq::empty())
    } else {
        match (texts_of(items.drop_last()), items.last()) {
            (Some(before), JsonView::Str(text)) => Some(before.push(text)),
            _ => None,
        }
    }
}

/// The parameter `name` that lists strings, which is needed.
pub open spec fn required_texts(params: JsonView, name: Seq<char>) -> Result<
    Seq<Seq<char>>,
    Seq<char>,
> {
    match params.field(name) {
        Some(JsonView::Array(items)) => match texts_of(items) {
            Some(texts) => Ok(texts),
            None => Err(wrong_type(name)),
        },
        Some(_) => Err(wrong_type(name)),
        None => Err(missing_field(name)),
    }
}

/// The parameter `name` that lists strings, which is optional.
pub open spec fn optional_texts(params: JsonView, name: Seq<char>) -> Result<
    Option<Seq<Seq<char>>>,
    Seq<char>,
> {
    match params.field(name) {
        None => Ok(None),
        Some(JsonView::Null) => Ok(None),
        Some(JsonView::Array(items)) => match texts_of(items) {
            Some(texts) => Ok(Some(texts)),
            None => Err(wrong_type(name)),
        },
        Some(_) => Err(wrong_type(name)),
    }
}

/// Whether a text holds nothing but white space.
pub open spec fn is_blank(text: Seq<char>) -> bool {
    words(text).len() == 0
}

/// The value of a text or a report.
pub open spec fn text_view(result: Result<String, String>) -> Result<Seq<char>, Seq<char>> {
    match result {
        Ok(text) => Ok(text@),
        Err(report) => Err(report@),
    }
}

/// The value of an optional text or a report.
pub open spec fn optional_text_view(result: Result<Option<String>, String>) -> Result<
    Option<Seq<char>>,
    Seq<char>,
> {
    match result {
        Ok(Some(text)) => Ok(Some(text@)),
        Ok(None) => Ok(None),
        Err(report) => Err(report@),
    }
}

/// The value of a plain value or a report.
pub open spec fn plain_view<T>(result: Result<T, String>) -> Result<T, Seq<char>> {
    match result {
        Ok(value) => Ok(value),
        Err(report) => Err(report@),
    }
}

/// The value of a list of texts or a report.
pub open spec fn texts_view(result: Result<Vec<String>, String>) -> Result<
    Seq<Seq<char>>,
    Seq<char>,
> {
    match result {
        Ok(texts) => Ok(strings_view(texts@)),
        Err(report) => Err(report@),
    }
}

/// The value of an optional list of texts or a report.
pub open spec fn optional_texts_view(result: Result<Option<Vec<String>>, String>) -> Result<
    Option<Seq<Seq<char>>>,
    Seq<char>,
> {
    match result {
        Ok(Some(texts)) => Ok(Some(strings_view(texts@))),
        Ok(None) => Ok(None),
        Err(report) => Err(report@),
    }
}

/// The value of nothing or a report.
pub open spec fn unit_view(result: Result<(), String>) -> Result<(), Seq<char>> {
    match result {
        Ok(()) => Ok(()),
        Err(report) => Err(report@),
    }
}

fn missing(name: &str) -> (r: String)
    ensures
        r@ == missing_field(name@),
{
    join3("missing field `", name, "`")
}

fn mistyped(name: &str) -> (r: String)
    ensures
        r@ == wrong_type(name@),
{
    join3("invalid type for field `", name, "`")
}

/// The string parameter `name`, which is needed.
pub fn read_text(params: &Json, name: &str) -> (r: Result<String, String>)
    ensures
        text_view(r) == required_text(params@, name@),
{
    match params.get(name) {
        Some(Json::Str(text)) => Ok(text.clone()),
        Some(_) => Err(mistyped(name)),
        None => Err(missing(name)),
    }
}

/// The string parameter `name`, which is optional.
pub fn read_optional_text(params: &Json, name: &str) -> (r: Result<Option<String>, String>)
    ensures
        optional_text_view(r) == optional_text(params@, name@),
{
    match params.get(name) {
        None => Ok(None),
        Some(Json::Null) => Ok(None),
        Some(Json::Str(text)) => Ok(Some(text.clone())),
        Some(_) => Err(mistyped(name)),
    }
}

/// The boolean parameter `name`, which is optional.
pub fn read_optional_flag(params: &Json, name: &str) -> (r: Result<Option<bool>, String>)
    ensures
        plain_view(r) == optional_flag(params@, name@),
{
    match params.get(name) {
        None => Ok(None),
        Some(Json::Null) => Ok(None),
        Some(Json::Bool(flag)) => Ok(Some(*flag)),
        Some(_) => Err(mistyped(name)),
    }
}

/// The parameter `name` that counts something, which is optional.
pub fn read_optional_count(params: &Json, name: &str) -> (r: Result<Option<usize>, String>)
    ensures
        plain_view(r) == optional_count(params@, name@),
{
    match params.get(name) {
        None => Ok(None),
        Some(Json::Null) => Ok(None),
        Some(value) => match value.as_u64() {
            Some(n) => {
                if n <= usize::MAX as u64 {
                    Ok(Some(n as usize))
                } else {
                    Err(mistyped(name))
                }
            },
            None => Err(mistyped(name)),
        },
    }
}

/// Where a prefix of a list holds what is no string, so does the list.
proof fn lemma_texts_of_prefix(items: Seq<JsonView>, n: int)
    requires
        0 <= n <= items.len(),
        texts_of(items.take(n)) is None,
    ensures
        texts_of(items) is None,
    decreases items.len() - n,
{
    if n < items.len() {
        assert(items.take(n + 1).drop_last() =~= items.take(n));
        lemma_texts_of_prefix(items, n + 1);
    } else {
        assert(items.take(n) =~= items);
    }
}

/// The texts of a list of strings.
fn read_strings(items: &Vec<Json>) -> (r: Option<Vec<String>>)
    ensures
        r is Some == texts_of(items_view(items@)) is Some,
        r matches Some(texts) ==> texts_of(items_view(items@)) == Some(strings_view(texts@)),
{
    let ghost all = items_view(items@);
    let mut out: Vec<String> = Vec::new();
    let mut i: usize = 0;
    assert(all.take(0) =~= Seq::empty());
    assert(strings_view(out@) =~= Seq::empty());
    while i < items.len()
        invariant
            i <= items.len(),
            all == items_view(items@),
            texts_of(all.take(i as int)) == Some(strings_view(out@)),
        decreases items.len() - i,
    {
        proof {
            assert(all.take(i + 1).drop_last() =~= all.take(i as int));
            assert(all.take(i + 1).last() == items@[i as int]@);
        }
        match &items[i] {
            Json::Str(text) => {
                let ghost before = strings_view(out@);
                out.push(text.clone());
                assert(strings_view(out@) =~= before.push(text@));
            },
            _ => {
                proof {
                    assert(texts_of(all.take(i + 1)) is None);
                    lemma_texts_of_prefix(all, i + 1);
                }
                return None;
            },
        }
        i += 1;
    }
    assert(all.take(i as int) =~= all);
    Some(out)
}

/// The parameter `name` that lists strings, which is needed.
pub fn read_texts(params: &Json, name: &str) -> (r: Result<Vec<String>, String>)
    ensures
        texts_view(r) == required_texts(params@, name@),
{
    match params.get(name) {
        Some(Json::Array(items)) => {
            proof {
                lemma_array_view(*items);
            }
            match read_strings(items) {
                Some(texts) => Ok(texts),
                None => Err(mistyped(name)),
            }
        },
        Some(_) => Err(mistyped(name)),
        None => Err(missing(name)),
    }
}

/// The parameter `name` that lists strings, which is optional.
pub fn read_optional_texts(params: &Json, name: &str) -> (r: Result<Option<Vec<String>>, String>)
    ensures
        optional_texts_view(r) == optional_texts(params@, name@),
{
    match params.get(name) {
        None => Ok(None),
        Some(Json::Null) => Ok(None),
        Some(Json::Array(items)) => {
            proof {
                lemma_array_view(*items);
            }
            match read_strings(items) {
                Some(texts) => Ok(Some(texts)),
                None => Err(mistyped(name)),
            }
        },
        Some(_) => Err(mistyped(name)),
    }
}

/// Whether a text holds nothing but white space.
pub fn text_is_blank(text: &str) -> (r: bool)
    ensures
        r == is_blank(text@),
{
    split_words(text).len() == 0
}

/// The one location `path`.
pub open spec fn one_location(path: Seq<char>, line: Option<usize>) -> Seq<ToolLocationView> {
    seq![ToolLocationView { path, line }]
}

/// The one location `path`.
pub fn location(path: String, line: Option<usize>) -> (r: Vec<ToolLocation>)
    ensures
        locations_view(r@) == one_location(path@, line),
{
    let mut locations: Vec<ToolLocation> = Vec::new();
    locations.push(ToolLocation { path, line });
    assert(locations_view(locations@) =~= one_location(path@, line));
    locations
}

/// No location.
pub fn no_location() -> (r: Vec<ToolLocation>)
    ensures
        locations_view(r@) == Seq::<ToolLocationView>::empty(),
{
    let locations: Vec<ToolLocation> = Vec::new();
    assert(locations_view(locations@) =~= Seq::empty());
    locations
}

} // verus!
