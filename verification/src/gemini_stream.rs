//! The normalizer for Gemini-shaped streams.
//!
//! One event of such a stream carries the parts of the first candidate.
//! Each part is, by itself, a piece of text or a whole function call: a
//! call arrives with its name and its arguments at once, so nothing is
//! pending between events.

use vstd::prelude::*;
use crate::function_calling::{FunctionCall, FunctionCallView};
use crate::json::{items_view, lemma_array_view, Json, JsonView};
use crate::stream::{append_events, events_view, push_event, StreamEvent, StreamEventView};


verus! {

/// The parts that an event carries: those of its first candidate, none
/// where it has no candidate, or `None` where it is not shaped as it
/// should be.
pub open spec fn gemini_parts(frame: JsonView) -> Option<Seq<JsonView>> {
    match frame.field("candidates"@) {
        Some(JsonView::Array(candidates)) => if candidates.len() == 0 {
            Some(Seq::empty())
        } else {
            match candidates[0].field("content"@) {
                Some(content) => match content.field("parts"@) {
                    Some(JsonView::Array(parts)) => Some(parts),
                    _ => None,
                },
                None => None,
            }
        },
        _ => None,
    }
}

/// The call that a `functionCall` member spells out: an object with a
/// string `name`, with `args` or else no arguments, and with a string `id`
/// where it has one.
pub open spec fn gemini_call(json: JsonView) -> Option<FunctionCallView> {
    match json.field("name"@) {
        Some(JsonView::Str(name)) => Some(
            FunctionCallView {
                id: match json.field("id"@) {
                    Some(JsonView::Str(id)) => Some(id),
                    _ => None,
                },
                name,
                args: match json.field("args"@) {
                    Some(args) => args,
                    None => JsonView::Object(Seq::empty()),
                },
            },
        ),
        _ => None,
    }
}

/// The text event of a part: one where the part has text that is not
/// empty; `None` where its `text` is not a string.
pub open spec fn part_text_events(part: JsonView) -> Option<Seq<StreamEventView>> {
    match part.optional_text("text"@) {
        Some(Some(text)) => if text.len() > 0 {
            Some(seq![StreamEventView::Text(text)])
        } else {
            Some(Seq::empty())
        },
        Some(None) => Some(Seq::empty()),
        None => None,
    }
}

/// The call event of a part: one where the part has a function call;
/// `None` where its `functionCall` spells out no call.
pub open spec fn part_call_events(part: JsonView) -> Option<Seq<StreamEventView>> {
    match part.field("functionCall"@) {
        None => Some(Seq::empty()),
        Some(JsonView::Null) => Some(Seq::empty()),
        Some(call) => match gemini_call(call) {
            Some(call) => Some(seq![StreamEventView::ToolCallComplete(call)]),
            None => None,
        },
    }
}

/// The events of one part: its text, then its call.
pub open spec fn part_events(part: JsonView) -> Option<Seq<StreamEventView>> {
    match (part_text_events(part), part_call_events(part)) {
        (Some(text), Some(call)) => Some(text + call),
        _ => None,
    }
}

/// The events of the parts, in the order of the parts.
pub open spec fn parts_events(parts: Seq<JsonView>) -> Option<Seq<StreamEventView>>
    decreases parts.len(),
{
    if parts.len() == 0 {
        Some(Seq::empty())
    } else {
        match (parts_events(parts.drop_last()), part_events(parts.last())) {
            (Some(before), Some(last)) => Some(before + last),
            _ => None,
        }
    }
}

/// The events that an event of the stream stands for, or `None` where it
/// is not shaped as it should be.
pub open spec fn gemini_frame(frame: JsonView) -> Option<Seq<StreamEventView>> {
    match gemini_parts(frame) {
        Some(parts) => parts_events(parts),
        None => None,
    }
}

/// The value of a call that may have failed to be one.
pub open spec fn opt_call_view(call: Option<FunctionCall>) -> Option<FunctionCallView> {
    match call {
        Some(call) => Some(call@),
        None => None,
    }
}

/// The value of a list of events that may have failed to be one.
pub open spec fn opt_events_view(events: Option<Vec<StreamEvent>>) -> Option<Seq<StreamEventView>> {
    match events {
        Some(events) => Some(events_view(events@)),
        None => None,
    }
}

/// Reads the call that a `functionCall` member spells out.
pub fn read_call(json: &Json) -> (r: Option<FunctionCall>)
    ensures
        opt_call_view(r) == gemini_call(json@),
{
    let name = match json.get("name") {
        Some(Json::Str(name)) => name.clone(),
        _ => { return None; },
    };
    let id = match json.get("id") {
        Some(Json::Str(id)) => Some(id.clone()),
        _ => None,
    };
    let args = match json.get("args") {
        Some(args) => args.clone(),
        None => Json::empty_object(),
    };
    Some(FunctionCall { id, name, args })
}

/// The events of one part.
pub fn read_part(part: &Json) -> (r: Option<Vec<StreamEvent>>)
    ensures
        opt_events_view(r) == part_events(part@),
{
    let mut events: Vec<StreamEvent> = Vec::new();
    assert(events_view(events@) =~= Seq::empty());
    match part.optional_text("text") {
        Some(Some(text)) => {
            if text.as_str().unicode_len() > 0 {
                let ghost held = text@;
                push_event(&mut events, StreamEvent::Text(text));
                assert(events_view(events@) =~= seq![StreamEventView::Text(held)]);
            }
        },
        Some(None) => {},
        None => { return None; },
    }
    let ghost text_part = events_view(events@);
    assert(part_text_events(part@) == Some(text_part));
    match part.get("functionCall") {
        None => {
            assert(text_part + Seq::<StreamEventView>::empty() =~= text_part);
        },
        Some(Json::Null) => {
            assert(text_part + Seq::<StreamEventView>::empty() =~= text_part);
        },
        Some(call) => match read_call(call) {
            Some(call) => {
                push_event(&mut events, StreamEvent::ToolCallComplete(call));
                assert(text_part.push(StreamEventView::ToolCallComplete(call@)) =~= text_part
                    + seq![StreamEventView::ToolCallComplete(call@)]);
            },
            None => { return None; },
        },
    }
    Some(events)
}

/// Where a prefix of the parts stands for no events, neither do the parts.
proof fn lemma_parts_events_prefix(parts: Seq<JsonView>, n: int)
    requires
        0 <= n <= parts.len(),
        parts_events(parts.take(n)) is None,
    ensures
        parts_events(parts) is None,
    decreases parts.len() - n,
{
    if n < parts.len() {
        assert(parts.take(n + 1).drop_last() =~= parts.take(n));
        lemma_parts_events_prefix(parts, n + 1);
    } else {
        assert(parts.take(n) =~= parts);
    }
}

/// Takes one event of the stream and returns the events that it stands
/// for, or `None` where it is not shaped as it should be.
pub fn normalize_gemini(frame: &Json) -> (r: Option<Vec<StreamEvent>>)
    ensures
        opt_events_view(r) == gemini_frame(frame@),
{
    let mut events: Vec<StreamEvent> = Vec::new();
    assert(events_view(events@) =~= Seq::empty());
    let candidates = match frame.get("candidates") {
        Some(Json::Array(candidates)) => candidates,
        _ => { return None; },
    };
    proof {
        lemma_array_view(*candidates);
    }
    if candidates.len() == 0 {
        return Some(events);
    }
    let content = match candidates[0].get("content") {
        Some(content) => content,
        None => { return None; },
    };
    let parts = match content.get("parts") {
        Some(Json::Array(parts)) => parts,
        _ => { return None; },
    };
    proof {
        lemma_array_view(*parts);
    }
    let ghost all = items_view(parts@);
    let mut i: usize = 0;
    assert(all.take(0) =~= Seq::empty());
    while i < parts.len()
        invariant
            i <= parts.len(),
            all == items_view(parts@),
            gemini_frame(frame@) == parts_events(all),
            parts_events(all.take(i as int)) == Some(events_view(events@)),
        decreases parts.len() - i,
    {
        proof {
            assert(all.take(i + 1).drop_last() =~= all.take(i as int));
            assert(all.take(i + 1).last() == parts@[i as int]@);
        }
        match read_part(&parts[i]) {
            Some(more) => {
                append_events(&mut events, more);
            },
            None => {
                proof {
                    assert(part_events(all.take(i + 1).last()) is None);
                    assert(parts_events(all.take(i + 1)) is None);
                    lemma_parts_events_prefix(all, i + 1);
                }
                return None;
            },
        }
        i += 1;
    }
    assert(all.take(i as int) =~= all);
    Some(events)
}

} // verus!
