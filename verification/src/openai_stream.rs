//! The normalizer for OpenAI-shaped streams.
//!
//! One event of such a stream carries the first choice's `delta`: a piece
//! of text, fragments of tool calls, or both, and at the end the reason why
//! the response finished.  [`openai_frame`] says which normalized events an
//! event stands for, given the tool calls that are pending.

use vstd::prelude::*;
use crate::json::{items_view, Json, JsonView};
use crate::stream::{events_view, push_event, StreamEvent, StreamEventView};
use crate::text::{opt_text, same_text};
use crate::tool_calls::{
    complete_calls, completed, delta_event, fragments_view, merge_all, merge_fragment,
    pendings_view, FragmentView, PendingToolCall, PendingView, ToolCallFragment,
};

verus! {

/// The highest index that a fragment may address.
pub const MAX_CALL_INDEX: usize = 0x7fff_ffff;

/// What one event of the stream carries, once read.
#[derive(Debug, PartialEq, Eq)]
pub struct Delta {
    pub content: Option<String>,
    pub fragments: Vec<ToolCallFragment>,
    pub finish_reason: Option<String>,
}

pub ghost struct DeltaView {
    pub content: Option<Seq<char>>,
    pub fragments: Seq<FragmentView>,
    pub finish_reason: Option<Seq<char>>,
}

impl View for Delta {
    type V = DeltaView;

    open spec fn view(&self) -> DeltaView {
        DeltaView {
            content: opt_text(self.content),
            fragments: fragments_view(self.fragments@),
            finish_reason: opt_text(self.finish_reason),
        }
    }
}

/// The index that a fragment addresses: 0 where it names none.
pub open spec fn fragment_index(json: JsonView) -> Option<nat> {
    match json.field("index"@) {
        None => Some(0),
        Some(JsonView::Null) => Some(0),
        Some(value) => match value.natural() {
            Some(index) => if index <= MAX_CALL_INDEX {
                Some(index)
            } else {
                None
            },
            None => None,
        },
    }
}

/// The name and the piece of arguments that a fragment carries in its
/// member `function`.
pub open spec fn fragment_function(json: JsonView) -> Option<
    (Option<Seq<char>>, Option<Seq<char>>),
> {
    match json.field("function"@) {
        None => Some((None, None)),
        Some(JsonView::Null) => Some((None, None)),
        Some(function) => match (
            function.optional_text("name"@),
            function.optional_text("arguments"@),
        ) {
            (Some(name), Some(arguments)) => if function is Object {
                Some((name, arguments))
            } else {
                None
            },
            _ => None,
        },
    }
}

/// The fragment that a JSON value spells out, or `None` where a member
/// has the wrong type.
pub open spec fn fragment_of(json: JsonView) -> Option<FragmentView> {
    match (
        fragment_index(json),
        json.optional_text("id"@),
        json.optional_text("type"@),
        fragment_function(json),
    ) {
        (Some(index), Some(id), Some(call_type), Some((name, arguments))) => Some(
            FragmentView { index, id, call_type, name, arguments },
        ),
        _ => None,
    }
}

/// The fragments that a list of JSON values spells out, or `None` where
/// one of them is none.
pub open spec fn fragments_of(items: Seq<JsonView>) -> Option<Seq<FragmentView>>
    decreases items.len(),
{
    if items.len() == 0 {
        Some(Seq::empty())
    } else {
        match (fragments_of(items.drop_last()), fragment_of(items.last())) {
            (Some(before), Some(last)) => Some(before.push(last)),
            _ => None,
        }
    }
}

/// What a choice carries.
pub open spec fn delta_of_choice(choice: JsonView) -> Option<DeltaView> {
    match choice.field("delta"@) {
        Some(delta) => match (
            delta.optional_text("content"@),
            delta.optional_items("tool_calls"@),
            choice.optional_text("finish_reason"@),
        ) {
            (Some(content), Some(items), Some(finish_reason)) => match fragments_of(items) {
                Some(fragments) => if delta is Object {
                    Some(DeltaView { content, fragments, finish_reason })
                } else {
                    None
                },
                None => None,
            },
            _ => None,
        },
        None => None,
    }
}

/// What an event carries: the delta of its first choice, nothing where it
/// has no choice, or `None` where it is not shaped as it should be.
pub open spec fn delta_of(frame: JsonView) -> Option<Option<DeltaView>> {
    match frame.field("choices"@) {
        Some(JsonView::Array(choices)) => if choices.len() == 0 {
            Some(None)
        } else {
            match delta_of_choice(choices[0]) {
                Some(delta) => Some(Some(delta)),
                None => None,
            }
        },
        _ => None,
    }
}

/// The events that report the fragments, in order.
pub open spec fn delta_events(fragments: Seq<FragmentView>) -> Seq<StreamEventView> {
    Seq::new(fragments.len(), |i: int| delta_event(fragments[i]))
}

/// The events of a normalizer's step, and the calls pending after it.
pub ghost struct Normalized {
    pub events: Seq<StreamEventView>,
    pub pending: Seq<PendingView>,
}

/// The text event of a delta: one where it has text that is not empty.
pub open spec fn text_events(content: Option<Seq<char>>) -> Seq<StreamEventView> {
    match content {
        Some(text) if text.len() > 0 => seq![StreamEventView::Text(text)],
        _ => Seq::empty(),
    }
}

/// What a delta gives: its text, then a report of each fragment, and,
/// where the response finished with `tool_calls`, each call that has a
/// name, complete.  The completed calls are pending no longer.
pub open spec fn openai_step(pending: Seq<PendingView>, delta: DeltaView) -> Normalized {
    let merged = merge_all(pending, delta.fragments);
    let reported = text_events(delta.content) + delta_events(delta.fragments);
    if delta.finish_reason == Some("tool_calls"@) {
        Normalized { events: reported + completed(merged), pending: Seq::empty() }
    } else {
        Normalized { events: reported, pending: merged }
    }
}

/// What an event gives, or `None` where it is not shaped as it should be.
pub open spec fn openai_frame(pending: Seq<PendingView>, frame: JsonView) -> Option<Normalized> {
    match delta_of(frame) {
        Some(Some(delta)) => Some(openai_step(pending, delta)),
        Some(None) => Some(Normalized { events: Seq::empty(), pending }),
        None => None,
    }
}

/// The value of a fragment that may have failed to be one.
pub open spec fn fragment_view(fragment: Option<ToolCallFragment>) -> Option<FragmentView> {
    match fragment {
        Some(fragment) => Some(fragment@),
        None => None,
    }
}

/// The value of a delta that may have failed to be one.
pub open spec fn delta_view(delta: Option<Option<Delta>>) -> Option<Option<DeltaView>> {
    match delta {
        Some(Some(delta)) => Some(Some(delta@)),
        Some(None) => Some(None),
        None => None,
    }
}

impl ToolCallFragment {
    /// Reads a fragment from the JSON value that spells it out.
    pub fn from_json(json: &Json) -> (r: Option<ToolCallFragment>)
        ensures
            fragment_view(r) == fragment_of(json@),
            r matches Some(fragment) ==> fragment.index <= MAX_CALL_INDEX,
    {
        let index: usize = match json.get("index") {
            None => 0,
            Some(Json::Null) => 0,
            Some(value) => match value.as_u64() {
                Some(index) => {
                    if index <= 0x7fff_ffff {
                        index as usize
                    } else {
                        return None;
                    }
                },
                None => { return None; },
            },
        };
        let id = match json.optional_text("id") {
            Some(id) => id,
            None => { return None; },
        };
        let call_type = match json.optional_text("type") {
            Some(call_type) => call_type,
            None => { return None; },
        };
        let (name, arguments) = match json.get("function") {
            None => (None, None),
            Some(Json::Null) => (None, None),
            Some(function) => {
                if !function.is_object() {
                    return None;
                }
                match (function.optional_text("name"), function.optional_text("arguments")) {
                    (Some(name), Some(arguments)) => (name, arguments),
                    _ => { return None; },
                }
            },
        };
        Some(ToolCallFragment { index, id, call_type, name, arguments })
    }
}

/// The value of a list of fragments that may have failed to be one.
pub open spec fn opt_fragments_view(fragments: Option<Vec<ToolCallFragment>>) -> Option<
    Seq<FragmentView>,
> {
    match fragments {
        Some(fragments) => Some(fragments_view(fragments@)),
        None => None,
    }
}

/// Reads the fragments that a list of JSON values spells out.
pub fn read_fragments(items: &Vec<Json>) -> (r: Option<Vec<ToolCallFragment>>)
    ensures
        opt_fragments_view(r) == fragments_of(items_view(items@)),
        r matches Some(fragments) ==> forall|i: int|
            0 <= i < fragments.len() ==> (#[trigger] fragments[i]).index <= MAX_CALL_INDEX,
{
    let ghost all = items_view(items@);
    let mut out: Vec<ToolCallFragment> = Vec::new();
    let mut i: usize = 0;
    assert(fragments_view(out@) =~= Seq::empty());
    while i < items.len()
        invariant
            i <= items.len(),
            all == items_view(items@),
            fragments_of(all.take(i as int)) == Some(fragments_view(out@)),
            forall|k: int| 0 <= k < out.len() ==> (#[trigger] out[k]).index <= MAX_CALL_INDEX,
        decreases items.len() - i,
    {
        proof {
            assert(all.take(i + 1).drop_last() =~= all.take(i as int));
            assert(all.take(i + 1).last() == items@[i as int]@);
        }
        match ToolCallFragment::from_json(&items[i]) {
            Some(fragment) => {
                let ghost before = fragments_view(out@);
                out.push(fragment);
                assert(fragments_view(out@) =~= before.push(fragment@));
            },
            None => {
                proof {
                    lemma_fragments_of_prefix(all, i + 1);
                }
                return None;
            },
        }
        i += 1;
    }
    assert(all.take(i as int) =~= all);
    Some(out)
}

/// Where a prefix of a list spells out no fragments, neither does the list.
proof fn lemma_fragments_of_prefix(items: Seq<JsonView>, n: int)
    requires
        0 <= n <= items.len(),
        fragments_of(items.take(n)) is None,
    ensures
        fragments_of(items) is None,
    decreases items.len() - n,
{
    if n < items.len() {
        assert(items.take(n + 1).drop_last() =~= items.take(n));
        lemma_fragments_of_prefix(items, n + 1);
    } else {
        assert(items.take(n) =~= items);
    }
}

fn no_fragments() -> (r: Vec<ToolCallFragment>)
    ensures
        r.len() == 0,
        fragments_view(r@) == Seq::<FragmentView>::empty(),
{
    let fragments: Vec<ToolCallFragment> = Vec::new();
    assert(fragments_view(fragments@) =~= Seq::empty());
    fragments
}

impl Delta {
    /// Reads what an event carries.
    pub fn from_frame(frame: &Json) -> (r: Option<Option<Delta>>)
        ensures
            delta_view(r) == delta_of(frame@),
            r matches Some(Some(delta)) ==> forall|i: int|
                0 <= i < delta.fragments.len() ==> (#[trigger] delta.fragments[i]).index
                    <= MAX_CALL_INDEX,
    {
        let choices = match frame.get("choices") {
            Some(Json::Array(choices)) => choices,
            _ => { return None; },
        };
        proof {
            crate::json::lemma_array_view(*choices);
        }
        if choices.len() == 0 {
            return Some(None);
        }
        let choice = &choices[0];
        let delta = match choice.get("delta") {
            Some(delta) => delta,
            None => { return None; },
        };
        let content = match delta.optional_text("content") {
            Some(content) => content,
            None => { return None; },
        };
        let fragments = match delta.get("tool_calls") {
            None => no_fragments(),
            Some(Json::Null) => no_fragments(),
            Some(Json::Array(items)) => {
                proof {
                    crate::json::lemma_array_view(*items);
                }
                match read_fragments(items) {
                    Some(fragments) => fragments,
                    None => { return None; },
                }
            },
            Some(_) => { return None; },
        };
        let finish_reason = match choice.optional_text("finish_reason") {
            Some(finish_reason) => finish_reason,
            None => { return None; },
        };
        if !delta.is_object() {
            return None;
        }
        Some(Some(Delta { content, fragments, finish_reason }))
    }
}

/// The normalizer's state: the tool calls that are still arriving.
pub struct OpenAiNormalizer {
    pending: Vec<PendingToolCall>,
}

impl View for OpenAiNormalizer {
    type V = Seq<PendingView>;

    closed spec fn view(&self) -> Seq<PendingView> {
        pendings_view(self.pending@)
    }
}

impl OpenAiNormalizer {
    /// A normalizer with no call pending.
    pub fn new() -> (r: Self)
        ensures
            r@ == Seq::<PendingView>::empty(),
    {
        let pending: Vec<PendingToolCall> = Vec::new();
        assert(pendings_view(pending@) =~= Seq::empty());
        OpenAiNormalizer { pending }
    }

    /// The calls that are still arriving.
    pub fn pending(&self) -> (r: &Vec<PendingToolCall>)
        ensures
            pendings_view(r@) == self@,
    {
        &self.pending
    }

    /// Takes one delta and returns the events that it stands for.
    pub fn step(&mut self, delta: &Delta) -> (events: Vec<StreamEvent>)
        requires
            forall|i: int|
                0 <= i < delta.fragments.len() ==> (#[trigger] delta.fragments[i]).index
                    <= MAX_CALL_INDEX,
        ensures
            events_view(events@) == openai_step(old(self)@, delta@).events,
            final(self)@ == openai_step(old(self)@, delta@).pending,
    {
        let mut events: Vec<StreamEvent> = Vec::new();
        assert(events_view(events@) =~= Seq::empty());
        match &delta.content {
            Some(text) => {
                if text.as_str().unicode_len() > 0 {
                    push_event(&mut events, StreamEvent::Text(text.clone()));
                }
            },
            None => {},
        }
        assert(events_view(events@) =~= text_events(delta@.content));
        let ghost fragments = delta@.fragments;
        let ghost start = pendings_view(self.pending@);
        let mut i: usize = 0;
        assert(fragments.take(0) =~= Seq::empty());
        assert(text_events(delta@.content) + delta_events(fragments.take(0)) =~= text_events(
            delta@.content,
        ));
        while i < delta.fragments.len()
            invariant
                i <= delta.fragments.len(),
                fragments == fragments_view(delta.fragments@),
                forall|k: int|
                    0 <= k < delta.fragments.len() ==> (#[trigger] delta.fragments[k]).index
                        <= MAX_CALL_INDEX,
                pendings_view(self.pending@) == merge_all(start, fragments.take(i as int)),
                events_view(events@) == text_events(delta@.content) + delta_events(
                    fragments.take(i as int),
                ),
            decreases delta.fragments.len() - i,
        {
            let fragment = &delta.fragments[i];
            proof {
                assert(fragments.take(i + 1).drop_last() =~= fragments.take(i as int));
                assert(fragments.take(i + 1).last() == fragment@);
                assert(delta_events(fragments.take(i + 1)) =~= delta_events(
                    fragments.take(i as int),
                ).push(delta_event(fragment@)));
                assert((text_events(delta@.content) + delta_events(fragments.take(i as int))).push(
                    delta_event(fragment@),
                ) =~= text_events(delta@.content) + delta_events(fragments.take(i + 1)));
            }
            merge_fragment(&mut self.pending, fragment);
            push_event(&mut events, fragment.to_event());
            i += 1;
        }
        assert(fragments.take(i as int) =~= fragments);
        let finished = match &delta.finish_reason {
            Some(reason) => same_text(reason.as_str(), "tool_calls"),
            None => false,
        };
        if finished {
            complete_calls(&self.pending, &mut events);
            self.pending = Vec::new();
            assert(pendings_view(self.pending@) =~= Seq::empty());
        }
        events
    }

    /// Takes one event of the stream and returns the events that it
    /// stands for, or `None` where it is not shaped as it should be; the
    /// pending calls then stay as they are.
    pub fn frame(&mut self, frame: &Json) -> (events: Option<Vec<StreamEvent>>)
        ensures
            events is Some == openai_frame(old(self)@, frame@) is Some,
            events matches Some(events) ==> events_view(events@) == openai_frame(
                old(self)@,
                frame@,
            )->0.events && final(self)@ == openai_frame(old(self)@, frame@)->0.pending,
            events is None ==> final(self)@ == old(self)@,
    {
        match Delta::from_frame(frame) {
            Some(Some(delta)) => Some(self.step(&delta)),
            Some(None) => {
                let events: Vec<StreamEvent> = Vec::new();
                assert(events_view(events@) =~= Seq::empty());
                Some(events)
            },
            None => None,
        }
    }
}

} // verus!
