//! Tool calls that arrive in pieces.
//!
//! An OpenAI-shaped backend spreads a tool call over many events.  Each
//! event carries fragments, each addressed to a call by a stable index: an
//! id, a type or a name replaces what was there, a piece of the arguments
//! is appended to what has arrived.  [`merge`] says what one fragment does
//! to the pending calls, and [`lemma_merged_arguments`] that the arguments
//! of a call end up as its pieces in the order of their arrival.

use vstd::prelude::*;
use vstd::string::StringSliceAdditionalSpecFns;
use crate::function_calling::{FunctionCall, FunctionCallView};
use crate::json::{json_parse, parse_json, Json, JsonView};
use crate::stream::{events_view, push_event, StreamEvent, StreamEventView};
use crate::text::{clone_opt, join2, opt_text};

verus! {

/// A tool call as far as it has arrived.
#[derive(Debug, PartialEq, Eq)]
pub struct PendingToolCall {
    pub id: Option<String>,
    pub call_type: Option<String>,
    pub name: String,
    /// The JSON text of the arguments, as far as it has arrived.
    pub args_buffer: String,
}

pub ghost struct PendingView {
    pub id: Option<Seq<char>>,
    pub call_type: Option<Seq<char>>,
    pub name: Seq<char>,
    pub args_buffer: Seq<char>,
}

impl View for PendingToolCall {
    type V = PendingView;

    open spec fn view(&self) -> PendingView {
        PendingView {
            id: opt_text(self.id),
            call_type: opt_text(self.call_type),
            name: self.name@,
            args_buffer: self.args_buffer@,
        }
    }
}

/// The values of a list of pending calls.
pub open spec fn pendings_view(pending: Seq<PendingToolCall>) -> Seq<PendingView> {
    Seq::new(pending.len(), |i: int| pending[i]@)
}

/// One fragment of a tool call.
#[derive(Debug, PartialEq, Eq)]
pub struct ToolCallFragment {
    pub index: usize,
    pub id: Option<String>,
    pub call_type: Option<String>,
    pub name: Option<String>,
    pub arguments: Option<String>,
}

pub ghost struct FragmentView {
    pub index: nat,
    pub id: Option<Seq<char>>,
    pub call_type: Option<Seq<char>>,
    pub name: Option<Seq<char>>,
    pub arguments: Option<Seq<char>>,
}

impl View for ToolCallFragment {
    type V = FragmentView;

    open spec fn view(&self) -> FragmentView {
        FragmentView {
            index: self.index as nat,
            id: opt_text(self.id),
            call_type: opt_text(self.call_type),
            name: opt_text(self.name),
            arguments: opt_text(self.arguments),
        }
    }
}

/// The values of a list of fragments.
pub open spec fn fragments_view(fragments: Seq<ToolCallFragment>) -> Seq<FragmentView> {
    Seq::new(fragments.len(), |i: int| fragments[i]@)
}

/// A call of which nothing has arrived.
pub open spec fn empty_slot() -> PendingView {
    PendingView { id: None, call_type: None, name: Seq::empty(), args_buffer: Seq::empty() }
}

/// `pending`, extended with empty slots to at least `len` slots.
pub open spec fn grown(pending: Seq<PendingView>, len: nat) -> Seq<PendingView> {
    if pending.len() >= len {
        pending
    } else {
        pending + Seq::new((len - pending.len()) as nat, |i: int| empty_slot())
    }
}

/// What a slot holds after a fragment for it: an id that is not empty, a
/// type and a name replace what was there; the arguments are appended.
pub open spec fn merged_slot(slot: PendingView, fragment: FragmentView) -> PendingView {
    PendingView {
        id: match fragment.id {
            Some(id) if id.len() > 0 => Some(id),
            _ => slot.id,
        },
        call_type: match fragment.call_type {
            Some(call_type) => Some(call_type),
            None => slot.call_type,
        },
        name: match fragment.name {
            Some(name) => name,
            None => slot.name,
        },
        args_buffer: match fragment.arguments {
            Some(arguments) => slot.args_buffer + arguments,
            None => slot.args_buffer,
        },
    }
}

/// The pending calls after one fragment: as many slots as the highest
/// index seen asks for, and the fragment merged into the slot at its index.
pub open spec fn merge(pending: Seq<PendingView>, fragment: FragmentView) -> Seq<PendingView> {
    let slots = grown(pending, fragment.index + 1);
    slots.update(fragment.index as int, merged_slot(slots[fragment.index as int], fragment))
}

/// The pending calls after the fragments, merged in the order of arrival.
pub open spec fn merge_all(pending: Seq<PendingView>, fragments: Seq<FragmentView>) -> Seq<
    PendingView,
>
    decreases fragments.len(),
{
    if fragments.len() == 0 {
        pending
    } else {
        merge(merge_all(pending, fragments.drop_last()), fragments.last())
    }
}

/// The pieces of arguments that the fragments carry for the call at
/// `index`, joined in the order of arrival.
pub open spec fn arguments_for(fragments: Seq<FragmentView>, index: nat) -> Seq<char>
    decreases fragments.len(),
{
    if fragments.len() == 0 {
        Seq::empty()
    } else {
        let before = arguments_for(fragments.drop_last(), index);
        match fragments.last().arguments {
            Some(arguments) if fragments.last().index == index => before + arguments,
            _ => before,
        }
    }
}

/// However the arguments of a call are sliced into fragments, and
/// whatever fragments for other calls come in between, the buffer of the
/// call holds its pieces joined in the order of arrival.
pub proof fn lemma_merged_arguments(fragments: Seq<FragmentView>, index: nat)
    ensures
        index < merge_all(Seq::empty(), fragments).len() ==> merge_all(
            Seq::empty(),
            fragments,
        )[index as int].args_buffer == arguments_for(fragments, index),
        index >= merge_all(Seq::empty(), fragments).len() ==> arguments_for(fragments, index)
            == Seq::<char>::empty(),
    decreases fragments.len(),
{
    if fragments.len() > 0 {
        let before = merge_all(Seq::empty(), fragments.drop_last());
        let last = fragments.last();
        lemma_merged_arguments(fragments.drop_last(), index);
        let slots = grown(before, last.index + 1);
        if index >= before.len() && index < slots.len() {
            assert(slots[index as int] == empty_slot());
        }
        if index < slots.len() && last.index == index && last.arguments is Some {
            assert(Seq::<char>::empty() + last.arguments->0 =~= last.arguments->0);
        }
    }
}

/// A call whose arguments arrive in `pieces`, one fragment each, all for
/// the call at `index`.
pub open spec fn sliced(index: nat, pieces: Seq<Seq<char>>) -> Seq<FragmentView> {
    Seq::new(
        pieces.len(),
        |i: int|
            FragmentView {
                index,
                id: None,
                call_type: None,
                name: None,
                arguments: Some(pieces[i]),
            },
    )
}

/// The pieces joined in order.
pub open spec fn joined(pieces: Seq<Seq<char>>) -> Seq<char>
    decreases pieces.len(),
{
    if pieces.len() == 0 {
        Seq::empty()
    } else {
        joined(pieces.drop_last()) + pieces.last()
    }
}

/// For every way to slice the arguments of one call into one or more
/// pieces, merging the fragments rebuilds the pieces joined in order.
pub proof fn lemma_sliced_arguments(index: nat, pieces: Seq<Seq<char>>)
    requires
        pieces.len() >= 1,
    ensures
        index < merge_all(Seq::empty(), sliced(index, pieces)).len(),
        merge_all(Seq::empty(), sliced(index, pieces))[index as int].args_buffer == joined(pieces),
{
    lemma_sliced_joined(index, pieces);
    lemma_merged_arguments(sliced(index, pieces), index);
    let fragments = sliced(index, pieces);
    let before = merge_all(Seq::empty(), fragments.drop_last());
    assert(fragments.last().index == index);
}

proof fn lemma_sliced_joined(index: nat, pieces: Seq<Seq<char>>)
    ensures
        arguments_for(sliced(index, pieces), index) == joined(pieces),
    decreases pieces.len(),
{
    if pieces.len() > 0 {
        lemma_sliced_joined(index, pieces.drop_last());
        assert(sliced(index, pieces).drop_last() =~= sliced(index, pieces.drop_last()));
    }
}

/// The arguments of a call that has arrived in full: the JSON value that
/// its buffer spells out, or the empty object where the buffer is empty or
/// is not JSON.
pub open spec fn arguments_json(buffer: Seq<char>) -> JsonView {
    if buffer.len() == 0 {
        JsonView::Object(Seq::empty())
    } else {
        match json_parse(vstd::utf8::encode_utf8(buffer)) {
            Ok(json) => json,
            Err(_) => JsonView::Object(Seq::empty()),
        }
    }
}

/// The call that a pending slot has become.
pub open spec fn call_of_slot(slot: PendingView) -> FunctionCallView {
    FunctionCallView { id: slot.id, name: slot.name, args: arguments_json(slot.args_buffer) }
}

/// One completed call for each slot that has a name, in the order of the
/// slots.
pub open spec fn completed(pending: Seq<PendingView>) -> Seq<StreamEventView>
    decreases pending.len(),
{
    if pending.len() == 0 {
        Seq::empty()
    } else {
        let before = completed(pending.drop_last());
        if pending.last().name.len() > 0 {
            before.push(StreamEventView::ToolCallComplete(call_of_slot(pending.last())))
        } else {
            before
        }
    }
}

/// The event that reports a fragment.
pub open spec fn delta_event(fragment: FragmentView) -> StreamEventView {
    StreamEventView::ToolCallDelta {
        index: fragment.index,
        id: fragment.id,
        name: fragment.name,
        args_fragment: fragment.arguments,
    }
}

impl PendingToolCall {
    /// A call of which nothing has arrived.
    pub fn new() -> (r: Self)
        ensures
            r@ == empty_slot(),
    {
        PendingToolCall { id: None, call_type: None, name: String::new(), args_buffer: String::new() }
    }

    /// The slot after `fragment` has been merged into it.
    pub fn merged(&self, fragment: &ToolCallFragment) -> (r: Self)
        ensures
            r@ == merged_slot(self@, fragment@),
    {
        let id = match &fragment.id {
            Some(id) => {
                if id.as_str().unicode_len() > 0 {
                    Some(id.clone())
                } else {
                    clone_opt(&self.id)
                }
            },
            None => clone_opt(&self.id),
        };
        let call_type = match &fragment.call_type {
            Some(call_type) => Some(call_type.clone()),
            None => clone_opt(&self.call_type),
        };
        let name = match &fragment.name {
            Some(name) => name.clone(),
            None => self.name.clone(),
        };
        let args_buffer = match &fragment.arguments {
            Some(arguments) => join2(self.args_buffer.as_str(), arguments.as_str()),
            None => self.args_buffer.clone(),
        };
        PendingToolCall { id, call_type, name, args_buffer }
    }

    /// The arguments of the call, read from the buffer.
    pub fn arguments(&self) -> (r: Json)
        ensures
            r@ == arguments_json(self@.args_buffer),
    {
        if self.args_buffer.as_str().unicode_len() == 0 {
            Json::empty_object()
        } else {
            match parse_json(self.args_buffer.as_str().as_bytes()) {
                Ok(json) => json,
                Err(_) => Json::empty_object(),
            }
        }
    }

    /// The call that this slot has become.
    pub fn to_call(&self) -> (r: FunctionCall)
        ensures
            r@ == call_of_slot(self@),
    {
        FunctionCall { id: clone_opt(&self.id), name: self.name.clone(), args: self.arguments() }
    }
}

impl ToolCallFragment {
    /// The event that reports this fragment.
    pub fn to_event(&self) -> (r: StreamEvent)
        ensures
            r@ == delta_event(self@),
    {
        StreamEvent::ToolCallDelta {
            index: self.index,
            id: clone_opt(&self.id),
            name: clone_opt(&self.name),
            args_fragment: clone_opt(&self.arguments),
        }
    }
}

/// Merges one fragment into the pending calls.
pub fn merge_fragment(pending: &mut Vec<PendingToolCall>, fragment: &ToolCallFragment)
    requires
        fragment.index < usize::MAX,
    ensures
        pendings_view(final(pending)@) == merge(pendings_view(old(pending)@), fragment@),
{
    let ghost before = pendings_view(pending@);
    let ghost slots = grown(before, (fragment.index + 1) as nat);
    while pending.len() <= fragment.index
        invariant
            before.len() <= pending.len(),
            pending.len() <= before.len() || pending.len() <= fragment.index + 1,
            pendings_view(pending@) =~= grown(before, pending.len() as nat),
        decreases fragment.index + 1 - pending.len(),
    {
        let ghost held = pendings_view(pending@);
        pending.push(PendingToolCall::new());
        proof {
            assert(pendings_view(pending@) =~= held.push(empty_slot()));
            assert(grown(before, pending.len() as nat) =~= grown(before, held.len()).push(
                empty_slot(),
            ));
        }
    }
    assert(pendings_view(pending@) =~= slots);
    let slot = pending[fragment.index].merged(fragment);
    pending.set(fragment.index, slot);
    assert(pendings_view(pending@) =~= merge(before, fragment@));
}

/// Appends to `events` one completed call for each pending slot that has a
/// name, in the order of the slots.
pub fn complete_calls(pending: &Vec<PendingToolCall>, events: &mut Vec<StreamEvent>)
    ensures
        events_view(final(events)@) == events_view(old(events)@) + completed(
            pendings_view(pending@),
        ),
{
    let ghost slots = pendings_view(pending@);
    let ghost start = events_view(events@);
    let mut i: usize = 0;
    assert(start + completed(slots.take(0)) =~= start);
    while i < pending.len()
        invariant
            i <= pending.len(),
            slots == pendings_view(pending@),
            events_view(events@) == start + completed(slots.take(i as int)),
        decreases pending.len() - i,
    {
        proof {
            assert(slots.take(i + 1).drop_last() =~= slots.take(i as int));
            assert(slots.take(i + 1).last() == pending@[i as int]@);
        }
        if pending[i].name.as_str().unicode_len() > 0 {
            let call = pending[i].to_call();
            push_event(events, StreamEvent::ToolCallComplete(call));
            assert((start + completed(slots.take(i as int))).push(
                StreamEventView::ToolCallComplete(call@),
            ) =~= start + completed(slots.take(i as int)).push(
                StreamEventView::ToolCallComplete(call@),
            ));
        }
        i += 1;
    }
    assert(slots.take(i as int) =~= slots);
}

} // verus!
