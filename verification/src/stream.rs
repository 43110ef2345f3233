//! The normalized event stream: what every backend's wire protocol is
//! turned into before anything else looks at it.

use vstd::prelude::*;
use crate::error::{ChatError, ChatErrorView};
use crate::function_calling::{json_of_call, FunctionCall, FunctionCallView};
use crate::json::{Json, JsonView};
use crate::text::{clone_opt, opt_text};

verus! {

/// One event of a model response.  An event is produced once, consumed
/// once, and never stored.
#[derive(Debug, PartialEq, Eq)]
pub enum StreamEvent {
    /// A piece of the response text.  It is never empty.
    Text(String),
    /// A fragment of a tool call that is still arriving, addressed by the
    /// index of the call within the response.
    ToolCallDelta {
        index: usize,
        id: Option<String>,
        name: Option<String>,
        args_fragment: Option<String>,
    },
    /// A tool call that has arrived in full.
    ToolCallComplete(FunctionCall),
    /// The response ended as it should.
    Done,
    /// The response failed.  Nothing follows this event.
    Error(ChatError),
}

pub ghost enum StreamEventView {
    Text(Seq<char>),
    ToolCallDelta {
        index: nat,
        id: Option<Seq<char>>,
        name: Option<Seq<char>>,
        args_fragment: Option<Seq<char>>,
    },
    ToolCallComplete(FunctionCallView),
    Done,
    Error(ChatErrorView),
}

impl View for StreamEvent {
    type V = StreamEventView;

    open spec fn view(&self) -> StreamEventView {
        match self {
            StreamEvent::Text(text) => StreamEventView::Text(text@),
            StreamEvent::ToolCallDelta { index, id, name, args_fragment } => {
                StreamEventView::ToolCallDelta {
                    index: *index as nat,
                    id: opt_text(*id),
                    name: opt_text(*name),
                    args_fragment: opt_text(*args_fragment),
                }
            },
            StreamEvent::ToolCallComplete(call) => StreamEventView::ToolCallComplete(call@),
            StreamEvent::Done => StreamEventView::Done,
            StreamEvent::Error(error) => StreamEventView::Error(error@),
        }
    }
}

impl Clone for StreamEvent {
    fn clone(&self) -> (r: Self)
        ensures
            r@ == self@,
    {
        match self {
            StreamEvent::Text(text) => StreamEvent::Text(text.clone()),
            StreamEvent::ToolCallDelta { index, id, name, args_fragment } => {
                StreamEvent::ToolCallDelta {
                    index: *index,
                    id: clone_opt(id),
                    name: clone_opt(name),
                    args_fragment: clone_opt(args_fragment),
                }
            },
            StreamEvent::ToolCallComplete(call) => StreamEvent::ToolCallComplete(call.clone()),
            StreamEvent::Done => StreamEvent::Done,
            StreamEvent::Error(error) => StreamEvent::Error(error.clone()),
        }
    }
}

/// The values of a list of events.
pub open spec fn events_view(events: Seq<StreamEvent>) -> Seq<StreamEventView> {
    Seq::new(events.len(), |i: int| events[i]@)
}

/// Adds `event` at the end of `events`.
pub fn push_event(events: &mut Vec<StreamEvent>, event: StreamEvent)
    ensures
        events_view(final(events)@) == events_view(old(events)@).push(event@),
{
    events.push(event);
    assert(events_view(events@) =~= events_view(old(events)@).push(event@));
}

/// Moves the events of `more` to the end of `events`, in order.
pub fn append_events(events: &mut Vec<StreamEvent>, more: Vec<StreamEvent>)
    ensures
        events_view(final(events)@) == events_view(old(events)@) + events_view(more@),
{
    let mut more = more;
    let ghost target = events_view(events@) + events_view(more@);
    events.append(&mut more);
    assert(events_view(events@) =~= target);
}

/// The pair of a text chunk and an optional completed call that stands
/// for an event on a channel of such pairs: text alone for a text event,
/// an empty text and the call as `{"name": .., "args": ..}` for a call, the
/// report of the error as text for an error, and nothing for the rest.
pub open spec fn chunk_of(event: StreamEventView) -> Option<(Seq<char>, Option<JsonView>)> {
    match event {
        StreamEventView::Text(text) => Some((text, None)),
        StreamEventView::ToolCallComplete(call) => Some((Seq::empty(), Some(json_of_call(call)))),
        StreamEventView::Error(error) => Some((error.message(), None)),
        _ => None,
    }
}

/// The value of a pair of a text chunk and an optional call.
pub open spec fn chunk_view(chunk: Option<(String, Option<Json>)>) -> Option<
    (Seq<char>, Option<JsonView>),
> {
    match chunk {
        Some((text, Some(call))) => Some((text@, Some(call@))),
        Some((text, None)) => Some((text@, None)),
        None => None,
    }
}

impl StreamEvent {
    /// The event as a pair of a text chunk and an optional completed call.
    pub fn as_chunk(&self) -> (r: Option<(String, Option<Json>)>)
        ensures
            chunk_view(r) == chunk_of(self@),
    {
        match self {
            StreamEvent::Text(text) => Some((text.clone(), None)),
            StreamEvent::ToolCallComplete(call) => Some((String::new(), Some(call.to_json()))),
            StreamEvent::Error(error) => Some((error.message(), None)),
            _ => None,
        }
    }

    /// Whether nothing follows this event: it is `Done` or an error.
    pub fn is_terminal(&self) -> (r: bool)
        ensures
            r == (self@ is Done || self@ is Error),
    {
        match self {
            StreamEvent::Done => true,
            StreamEvent::Error(_) => true,
            _ => false,
        }
    }
}

} // verus!
