//! What a client asks the outside to do.
//!
//! A client performs no I/O.  To send a message it says what is to be sent,
//! as a [`SendPlan`] or a [`StreamPlan`]; whoever runs the plan hands back
//! what came of it.

use vstd::prelude::*;
use crate::error::{ChatError, ChatErrorView};
use crate::session::Provider;
use crate::stream::{events_view, StreamEvent, StreamEventView};
use crate::text::{join2, lossy_text, utf8_lossy};

verus! {

/// An HTTP POST request with a JSON body.
#[derive(Debug, PartialEq, Eq)]
pub struct HttpRequest {
    pub url: String,
    /// The header fields, each a name and a value.
    pub headers: Vec<(String, String)>,
    pub body: String,
}

pub ghost struct HttpRequestView {
    pub url: Seq<char>,
    pub headers: Seq<(Seq<char>, Seq<char>)>,
    pub body: Seq<char>,
}

/// The values of a list of header fields.
pub open spec fn headers_view(headers: Seq<(String, String)>) -> Seq<(Seq<char>, Seq<char>)> {
    Seq::new(headers.len(), |i: int| (headers[i].0@, headers[i].1@))
}

impl View for HttpRequest {
    type V = HttpRequestView;

    open spec fn view(&self) -> HttpRequestView {
        HttpRequestView { url: self.url@, headers: headers_view(self.headers@), body: self.body@ }
    }
}

/// How to get the whole response to a message.
#[derive(Debug, PartialEq, Eq)]
pub enum SendPlan {
    /// Send the request; the client reads the response with its
    /// `read_response`.
    Http(HttpRequest),
    /// The response is `text`, due after `delay_ms` milliseconds.
    Canned { text: String, delay_ms: u64 },
}

pub ghost enum SendPlanView {
    Http(HttpRequestView),
    Canned { text: Seq<char>, delay_ms: u64 },
}

impl View for SendPlan {
    type V = SendPlanView;

    open spec fn view(&self) -> SendPlanView {
        match self {
            SendPlan::Http(request) => SendPlanView::Http(request@),
            SendPlan::Canned { text, delay_ms } => SendPlanView::Canned {
                text: text@,
                delay_ms: *delay_ms,
            },
        }
    }
}

/// How to get the response to a message as a stream of events.
#[derive(Debug, PartialEq, Eq)]
pub enum StreamPlan {
    /// Send the request, and feed the body, chunk by chunk, to a stream
    /// session for `provider`.
    Http { request: HttpRequest, provider: Provider },
    /// Deliver `events` in order, with `delay_ms` milliseconds between one
    /// and the next.
    Canned { events: Vec<StreamEvent>, delay_ms: u64 },
}

pub ghost enum StreamPlanView {
    Http { request: HttpRequestView, provider: Provider },
    Canned { events: Seq<StreamEventView>, delay_ms: u64 },
}

impl View for StreamPlan {
    type V = StreamPlanView;

    open spec fn view(&self) -> StreamPlanView {
        match self {
            StreamPlan::Http { request, provider } => StreamPlanView::Http {
                request: request@,
                provider: *provider,
            },
            StreamPlan::Canned { events, delay_ms } => StreamPlanView::Canned {
                events: events_view(events@),
                delay_ms: *delay_ms,
            },
        }
    }
}

/// Whether the status of a response reports success: it is one of 200 to
/// 299.
pub open spec fn is_success(status: u16) -> bool {
    200 <= status && status <= 299
}

/// Whether the status of a response reports success.
pub fn status_is_success(status: u16) -> (r: bool)
    ensures
        r == is_success(status),
{
    200 <= status && status <= 299
}

/// The error that a response to a request is refused with: none where
/// its status reports success, and else a transport error that quotes the
/// body.
pub open spec fn rejection(status: u16, body: Seq<u8>) -> Option<ChatErrorView> {
    if is_success(status) {
        None
    } else {
        Some(ChatErrorView::Transport("API request failed: "@ + utf8_lossy(body)))
    }
}

/// The error of what a refusal came to, as a value.
pub open spec fn rejection_view(error: Option<ChatError>) -> Option<ChatErrorView> {
    match error {
        Some(error) => Some(error@),
        None => None,
    }
}

/// The error that the response to a stream request is refused with,
/// before any of its body is read as a stream: none where the status
/// reports success.
pub fn stream_rejection(status: u16, body: &[u8]) -> (r: Option<ChatError>)
    ensures
        rejection_view(r) == rejection(status, body@),
{
    if status_is_success(status) {
        None
    } else {
        let quoted = lossy_text(body);
        Some(ChatError::Transport(join2("API request failed: ", quoted.as_str())))
    }
}

} // verus!
