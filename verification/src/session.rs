//! One response stream, from bytes to normalized events.
//!
//! A [`StreamSession`] belongs to the task that owns a response body.  The
//! task hands it each chunk as it arrives, a transport failure if one
//! occurs, and the end of the body; the session answers each with the
//! events to send on.  After `Done` or an error it is closed and answers
//! with nothing.

use vstd::prelude::*;
use crate::error::{ChatError, ChatErrorView};
use crate::gemini_stream::{gemini_frame, normalize_gemini};
use crate::json::{json_parse, parse_json};
use crate::openai_stream::{openai_frame, OpenAiNormalizer};
use crate::sse::{decode, is_space, payloads_view, SseDecoder};
use crate::stream::{append_events, events_view, push_event, StreamEvent, StreamEventView};
use crate::text::{join2, lossy_text, utf8_lossy};
use crate::tool_calls::PendingView;

verus! {

/// The wire protocol that a backend speaks.
#[derive(Debug, Clone, Copy, PartialEq, Eq, Structural)]
pub enum Provider {
    Gemini,
    OpenAI,
}

/// The reason that is reported for a payload that is JSON but not shaped
/// as the backend's events are.
pub open spec fn shape_reason() -> Seq<char> {
    "unexpected response shape"@
}

/// The reason that is reported where the body ends inside an event.
pub open spec fn truncated_reason() -> Seq<char> {
    "stream ended inside an event"@
}

/// The event that reports a payload that could not be used.
pub open spec fn protocol_error(reason: Seq<char>, payload: Seq<u8>) -> StreamEventView {
    StreamEventView::Error(ChatErrorView::Protocol { reason, payload: utf8_lossy(payload) })
}

/// The event that reports a failure of the transport.
pub open spec fn transport_error(message: Seq<char>) -> StreamEventView {
    StreamEventView::Error(ChatErrorView::Transport("Stream error: "@ + message))
}

/// What a session gives for some input, and how it is left.
pub ghost struct Outcome {
    pub events: Seq<StreamEventView>,
    pub pending: Seq<PendingView>,
    pub closed: bool,
}

/// What one payload gives: the events of the frame that it spells out, or
/// one error, which closes the session, where it is not JSON or not shaped
/// as it should be.
pub open spec fn payload_step(provider: Provider, pending: Seq<PendingView>, payload: Seq<u8>)
    -> Outcome {
    match json_parse(payload) {
        Err(reason) => Outcome {
            events: seq![protocol_error(reason, payload)],
            pending,
            closed: true,
        },
        Ok(frame) => match provider {
            Provider::Gemini => match gemini_frame(frame) {
                Some(events) => Outcome { events, pending, closed: false },
                None => Outcome {
                    events: seq![protocol_error(shape_reason(), payload)],
                    pending,
                    closed: true,
                },
            },
            Provider::OpenAI => match openai_frame(pending, frame) {
                Some(normalized) => Outcome {
                    events: normalized.events,
                    pending: normalized.pending,
                    closed: false,
                },
                None => Outcome {
                    events: seq![protocol_error(shape_reason(), payload)],
                    pending,
                    closed: true,
                },
            },
        },
    }
}

/// What the payloads give, one after the other, up to and with the first
/// that closes the session.
pub open spec fn payload_steps(
    provider: Provider,
    pending: Seq<PendingView>,
    payloads: Seq<Seq<u8>>,
) -> Outcome
    decreases payloads.len(),
{
    if payloads.len() == 0 {
        Outcome { events: Seq::empty(), pending, closed: false }
    } else {
        let first = payload_step(provider, pending, payloads[0]);
        if first.closed {
            first
        } else {
            let rest = payload_steps(provider, first.pending, payloads.drop_first());
            Outcome {
                events: first.events + rest.events,
                pending: rest.pending,
                closed: rest.closed,
            }
        }
    }
}

/// Whether the bytes are all white space.
pub open spec fn is_blank(bytes: Seq<u8>) -> bool {
    forall|i: int| 0 <= i < bytes.len() ==> is_space(#[trigger] bytes[i])
}

/// The state of one response stream.
pub struct StreamSession {
    provider: Provider,
    decoder: SseDecoder,
    normalizer: OpenAiNormalizer,
    closed: bool,
}

pub ghost struct SessionView {
    pub provider: Provider,
    /// The bytes received since the last complete event.
    pub residue: Seq<u8>,
    /// The tool calls that are still arriving.
    pub pending: Seq<PendingView>,
    /// Whether `Done` or an error has been given out.
    pub closed: bool,
}

impl View for StreamSession {
    type V = SessionView;

    closed spec fn view(&self) -> SessionView {
        SessionView {
            provider: self.provider,
            residue: self.decoder@,
            pending: self.normalizer@,
            closed: self.closed,
        }
    }
}

impl StreamSession {
    /// A session for a response that has not begun.
    pub fn new(provider: Provider) -> (r: Self)
        ensures
            r@ == (SessionView {
                provider,
                residue: Seq::empty(),
                pending: Seq::empty(),
                closed: false,
            }),
    {
        StreamSession {
            provider,
            decoder: SseDecoder::new(),
            normalizer: OpenAiNormalizer::new(),
            closed: false,
        }
    }

    /// Whether `Done` or an error has been given out.
    pub fn is_closed(&self) -> (r: bool)
        ensures
            r == self@.closed,
    {
        self.closed
    }

    /// Takes one payload and appends to `events` what it gives.
    fn on_payload(&mut self, payload: &Vec<u8>, events: &mut Vec<StreamEvent>)
        requires
            !old(self)@.closed,
        ensures
            ({
                let step = payload_step(old(self)@.provider, old(self)@.pending, payload@);
                &&& events_view(final(events)@) == events_view(old(events)@) + step.events
                &&& final(self)@ == (SessionView {
                    pending: step.pending,
                    closed: step.closed,
                    ..old(self)@
                })
            }),
    {
        let ghost before = events_view(events@);
        match parse_json(payload.as_slice()) {
            Err(reason) => {
                let error = ChatError::Protocol {
                    reason,
                    payload: lossy_text(payload.as_slice()),
                };
                push_event(events, StreamEvent::Error(error));
                self.closed = true;
                assert(before.push(StreamEvent::Error(error)@) =~= before + seq![
                    StreamEvent::Error(error)@,
                ]);
            },
            Ok(frame) => {
                let normalized = match self.provider {
                    Provider::Gemini => normalize_gemini(&frame),
                    Provider::OpenAI => self.normalizer.frame(&frame),
                };
                match normalized {
                    Some(more) => {
                        append_events(events, more);
                    },
                    None => {
                        let error = ChatError::Protocol {
                            reason: "unexpected response shape".to_string(),
                            payload: lossy_text(payload.as_slice()),
                        };
                        push_event(events, StreamEvent::Error(error));
                        self.closed = true;
                        assert(before.push(StreamEvent::Error(error)@) =~= before + seq![
                            StreamEvent::Error(error)@,
                        ]);
                    },
                }
            },
        }
    }

    /// Takes the next chunk of the body and returns the events that it
    /// completes, in order.  A payload that cannot be used gives one error
    /// and closes the session; what the chunk holds after it is dropped.
    pub fn on_chunk(&mut self, chunk: &[u8]) -> (events: Vec<StreamEvent>)
        ensures
            old(self)@.closed ==> events@.len() == 0 && final(self)@ == old(self)@,
            !old(self)@.closed ==> ({
                let decoded = decode(old(self)@.residue + chunk@);
                let outcome = payload_steps(
                    old(self)@.provider,
                    old(self)@.pending,
                    decoded.payloads,
                );
                &&& events_view(events@) == outcome.events
                &&& final(self)@ == (SessionView {
                    provider: old(self)@.provider,
                    residue: decoded.residue,
                    pending: outcome.pending,
                    closed: outcome.closed,
                })
            }),
    {
        let mut events: Vec<StreamEvent> = Vec::new();
        if self.closed {
            return events;
        }
        assert(events_view(events@) =~= Seq::empty());
        let payloads = self.decoder.feed(chunk);
        let ghost all = payloads_view(payloads@);
        let ghost provider = self.provider;
        let ghost start = self.normalizer@;
        let ghost residue = self.decoder@;
        let mut i: usize = 0;
        assert(all.skip(0) =~= all);
        assert(events_view(events@) + payload_steps(provider, start, all).events
            =~= payload_steps(provider, start, all).events);
        while i < payloads.len() && !self.closed
            invariant
                i <= payloads.len(),
                all == payloads_view(payloads@),
                self@.provider == provider,
                self@.residue == residue,
                !self@.closed ==> {
                    let rest = payload_steps(provider, self@.pending, all.skip(i as int));
                    let whole = payload_steps(provider, start, all);
                    &&& events_view(events@) + rest.events == whole.events
                    &&& rest.pending == whole.pending
                    &&& rest.closed == whole.closed
                },
                self@.closed ==> {
                    let whole = payload_steps(provider, start, all);
                    &&& events_view(events@) == whole.events
                    &&& self@.pending == whole.pending
                    &&& whole.closed
                },
            decreases payloads.len() - i,
        {
            let ghost before = events_view(events@);
            let ghost pending = self@.pending;
            proof {
                assert(all.skip(i as int)[0] == payloads@[i as int]@);
                assert(all.skip(i as int).drop_first() =~= all.skip(i + 1));
            }
            self.on_payload(&payloads[i], &mut events);
            proof {
                let step = payload_step(provider, pending, payloads@[i as int]@);
                let rest = payload_steps(provider, pending, all.skip(i as int));
                if step.closed {
                    assert(rest == step);
                } else {
                    let tail = payload_steps(provider, step.pending, all.skip(i + 1));
                    assert(rest.events == step.events + tail.events);
                    assert(before + (step.events + tail.events) =~= (before + step.events)
                        + tail.events);
                }
            }
            i += 1;
        }
        proof {
            if !self@.closed {
                assert(all.skip(i as int) =~= Seq::empty());
                assert(events_view(events@) + Seq::<StreamEventView>::empty() =~= events_view(
                    events@,
                ));
            }
        }
        events
    }

    /// Takes a failure of the transport, with what the transport says of
    /// it: gives one error and closes the session.  A closed session gives
    /// nothing.
    pub fn fail(&mut self, message: &str) -> (events: Vec<StreamEvent>)
        ensures
            final(self)@ == (SessionView { closed: true, ..old(self)@ }),
            old(self)@.closed ==> events@.len() == 0,
            !old(self)@.closed ==> events_view(events@) == seq![transport_error(message@)],
    {
        let mut events: Vec<StreamEvent> = Vec::new();
        if self.closed {
            return events;
        }
        assert(events_view(events@) =~= Seq::empty());
        let report = join2("Stream error: ", message);
        push_event(&mut events, StreamEvent::Error(ChatError::Transport(report)));
        self.closed = true;
        assert(Seq::<StreamEventView>::empty().push(transport_error(message@)) =~= seq![
            transport_error(message@),
        ]);
        events
    }

    /// Takes the end of the body and closes the session: gives `Done` where
    /// nothing but white space is held back, and else an error, since the
    /// body then ended inside an event.  A closed session gives nothing.
    pub fn finish(&mut self) -> (events: Vec<StreamEvent>)
        ensures
            final(self)@ == (SessionView { closed: true, ..old(self)@ }),
            old(self)@.closed ==> events@.len() == 0,
            !old(self)@.closed && is_blank(old(self)@.residue) ==> events_view(events@) == seq![
                StreamEventView::Done,
            ],
            !old(self)@.closed && !is_blank(old(self)@.residue) ==> events_view(events@) == seq![
                protocol_error(truncated_reason(), old(self)@.residue),
            ],
    {
        let mut events: Vec<StreamEvent> = Vec::new();
        if self.closed {
            return events;
        }
        assert(events_view(events@) =~= Seq::empty());
        self.closed = true;
        let held = self.decoder.pending();
        if all_space(held) {
            push_event(&mut events, StreamEvent::Done);
            assert(Seq::<StreamEventView>::empty().push(StreamEventView::Done) =~= seq![
                StreamEventView::Done,
            ]);
        } else {
            let error = ChatError::Protocol {
                reason: "stream ended inside an event".to_string(),
                payload: lossy_text(held.as_slice()),
            };
            push_event(&mut events, StreamEvent::Error(error));
            assert(Seq::<StreamEventView>::empty().push(StreamEvent::Error(error)@) =~= seq![
                StreamEvent::Error(error)@,
            ]);
        }
        events
    }
}

/// Whether the bytes are all white space.
fn all_space(bytes: &Vec<u8>) -> (r: bool)
    ensures
        r == is_blank(bytes@),
{
    let mut i: usize = 0;
    while i < bytes.len()
        invariant
            i <= bytes.len(),
            forall|k: int| 0 <= k < i ==> is_space(#[trigger] bytes@[k]),
        decreases bytes.len() - i,
    {
        let byte = bytes[i];
        if !(byte == 32 || (9 <= byte && byte <= 13)) {
            assert(!is_space(bytes@[i as int]));
            return false;
        }
        i += 1;
    }
    true
}

} // verus!
