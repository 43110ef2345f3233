//! The conversation loop as a state machine.
//!
//! One user turn runs like this: the user's message goes to the model; the
//! answer streams in; where it asks for tools, each is run and its result
//! recorded, in the order of the calls; then the model is asked to go on;
//! and so forth until an answer asks for no tool.
//!
//! The machine does none of the waiting.  Whoever drives it tells it what
//! happened, and it answers with what to do next.  It records every turn in
//! the client's history as it becomes complete, so the history is sound
//! whenever the driver looks at it or gives up.

use vstd::prelude::*;
use crate::chat_client::ChatClient;
use crate::conversation::{
    call_parts, function_turn, model_turn, user_turn, PartView, Role, TurnView,
};
use crate::error::{ChatError, ChatErrorView};
use crate::function_calling::{
    calls_view, clone_calls, FunctionCall, FunctionCallView, FunctionResponse,
    FunctionResponseView,
};
use crate::stream::{StreamEvent, StreamEventView};
use crate::text::{append, same_text};

verus! {

/// Where a turn stands.
#[derive(Debug, Clone, Copy, PartialEq, Eq, Structural)]
pub enum TurnState {
    /// No turn has begun.
    AwaitingUserInput,
    /// A response is streaming in.
    Streaming,
    /// The tools that the last response asked for are being run.
    ExecutingTools,
    /// The turn is over; the next user message begins another.
    Idle,
}

/// What the driver is to do next.
#[derive(Debug, PartialEq, Eq)]
pub enum TurnAction {
    /// Ask the client for a stream with this message, and report its
    /// events and its end.  An empty message continues the conversation.
    SendStream(String),
    /// Show this piece of the response to the caller, now.
    Forward(String),
    /// Show this failure of the stream to the caller.  The end of the
    /// stream is still to be reported.
    Report(ChatError),
    /// Run this tool call, and report the response that it came to.
    Execute(FunctionCall),
    /// Go on reporting.
    Continue,
    /// The turn is complete.
    Complete,
    /// The turn is over because it failed.
    Fail(ChatError),
    /// What was reported does not fit the state; nothing was changed.
    Ignored,
}

pub ghost enum TurnActionView {
    SendStream(Seq<char>),
    Forward(Seq<char>),
    Report(ChatErrorView),
    Execute(FunctionCallView),
    Continue,
    Complete,
    Fail(ChatErrorView),
    Ignored,
}

impl View for TurnAction {
    type V = TurnActionView;

    open spec fn view(&self) -> TurnActionView {
        match self {
            TurnAction::SendStream(message) => TurnActionView::SendStream(message@),
            TurnAction::Forward(text) => TurnActionView::Forward(text@),
            TurnAction::Report(error) => TurnActionView::Report(error@),
            TurnAction::Execute(call) => TurnActionView::Execute(call@),
            TurnAction::Continue => TurnActionView::Continue,
            TurnAction::Complete => TurnActionView::Complete,
            TurnAction::Fail(error) => TurnActionView::Fail(error@),
            TurnAction::Ignored => TurnActionView::Ignored,
        }
    }
}

/// The state of the loop.
pub struct Orchestrator {
    state: TurnState,
    max_iterations: usize,
    iterations: usize,
    text: String,
    calls: Vec<FunctionCall>,
    next_call: usize,
    failed: bool,
}

pub ghost struct OrchestratorView {
    pub state: TurnState,
    /// The most tool round trips that one turn may make.
    pub max_iterations: nat,
    /// The tool round trips that this turn has made.
    pub iterations: nat,
    /// The text of the response that is streaming in, so far.
    pub text: Seq<char>,
    /// The tool calls of the response that is streaming in, or whose
    /// tools are being run.
    pub calls: Seq<FunctionCallView>,
    /// How many of the calls have been answered.
    pub next_call: nat,
    /// Whether the response that is streaming in has failed.
    pub failed: bool,
}

impl View for Orchestrator {
    type V = OrchestratorView;

    closed spec fn view(&self) -> OrchestratorView {
        OrchestratorView {
            state: self.state,
            max_iterations: self.max_iterations as nat,
            iterations: self.iterations as nat,
            text: self.text@,
            calls: calls_view(self.calls@),
            next_call: self.next_call as nat,
            failed: self.failed,
        }
    }
}

/// A step of the loop: what is to be done, how the loop is left, and the
/// history after it.
pub ghost struct Step {
    pub action: TurnActionView,
    pub after: OrchestratorView,
    pub turns: Seq<TurnView>,
}

/// The loop at the start of a response.
pub open spec fn streaming(loop_: OrchestratorView, iterations: nat) -> OrchestratorView {
    OrchestratorView {
        state: TurnState::Streaming,
        iterations,
        text: Seq::empty(),
        calls: Seq::empty(),
        next_call: 0,
        failed: false,
        ..loop_
    }
}

/// The loop when a turn is over.
pub open spec fn idle(loop_: OrchestratorView) -> OrchestratorView {
    OrchestratorView {
        state: TurnState::Idle,
        text: Seq::empty(),
        calls: Seq::empty(),
        next_call: 0,
        failed: false,
        ..loop_
    }
}

/// A user message begins a turn, unless one is under way: the message is
/// recorded, and the model is asked with it.
pub open spec fn user_message_step(
    loop_: OrchestratorView,
    turns: Seq<TurnView>,
    message: Seq<char>,
) -> Step {
    if loop_.state == TurnState::AwaitingUserInput || loop_.state == TurnState::Idle {
        Step {
            action: TurnActionView::SendStream(message),
            after: streaming(loop_, 0),
            turns: turns.push(user_turn(message)),
        }
    } else {
        Step { action: TurnActionView::Ignored, after: loop_, turns }
    }
}

/// An event of the stream: text is kept and shown at once, a completed
/// call is kept, a failure is marked and shown.  The history is not
/// touched.
pub open spec fn stream_event_step(loop_: OrchestratorView, event: StreamEventView) -> (
    TurnActionView,
    OrchestratorView,
) {
    if loop_.state != TurnState::Streaming {
        (TurnActionView::Ignored, loop_)
    } else {
        match event {
            StreamEventView::Text(text) => (
                TurnActionView::Forward(text),
                OrchestratorView { text: loop_.text + text, ..loop_ },
            ),
            StreamEventView::ToolCallComplete(call) => (
                TurnActionView::Continue,
                OrchestratorView { calls: loop_.calls.push(call), ..loop_ },
            ),
            StreamEventView::Error(error) => (
                TurnActionView::Report(error),
                OrchestratorView { failed: true, ..loop_ },
            ),
            _ => (TurnActionView::Continue, loop_),
        }
    }
}

/// The end of a stream.
///
/// A response that failed is recorded with the text that arrived, where
/// any did, and without its calls; the turn is over.  A response without
/// calls is recorded, and the turn is complete.  A response with calls is
/// recorded with them, and its first call is to be run, unless the turn
/// has made all the round trips that it may: then the turn fails, and the
/// response is not recorded, so that no call stands in the history without
/// its result.
pub open spec fn stream_closed_step(loop_: OrchestratorView, turns: Seq<TurnView>) -> Step {
    if loop_.state != TurnState::Streaming {
        Step { action: TurnActionView::Ignored, after: loop_, turns }
    } else if loop_.failed {
        Step {
            action: TurnActionView::Complete,
            after: idle(loop_),
            turns: if loop_.text.len() > 0 {
                turns.push(model_turn(loop_.text, Seq::empty()))
            } else {
                turns
            },
        }
    } else if loop_.calls.len() == 0 {
        Step {
            action: TurnActionView::Complete,
            after: idle(loop_),
            turns: turns.push(model_turn(loop_.text, Seq::empty())),
        }
    } else if loop_.iterations >= loop_.max_iterations {
        Step {
            action: TurnActionView::Fail(ChatErrorView::ToolLoopExceeded(loop_.max_iterations)),
            after: idle(loop_),
            turns,
        }
    } else {
        Step {
            action: TurnActionView::Execute(loop_.calls[0]),
            after: OrchestratorView {
                state: TurnState::ExecutingTools,
                next_call: 0,
                ..loop_
            },
            turns: turns.push(model_turn(loop_.text, loop_.calls)),
        }
    }
}

/// Whether `response` is a response to `call`: it names the tool of the
/// call, and it goes under the id of the call where the call has one.
pub open spec fn matches_call(call: FunctionCallView, response: FunctionResponseView) -> bool {
    &&& response.name == call.name
    &&& call.id matches Some(id) ==> response.id == id
}

/// Whether `response` answers the call that is being run.
pub open spec fn answers(loop_: OrchestratorView, response: FunctionResponseView) -> bool {
    &&& loop_.state == TurnState::ExecutingTools
    &&& loop_.next_call < loop_.calls.len()
    &&& matches_call(loop_.calls[loop_.next_call as int], response)
}

/// The response to the call that is being run: it is recorded; then the
/// next call is to be run, or, after the last, the round trip is counted
/// and the model is asked to go on.
pub open spec fn tool_response_step(
    loop_: OrchestratorView,
    turns: Seq<TurnView>,
    response: FunctionResponseView,
) -> Step {
    if !answers(loop_, response) {
        Step { action: TurnActionView::Ignored, after: loop_, turns }
    } else if loop_.next_call + 1 < loop_.calls.len() {
        Step {
            action: TurnActionView::Execute(loop_.calls[loop_.next_call as int + 1]),
            after: OrchestratorView { next_call: loop_.next_call + 1, ..loop_ },
            turns: turns.push(function_turn(response)),
        }
    } else {
        Step {
            action: TurnActionView::SendStream(Seq::empty()),
            after: streaming(loop_, loop_.iterations + 1),
            turns: turns.push(function_turn(response)),
        }
    }
}

impl Orchestrator {
    /// Whether the loop is as it should be: it has made no more round
    /// trips than it may, and fewer while tools are being run; and it holds
    /// calls only while a response streams in or its tools are being run.
    pub open spec fn wf(&self) -> bool {
        &&& self@.iterations <= self@.max_iterations
        &&& self@.next_call <= self@.calls.len()
        &&& self@.state == TurnState::ExecutingTools ==> self@.next_call < self@.calls.len()
            && self@.iterations < self@.max_iterations
        &&& (self@.state == TurnState::AwaitingUserInput || self@.state == TurnState::Idle)
            ==> self@.calls.len() == 0
    }

    /// A loop that waits for the first user message, and allows
    /// `max_iterations` tool round trips in a turn.
    pub fn new(max_iterations: usize) -> (r: Self)
        ensures
            r.wf(),
            r@ == (OrchestratorView {
                state: TurnState::AwaitingUserInput,
                max_iterations: max_iterations as nat,
                iterations: 0,
                text: Seq::empty(),
                calls: Seq::empty(),
                next_call: 0,
                failed: false,
            }),
    {
        let calls: Vec<FunctionCall> = Vec::new();
        assert(calls_view(calls@) =~= Seq::empty());
        Orchestrator {
            state: TurnState::AwaitingUserInput,
            max_iterations,
            iterations: 0,
            text: String::new(),
            calls,
            next_call: 0,
            failed: false,
        }
    }

    /// Where the turn stands.
    pub fn state(&self) -> (r: TurnState)
        ensures
            r == self@.state,
    {
        self.state
    }

    /// The tool round trips that this turn has made.
    pub fn iterations(&self) -> (r: usize)
        ensures
            r == self@.iterations,
    {
        self.iterations
    }

    /// The most tool round trips that one turn may make.
    pub fn max_iterations(&self) -> (r: usize)
        ensures
            r == self@.max_iterations,
    {
        self.max_iterations
    }

    fn reset(&mut self, state: TurnState)
        ensures
            final(self)@ == (OrchestratorView {
                state,
                text: Seq::empty(),
                calls: Seq::empty(),
                next_call: 0,
                failed: false,
                ..old(self)@
            }),
    {
        self.state = state;
        self.text = String::new();
        self.calls = Vec::new();
        self.next_call = 0;
        self.failed = false;
        assert(calls_view(self.calls@) =~= Seq::empty());
    }

    /// Takes a message of the user.
    pub fn on_user_message<C: ChatClient>(&mut self, client: &mut C, message: &str) -> (action:
        TurnAction)
        requires
            old(self).wf(),
        ensures
            final(self).wf(),
            ({
                let step = user_message_step(
                    old(self)@,
                    old(client).conversation().turns,
                    message@,
                );
                &&& action@ == step.action
                &&& final(self)@ == step.after
                &&& final(client).conversation().turns == step.turns
                &&& final(client).conversation().system_instruction == old(
                    client,
                ).conversation().system_instruction
            }),
    {
        match self.state {
            TurnState::AwaitingUserInput | TurnState::Idle => {
                client.add_user_message(message);
                self.reset(TurnState::Streaming);
                self.iterations = 0;
                TurnAction::SendStream(message.to_string())
            },
            _ => TurnAction::Ignored,
        }
    }

    /// Takes the next event of the stream.
    pub fn on_stream_event(&mut self, event: StreamEvent) -> (action: TurnAction)
        requires
            old(self).wf(),
        ensures
            final(self).wf(),
            action@ == stream_event_step(old(self)@, event@).0,
            final(self)@ == stream_event_step(old(self)@, event@).1,
    {
        match self.state {
            TurnState::Streaming => {},
            _ => { return TurnAction::Ignored; },
        }
        match event {
            StreamEvent::Text(text) => {
                append(&mut self.text, text.as_str());
                TurnAction::Forward(text)
            },
            StreamEvent::ToolCallComplete(call) => {
                let ghost before = calls_view(self.calls@);
                let ghost pushed = call@;
                self.calls.push(call);
                assert(calls_view(self.calls@) =~= before.push(pushed));
                TurnAction::Continue
            },
            StreamEvent::Error(error) => {
                self.failed = true;
                TurnAction::Report(error)
            },
            _ => TurnAction::Continue,
        }
    }

    /// Takes the end of the stream.
    pub fn on_stream_closed<C: ChatClient>(&mut self, client: &mut C) -> (action: TurnAction)
        requires
            old(self).wf(),
        ensures
            final(self).wf(),
            ({
                let step = stream_closed_step(old(self)@, old(client).conversation().turns);
                &&& action@ == step.action
                &&& final(self)@ == step.after
                &&& final(client).conversation().turns == step.turns
                &&& final(client).conversation().system_instruction == old(
                    client,
                ).conversation().system_instruction
            }),
    {
        match self.state {
            TurnState::Streaming => {},
            _ => { return TurnAction::Ignored; },
        }
        if self.failed {
            if self.text.as_str().unicode_len() > 0 {
                let none: Vec<FunctionCall> = Vec::new();
                assert(calls_view(none@) =~= Seq::empty());
                client.add_model_response(self.text.as_str(), none);
            }
            self.reset(TurnState::Idle);
            return TurnAction::Complete;
        }
        if self.calls.len() == 0 {
            let none: Vec<FunctionCall> = Vec::new();
            assert(calls_view(none@) =~= Seq::empty());
            client.add_model_response(self.text.as_str(), none);
            self.reset(TurnState::Idle);
            return TurnAction::Complete;
        }
        if self.iterations >= self.max_iterations {
            self.reset(TurnState::Idle);
            return TurnAction::Fail(ChatError::ToolLoopExceeded(self.max_iterations));
        }
        client.add_model_response(self.text.as_str(), clone_calls(&self.calls));
        self.state = TurnState::ExecutingTools;
        self.next_call = 0;
        TurnAction::Execute(self.calls[0].clone())
    }

    /// Takes the response that a tool call came to.
    pub fn on_tool_response<C: ChatClient>(
        &mut self,
        client: &mut C,
        response: &FunctionResponse,
    ) -> (action: TurnAction)
        requires
            old(self).wf(),
        ensures
            final(self).wf(),
            ({
                let step = tool_response_step(
                    old(self)@,
                    old(client).conversation().turns,
                    response@,
                );
                &&& action@ == step.action
                &&& final(self)@ == step.after
                &&& final(client).conversation().turns == step.turns
                &&& final(client).conversation().system_instruction == old(
                    client,
                ).conversation().system_instruction
            }),
    {
        match self.state {
            TurnState::ExecutingTools => {},
            _ => { return TurnAction::Ignored; },
        }
        let call = &self.calls[self.next_call];
        if !same_text(response.name.as_str(), call.name.as_str()) {
            return TurnAction::Ignored;
        }
        match &call.id {
            Some(id) => {
                if !same_text(response.id.as_str(), id.as_str()) {
                    return TurnAction::Ignored;
                }
            },
            None => {},
        }
        client.add_function_response(response);
        if self.calls.len() - self.next_call > 1 {
            self.next_call = self.next_call + 1;
            return TurnAction::Execute(self.calls[self.next_call].clone());
        }
        let done: usize = self.iterations + 1;
        self.reset(TurnState::Streaming);
        self.iterations = done;
        TurnAction::SendStream(String::new())
    }
}

/// The tool calls among the parts, in order.
pub open spec fn calls_of(parts: Seq<PartView>) -> Seq<FunctionCallView>
    decreases parts.len(),
{
    if parts.len() == 0 {
        Seq::empty()
    } else {
        match parts.last() {
            PartView::ToolCall(call) => calls_of(parts.drop_last()).push(call),
            _ => calls_of(parts.drop_last()),
        }
    }
}

/// The result that a function turn carries: that of its one part.
pub open spec fn result_of(turn: TurnView) -> Option<FunctionResponseView> {
    if turn.parts.len() == 1 {
        match turn.parts[0] {
            PartView::ToolResult(response) => Some(response),
            _ => None,
        }
    } else {
        None
    }
}

/// The calls that a history still waits for, in the order in which they
/// were made; `None` where the history is unsound.
///
/// A history is sound where every call of a model turn is answered, in the
/// order of the calls, by the function turns that follow the model turn,
/// one result each, before any other turn follows.
pub open spec fn unanswered(turns: Seq<TurnView>) -> Option<Seq<FunctionCallView>>
    decreases turns.len(),
{
    if turns.len() == 0 {
        Some(Seq::empty())
    } else {
        match unanswered(turns.drop_last()) {
            None => None,
            Some(waiting) => match turns.last().role {
                Role::Function => match result_of(turns.last()) {
                    Some(response) => if waiting.len() > 0 && matches_call(waiting[0], response) {
                        Some(waiting.drop_first())
                    } else {
                        None
                    },
                    None => None,
                },
                Role::Model => if waiting.len() == 0 {
                    Some(calls_of(turns.last().parts))
                } else {
                    None
                },
                Role::User => if waiting.len() == 0 {
                    Some(Seq::empty())
                } else {
                    None
                },
            },
        }
    }
}

/// Whether the history fits the loop: while tools are being run it waits
/// for the calls that the loop has not yet seen answered, and for nothing
/// else; in every other state it waits for nothing.
pub open spec fn coherent(loop_: OrchestratorView, turns: Seq<TurnView>) -> bool {
    if loop_.state == TurnState::ExecutingTools {
        unanswered(turns) == Some(loop_.calls.skip(loop_.next_call as int))
    } else {
        unanswered(turns) == Some(Seq::<FunctionCallView>::empty())
    }
}

proof fn lemma_calls_of_call_parts(head: Seq<PartView>, calls: Seq<FunctionCallView>)
    ensures
        calls_of(head + call_parts(calls)) == calls_of(head) + calls,
    decreases calls.len(),
{
    if calls.len() == 0 {
        assert(head + call_parts(calls) =~= head);
        assert(calls_of(head) + calls =~= calls_of(head));
    } else {
        let parts = head + call_parts(calls);
        lemma_calls_of_call_parts(head, calls.drop_last());
        assert(parts.drop_last() =~= head + call_parts(calls.drop_last()));
        assert(parts.last() == PartView::ToolCall(calls.last()));
        assert((calls_of(head) + calls.drop_last()).push(calls.last()) =~= calls_of(head) + calls);
    }
}

/// A model turn holds the calls that it was made with, and no others.
pub proof fn lemma_calls_of_model_turn(text: Seq<char>, calls: Seq<FunctionCallView>)
    ensures
        calls_of(model_turn(text, calls).parts) == calls,
{
    let none = Seq::<PartView>::empty();
    let one = seq![PartView::Text(text)];
    assert(calls_of(none) =~= Seq::<FunctionCallView>::empty());
    assert(one.drop_last() =~= none);
    assert(calls_of(one) =~= Seq::<FunctionCallView>::empty());
    if text.len() == 0 {
        lemma_calls_of_call_parts(none, calls);
        assert(none + call_parts(calls) =~= call_parts(calls));
        assert(calls_of(none) + calls =~= calls);
    } else {
        lemma_calls_of_call_parts(one, calls);
        assert(calls_of(one) + calls =~= calls);
    }
}

/// The loop keeps the history sound.  Where the history fits the loop
/// before a step, it fits the loop after the step; and whenever the step
/// asks the model to go on, the history waits for nothing: every call has
/// its result, in the order of the calls.
pub proof fn lemma_history_stays_sound(
    loop_: OrchestratorView,
    turns: Seq<TurnView>,
    message: Seq<char>,
    event: StreamEventView,
    response: FunctionResponseView,
)
    requires
        coherent(loop_, turns),
        loop_.next_call <= loop_.calls.len(),
        loop_.state == TurnState::ExecutingTools ==> loop_.next_call < loop_.calls.len(),
    ensures
        coherent(
            user_message_step(loop_, turns, message).after,
            user_message_step(loop_, turns, message).turns,
        ),
        coherent(stream_event_step(loop_, event).1, turns),
        coherent(stream_closed_step(loop_, turns).after, stream_closed_step(loop_, turns).turns),
        coherent(
            tool_response_step(loop_, turns, response).after,
            tool_response_step(loop_, turns, response).turns,
        ),
        user_message_step(loop_, turns, message).action is SendStream ==> unanswered(
            user_message_step(loop_, turns, message).turns,
        ) == Some(Seq::<FunctionCallView>::empty()),
        tool_response_step(loop_, turns, response).action is SendStream ==> unanswered(
            tool_response_step(loop_, turns, response).turns,
        ) == Some(Seq::<FunctionCallView>::empty()),
{
    let none = Seq::<FunctionCallView>::empty();
    // A user message.
    let user = user_message_step(loop_, turns, message);
    if user.action is SendStream {
        assert(user.turns.drop_last() =~= turns);
    }
    // The end of a stream.
    let closed = stream_closed_step(loop_, turns);
    if loop_.state == TurnState::Streaming {
        lemma_calls_of_model_turn(loop_.text, none);
        lemma_calls_of_model_turn(loop_.text, loop_.calls);
        if closed.turns.len() == turns.len() + 1 {
            assert(closed.turns.drop_last() =~= turns);
        }
        assert(loop_.calls.skip(0) =~= loop_.calls);
    }
    // The response to a call.
    let answered = tool_response_step(loop_, turns, response);
    if answers(loop_, response) {
        let waiting = loop_.calls.skip(loop_.next_call as int);
        assert(answered.turns.drop_last() =~= turns);
        assert(result_of(function_turn(response)) == Some(response));
        assert(waiting[0] == loop_.calls[loop_.next_call as int]);
        assert(waiting.drop_first() =~= loop_.calls.skip(loop_.next_call as int + 1));
        if loop_.next_call + 1 >= loop_.calls.len() {
            assert(loop_.calls.skip(loop_.next_call as int + 1) =~= none);
        }
    }
}

/// In every state, a stream that ends with calls leads to running a tool
/// only while the turn has made fewer round trips than it may; and a turn
/// that has made them all fails then, with the history as it was.
pub proof fn lemma_tool_loop_is_bounded(loop_: OrchestratorView, turns: Seq<TurnView>)
    requires
        loop_.state == TurnState::Streaming,
        !loop_.failed,
        loop_.calls.len() > 0,
    ensures
        stream_closed_step(loop_, turns).action is Execute ==> loop_.iterations
            < loop_.max_iterations,
        loop_.iterations >= loop_.max_iterations ==> stream_closed_step(loop_, turns).action
            == TurnActionView::Fail(ChatErrorView::ToolLoopExceeded(loop_.max_iterations))
            && stream_closed_step(loop_, turns).turns == turns,
{
}

} // verus!
