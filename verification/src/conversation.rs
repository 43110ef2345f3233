//! The conversation store: the ordered history of one conversation and its
//! system instruction, in a form that belongs to no provider.
//!
//! The order of the turns is the order in which they were added.  Every
//! request replays it as it stands.

use vstd::prelude::*;
use crate::function_calling::{
    calls_view, FunctionCall, FunctionCallView, FunctionResponse, FunctionResponseView,
};
use crate::text::{clone_opt, opt_text};

verus! {

/// Who a turn is attributed to.
#[derive(Debug, Clone, Copy, PartialEq, Eq, Structural)]
pub enum Role {
    User,
    Model,
    Function,
}

/// One piece of a turn.
#[derive(Debug, PartialEq, Eq)]
pub enum Part {
    Text(String),
    ToolCall(FunctionCall),
    ToolResult(FunctionResponse),
}

pub ghost enum PartView {
    Text(Seq<char>),
    ToolCall(FunctionCallView),
    ToolResult(FunctionResponseView),
}

impl View for Part {
    type V = PartView;

    open spec fn view(&self) -> PartView {
        match self {
            Part::Text(text) => PartView::Text(text@),
            Part::ToolCall(call) => PartView::ToolCall(call@),
            Part::ToolResult(response) => PartView::ToolResult(response@),
        }
    }
}

impl Clone for Part {
    fn clone(&self) -> (r: Self)
        ensures
            r@ == self@,
    {
        match self {
            Part::Text(text) => Part::Text(text.clone()),
            Part::ToolCall(call) => Part::ToolCall(call.clone()),
            Part::ToolResult(response) => Part::ToolResult(response.clone()),
        }
    }
}

/// The values of a list of parts.
pub open spec fn parts_view(parts: Seq<Part>) -> Seq<PartView> {
    Seq::new(parts.len(), |i: int| parts[i]@)
}

/// One entry of the history.
#[derive(Debug, PartialEq, Eq)]
pub struct ConversationTurn {
    pub role: Role,
    pub parts: Vec<Part>,
}

pub ghost struct TurnView {
    pub role: Role,
    pub parts: Seq<PartView>,
}

impl View for ConversationTurn {
    type V = TurnView;

    open spec fn view(&self) -> TurnView {
        TurnView { role: self.role, parts: parts_view(self.parts@) }
    }
}

impl Clone for ConversationTurn {
    fn clone(&self) -> (r: Self)
        ensures
            r@ == self@,
    {
        let mut parts: Vec<Part> = Vec::new();
        let mut i: usize = 0;
        while i < self.parts.len()
            invariant
                i <= self.parts.len(),
                parts.len() == i,
                forall|k: int| 0 <= k < i ==> parts@[k]@ == self.parts@[k]@,
            decreases self.parts.len() - i,
        {
            parts.push(self.parts[i].clone());
            i += 1;
        }
        assert(parts_view(parts@) =~= parts_view(self.parts@));
        ConversationTurn { role: self.role, parts }
    }
}

/// The values of a list of turns.
pub open spec fn turns_view(turns: Seq<ConversationTurn>) -> Seq<TurnView> {
    Seq::new(turns.len(), |i: int| turns[i]@)
}

/// The turn that a user message makes.
pub open spec fn user_turn(message: Seq<char>) -> TurnView {
    TurnView { role: Role::User, parts: seq![PartView::Text(message)] }
}

/// The turn that the result of a tool call makes.
pub open spec fn function_turn(response: FunctionResponseView) -> TurnView {
    TurnView { role: Role::Function, parts: seq![PartView::ToolResult(response)] }
}

/// The tool calls as parts, in order.
pub open spec fn call_parts(calls: Seq<FunctionCallView>) -> Seq<PartView> {
    Seq::new(calls.len(), |i: int| PartView::ToolCall(calls[i]))
}

/// The turn that a model response makes: its text, where it has any, and
/// then each tool call that it asks for, in order.
pub open spec fn model_turn(text: Seq<char>, calls: Seq<FunctionCallView>) -> TurnView {
    TurnView {
        role: Role::Model,
        parts: if text.len() == 0 {
            call_parts(calls)
        } else {
            seq![PartView::Text(text)] + call_parts(calls)
        },
    }
}

/// What a request replays: the history, and after it the new user message
/// unless that is empty.  An empty message means: go on with the
/// conversation as it stands.
pub open spec fn replayed(turns: Seq<TurnView>, message: Seq<char>) -> Seq<TurnView> {
    if message.len() == 0 {
        turns
    } else {
        turns.push(user_turn(message))
    }
}

/// The history of one conversation, with its system instruction.
pub struct Conversation {
    turns: Vec<ConversationTurn>,
    system_instruction: Option<String>,
}

pub ghost struct ConversationView {
    pub turns: Seq<TurnView>,
    pub system_instruction: Option<Seq<char>>,
}

impl View for Conversation {
    type V = ConversationView;

    closed spec fn view(&self) -> ConversationView {
        ConversationView {
            turns: turns_view(self.turns@),
            system_instruction: opt_text(self.system_instruction),
        }
    }
}

impl Clone for Conversation {
    fn clone(&self) -> (r: Self)
        ensures
            r@ == self@,
    {
        Conversation {
            turns: clone_turns(&self.turns),
            system_instruction: clone_opt(&self.system_instruction),
        }
    }
}

/// A copy of a list of turns.
pub fn clone_turns(turns: &Vec<ConversationTurn>) -> (r: Vec<ConversationTurn>)
    ensures
        turns_view(r@) == turns_view(turns@),
{
    let mut out: Vec<ConversationTurn> = Vec::new();
    let mut i: usize = 0;
    while i < turns.len()
        invariant
            i <= turns.len(),
            out.len() == i,
            forall|k: int| 0 <= k < i ==> out@[k]@ == turns@[k]@,
        decreases turns.len() - i,
    {
        out.push(turns[i].clone());
        i += 1;
    }
    assert(turns_view(out@) =~= turns_view(turns@));
    out
}

impl Conversation {
    /// An empty history without a system instruction.
    pub fn new() -> (r: Self)
        ensures
            r@.turns == Seq::<TurnView>::empty(),
            r@.system_instruction == None::<Seq<char>>,
    {
        let turns: Vec<ConversationTurn> = Vec::new();
        assert(turns_view(turns@) =~= Seq::<TurnView>::empty());
        Conversation { turns, system_instruction: None }
    }

    /// Sets the system instruction.  The history stays as it is.
    pub fn load_system_prompt(&mut self, prompt_content: &str)
        ensures
            final(self)@.system_instruction == Some(prompt_content@),
            final(self)@.turns == old(self)@.turns,
    {
        self.system_instruction = Some(prompt_content.to_string());
    }

    /// The system instruction, where one was set.
    pub fn system_instruction(&self) -> (r: &Option<String>)
        ensures
            opt_text(*r) == self@.system_instruction,
    {
        &self.system_instruction
    }

    /// The history, oldest turn first.
    pub fn turns(&self) -> (r: &Vec<ConversationTurn>)
        ensures
            turns_view(r@) == self@.turns,
    {
        &self.turns
    }

    /// The number of turns in the history.
    pub fn len(&self) -> (r: usize)
        ensures
            r == self@.turns.len(),
    {
        self.turns.len()
    }

    fn push_turn(&mut self, turn: ConversationTurn)
        ensures
            final(self)@.turns == old(self)@.turns.push(turn@),
            final(self)@.system_instruction == old(self)@.system_instruction,
    {
        self.turns.push(turn);
        assert(turns_view(self.turns@) =~= turns_view(old(self).turns@).push(turn@));
    }

    /// Appends a user turn that holds `message`.
    pub fn add_user_message(&mut self, message: &str)
        ensures
            final(self)@.turns == old(self)@.turns.push(user_turn(message@)),
            final(self)@.system_instruction == old(self)@.system_instruction,
    {
        let mut parts: Vec<Part> = Vec::new();
        parts.push(Part::Text(message.to_string()));
        assert(parts_view(parts@) =~= seq![PartView::Text(message@)]);
        self.push_turn(ConversationTurn { role: Role::User, parts });
    }

    /// Appends a function turn that holds the result of a tool call.
    pub fn add_function_response(&mut self, function_response: &FunctionResponse)
        ensures
            final(self)@.turns == old(self)@.turns.push(function_turn(function_response@)),
            final(self)@.system_instruction == old(self)@.system_instruction,
    {
        let mut parts: Vec<Part> = Vec::new();
        parts.push(Part::ToolResult(function_response.clone()));
        assert(parts_view(parts@) =~= seq![PartView::ToolResult(function_response@)]);
        self.push_turn(ConversationTurn { role: Role::Function, parts });
    }

    /// Appends a model turn: the text of the response, where it has any,
    /// and the tool calls that it asks for, in order.
    pub fn add_model_response(&mut self, response: &str, function_calls: Vec<FunctionCall>)
        ensures
            final(self)@.turns == old(self)@.turns.push(
                model_turn(response@, calls_view(function_calls@)),
            ),
            final(self)@.system_instruction == old(self)@.system_instruction,
    {
        let mut parts: Vec<Part> = Vec::new();
        if response.unicode_len() > 0 {
            parts.push(Part::Text(response.to_string()));
        }
        let ghost head = parts_view(parts@);
        let ghost calls = calls_view(function_calls@);
        assert(head =~= if response@.len() == 0 {
            Seq::<PartView>::empty()
        } else {
            seq![PartView::Text(response@)]
        });
        let mut i: usize = 0;
        while i < function_calls.len()
            invariant
                i <= function_calls.len(),
                calls == calls_view(function_calls@),
                parts_view(parts@) == head + call_parts(calls.take(i as int)),
            decreases function_calls.len() - i,
        {
            let ghost before = parts_view(parts@);
            parts.push(Part::ToolCall(function_calls[i].clone()));
            assert(parts_view(parts@) =~= before.push(PartView::ToolCall(calls[i as int])));
            assert(head + call_parts(calls.take(i + 1)) =~= (head + call_parts(
                calls.take(i as int),
            )).push(PartView::ToolCall(calls[i as int])));
            i += 1;
        }
        assert(calls.take(i as int) =~= calls);
        assert(Seq::<PartView>::empty() + call_parts(calls) =~= call_parts(calls));
        self.push_turn(ConversationTurn { role: Role::Model, parts });
    }

    /// Forgets the history.  The system instruction stays.
    pub fn clear_conversation(&mut self)
        ensures
            final(self)@.turns == Seq::<TurnView>::empty(),
            final(self)@.system_instruction == old(self)@.system_instruction,
    {
        self.turns.clear();
        assert(turns_view(self.turns@) =~= Seq::<TurnView>::empty());
    }

    /// The turns that a request for `message` replays: a copy of the
    /// history, and after it the new user turn unless `message` is empty.
    pub fn replay(&self, message: &str) -> (r: Vec<ConversationTurn>)
        ensures
            turns_view(r@) == replayed(self@.turns, message@),
    {
        let mut out = clone_turns(&self.turns);
        if message.unicode_len() > 0 {
            let ghost before = turns_view(out@);
            let mut parts: Vec<Part> = Vec::new();
            parts.push(Part::Text(message.to_string()));
            assert(parts_view(parts@) =~= seq![PartView::Text(message@)]);
            out.push(ConversationTurn { role: Role::User, parts });
            assert(turns_view(out@) =~= before.push(user_turn(message@)));
        }
        out
    }
}

/// A tool round trip grows the history by two turns and keeps its order:
/// after a model turn that asks for a call and the function turn that
/// answers it, the history is the old one followed by these two, and a
/// request that continues the conversation replays exactly that.
pub proof fn lemma_tool_round_trip(
    turns: Seq<TurnView>,
    text: Seq<char>,
    call: FunctionCallView,
    response: FunctionResponseView,
)
    ensures
        ({
            let after = turns.push(model_turn(text, seq![call])).push(function_turn(response));
            &&& after.len() == turns.len() + 2
            &&& after.take(turns.len() as int) == turns
            &&& after[turns.len() as int] == model_turn(text, seq![call])
            &&& after[turns.len() as int + 1] == function_turn(response)
            &&& replayed(after, Seq::empty()) == after
        }),
{
    let after = turns.push(model_turn(text, seq![call])).push(function_turn(response));
    assert(after.take(turns.len() as int) =~= turns);
}

} // verus!
