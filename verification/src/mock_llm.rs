//! A backend that needs no network: it answers from a list of canned
//! responses, in turn, and asks for a tool call where a message holds a
//! trigger.  It is there so that what drives a conversation can be tried
//! out; it delivers what a real backend delivers, in the same order: text
//! chunk by chunk, and a tool call once, after the last chunk.

use vstd::prelude::*;
use crate::chat_client::ChatClient;
use crate::conversation::{
    function_turn, model_turn, replayed, turns_view, user_turn, Conversation,
    ConversationTurn, ConversationView,
};
use crate::error::ChatError;
use crate::function_calling::{
    call_of_json, calls_view, FunctionCall, FunctionCallView, FunctionResponse, ToolDefinition,
};
use crate::json::{Json, JsonView};
use crate::stream::{events_view, push_event, StreamEvent, StreamEventView};
use crate::text::{
    clone_strings, contains, join2, join_spaced, lowercase, lowercased, same_text, spaced,
    split_words, strings_view, text_contains, words,
};
use crate::transport::{SendPlan, SendPlanView, StreamPlan, StreamPlanView};

verus! {

/// The number of words in a chunk of a streamed response.
pub const WORDS_PER_CHUNK: usize = 3;

/// The triggers with what they ask for, as values.
pub open spec fn triggers_view(triggers: Seq<(String, Json)>) -> Seq<(Seq<char>, JsonView)> {
    Seq::new(triggers.len(), |i: int| (triggers[i].0@, triggers[i].1@))
}

/// The index of the trigger `key`, where it is one.
pub open spec fn trigger_index(triggers: Seq<(Seq<char>, JsonView)>, key: Seq<char>) -> Option<int>
    decreases triggers.len(),
{
    if triggers.len() == 0 {
        None
    } else if triggers.last().0 == key {
        Some(triggers.len() - 1)
    } else {
        trigger_index(triggers.drop_last(), key)
    }
}

/// The triggers after `key` is set to ask for `call`: `key` keeps its
/// place where it was a trigger, and else comes last.
pub open spec fn with_trigger(
    triggers: Seq<(Seq<char>, JsonView)>,
    key: Seq<char>,
    call: JsonView,
) -> Seq<(Seq<char>, JsonView)> {
    match trigger_index(triggers, key) {
        Some(i) => triggers.update(i, (key, call)),
        None => triggers.push((key, call)),
    }
}

/// Whether no trigger occurs twice.
pub open spec fn distinct_triggers(triggers: Seq<(Seq<char>, JsonView)>) -> bool {
    forall|i: int, j: int|
        0 <= i < j < triggers.len() ==> (#[trigger] triggers[i]).0 != (#[trigger] triggers[j]).0
}

/// What the first trigger that occurs in `lower` asks for.
pub open spec fn triggered(triggers: Seq<(Seq<char>, JsonView)>, lower: Seq<char>) -> Option<
    JsonView,
>
    decreases triggers.len(),
{
    if triggers.len() == 0 {
        None
    } else if contains(lower, triggers[0].0) {
        Some(triggers[0].1)
    } else {
        triggered(triggers.drop_first(), lower)
    }
}

/// The canned answer to a message whose lowercase is `lower`, when
/// `index` answers have been given.
pub open spec fn canned_text(responses: Seq<Seq<char>>, index: nat, lower: Seq<char>) -> Seq<
    char,
> {
    if responses.len() == 0 {
        "Mock LLM: No responses configured"@
    } else {
        let response = responses[(index % responses.len()) as int];
        if contains(lower, "test"@) {
            "Mock LLM (Test Mode): "@ + response
        } else if contains(lower, "error"@) {
            "Mock LLM: Simulating error handling scenario"@
        } else {
            "Mock LLM: "@ + response
        }
    }
}

/// An answer of the mock.
pub ghost struct MockReply {
    pub text: Seq<char>,
    /// The tool call that the answer asks for, as JSON.
    pub call: Option<JsonView>,
    /// The count of canned answers given, after this one.
    pub next_index: nat,
}

/// The answer to `message`.  Where a trigger occurs in the lowercase of
/// the message, the answer asks for the call of the first such trigger,
/// and no canned response is used up.  Else it is the next canned
/// response; the responses are given in turn and start over after the
/// last.
pub open spec fn next_reply(
    triggers: Seq<(Seq<char>, JsonView)>,
    responses: Seq<Seq<char>>,
    index: nat,
    message: Seq<char>,
) -> MockReply {
    let lower = lowercased(message);
    match triggered(triggers, lower) {
        Some(call) => MockReply {
            text: "I need to call a function to help with: "@ + message,
            call: Some(call),
            next_index: index,
        },
        None => MockReply {
            text: canned_text(responses, index, lower),
            call: None,
            next_index: if responses.len() == 0 {
                index
            } else {
                index % responses.len() + 1
            },
        },
    }
}

/// The number of chunks that `count` words make.
pub open spec fn chunk_count(count: nat) -> nat {
    ((count + WORDS_PER_CHUNK - 1) / (WORDS_PER_CHUNK as int)) as nat
}

/// The chunk `k` of the words: up to three words from word `3 * k` on,
/// with a space between a word and the next, and a space in front of every
/// chunk but the first.
pub open spec fn chunk_text(all: Seq<Seq<char>>, k: int) -> Seq<char> {
    let from = WORDS_PER_CHUNK * k;
    let to = if from + WORDS_PER_CHUNK <= all.len() {
        from + WORDS_PER_CHUNK
    } else {
        all.len() as int
    };
    if k == 0 {
        spaced(all, from, to)
    } else {
        seq![' '] + spaced(all, from, to)
    }
}

/// The chunks in which `text` is streamed: its words, three to a chunk;
/// for a text without words the text itself.
pub open spec fn chunks_of(text: Seq<char>) -> Seq<Seq<char>> {
    let all = words(text);
    if all.len() == 0 {
        seq![text]
    } else {
        Seq::new(chunk_count(all.len()), |k: int| chunk_text(all, k))
    }
}

/// The chunks paired with the call: the call goes with the last chunk.
pub open spec fn chunk_pairs(chunks: Seq<Seq<char>>, call: Option<JsonView>) -> Seq<
    (Seq<char>, Option<JsonView>),
> {
    Seq::new(
        chunks.len(),
        |i: int|
            (
                chunks[i],
                if i == chunks.len() - 1 {
                    call
                } else {
                    None
                },
            ),
    )
}

/// The values of a list of pairs of a chunk and an optional call.
pub open spec fn pairs_view(pairs: Seq<(String, Option<Json>)>) -> Seq<
    (Seq<char>, Option<JsonView>),
> {
    Seq::new(
        pairs.len(),
        |i: int|
            (
                pairs[i].0@,
                match pairs[i].1 {
                    Some(call) => Some(call@),
                    None => None,
                },
            ),
    )
}

/// One text event for each chunk that is not empty, in order.
pub open spec fn chunk_events(chunks: Seq<Seq<char>>) -> Seq<StreamEventView>
    decreases chunks.len(),
{
    if chunks.len() == 0 {
        Seq::empty()
    } else if chunks.last().len() > 0 {
        chunk_events(chunks.drop_last()).push(StreamEventView::Text(chunks.last()))
    } else {
        chunk_events(chunks.drop_last())
    }
}

/// The calls that an answer asks for: one where its JSON spells out a
/// call.
pub open spec fn reply_calls(call: Option<JsonView>) -> Seq<FunctionCallView> {
    match call {
        Some(json) => match call_of_json(json) {
            Some(call) => seq![call],
            None => Seq::empty(),
        },
        None => Seq::empty(),
    }
}

/// The events of a streamed answer: its chunks, then its call where it
/// asks for one, then `Done`.
pub open spec fn reply_events(reply: MockReply) -> Seq<StreamEventView> {
    chunk_events(chunks_of(reply.text)) + Seq::new(
        reply_calls(reply.call).len(),
        |i: int| StreamEventView::ToolCallComplete(reply_calls(reply.call)[i]),
    ) + seq![StreamEventView::Done]
}

/// The delay before a whole answer is due: twice the delay between chunks.
pub open spec fn answer_delay(delay_ms: u64) -> u64 {
    if delay_ms > u64::MAX / 2 {
        u64::MAX
    } else {
        (delay_ms * 2) as u64
    }
}

/// The mock backend.
pub struct MockLLMClient {
    conversation: Conversation,
    responses: Vec<String>,
    response_index: usize,
    streaming_enabled: bool,
    delay_ms: u64,
    function_calls: Vec<(String, Json)>,
}

pub ghost struct MockView {
    pub conversation: ConversationView,
    /// The canned responses.
    pub responses: Seq<Seq<char>>,
    /// The count of canned answers given.
    pub response_index: nat,
    pub streaming_enabled: bool,
    /// The delay between one chunk and the next, in milliseconds.
    pub delay_ms: u64,
    /// The triggers, in lowercase, each with the call that it asks for.
    pub function_calls: Seq<(Seq<char>, JsonView)>,
}

impl View for MockLLMClient {
    type V = MockView;

    closed spec fn view(&self) -> MockView {
        MockView {
            conversation: self.conversation@,
            responses: strings_view(self.responses@),
            response_index: self.response_index as nat,
            streaming_enabled: self.streaming_enabled,
            delay_ms: self.delay_ms,
            function_calls: triggers_view(self.function_calls@),
        }
    }
}

/// The canned responses of a mock that was given none.
pub open spec fn default_responses() -> Seq<Seq<char>> {
    seq![
        "Hello! I'm a mock LLM for testing purposes."@,
        "This is a simulated response from the mock LLM."@,
        "I can help you test your application without making real API calls."@,
        "Mock response: Your request has been processed successfully."@,
        "Testing mode: This is an automated response."@,
    ]
}

/// The answer that the mock gives next to `message`.
pub open spec fn reply_to(mock: MockView, message: Seq<char>) -> MockReply {
    next_reply(mock.function_calls, mock.responses, mock.response_index, message)
}

/// The value of an optional JSON value.
pub open spec fn opt_json_view(json: Option<Json>) -> Option<JsonView> {
    match json {
        Some(json) => Some(json@),
        None => None,
    }
}

/// The calls that an answer asks for.
fn calls_of_reply(call: &Option<Json>) -> (r: Vec<FunctionCall>)
    ensures
        calls_view(r@) == reply_calls(opt_json_view(*call)),
{
    let mut calls: Vec<FunctionCall> = Vec::new();
    assert(calls_view(calls@) =~= Seq::empty());
    match call {
        Some(json) => match FunctionCall::from_json(json) {
            Some(call) => {
                calls.push(call);
                assert(calls_view(calls@) =~= seq![call@]);
            },
            None => {},
        },
        None => {},
    }
    calls
}

proof fn lemma_with_trigger_distinct(
    triggers: Seq<(Seq<char>, JsonView)>,
    key: Seq<char>,
    call: JsonView,
)
    requires
        distinct_triggers(triggers),
    ensures
        distinct_triggers(with_trigger(triggers, key, call)),
{
    lemma_trigger_index(triggers, key);
    let after = with_trigger(triggers, key, call);
    assert forall|i: int, j: int| 0 <= i < j < after.len() implies (#[trigger] after[i]).0 != (
    #[trigger] after[j]).0 by {
        match trigger_index(triggers, key) {
            Some(at) => {
                if i != at && j != at {
                    assert(triggers[i].0 != triggers[j].0);
                } else if i == at {
                    assert(triggers[at].0 != triggers[j].0);
                } else {
                    assert(triggers[i].0 != triggers[at].0);
                }
            },
            None => {
                if j < triggers.len() {
                    assert(triggers[i].0 != triggers[j].0);
                } else {
                    assert(triggers[i].0 != key);
                }
            },
        }
    }
}

proof fn lemma_trigger_index(triggers: Seq<(Seq<char>, JsonView)>, key: Seq<char>)
    ensures
        trigger_index(triggers, key) matches Some(at) ==> 0 <= at < triggers.len()
            && triggers[at].0 == key,
        trigger_index(triggers, key) is None ==> forall|i: int|
            0 <= i < triggers.len() ==> (#[trigger] triggers[i]).0 != key,
    decreases triggers.len(),
{
    if triggers.len() > 0 && triggers.last().0 != key {
        lemma_trigger_index(triggers.drop_last(), key);
        assert forall|i: int| 0 <= i < triggers.len() && trigger_index(triggers, key)
            is None implies (#[trigger] triggers[i]).0 != key by {
            if i < triggers.len() - 1 {
                assert(triggers.drop_last()[i] == triggers[i]);
            }
        }
    }
}

impl MockLLMClient {
    /// Whether the mock is as it should be: no trigger occurs twice.
    pub open spec fn wf(&self) -> bool {
        distinct_triggers(self@.function_calls)
    }

    /// A mock with the default responses, no triggers, streaming, a delay
    /// of 50 milliseconds, and an empty history.
    pub fn new() -> (r: Self)
        ensures
            r.wf(),
            r@.responses == default_responses(),
            r@.response_index == 0,
            r@.streaming_enabled,
            r@.delay_ms == 50,
            r@.function_calls.len() == 0,
            r@.conversation.turns.len() == 0,
            r@.conversation.system_instruction is None,
    {
        let mut responses: Vec<String> = Vec::new();
        responses.push("Hello! I'm a mock LLM for testing purposes.".to_string());
        responses.push("This is a simulated response from the mock LLM.".to_string());
        responses.push(
            "I can help you test your application without making real API calls.".to_string(),
        );
        responses.push("Mock response: Your request has been processed successfully.".to_string());
        responses.push("Testing mode: This is an automated response.".to_string());
        assert(strings_view(responses@) =~= default_responses());
        let function_calls: Vec<(String, Json)> = Vec::new();
        assert(triggers_view(function_calls@) =~= Seq::empty());
        MockLLMClient {
            conversation: Conversation::new(),
            responses,
            response_index: 0,
            streaming_enabled: true,
            delay_ms: 50,
            function_calls,
        }
    }

    /// A mock like a new one, with `responses` as its canned responses.
    pub fn with_responses(responses: Vec<String>) -> (r: Self)
        ensures
            r.wf(),
            r@.responses == strings_view(responses@),
            r@.response_index == 0,
            r@.streaming_enabled,
            r@.delay_ms == 50,
            r@.function_calls.len() == 0,
            r@.conversation.turns.len() == 0,
            r@.conversation.system_instruction is None,
    {
        let mut client = MockLLMClient::new();
        client.responses = responses;
        client
    }

    /// The same mock, with streaming switched on or off.
    pub fn with_streaming(self, enabled: bool) -> (r: Self)
        ensures
            r@ == (MockView { streaming_enabled: enabled, ..self@ }),
    {
        let mut client = self;
        client.streaming_enabled = enabled;
        client
    }

    /// The same mock, with `delay_ms` milliseconds between chunks.
    pub fn with_delay(self, delay_ms: u64) -> (r: Self)
        ensures
            r@ == (MockView { delay_ms, ..self@ }),
    {
        let mut client = self;
        client.delay_ms = delay_ms;
        client
    }

    /// Makes every message that holds `trigger_text`, in whatever case,
    /// ask for `function_call`.
    #[verifier::loop_isolation(false)]
    pub fn add_function_call_response(&mut self, trigger_text: &str, function_call: Json)
        requires
            old(self).wf(),
        ensures
            final(self).wf(),
            final(self)@ == (MockView {
                function_calls: with_trigger(
                    old(self)@.function_calls,
                    lowercased(trigger_text@),
                    function_call@,
                ),
                ..old(self)@
            }),
    {
        let key = lowercase(trigger_text);
        let ghost all = triggers_view(self.function_calls@);
        proof {
            lemma_with_trigger_distinct(all, key@, function_call@);
        }
        let mut i: usize = self.function_calls.len();
        assert(all.take(i as int) =~= all);
        while i > 0
            invariant
                i <= self.function_calls.len(),
                self@ == old(self)@,
                all == triggers_view(self.function_calls@),
                trigger_index(all, key@) == trigger_index(all.take(i as int), key@),
            decreases i,
        {
            i -= 1;
            proof {
                assert(all.take(i + 1).last() == all[i as int]);
                assert(all.take(i + 1).drop_last() =~= all.take(i as int));
            }
            if same_text(self.function_calls[i].0.as_str(), key.as_str()) {
                self.function_calls.set(i, (key, function_call));
                assert(triggers_view(self.function_calls@) =~= all.update(
                    i as int,
                    (key@, function_call@),
                ));
                return ;
            }
        }
        assert(all.take(0).len() == 0);
        self.function_calls.push((key, function_call));
        assert(triggers_view(self.function_calls@) =~= all.push((key@, function_call@)));
    }

    /// What the first trigger that occurs in `lower` asks for.
    fn find_triggered(&self, lower: &str) -> (r: Option<Json>)
        ensures
            opt_json_view(r) == triggered(self@.function_calls, lower@),
    {
        let ghost all = triggers_view(self.function_calls@);
        let mut i: usize = 0;
        assert(all.skip(0) =~= all);
        while i < self.function_calls.len()
            invariant
                i <= self.function_calls.len(),
                all == triggers_view(self.function_calls@),
                triggered(all, lower@) == triggered(all.skip(i as int), lower@),
            decreases self.function_calls.len() - i,
        {
            proof {
                assert(all.skip(i as int)[0] == all[i as int]);
                assert(all.skip(i as int).drop_first() =~= all.skip(i + 1));
            }
            if text_contains(lower, self.function_calls[i].0.as_str()) {
                return Some(self.function_calls[i].1.clone());
            }
            i += 1;
        }
        assert(all.skip(i as int) =~= Seq::empty());
        None
    }

    /// Gives the next answer to `message`.
    pub fn get_next_response(&mut self, message: &str) -> (r: (String, Option<Json>))
        ensures
            r.0@ == reply_to(old(self)@, message@).text,
            opt_json_view(r.1) == reply_to(old(self)@, message@).call,
            final(self)@ == (MockView {
                response_index: reply_to(old(self)@, message@).next_index,
                ..old(self)@
            }),
    {
        let lower = lowercase(message);
        match self.find_triggered(lower.as_str()) {
            Some(call) => {
                let text = join2("I need to call a function to help with: ", message);
                return (text, Some(call));
            },
            None => {},
        }
        if self.responses.len() == 0 {
            return ("Mock LLM: No responses configured".to_string(), None);
        }
        let at: usize = self.response_index % self.responses.len();
        let response = self.responses[at].clone();
        self.response_index = at + 1;
        let text = if text_contains(lower.as_str(), "test") {
            join2("Mock LLM (Test Mode): ", response.as_str())
        } else if text_contains(lower.as_str(), "error") {
            "Mock LLM: Simulating error handling scenario".to_string()
        } else {
            join2("Mock LLM: ", response.as_str())
        };
        (text, None)
    }

    /// Splits a response into the chunks in which it is streamed.
    pub fn split_into_chunks(&self, text: &str) -> (r: Vec<String>)
        ensures
            strings_view(r@) == chunks_of(text@),
    {
        let all = split_words(text);
        let mut chunks: Vec<String> = Vec::new();
        if all.len() == 0 {
            chunks.push(text.to_string());
            assert(strings_view(chunks@) =~= seq![text@]);
            return chunks;
        }
        let ghost parts = strings_view(all@);
        let mut from: usize = 0;
        while from < all.len()
            invariant
                from <= all.len(),
                from % WORDS_PER_CHUNK == 0 || from == all.len(),
                parts == strings_view(all@),
                from < all.len() ==> chunks.len() == from / WORDS_PER_CHUNK,
                from == all.len() ==> chunks.len() == chunk_count(all.len() as nat),
                forall|k: int| 0 <= k < chunks.len() ==> (#[trigger] chunks@[k])@ == chunk_text(
                    parts,
                    k,
                ),
            decreases all.len() - from,
        {
            let to: usize = if all.len() - from >= WORDS_PER_CHUNK {
                from + WORDS_PER_CHUNK
            } else {
                all.len()
            };
            let body = join_spaced(&all, from, to);
            let chunk = if from == 0 {
                body
            } else {
                proof {
                    reveal_strlit(" ");
                    assert(" "@ =~= seq![' ']);
                }
                join2(" ", body.as_str())
            };
            chunks.push(chunk);
            from = to;
        }
        assert(strings_view(chunks@) =~= Seq::new(
            chunk_count(parts.len()),
            |k: int| chunk_text(parts, k),
        ));
        chunks
    }

    /// Sets the system instruction.
    pub fn load_system_prompt(&mut self, prompt_content: &str) -> (r: Result<(), ChatError>)
        ensures
            r is Ok,
            final(self)@ == (MockView {
                conversation: ConversationView {
                    system_instruction: Some(prompt_content@),
                    ..old(self)@.conversation
                },
                ..old(self)@
            }),
    {
        self.conversation.load_system_prompt(prompt_content);
        Ok(())
    }

    /// Takes the tools and forgets them: the mock advertises nothing.
    pub fn set_available_tools(&mut self, tools: Vec<ToolDefinition>)
        ensures
            final(self)@ == old(self)@,
    {
    }

    /// Appends a user turn to the history.
    pub fn add_user_message(&mut self, message: &str)
        ensures
            final(self)@ == (MockView {
                conversation: ConversationView {
                    turns: old(self)@.conversation.turns.push(user_turn(message@)),
                    ..old(self)@.conversation
                },
                ..old(self)@
            }),
    {
        self.conversation.add_user_message(message);
    }

    /// Appends the result of a tool call to the history.
    pub fn add_function_response(&mut self, function_response: &FunctionResponse)
        ensures
            final(self)@ == (MockView {
                conversation: ConversationView {
                    turns: old(self)@.conversation.turns.push(function_turn(function_response@)),
                    ..old(self)@.conversation
                },
                ..old(self)@
            }),
    {
        self.conversation.add_function_response(function_response);
    }

    /// Appends a model turn to the history.
    pub fn add_model_response(&mut self, response: &str, function_calls: Vec<FunctionCall>)
        ensures
            final(self)@ == (MockView {
                conversation: ConversationView {
                    turns: old(self)@.conversation.turns.push(
                        model_turn(response@, calls_view(function_calls@)),
                    ),
                    ..old(self)@.conversation
                },
                ..old(self)@
            }),
    {
        self.conversation.add_model_response(response, function_calls);
    }

    /// Forgets the history and starts the canned responses over.
    pub fn clear_conversation(&mut self)
        ensures
            final(self)@ == (MockView {
                conversation: ConversationView {
                    turns: Seq::empty(),
                    ..old(self)@.conversation
                },
                response_index: 0,
                ..old(self)@
            }),
    {
        self.conversation.clear_conversation();
        self.response_index = 0;
    }

    /// Answers `message` and records the exchange: the message goes into
    /// the history as a user turn, unless it is empty, and the answer after
    /// it as a model turn.  An empty message continues the conversation as
    /// it stands.
    pub fn send_message(&mut self, message: &str) -> (r: Result<String, ChatError>)
        ensures
            r matches Ok(text) && text@ == reply_to(old(self)@, message@).text,
            final(self)@ == (MockView {
                conversation: ConversationView {
                    turns: replayed(old(self)@.conversation.turns, message@).push(
                        model_turn(
                            reply_to(old(self)@, message@).text,
                            reply_calls(reply_to(old(self)@, message@).call),
                        ),
                    ),
                    ..old(self)@.conversation
                },
                response_index: reply_to(old(self)@, message@).next_index,
                ..old(self)@
            }),
    {
        if message.unicode_len() > 0 {
            self.add_user_message(message);
        }
        let (text, call) = self.get_next_response(message);
        let calls = calls_of_reply(&call);
        self.add_model_response(text.as_str(), calls);
        Ok(text)
    }

    /// Answers `message` chunk by chunk, with the call that the answer asks
    /// for beside the last chunk, and records the exchange as
    /// `send_message` does.
    pub fn send_message_stream(&mut self, message: &str) -> (r: Vec<(String, Option<Json>)>)
        ensures
            pairs_view(r@) == chunk_pairs(
                chunks_of(reply_to(old(self)@, message@).text),
                reply_to(old(self)@, message@).call,
            ),
            final(self)@ == (MockView {
                conversation: ConversationView {
                    turns: replayed(old(self)@.conversation.turns, message@).push(
                        model_turn(
                            reply_to(old(self)@, message@).text,
                            reply_calls(reply_to(old(self)@, message@).call),
                        ),
                    ),
                    ..old(self)@.conversation
                },
                response_index: reply_to(old(self)@, message@).next_index,
                ..old(self)@
            }),
    {
        if message.unicode_len() > 0 {
            self.add_user_message(message);
        }
        let (text, call) = self.get_next_response(message);
        let chunks = self.split_into_chunks(text.as_str());
        let calls = calls_of_reply(&call);
        self.add_model_response(text.as_str(), calls);
        let ghost all = strings_view(chunks@);
        let ghost asked = opt_json_view(call);
        let mut pairs: Vec<(String, Option<Json>)> = Vec::new();
        let mut i: usize = 0;
        while i < chunks.len()
            invariant
                i <= chunks.len(),
                all == strings_view(chunks@),
                asked == opt_json_view(call),
                pairs.len() == i,
                forall|k: int|
                    0 <= k < i ==> (#[trigger] pairs_view(pairs@)[k]) == chunk_pairs(all, asked)[k],
            decreases chunks.len() - i,
        {
            let beside = if i == chunks.len() - 1 {
                match &call {
                    Some(call) => Some(call.clone()),
                    None => None,
                }
            } else {
                None
            };
            let ghost before = pairs_view(pairs@);
            pairs.push((chunks[i].clone(), beside));
            assert forall|k: int| 0 <= k < i + 1 implies (#[trigger] pairs_view(pairs@)[k])
                == chunk_pairs(all, asked)[k] by {
                if k < i {
                    assert(pairs_view(pairs@)[k] == before[k]);
                }
            }
            i += 1;
        }
        assert(pairs_view(pairs@) =~= chunk_pairs(all, asked));
        pairs
    }

    /// The events of a streamed answer to `message`.  Nothing is recorded.
    pub fn stream_events(&mut self, message: &str) -> (r: Vec<StreamEvent>)
        ensures
            events_view(r@) == reply_events(reply_to(old(self)@, message@)),
            final(self)@ == (MockView {
                response_index: reply_to(old(self)@, message@).next_index,
                ..old(self)@
            }),
    {
        let (text, call) = self.get_next_response(message);
        let chunks = self.split_into_chunks(text.as_str());
        let ghost all = strings_view(chunks@);
        let mut events: Vec<StreamEvent> = Vec::new();
        assert(events_view(events@) =~= Seq::empty());
        let mut i: usize = 0;
        assert(all.take(0) =~= Seq::empty());
        while i < chunks.len()
            invariant
                i <= chunks.len(),
                all == strings_view(chunks@),
                events_view(events@) == chunk_events(all.take(i as int)),
            decreases chunks.len() - i,
        {
            proof {
                assert(all.take(i + 1).drop_last() =~= all.take(i as int));
                assert(all.take(i + 1).last() == chunks@[i as int]@);
            }
            if chunks[i].as_str().unicode_len() > 0 {
                push_event(&mut events, StreamEvent::Text(chunks[i].clone()));
            }
            i += 1;
        }
        assert(all.take(i as int) =~= all);
        let ghost texts = events_view(events@);
        let calls = calls_of_reply(&call);
        let ghost asked = calls_view(calls@);
        let mut calls = calls;
        match calls.pop() {
            Some(call) => {
                push_event(&mut events, StreamEvent::ToolCallComplete(call));
                assert(asked =~= seq![call@]);
                assert(events_view(events@) =~= texts + Seq::new(
                    asked.len(),
                    |i: int| StreamEventView::ToolCallComplete(asked[i]),
                ));
            },
            None => {
                assert(events_view(events@) =~= texts + Seq::new(
                    asked.len(),
                    |i: int| StreamEventView::ToolCallComplete(asked[i]),
                ));
            },
        }
        let ghost called = events_view(events@);
        push_event(&mut events, StreamEvent::Done);
        assert(events_view(events@) =~= called + seq![StreamEventView::Done]);
        events
    }

    /// How to get the next answer as a whole: it is due after twice the
    /// delay between chunks.  Nothing is recorded.
    pub fn answer_plan(&mut self, message: &str) -> (plan: SendPlan)
        ensures
            plan@ == (SendPlanView::Canned {
                text: reply_to(old(self)@, message@).text,
                delay_ms: answer_delay(old(self)@.delay_ms),
            }),
            final(self)@ == (MockView {
                response_index: reply_to(old(self)@, message@).next_index,
                ..old(self)@
            }),
    {
        let (text, _call) = self.get_next_response(message);
        let delay_ms = if self.delay_ms > u64::MAX / 2 {
            u64::MAX
        } else {
            self.delay_ms * 2
        };
        SendPlan::Canned { text, delay_ms }
    }

    /// How to get the next answer as a stream: its events, to be delivered
    /// with the delay between chunks.  Nothing is recorded.
    pub fn stream_plan(&mut self, message: &str) -> (plan: StreamPlan)
        ensures
            plan@ == (StreamPlanView::Canned {
                events: reply_events(reply_to(old(self)@, message@)),
                delay_ms: old(self)@.delay_ms,
            }),
            final(self)@ == (MockView {
                response_index: reply_to(old(self)@, message@).next_index,
                ..old(self)@
            }),
    {
        let events = self.stream_events(message);
        StreamPlan::Canned { events, delay_ms: self.delay_ms }
    }

    /// The history, oldest turn first.
    pub fn get_conversation_history(&self) -> (r: &Vec<ConversationTurn>)
        ensures
            turns_view(r@) == self@.conversation.turns,
    {
        self.conversation.turns()
    }

    /// The system instruction, where one was set.
    pub fn get_system_prompt(&self) -> (r: Option<&String>)
        ensures
            r is Some == self@.conversation.system_instruction is Some,
            r matches Some(text) ==> self@.conversation.system_instruction == Some(text@),
    {
        match self.conversation.system_instruction() {
            Some(text) => Some(text),
            None => None,
        }
    }

    /// The delay between one chunk and the next, in milliseconds.
    pub fn delay_ms(&self) -> (r: u64)
        ensures
            r == self@.delay_ms,
    {
        self.delay_ms
    }
}

impl Clone for MockLLMClient {
    fn clone(&self) -> (r: Self)
        ensures
            r@ == self@,
    {
        let mut function_calls: Vec<(String, Json)> = Vec::new();
        let mut i: usize = 0;
        while i < self.function_calls.len()
            invariant
                i <= self.function_calls.len(),
                function_calls.len() == i,
                forall|k: int|
                    0 <= k < i ==> function_calls@[k].0@ == self.function_calls@[k].0@
                        && function_calls@[k].1@ == self.function_calls@[k].1@,
            decreases self.function_calls.len() - i,
        {
            let entry = &self.function_calls[i];
            function_calls.push((entry.0.clone(), entry.1.clone()));
            i += 1;
        }
        assert(triggers_view(function_calls@) =~= triggers_view(self.function_calls@));
        MockLLMClient {
            conversation: self.conversation.clone(),
            responses: clone_strings(&self.responses),
            response_index: self.response_index,
            streaming_enabled: self.streaming_enabled,
            delay_ms: self.delay_ms,
            function_calls,
        }
    }
}

impl Default for MockLLMClient {
    fn default() -> (r: Self)
        ensures
            r@.responses == default_responses(),
            r@.function_calls.len() == 0,
            r@.conversation.turns.len() == 0,
    {
        MockLLMClient::new()
    }
}

impl ChatClient for MockLLMClient {
    open spec fn conversation(&self) -> ConversationView {
        self@.conversation
    }

    open spec fn planned_message(&self, message: Seq<char>) -> SendPlanView {
        SendPlanView::Canned {
            text: reply_to(self@, message).text,
            delay_ms: answer_delay(self@.delay_ms),
        }
    }

    open spec fn planned_stream(&self, message: Seq<char>) -> StreamPlanView {
        StreamPlanView::Canned {
            events: reply_events(reply_to(self@, message)),
            delay_ms: self@.delay_ms,
        }
    }

    open spec fn follows_plan(&self, message: Seq<char>, after: &Self) -> bool {
        after@ == (MockView { response_index: reply_to(self@, message).next_index, ..self@ })
    }

    open spec fn read_text(&self, status: u16, body: Seq<u8>) -> Result<
        Seq<char>,
        crate::error::ChatErrorView,
    > {
        Ok(crate::text::utf8_lossy(body))
    }

    open spec fn backend_name(&self) -> Seq<char> {
        "MockLLM"@
    }

    fn load_system_prompt(&mut self, prompt_content: &str) -> (r: Result<(), ChatError>)
        ensures
            r is Ok,
            final(self)@ == (MockView {
                conversation: ConversationView {
                    system_instruction: Some(prompt_content@),
                    ..old(self)@.conversation
                },
                ..old(self)@
            }),    {
        self.load_system_prompt(prompt_content)
    }

    fn set_available_tools(&mut self, tools: Vec<ToolDefinition>)
        ensures
            final(self)@ == old(self)@,    {
        self.set_available_tools(tools)
    }

    fn add_user_message(&mut self, message: &str)
        ensures
            final(self)@ == (MockView {
                conversation: ConversationView {
                    turns: old(self)@.conversation.turns.push(user_turn(message@)),
                    ..old(self)@.conversation
                },
                ..old(self)@
            }),    {
        self.add_user_message(message)
    }

    fn add_function_response(&mut self, function_response: &FunctionResponse)
        ensures
            final(self)@ == (MockView {
                conversation: ConversationView {
                    turns: old(self)@.conversation.turns.push(function_turn(function_response@)),
                    ..old(self)@.conversation
                },
                ..old(self)@
            }),    {
        self.add_function_response(function_response)
    }

    fn add_model_response(&mut self, response: &str, function_calls: Vec<FunctionCall>)
        ensures
            final(self)@ == (MockView {
                conversation: ConversationView {
                    turns: old(self)@.conversation.turns.push(
                        model_turn(response@, calls_view(function_calls@)),
                    ),
                    ..old(self)@.conversation
                },
                ..old(self)@
            }),    {
        self.add_model_response(response, function_calls)
    }

    fn clear_conversation(&mut self)
        ensures
            final(self)@ == (MockView {
                conversation: ConversationView {
                    turns: Seq::empty(),
                    ..old(self)@.conversation
                },
                response_index: 0,
                ..old(self)@
            }),    {
        self.clear_conversation()
    }

    fn send_message(&mut self, message: &str) -> (plan: SendPlan) {
        self.answer_plan(message)
    }

    fn send_message_stream(&mut self, message: &str) -> (plan: StreamPlan) {
        self.stream_plan(message)
    }

    /// The mock plans no request, so there is no response to read: the
    /// body is handed back as text.
    fn read_response(&self, status: u16, body: &[u8]) -> (r: Result<String, ChatError>)
        ensures
            r matches Ok(text) && text@ == crate::text::utf8_lossy(body@),
    {
        Ok(crate::text::lossy_text(body))
    }

    fn client_name(&self) -> (r: &'static str)
        ensures
            r@ == "MockLLM"@,
    {
        "MockLLM"
    }
}

} // verus!
