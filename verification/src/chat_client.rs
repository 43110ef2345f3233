//! The capability that every backend offers, and the client that is one of
//! them, chosen at run time.

use vstd::prelude::*;
use crate::conversation::{
    function_turn, model_turn, user_turn, ConversationView, TurnView,
};
use crate::error::{ChatError, ChatErrorView};
use crate::function_calling::{
    calls_view, definitions_view, FunctionCall, FunctionResponse, ToolDefinition,
    ToolDefinitionView,
};
use crate::gemini::{
    gemini_request, gemini_response, read_gemini_response, GeminiClient, GeminiClientView,
};
use crate::mock_llm::{
    answer_delay, default_responses, reply_events, reply_to, MockLLMClient, MockView,
};
use crate::openai::{
    openai_request, openai_response, read_openai_response, text_result_view, OpenAIClient,
    OpenAIClientView,
};
use crate::session::Provider;
use crate::text::{strings_view, utf8_lossy};
use crate::transport::{SendPlan, SendPlanView, StreamPlan, StreamPlanView};

verus! {

/// A client for one language-model backend.  It owns the history of one
/// conversation.  None of its methods performs I/O: the two that send a
/// message return what is to be sent.
pub trait ChatClient {
    /// The history and the system instruction that the client holds.
    spec fn conversation(&self) -> ConversationView;

    /// What `send_message` plans for `message`.
    spec fn planned_message(&self, message: Seq<char>) -> SendPlanView;

    /// What `send_message_stream` plans for `message`.
    spec fn planned_stream(&self, message: Seq<char>) -> StreamPlanView;

    /// Whether `after` is this client once it has planned, with either of
    /// the two, how to send `message`.
    spec fn follows_plan(&self, message: Seq<char>, after: &Self) -> bool;

    /// What `read_response` makes of a response with the status `status`
    /// and the body `body`: its text, or the error.
    spec fn read_text(&self, status: u16, body: Seq<u8>) -> Result<Seq<char>, ChatErrorView>;

    /// The name of the backend.
    spec fn backend_name(&self) -> Seq<char>;

    /// Sets the system instruction.
    fn load_system_prompt(&mut self, prompt_content: &str) -> (r: Result<(), ChatError>)
        ensures
            r is Ok,
            final(self).conversation().system_instruction == Some(prompt_content@),
            final(self).conversation().turns == old(self).conversation().turns,
    ;

    /// Sets the tools that are advertised to the model with every request.
    fn set_available_tools(&mut self, tools: Vec<ToolDefinition>)
        ensures
            final(self).conversation() == old(self).conversation(),
    ;

    /// Appends a user turn to the history.
    fn add_user_message(&mut self, message: &str)
        ensures
            final(self).conversation().turns == old(self).conversation().turns.push(
                user_turn(message@),
            ),
            final(self).conversation().system_instruction == old(
                self,
            ).conversation().system_instruction,
    ;

    /// Appends the result of a tool call to the history.
    fn add_function_response(&mut self, function_response: &FunctionResponse)
        ensures
            final(self).conversation().turns == old(self).conversation().turns.push(
                function_turn(function_response@),
            ),
            final(self).conversation().system_instruction == old(
                self,
            ).conversation().system_instruction,
    ;

    /// Appends a model turn to the history: the text of the response and
    /// the tool calls that it asks for.
    fn add_model_response(&mut self, response: &str, function_calls: Vec<FunctionCall>)
        ensures
            final(self).conversation().turns == old(self).conversation().turns.push(
                model_turn(response@, calls_view(function_calls@)),
            ),
            final(self).conversation().system_instruction == old(
                self,
            ).conversation().system_instruction,
    ;

    /// Forgets the history.
    fn clear_conversation(&mut self)
        ensures
            final(self).conversation().turns == Seq::<TurnView>::empty(),
            final(self).conversation().system_instruction == old(
                self,
            ).conversation().system_instruction,
    ;

    /// How to get the whole response to `message`, sent after the history.
    /// An empty `message` continues the conversation as it stands.  The
    /// history is not changed.
    fn send_message(&mut self, message: &str) -> (plan: SendPlan)
        ensures
            plan@ == old(self).planned_message(message@),
            old(self).follows_plan(message@, final(self)),
            final(self).conversation() == old(self).conversation(),
    ;

    /// How to get the response to `message` as a stream of events.  An
    /// empty `message` continues the conversation as it stands.  The
    /// history is not changed.
    fn send_message_stream(&mut self, message: &str) -> (plan: StreamPlan)
        ensures
            plan@ == old(self).planned_stream(message@),
            old(self).follows_plan(message@, final(self)),
            final(self).conversation() == old(self).conversation(),
    ;

    /// Reads the text out of the HTTP response to a request that
    /// `send_message` planned.
    fn read_response(&self, status: u16, body: &[u8]) -> (r: Result<String, ChatError>)
        ensures
            text_result_view(r) == self.read_text(status, body@),
    ;

    /// The name of the backend, for display.
    fn client_name(&self) -> (r: &'static str)
        ensures
            r@ == self.backend_name(),
    ;
}

/// A client for a backend that is chosen at run time.
pub enum AnyChatClient {
    Gemini(GeminiClient),
    OpenAI(OpenAIClient),
    Mock(MockLLMClient),
}

pub ghost enum AnyChatClientView {
    Gemini(GeminiClientView),
    OpenAI(OpenAIClientView),
    Mock(MockView),
}

impl View for AnyChatClient {
    type V = AnyChatClientView;

    open spec fn view(&self) -> AnyChatClientView {
        match self {
            AnyChatClient::Gemini(client) => AnyChatClientView::Gemini(client@),
            AnyChatClient::OpenAI(client) => AnyChatClientView::OpenAI(client@),
            AnyChatClient::Mock(client) => AnyChatClientView::Mock(client@),
        }
    }
}

impl AnyChatClientView {
    /// The history and the system instruction that the client holds.
    pub open spec fn conversation(self) -> ConversationView {
        match self {
            AnyChatClientView::Gemini(client) => client.conversation,
            AnyChatClientView::OpenAI(client) => client.conversation,
            AnyChatClientView::Mock(client) => client.conversation,
        }
    }

    /// The same client, holding `conversation`.
    pub open spec fn with_conversation(self, conversation: ConversationView) -> AnyChatClientView {
        match self {
            AnyChatClientView::Gemini(client) => AnyChatClientView::Gemini(
                GeminiClientView { conversation, ..client },
            ),
            AnyChatClientView::OpenAI(client) => AnyChatClientView::OpenAI(
                OpenAIClientView { conversation, ..client },
            ),
            AnyChatClientView::Mock(client) => AnyChatClientView::Mock(
                MockView { conversation, ..client },
            ),
        }
    }

    /// The same client, advertising `tools`.  The mock advertises
    /// nothing, and stays as it is.
    pub open spec fn with_tools(self, tools: Seq<ToolDefinitionView>) -> AnyChatClientView {
        match self {
            AnyChatClientView::Gemini(client) => AnyChatClientView::Gemini(
                GeminiClientView { available_tools: tools, ..client },
            ),
            AnyChatClientView::OpenAI(client) => AnyChatClientView::OpenAI(
                OpenAIClientView { available_tools: tools, ..client },
            ),
            AnyChatClientView::Mock(client) => self,
        }
    }

    /// The same client with an empty history.  The mock begins its
    /// answers anew.
    pub open spec fn cleared(self) -> AnyChatClientView {
        match self {
            AnyChatClientView::Gemini(client) => AnyChatClientView::Gemini(
                GeminiClientView {
                    conversation: ConversationView { turns: Seq::empty(), ..client.conversation },
                    ..client
                },
            ),
            AnyChatClientView::OpenAI(client) => AnyChatClientView::OpenAI(
                OpenAIClientView {
                    conversation: ConversationView { turns: Seq::empty(), ..client.conversation },
                    ..client
                },
            ),
            AnyChatClientView::Mock(client) => AnyChatClientView::Mock(
                MockView {
                    conversation: ConversationView { turns: Seq::empty(), ..client.conversation },
                    response_index: 0,
                    ..client
                },
            ),
        }
    }

    /// What `send_message` plans for `message`, and the client after it.
    pub open spec fn send_plan(self, message: Seq<char>) -> (SendPlanView, AnyChatClientView) {
        match self {
            AnyChatClientView::Gemini(client) => (
                SendPlanView::Http(gemini_request(client, message, false)),
                self,
            ),
            AnyChatClientView::OpenAI(client) => (
                SendPlanView::Http(openai_request(client, message, false)),
                self,
            ),
            AnyChatClientView::Mock(client) => (
                SendPlanView::Canned {
                    text: reply_to(client, message).text,
                    delay_ms: answer_delay(client.delay_ms),
                },
                AnyChatClientView::Mock(
                    MockView { response_index: reply_to(client, message).next_index, ..client },
                ),
            ),
        }
    }

    /// What `send_message_stream` plans for `message`, and the client
    /// after it.
    pub open spec fn stream_plan(self, message: Seq<char>) -> (StreamPlanView, AnyChatClientView) {
        match self {
            AnyChatClientView::Gemini(client) => (
                StreamPlanView::Http {
                    request: gemini_request(client, message, true),
                    provider: Provider::Gemini,
                },
                self,
            ),
            AnyChatClientView::OpenAI(client) => (
                StreamPlanView::Http {
                    request: openai_request(client, message, true),
                    provider: Provider::OpenAI,
                },
                self,
            ),
            AnyChatClientView::Mock(client) => (
                StreamPlanView::Canned {
                    events: reply_events(reply_to(client, message)),
                    delay_ms: client.delay_ms,
                },
                AnyChatClientView::Mock(
                    MockView { response_index: reply_to(client, message).next_index, ..client },
                ),
            ),
        }
    }
}

impl AnyChatClient {
    /// A Gemini client for `model`.
    pub fn new_gemini(api_key: String, model: String) -> (r: Self)
        ensures
            r@ is Gemini,
            r@->Gemini_0.api_key == api_key@,
            r@->Gemini_0.model == model@,
            r@->Gemini_0.base_url == "https://generativelanguage.googleapis.com/v1beta/models"@,
            r@->Gemini_0.available_tools.len() == 0,
            r@.conversation().turns.len() == 0,
            r@.conversation().system_instruction is None,
    {
        AnyChatClient::Gemini(GeminiClient::new(api_key, model))
    }

    /// An OpenAI client for `model`, at the public endpoint.
    pub fn new_openai(api_key: String, model: String) -> (r: Self)
        ensures
            r@ is OpenAI,
            r@->OpenAI_0.api_key == api_key@,
            r@->OpenAI_0.model == model@,
            r@->OpenAI_0.base_url == "https://api.openai.com/v1"@,
            r@->OpenAI_0.available_tools.len() == 0,
            r@.conversation().turns.len() == 0,
            r@.conversation().system_instruction is None,
    {
        AnyChatClient::OpenAI(OpenAIClient::new(api_key, model))
    }

    /// An OpenAI client for `model`, at the endpoint `base_url`.
    pub fn new_openai_with_base_url(api_key: String, model: String, base_url: String) -> (r: Self)
        ensures
            r@ is OpenAI,
            r@->OpenAI_0.api_key == api_key@,
            r@->OpenAI_0.model == model@,
            r@->OpenAI_0.base_url == base_url@,
            r@->OpenAI_0.available_tools.len() == 0,
            r@.conversation().turns.len() == 0,
            r@.conversation().system_instruction is None,
    {
        AnyChatClient::OpenAI(OpenAIClient::new(api_key, model).with_base_url(base_url))
    }

    /// A mock client with the default responses.
    pub fn new_mock() -> (r: Self)
        ensures
            r@ is Mock,
            r@->Mock_0.responses == default_responses(),
            r@->Mock_0.response_index == 0,
            r@->Mock_0.streaming_enabled,
            r@->Mock_0.delay_ms == 50,
            r@->Mock_0.function_calls.len() == 0,
            r@.conversation().turns.len() == 0,
            r@.conversation().system_instruction is None,
    {
        AnyChatClient::Mock(MockLLMClient::new())
    }

    /// A mock client with `responses` as its canned responses.
    pub fn new_mock_with_responses(responses: Vec<String>) -> (r: Self)
        ensures
            r@ is Mock,
            r@->Mock_0.responses == strings_view(responses@),
            r@->Mock_0.response_index == 0,
            r@->Mock_0.streaming_enabled,
            r@->Mock_0.delay_ms == 50,
            r@->Mock_0.function_calls.len() == 0,
            r@.conversation().turns.len() == 0,
            r@.conversation().system_instruction is None,
    {
        AnyChatClient::Mock(MockLLMClient::with_responses(responses))
    }

    /// How to get the whole response to `message`.
    pub fn plan_message(&mut self, message: &str) -> (plan: SendPlan)
        ensures
            plan@ == old(self)@.send_plan(message@).0,
            final(self)@ == old(self)@.send_plan(message@).1,
    {
        match self {
            AnyChatClient::Gemini(client) => GeminiClient::send_message(client, message),
            AnyChatClient::OpenAI(client) => OpenAIClient::send_message(client, message),
            AnyChatClient::Mock(client) => client.answer_plan(message),
        }
    }

    /// How to get the response to `message` as a stream of events.
    pub fn plan_stream(&mut self, message: &str) -> (plan: StreamPlan)
        ensures
            plan@ == old(self)@.stream_plan(message@).0,
            final(self)@ == old(self)@.stream_plan(message@).1,
    {
        match self {
            AnyChatClient::Gemini(client) => GeminiClient::send_message_stream(client, message),
            AnyChatClient::OpenAI(client) => OpenAIClient::send_message_stream(client, message),
            AnyChatClient::Mock(client) => client.stream_plan(message),
        }
    }
}

impl ChatClient for AnyChatClient {
    open spec fn conversation(&self) -> ConversationView {
        self@.conversation()
    }

    open spec fn planned_message(&self, message: Seq<char>) -> SendPlanView {
        self@.send_plan(message).0
    }

    open spec fn planned_stream(&self, message: Seq<char>) -> StreamPlanView {
        self@.stream_plan(message).0
    }

    open spec fn follows_plan(&self, message: Seq<char>, after: &Self) -> bool {
        after@ == self@.send_plan(message).1
    }

    open spec fn read_text(&self, status: u16, body: Seq<u8>) -> Result<Seq<char>, ChatErrorView> {
        match self@ {
            AnyChatClientView::Gemini(_) => gemini_response(status, body),
            AnyChatClientView::OpenAI(_) => openai_response(status, body),
            AnyChatClientView::Mock(_) => Ok(utf8_lossy(body)),
        }
    }

    open spec fn backend_name(&self) -> Seq<char> {
        match self@ {
            AnyChatClientView::Gemini(_) => "Gemini"@,
            AnyChatClientView::OpenAI(_) => "OpenAI"@,
            AnyChatClientView::Mock(_) => "MockLLM"@,
        }
    }

    fn load_system_prompt(&mut self, prompt_content: &str) -> (r: Result<(), ChatError>)
        ensures
            final(self)@ == old(self)@.with_conversation(
                ConversationView {
                    system_instruction: Some(prompt_content@),
                    ..old(self)@.conversation()
                },
            ),
    {
        match self {
            AnyChatClient::Gemini(client) => client.load_system_prompt(prompt_content),
            AnyChatClient::OpenAI(client) => client.load_system_prompt(prompt_content),
            AnyChatClient::Mock(client) => client.load_system_prompt(prompt_content),
        }
    }

    fn set_available_tools(&mut self, tools: Vec<ToolDefinition>)
        ensures
            final(self)@ == old(self)@.with_tools(definitions_view(tools@)),
    {
        match self {
            AnyChatClient::Gemini(client) => client.set_available_tools(tools),
            AnyChatClient::OpenAI(client) => client.set_available_tools(tools),
            AnyChatClient::Mock(client) => client.set_available_tools(tools),
        }
    }

    fn add_user_message(&mut self, message: &str)
        ensures
            final(self)@ == old(self)@.with_conversation(
                ConversationView {
                    turns: old(self)@.conversation().turns.push(user_turn(message@)),
                    ..old(self)@.conversation()
                },
            ),
    {
        match self {
            AnyChatClient::Gemini(client) => client.add_user_message(message),
            AnyChatClient::OpenAI(client) => client.add_user_message(message),
            AnyChatClient::Mock(client) => client.add_user_message(message),
        }
    }

    fn add_function_response(&mut self, function_response: &FunctionResponse)
        ensures
            final(self)@ == old(self)@.with_conversation(
                ConversationView {
                    turns: old(self)@.conversation().turns.push(
                        function_turn(function_response@),
                    ),
                    ..old(self)@.conversation()
                },
            ),
    {
        match self {
            AnyChatClient::Gemini(client) => client.add_function_response(function_response),
            AnyChatClient::OpenAI(client) => client.add_function_response(function_response),
            AnyChatClient::Mock(client) => client.add_function_response(function_response),
        }
    }

    fn add_model_response(&mut self, response: &str, function_calls: Vec<FunctionCall>)
        ensures
            final(self)@ == old(self)@.with_conversation(
                ConversationView {
                    turns: old(self)@.conversation().turns.push(
                        model_turn(response@, calls_view(function_calls@)),
                    ),
                    ..old(self)@.conversation()
                },
            ),
    {
        match self {
            AnyChatClient::Gemini(client) => client.add_model_response(response, function_calls),
            AnyChatClient::OpenAI(client) => client.add_model_response(response, function_calls),
            AnyChatClient::Mock(client) => client.add_model_response(response, function_calls),
        }
    }

    fn clear_conversation(&mut self)
        ensures
            final(self)@ == old(self)@.cleared(),
    {
        match self {
            AnyChatClient::Gemini(client) => client.clear_conversation(),
            AnyChatClient::OpenAI(client) => client.clear_conversation(),
            AnyChatClient::Mock(client) => client.clear_conversation(),
        }
    }

    fn send_message(&mut self, message: &str) -> (plan: SendPlan)
        ensures
            plan@ == old(self)@.send_plan(message@).0,
            final(self)@ == old(self)@.send_plan(message@).1,
    {
        self.plan_message(message)
    }

    fn send_message_stream(&mut self, message: &str) -> (plan: StreamPlan)
        ensures
            plan@ == old(self)@.stream_plan(message@).0,
            final(self)@ == old(self)@.stream_plan(message@).1,
    {
        self.plan_stream(message)
    }

    fn read_response(&self, status: u16, body: &[u8]) -> (r: Result<String, ChatError>)
        ensures
            self@ is Gemini ==> text_result_view(r) == gemini_response(status, body@),
            self@ is OpenAI ==> text_result_view(r) == openai_response(status, body@),
            self@ is Mock ==> text_result_view(r) == Ok::<Seq<char>, ChatErrorView>(
                utf8_lossy(body@),
            ),
    {
        match self {
            AnyChatClient::Gemini(_) => read_gemini_response(status, body),
            AnyChatClient::OpenAI(_) => read_openai_response(status, body),
            AnyChatClient::Mock(client) => client.read_response(status, body),
        }
    }

    fn client_name(&self) -> (r: &'static str)
        ensures
            self@ is Gemini ==> r@ == "Gemini"@,
            self@ is OpenAI ==> r@ == "OpenAI"@,
            self@ is Mock ==> r@ == "MockLLM"@,
    {
        match self {
            AnyChatClient::Gemini(_) => "Gemini",
            AnyChatClient::OpenAI(_) => "OpenAI",
            AnyChatClient::Mock(_) => "MockLLM",
        }
    }
}

} // verus!
