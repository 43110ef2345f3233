//! The client for Gemini-shaped backends.
//!
//! The client keeps the conversation in the form that belongs to no
//! provider.  For each request it writes the history out as contents: one
//! for each turn, with one part for each part of the turn.

use vstd::prelude::*;
use crate::chat_client::ChatClient;
use crate::conversation::{
    parts_view, replayed, turns_view, Conversation, ConversationTurn, ConversationView, Part,
    PartView, Role, TurnView,
};
use crate::error::{ChatError, ChatErrorView};
use crate::function_calling::{
    definitions_view, json_of_call, FunctionResponse, FunctionResponseView, ToolDefinition,
    ToolDefinitionView,
};
use crate::json::{
    items_view, json_parse, json_text, lemma_array_view, members_view, parse_json, push_member,
    Json, JsonNumber, JsonView, NumberView,
};
use crate::openai::{no_choice_reason, reason_result_view, text_result_view};
use crate::session::{shape_reason, Provider};
use crate::text::{join2, lossy_text, utf8_lossy};
use crate::transport::{
    headers_view, is_success, status_is_success, HttpRequest, HttpRequestView, SendPlan,
    SendPlanView, StreamPlan, StreamPlanView,
};

verus! {

/// The result of a tool call as it is written into a part.
pub open spec fn function_response_json(response: FunctionResponseView) -> JsonView {
    JsonView::Object(
        seq![
            ("id"@, JsonView::Str(response.id)),
            ("name"@, JsonView::Str(response.name)),
            ("response"@, response.response),
        ],
    )
}

/// A part as JSON: `text`, `functionCall` or `functionResponse`.
pub open spec fn part_json(part: PartView) -> JsonView {
    match part {
        PartView::Text(text) => JsonView::Object(seq![("text"@, JsonView::Str(text))]),
        PartView::ToolCall(call) => JsonView::Object(seq![("functionCall"@, json_of_call(call))]),
        PartView::ToolResult(response) => JsonView::Object(
            seq![("functionResponse"@, function_response_json(response))],
        ),
    }
}

/// The role under which a turn is written: a function turn goes as `user`.
pub open spec fn role_text(role: Role) -> Seq<char> {
    match role {
        Role::User => "user"@,
        Role::Model => "model"@,
        Role::Function => "user"@,
    }
}

/// A turn as JSON: its parts, in order, and its role.
pub open spec fn content_json(turn: TurnView) -> JsonView {
    JsonView::Object(
        seq![
            (
                "parts"@,
                JsonView::Array(Seq::new(turn.parts.len(), |i: int| part_json(turn.parts[i]))),
            ),
            ("role"@, JsonView::Str(role_text(turn.role))),
        ],
    )
}

/// The turns as JSON, in order.
pub open spec fn contents_json(turns: Seq<TurnView>) -> JsonView {
    JsonView::Array(Seq::new(turns.len(), |i: int| content_json(turns[i])))
}

/// A tool as it is declared in a request.
pub open spec fn declaration_json(definition: ToolDefinitionView) -> JsonView {
    JsonView::Object(
        seq![
            ("name"@, JsonView::Str(definition.name)),
            ("description"@, JsonView::Str(definition.description)),
            ("parameters"@, definition.parameters),
        ],
    )
}

/// The member `tools` of a request: one tool that declares every function.
pub open spec fn tools_json(tools: Seq<ToolDefinitionView>) -> JsonView {
    JsonView::Array(
        seq![
            JsonView::Object(
                seq![
                    (
                        "functionDeclarations"@,
                        JsonView::Array(
                            Seq::new(tools.len(), |i: int| declaration_json(tools[i])),
                        ),
                    ),
                ],
            ),
        ],
    )
}

/// The settings of the generation that every request carries.
pub open spec fn generation_config_json() -> JsonView {
    JsonView::Object(
        seq![
            ("temperature"@, JsonView::Number(NumberView::Float("0.7"@))),
            ("topP"@, JsonView::Number(NumberView::Float("0.95"@))),
            ("topK"@, JsonView::Number(NumberView::Int(40))),
            ("maxOutputTokens"@, JsonView::Number(NumberView::Int(2048))),
        ],
    )
}

/// The member `systemInstruction`, where there is a system instruction.
pub open spec fn system_member(system: Option<Seq<char>>) -> Seq<(Seq<char>, JsonView)> {
    match system {
        Some(text) => seq![
            (
                "systemInstruction"@,
                JsonView::Object(
                    seq![
                        (
                            "parts"@,
                            JsonView::Array(
                                seq![JsonView::Object(seq![("text"@, JsonView::Str(text))])],
                            ),
                        ),
                    ],
                ),
            ),
        ],
        None => Seq::empty(),
    }
}

/// The body of a request: the replayed turns, the generation settings, the
/// system instruction where there is one, and the tools.
pub open spec fn request_json(
    conversation: ConversationView,
    message: Seq<char>,
    tools: Seq<ToolDefinitionView>,
) -> JsonView {
    JsonView::Object(
        seq![
            ("contents"@, contents_json(replayed(conversation.turns, message))),
            ("generationConfig"@, generation_config_json()),
        ] + system_member(conversation.system_instruction) + seq![("tools"@, tools_json(tools))],
    )
}

/// The client's settings and state.
pub ghost struct GeminiClientView {
    pub api_key: Seq<char>,
    pub model: Seq<char>,
    pub base_url: Seq<char>,
    pub conversation: ConversationView,
    pub available_tools: Seq<ToolDefinitionView>,
}

/// The method of the endpoint that a request goes to.
pub open spec fn endpoint_method(stream: bool) -> Seq<char> {
    if stream {
        ":streamGenerateContent?alt=sse&key="@
    } else {
        ":generateContent?key="@
    }
}

/// The request that sends `message` after the history.
pub open spec fn gemini_request(client: GeminiClientView, message: Seq<char>, stream: bool)
    -> HttpRequestView {
    HttpRequestView {
        url: client.base_url + "/"@ + client.model + endpoint_method(stream) + client.api_key,
        headers: seq![("Content-Type"@, "application/json"@)],
        body: json_text(request_json(client.conversation, message, client.available_tools)),
    }
}

/// The reason that is reported for a candidate without parts.
pub open spec fn no_parts_reason() -> Seq<char> {
    "Empty response from API"@
}

/// The reason that is reported for a candidate without a text part.
pub open spec fn no_text_reason() -> Seq<char> {
    "No text content in response"@
}

/// The texts of the parts that have a string `text`, joined in the order
/// of the parts; `None` where no part has one.
pub open spec fn all_text(parts: Seq<JsonView>) -> Option<Seq<char>>
    decreases parts.len(),
{
    if parts.len() == 0 {
        None
    } else {
        match parts.last().field("text"@) {
            Some(JsonView::Str(text)) => match all_text(parts.drop_last()) {
                Some(before) => Some(before + text),
                None => Some(text),
            },
            _ => all_text(parts.drop_last()),
        }
    }
}

/// The text of a response body that was parsed: the texts of all the
/// text parts of the first candidate, joined in order.
pub open spec fn response_text(json: JsonView) -> Result<Seq<char>, Seq<char>> {
    match json.field("candidates"@) {
        Some(JsonView::Array(candidates)) => if candidates.len() == 0 {
            Err(no_choice_reason())
        } else {
            match candidates[0].field("content"@) {
                Some(content) => match content.field("parts"@) {
                    Some(JsonView::Array(parts)) => if parts.len() == 0 {
                        Err(no_parts_reason())
                    } else {
                        match all_text(parts) {
                            Some(text) => Ok(text),
                            None => Err(no_text_reason()),
                        }
                    },
                    _ => Err(shape_reason()),
                },
                None => Err(shape_reason()),
            }
        },
        _ => Err(shape_reason()),
    }
}

/// What a response comes to: its text; a transport error that quotes the
/// body where the status is no success; a protocol error where the body is
/// not JSON, is not shaped as it should be, or holds no text.
pub open spec fn gemini_response(status: u16, body: Seq<u8>) -> Result<Seq<char>, ChatErrorView> {
    if !is_success(status) {
        Err(ChatErrorView::Transport("API request failed: "@ + utf8_lossy(body)))
    } else {
        match json_parse(body) {
            Err(reason) => Err(ChatErrorView::Protocol { reason, payload: utf8_lossy(body) }),
            Ok(json) => match response_text(json) {
                Ok(text) => Ok(text),
                Err(reason) => Err(ChatErrorView::Protocol { reason, payload: utf8_lossy(body) }),
            },
        }
    }
}

/// The object with the one member `key: value`.
fn single(key: &str, value: Json) -> (r: Json)
    ensures
        r@ == JsonView::Object(seq![(key@, value@)]),
{
    let mut members: Vec<(String, Json)> = Vec::new();
    assert(members_view(members@) =~= Seq::empty());
    push_member(&mut members, key, value);
    assert(members_view(members@) =~= seq![(key@, value@)]);
    Json::object(members)
}

/// The result of a tool call as it is written into a part.
fn function_response_to_json(response: &FunctionResponse) -> (r: Json)
    ensures
        r@ == function_response_json(response@),
{
    let mut members: Vec<(String, Json)> = Vec::new();
    assert(members_view(members@) =~= Seq::empty());
    push_member(&mut members, "id", Json::Str(response.id.clone()));
    push_member(&mut members, "name", Json::Str(response.name.clone()));
    push_member(&mut members, "response", response.response.clone());
    assert(members_view(members@) =~= seq![
        ("id"@, JsonView::Str(response@.id)),
        ("name"@, JsonView::Str(response@.name)),
        ("response"@, response@.response),
    ]);
    Json::object(members)
}

/// A part as JSON.
pub fn part_to_json(part: &Part) -> (r: Json)
    ensures
        r@ == part_json(part@),
{
    match part {
        Part::Text(text) => single("text", Json::Str(text.clone())),
        Part::ToolCall(call) => single("functionCall", call.to_json()),
        Part::ToolResult(response) => single(
            "functionResponse",
            function_response_to_json(response),
        ),
    }
}

/// A turn as JSON.
pub fn content_to_json(turn: &ConversationTurn) -> (r: Json)
    ensures
        r@ == content_json(turn@),
{
    let ghost all = parts_view(turn.parts@);
    let mut items: Vec<Json> = Vec::new();
    let mut i: usize = 0;
    while i < turn.parts.len()
        invariant
            i <= turn.parts.len(),
            all == parts_view(turn.parts@),
            items.len() == i,
            forall|k: int| 0 <= k < i ==> items@[k]@ == part_json(all[k]),
        decreases turn.parts.len() - i,
    {
        items.push(part_to_json(&turn.parts[i]));
        i += 1;
    }
    assert(items_view(items@) =~= Seq::new(all.len(), |i: int| part_json(all[i])));
    let role = match turn.role {
        Role::User => "user",
        Role::Model => "model",
        Role::Function => "user",
    };
    let mut members: Vec<(String, Json)> = Vec::new();
    assert(members_view(members@) =~= Seq::empty());
    push_member(&mut members, "parts", Json::array(items));
    push_member(&mut members, "role", Json::string(role));
    assert(members_view(members@) =~= seq![
        ("parts"@, JsonView::Array(Seq::new(all.len(), |i: int| part_json(all[i])))),
        ("role"@, JsonView::Str(role_text(turn.role))),
    ]);
    Json::object(members)
}

/// A tool as it is declared in a request.
fn declaration_to_json(definition: &ToolDefinition) -> (r: Json)
    ensures
        r@ == declaration_json(definition@),
{
    let mut members: Vec<(String, Json)> = Vec::new();
    assert(members_view(members@) =~= Seq::empty());
    push_member(&mut members, "name", Json::Str(definition.name.clone()));
    push_member(&mut members, "description", Json::Str(definition.description.clone()));
    push_member(&mut members, "parameters", definition.parameters.clone());
    assert(members_view(members@) =~= seq![
        ("name"@, JsonView::Str(definition@.name)),
        ("description"@, JsonView::Str(definition@.description)),
        ("parameters"@, definition@.parameters),
    ]);
    Json::object(members)
}

/// The settings of the generation that every request carries.
fn generation_config() -> (r: Json)
    ensures
        r@ == generation_config_json(),
{
    let mut members: Vec<(String, Json)> = Vec::new();
    assert(members_view(members@) =~= Seq::empty());
    push_member(&mut members, "temperature", Json::Number(JsonNumber::Float("0.7".to_string())));
    push_member(&mut members, "topP", Json::Number(JsonNumber::Float("0.95".to_string())));
    push_member(&mut members, "topK", Json::Number(JsonNumber::Int(40)));
    push_member(&mut members, "maxOutputTokens", Json::Number(JsonNumber::Int(2048)));
    assert(members_view(members@) =~= seq![
        ("temperature"@, JsonView::Number(NumberView::Float("0.7"@))),
        ("topP"@, JsonView::Number(NumberView::Float("0.95"@))),
        ("topK"@, JsonView::Number(NumberView::Int(40))),
        ("maxOutputTokens"@, JsonView::Number(NumberView::Int(2048))),
    ]);
    Json::object(members)
}

/// The client for a Gemini-shaped backend.
pub struct GeminiClient {
    api_key: String,
    model: String,
    base_url: String,
    conversation: Conversation,
    available_tools: Vec<ToolDefinition>,
}

impl View for GeminiClient {
    type V = GeminiClientView;

    closed spec fn view(&self) -> GeminiClientView {
        GeminiClientView {
            api_key: self.api_key@,
            model: self.model@,
            base_url: self.base_url@,
            conversation: self.conversation@,
            available_tools: definitions_view(self.available_tools@),
        }
    }
}

impl GeminiClient {
    /// A client for `model` at the public endpoint, with an empty history.
    pub fn new(api_key: String, model: String) -> (r: Self)
        ensures
            r@.api_key == api_key@,
            r@.model == model@,
            r@.base_url == "https://generativelanguage.googleapis.com/v1beta/models"@,
            r@.conversation.turns.len() == 0,
            r@.conversation.system_instruction is None,
            r@.available_tools.len() == 0,
    {
        let available_tools: Vec<ToolDefinition> = Vec::new();
        GeminiClient {
            api_key,
            model,
            base_url: "https://generativelanguage.googleapis.com/v1beta/models".to_string(),
            conversation: Conversation::new(),
            available_tools,
        }
    }

    /// Sets the system instruction.
    pub fn load_system_prompt(&mut self, prompt_content: &str) -> (r: Result<(), ChatError>)
        ensures
            r is Ok,
            final(self)@ == (GeminiClientView {
                conversation: ConversationView {
                    system_instruction: Some(prompt_content@),
                    ..old(self)@.conversation
                },
                ..old(self)@
            }),
    {
        self.conversation.load_system_prompt(prompt_content);
        Ok(())
    }

    /// Sets the tools that are declared with every request.
    pub fn set_available_tools(&mut self, tools: Vec<ToolDefinition>)
        ensures
            final(self)@ == (GeminiClientView {
                available_tools: definitions_view(tools@),
                ..old(self)@
            }),
    {
        self.available_tools = tools;
    }

    /// Appends a user turn to the history.
    pub fn add_user_message(&mut self, message: &str)
        ensures
            final(self)@ == (GeminiClientView {
                conversation: ConversationView {
                    turns: old(self)@.conversation.turns.push(
                        crate::conversation::user_turn(message@),
                    ),
                    ..old(self)@.conversation
                },
                ..old(self)@
            }),
    {
        self.conversation.add_user_message(message);
    }

    /// Appends the result of a tool call to the history.
    pub fn add_function_response(&mut self, function_response: &FunctionResponse)
        ensures
            final(self)@ == (GeminiClientView {
                conversation: ConversationView {
                    turns: old(self)@.conversation.turns.push(
                        crate::conversation::function_turn(function_response@),
                    ),
                    ..old(self)@.conversation
                },
                ..old(self)@
            }),
    {
        self.conversation.add_function_response(function_response);
    }

    /// Appends a model turn to the history.
    pub fn add_model_response(
        &mut self,
        response: &str,
        function_calls: Vec<crate::function_calling::FunctionCall>,
    )
        ensures
            final(self)@ == (GeminiClientView {
                conversation: ConversationView {
                    turns: old(self)@.conversation.turns.push(
                        crate::conversation::model_turn(
                            response@,
                            crate::function_calling::calls_view(function_calls@),
                        ),
                    ),
                    ..old(self)@.conversation
                },
                ..old(self)@
            }),
    {
        self.conversation.add_model_response(response, function_calls);
    }

    /// Forgets the history.
    pub fn clear_conversation(&mut self)
        ensures
            final(self)@ == (GeminiClientView {
                conversation: ConversationView {
                    turns: Seq::empty(),
                    ..old(self)@.conversation
                },
                ..old(self)@
            }),
    {
        self.conversation.clear_conversation();
    }

    /// The conversation that the client holds.
    pub fn conversation(&self) -> (r: &Conversation)
        ensures
            r@ == self@.conversation,
    {
        &self.conversation
    }

    /// The member `tools` of a request.
    pub fn build_tools(&self) -> (r: Json)
        ensures
            r@ == tools_json(self@.available_tools),
    {
        let ghost all = definitions_view(self.available_tools@);
        let mut items: Vec<Json> = Vec::new();
        let mut i: usize = 0;
        while i < self.available_tools.len()
            invariant
                i <= self.available_tools.len(),
                all == definitions_view(self.available_tools@),
                items.len() == i,
                forall|k: int| 0 <= k < i ==> items@[k]@ == declaration_json(all[k]),
            decreases self.available_tools.len() - i,
        {
            items.push(declaration_to_json(&self.available_tools[i]));
            i += 1;
        }
        assert(items_view(items@) =~= Seq::new(all.len(), |i: int| declaration_json(all[i])));
        let tool = single("functionDeclarations", Json::array(items));
        let mut tools: Vec<Json> = Vec::new();
        tools.push(tool);
        assert(items_view(tools@) =~= seq![tool@]);
        Json::array(tools)
    }

    /// The body of the request that sends `message` after the history.
    pub fn request_body(&self, message: &str) -> (r: Json)
        ensures
            r@ == request_json(self@.conversation, message@, self@.available_tools),
    {
        let turns = self.conversation.replay(message);
        let ghost all = turns_view(turns@);
        let mut items: Vec<Json> = Vec::new();
        let mut i: usize = 0;
        while i < turns.len()
            invariant
                i <= turns.len(),
                all == turns_view(turns@),
                items.len() == i,
                forall|k: int| 0 <= k < i ==> items@[k]@ == content_json(all[k]),
            decreases turns.len() - i,
        {
            items.push(content_to_json(&turns[i]));
            i += 1;
        }
        assert(items_view(items@) =~= Seq::new(all.len(), |i: int| content_json(all[i])));
        let mut members: Vec<(String, Json)> = Vec::new();
        assert(members_view(members@) =~= Seq::empty());
        push_member(&mut members, "contents", Json::array(items));
        push_member(&mut members, "generationConfig", generation_config());
        let ghost head = seq![
            ("contents"@, contents_json(all)),
            ("generationConfig"@, generation_config_json()),
        ];
        assert(members_view(members@) =~= head);
        match self.conversation.system_instruction() {
            Some(text) => {
                let mut parts: Vec<Json> = Vec::new();
                let part = single("text", Json::Str(text.clone()));
                parts.push(part);
                assert(items_view(parts@) =~= seq![part@]);
                push_member(&mut members, "systemInstruction", single("parts", Json::array(parts)));
            },
            None => {},
        }
        let ghost with_system = head + system_member(self@.conversation.system_instruction);
        assert(members_view(members@) =~= with_system);
        push_member(&mut members, "tools", self.build_tools());
        assert(members_view(members@) =~= with_system + seq![
            ("tools"@, tools_json(self@.available_tools)),
        ]);
        Json::object(members)
    }

    /// The request that sends `message` after the history.
    pub fn chat_request(&self, message: &str, stream: bool) -> (r: HttpRequest)
        ensures
            r@ == gemini_request(self@, message@, stream),
    {
        let method = if stream {
            ":streamGenerateContent?alt=sse&key="
        } else {
            ":generateContent?key="
        };
        let base = join2(self.base_url.as_str(), "/");
        let named = join2(base.as_str(), self.model.as_str());
        let called = join2(named.as_str(), method);
        let url = join2(called.as_str(), self.api_key.as_str());
        let mut headers: Vec<(String, String)> = Vec::new();
        headers.push(("Content-Type".to_string(), "application/json".to_string()));
        assert(headers_view(headers@) =~= seq![("Content-Type"@, "application/json"@)]);
        let body = self.request_body(message).to_text();
        HttpRequest { url, headers, body }
    }

    /// How to get the whole response to `message`: by the request that
    /// sends it after the history.
    pub fn send_message(&self, message: &str) -> (plan: SendPlan)
        ensures
            plan@ == SendPlanView::Http(gemini_request(self@, message@, false)),
    {
        SendPlan::Http(self.chat_request(message, false))
    }

    /// How to get the response to `message` as a stream: by the request
    /// that sends it after the history and asks for server-sent events.
    pub fn send_message_stream(&self, message: &str) -> (plan: StreamPlan)
        ensures
            plan@ == (StreamPlanView::Http {
                request: gemini_request(self@, message@, true),
                provider: Provider::Gemini,
            }),
    {
        StreamPlan::Http { request: self.chat_request(message, true), provider: Provider::Gemini }
    }
}

/// The texts of the parts that have a string `text`, joined in order.
fn join_text(parts: &Vec<Json>) -> (r: Option<String>)
    ensures
        crate::text::opt_text(r) == all_text(items_view(parts@)),
{
    let ghost all = items_view(parts@);
    let mut found: Option<String> = None;
    let mut i: usize = 0;
    assert(all.take(0) =~= Seq::empty());
    while i < parts.len()
        invariant
            i <= parts.len(),
            all == items_view(parts@),
            crate::text::opt_text(found) == all_text(all.take(i as int)),
        decreases parts.len() - i,
    {
        proof {
            assert(all.take(i + 1).drop_last() =~= all.take(i as int));
            assert(all.take(i + 1).last() == parts@[i as int]@);
        }
        match parts[i].get("text") {
            Some(Json::Str(text)) => {
                found = match found {
                    Some(before) => Some(join2(before.as_str(), text.as_str())),
                    None => Some(text.clone()),
                };
            },
            _ => {},
        }
        i += 1;
    }
    assert(all.take(i as int) =~= all);
    found
}

/// The text of a response body that was parsed.
pub fn read_response_text(json: &Json) -> (r: Result<String, String>)
    ensures
        reason_result_view(r) == response_text(json@),
{
    let candidates = match json.get("candidates") {
        Some(Json::Array(candidates)) => candidates,
        _ => { return Err("unexpected response shape".to_string()); },
    };
    proof {
        lemma_array_view(*candidates);
    }
    if candidates.len() == 0 {
        return Err("No response from API".to_string());
    }
    let parts = match candidates[0].get("content") {
        Some(content) => match content.get("parts") {
            Some(Json::Array(parts)) => parts,
            _ => { return Err("unexpected response shape".to_string()); },
        },
        None => { return Err("unexpected response shape".to_string()); },
    };
    proof {
        lemma_array_view(*parts);
    }
    if parts.len() == 0 {
        return Err("Empty response from API".to_string());
    }
    match join_text(parts) {
        Some(text) => Ok(text),
        None => Err("No text content in response".to_string()),
    }
}

/// Reads the text out of the response to a request.
pub fn read_gemini_response(status: u16, body: &[u8]) -> (r: Result<String, ChatError>)
    ensures
        text_result_view(r) == gemini_response(status, body@),
{
    if !status_is_success(status) {
        let quoted = lossy_text(body);
        return Err(ChatError::Transport(join2("API request failed: ", quoted.as_str())));
    }
    match parse_json(body) {
        Err(reason) => Err(ChatError::Protocol { reason, payload: lossy_text(body) }),
        Ok(json) => match read_response_text(&json) {
            Ok(text) => Ok(text),
            Err(reason) => Err(ChatError::Protocol { reason, payload: lossy_text(body) }),
        },
    }
}

impl ChatClient for GeminiClient {
    open spec fn conversation(&self) -> ConversationView {
        self@.conversation
    }

    open spec fn planned_message(&self, message: Seq<char>) -> SendPlanView {
        SendPlanView::Http(gemini_request(self@, message, false))
    }

    open spec fn planned_stream(&self, message: Seq<char>) -> StreamPlanView {
        StreamPlanView::Http {
            request: gemini_request(self@, message, true),
            provider: Provider::Gemini,
        }
    }

    open spec fn follows_plan(&self, message: Seq<char>, after: &Self) -> bool {
        after@ == self@
    }

    open spec fn read_text(&self, status: u16, body: Seq<u8>) -> Result<Seq<char>, ChatErrorView> {
        gemini_response(status, body)
    }

    open spec fn backend_name(&self) -> Seq<char> {
        "Gemini"@
    }

    fn load_system_prompt(&mut self, prompt_content: &str) -> (r: Result<(), ChatError>)
        ensures
            r is Ok,
            final(self)@ == (GeminiClientView {
                conversation: ConversationView {
                    system_instruction: Some(prompt_content@),
                    ..old(self)@.conversation
                },
                ..old(self)@
            }),    {
        self.load_system_prompt(prompt_content)
    }

    fn set_available_tools(&mut self, tools: Vec<ToolDefinition>)
        ensures
            final(self)@ == (GeminiClientView {
                available_tools: definitions_view(tools@),
                ..old(self)@
            }),    {
        self.set_available_tools(tools)
    }

    fn add_user_message(&mut self, message: &str)
        ensures
            final(self)@ == (GeminiClientView {
                conversation: ConversationView {
                    turns: old(self)@.conversation.turns.push(
                        crate::conversation::user_turn(message@),
                    ),
                    ..old(self)@.conversation
                },
                ..old(self)@
            }),    {
        self.add_user_message(message)
    }

    fn add_function_response(&mut self, function_response: &FunctionResponse)
        ensures
            final(self)@ == (GeminiClientView {
                conversation: ConversationView {
                    turns: old(self)@.conversation.turns.push(
                        crate::conversation::function_turn(function_response@),
                    ),
                    ..old(self)@.conversation
                },
                ..old(self)@
            }),    {
        self.add_function_response(function_response)
    }

    fn add_model_response(
        &mut self,
        response: &str,
        function_calls: Vec<crate::function_calling::FunctionCall>,
    )
        ensures
            final(self)@ == (GeminiClientView {
                conversation: ConversationView {
                    turns: old(self)@.conversation.turns.push(
                        crate::conversation::model_turn(
                            response@,
                            crate::function_calling::calls_view(function_calls@),
                        ),
                    ),
                    ..old(self)@.conversation
                },
                ..old(self)@
            }),    {
        self.add_model_response(response, function_calls)
    }

    fn clear_conversation(&mut self)
        ensures
            final(self)@ == (GeminiClientView {
                conversation: ConversationView {
                    turns: Seq::empty(),
                    ..old(self)@.conversation
                },
                ..old(self)@
            }),    {
        self.clear_conversation()
    }

    fn send_message(&mut self, message: &str) -> (plan: SendPlan)
        ensures
            plan@ == SendPlanView::Http(gemini_request(old(self)@, message@, false)),
            final(self)@ == old(self)@,
    {
        GeminiClient::send_message(self, message)
    }

    fn send_message_stream(&mut self, message: &str) -> (plan: StreamPlan)
        ensures
            plan@ == (StreamPlanView::Http {
                request: gemini_request(old(self)@, message@, true),
                provider: Provider::Gemini,
            }),
            final(self)@ == old(self)@,
    {
        GeminiClient::send_message_stream(self, message)
    }

    fn read_response(&self, status: u16, body: &[u8]) -> (r: Result<String, ChatError>)
        ensures
            text_result_view(r) == gemini_response(status, body@),
    {
        read_gemini_response(status, body)
    }

    fn client_name(&self) -> (r: &'static str)
        ensures
            r@ == "Gemini"@,
    {
        "Gemini"
    }
}

} // verus!
