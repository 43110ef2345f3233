//! The client for OpenAI-shaped backends.
//!
//! The client keeps the conversation in the form that belongs to no
//! provider.  For each request it writes the history out as chat messages:
//! the system message first, then one message for each turn, then the new
//! user message.

use vstd::prelude::*;
use crate::chat_client::ChatClient;
use crate::conversation::{
    Conversation, ConversationTurn, ConversationView, Part, PartView, Role, TurnView,
};
use crate::error::{ChatError, ChatErrorView};
use crate::function_calling::{
    definitions_view, FunctionCallView, FunctionResponse, FunctionResponseView, ToolDefinition,
    ToolDefinitionView,
};
use crate::json::{
    items_view, json_parse, json_text, lemma_array_view, members_view, parse_json, push_member,
    Json, JsonNumber, JsonView, NumberView,
};
use crate::session::{shape_reason, Provider};
use crate::text::{append, join2, lossy_text, opt_text, utf8_lossy};
use crate::transport::{
    headers_view, status_is_success, HttpRequest, HttpRequestView, SendPlan, SendPlanView,
    StreamPlan, StreamPlanView, is_success,
};

verus! {

/// One piece of a message whose content is a list.
#[derive(Debug, PartialEq, Eq)]
pub struct ContentPart {
    pub content_type: String,
    pub text: String,
}

pub ghost struct ContentPartView {
    pub content_type: Seq<char>,
    pub text: Seq<char>,
}

impl View for ContentPart {
    type V = ContentPartView;

    open spec fn view(&self) -> ContentPartView {
        ContentPartView { content_type: self.content_type@, text: self.text@ }
    }
}

/// The values of a list of content parts.
pub open spec fn content_parts_view(parts: Seq<ContentPart>) -> Seq<ContentPartView> {
    Seq::new(parts.len(), |i: int| parts[i]@)
}

/// The content of a message: a text, or a list of pieces.
#[derive(Debug, PartialEq, Eq)]
pub enum MessageContent {
    Text(String),
    Array(Vec<ContentPart>),
}

pub ghost enum MessageContentView {
    Text(Seq<char>),
    Array(Seq<ContentPartView>),
}

impl View for MessageContent {
    type V = MessageContentView;

    open spec fn view(&self) -> MessageContentView {
        match self {
            MessageContent::Text(text) => MessageContentView::Text(text@),
            MessageContent::Array(parts) => MessageContentView::Array(content_parts_view(parts@)),
        }
    }
}

/// The function of a tool call on the wire: its name, and its arguments
/// as JSON text.
#[derive(Debug, PartialEq, Eq)]
pub struct FunctionCall {
    pub name: String,
    pub arguments: String,
}

/// A tool call on the wire.
#[derive(Debug, PartialEq, Eq)]
pub struct ToolCall {
    pub id: String,
    pub call_type: String,
    pub function: FunctionCall,
}

pub ghost struct ToolCallView {
    pub id: Seq<char>,
    pub call_type: Seq<char>,
    pub name: Seq<char>,
    pub arguments: Seq<char>,
}

impl View for ToolCall {
    type V = ToolCallView;

    open spec fn view(&self) -> ToolCallView {
        ToolCallView {
            id: self.id@,
            call_type: self.call_type@,
            name: self.function.name@,
            arguments: self.function.arguments@,
        }
    }
}

/// The values of a list of tool calls.
pub open spec fn tool_calls_view(calls: Seq<ToolCall>) -> Seq<ToolCallView> {
    Seq::new(calls.len(), |i: int| calls[i]@)
}

/// The values of an optional list of tool calls.
pub open spec fn opt_tool_calls_view(calls: Option<Vec<ToolCall>>) -> Option<Seq<ToolCallView>> {
    match calls {
        Some(calls) => Some(tool_calls_view(calls@)),
        None => None,
    }
}

/// A chat message on the wire.
#[derive(Debug, PartialEq, Eq)]
pub struct Message {
    pub role: String,
    pub content: MessageContent,
    pub name: Option<String>,
    pub tool_calls: Option<Vec<ToolCall>>,
    pub tool_call_id: Option<String>,
}

pub ghost struct MessageView {
    pub role: Seq<char>,
    pub content: MessageContentView,
    pub name: Option<Seq<char>>,
    pub tool_calls: Option<Seq<ToolCallView>>,
    pub tool_call_id: Option<Seq<char>>,
}

impl View for Message {
    type V = MessageView;

    open spec fn view(&self) -> MessageView {
        MessageView {
            role: self.role@,
            content: self.content@,
            name: opt_text(self.name),
            tool_calls: opt_tool_calls_view(self.tool_calls),
            tool_call_id: opt_text(self.tool_call_id),
        }
    }
}

/// The values of a list of messages.
pub open spec fn messages_view(messages: Seq<Message>) -> Seq<MessageView> {
    Seq::new(messages.len(), |i: int| messages[i]@)
}

/// A message that holds a text and nothing else.
pub open spec fn plain_message(role: Seq<char>, text: Seq<char>) -> MessageView {
    MessageView {
        role,
        content: MessageContentView::Text(text),
        name: None,
        tool_calls: None,
        tool_call_id: None,
    }
}

/// The texts among the parts, joined in order.
pub open spec fn joined_text(parts: Seq<PartView>) -> Seq<char>
    decreases parts.len(),
{
    if parts.len() == 0 {
        Seq::empty()
    } else {
        match parts.last() {
            PartView::Text(text) => joined_text(parts.drop_last()) + text,
            _ => joined_text(parts.drop_last()),
        }
    }
}

/// A tool call as it is written on the wire: under its id, or under its
/// name where it has no id, with its arguments printed as JSON text.
pub open spec fn wire_call(call: FunctionCallView) -> ToolCallView {
    ToolCallView {
        id: match call.id {
            Some(id) => id,
            None => call.name,
        },
        call_type: "function"@,
        name: call.name,
        arguments: json_text(call.args),
    }
}

/// The tool calls among the parts, as written on the wire, in order.
pub open spec fn wire_calls(parts: Seq<PartView>) -> Seq<ToolCallView>
    decreases parts.len(),
{
    if parts.len() == 0 {
        Seq::empty()
    } else {
        match parts.last() {
            PartView::ToolCall(call) => wire_calls(parts.drop_last()).push(wire_call(call)),
            _ => wire_calls(parts.drop_last()),
        }
    }
}

/// The first tool result among the parts.
pub open spec fn first_result(parts: Seq<PartView>) -> Option<FunctionResponseView>
    decreases parts.len(),
{
    if parts.len() == 0 {
        None
    } else {
        match parts[0] {
            PartView::ToolResult(response) => Some(response),
            _ => first_result(parts.drop_first()),
        }
    }
}

/// The message that a turn is written as.  A user turn gives a `user`
/// message with its text.  A model turn gives an `assistant` message with
/// its text and, where it asks for any, its tool calls.  A function turn
/// gives a `tool` message with the result printed as JSON text, under the
/// name of the tool and the id of the call.
pub open spec fn turn_message(turn: TurnView) -> MessageView {
    match turn.role {
        Role::User => plain_message("user"@, joined_text(turn.parts)),
        Role::Model => MessageView {
            tool_calls: if wire_calls(turn.parts).len() == 0 {
                None
            } else {
                Some(wire_calls(turn.parts))
            },
            ..plain_message("assistant"@, joined_text(turn.parts))
        },
        Role::Function => match first_result(turn.parts) {
            Some(response) => MessageView {
                name: Some(response.name),
                tool_call_id: Some(response.id),
                ..plain_message("tool"@, json_text(response.response))
            },
            None => plain_message("tool"@, Seq::empty()),
        },
    }
}

/// The messages that the turns are written as, in order.
pub open spec fn history_messages(turns: Seq<TurnView>) -> Seq<MessageView> {
    Seq::new(turns.len(), |i: int| turn_message(turns[i]))
}

/// The messages of a request: the system message where there is a system
/// instruction, then the history, then the new user message where there is
/// one.
pub open spec fn openai_messages(
    conversation: ConversationView,
    user_message: Option<Seq<char>>,
) -> Seq<MessageView> {
    let system = match conversation.system_instruction {
        Some(text) => seq![plain_message("system"@, text)],
        None => Seq::empty(),
    };
    let user = match user_message {
        Some(text) => seq![plain_message("user"@, text)],
        None => Seq::empty(),
    };
    system + history_messages(conversation.turns) + user
}

/// The new user message of a request for `message`: none where `message`
/// is empty.
pub open spec fn new_message(message: Seq<char>) -> Option<Seq<char>> {
    if message.len() == 0 {
        None
    } else {
        Some(message)
    }
}

/// A content part as JSON.
pub open spec fn content_part_json(part: ContentPartView) -> JsonView {
    JsonView::Object(
        seq![("type"@, JsonView::Str(part.content_type)), ("text"@, JsonView::Str(part.text))],
    )
}

/// The content of a message as JSON: a string, or an array of pieces.
pub open spec fn content_json(content: MessageContentView) -> JsonView {
    match content {
        MessageContentView::Text(text) => JsonView::Str(text),
        MessageContentView::Array(parts) => JsonView::Array(
            Seq::new(parts.len(), |i: int| content_part_json(parts[i])),
        ),
    }
}

/// A tool call as JSON.
pub open spec fn tool_call_json(call: ToolCallView) -> JsonView {
    JsonView::Object(
        seq![
            ("id"@, JsonView::Str(call.id)),
            ("type"@, JsonView::Str(call.call_type)),
            (
                "function"@,
                JsonView::Object(
                    seq![
                        ("name"@, JsonView::Str(call.name)),
                        ("arguments"@, JsonView::Str(call.arguments)),
                    ],
                ),
            ),
        ],
    )
}

/// The member `key` with a text, where there is a text.
pub open spec fn optional_member(key: Seq<char>, text: Option<Seq<char>>) -> Seq<
    (Seq<char>, JsonView),
> {
    match text {
        Some(text) => seq![(key, JsonView::Str(text))],
        None => Seq::empty(),
    }
}

/// The member `tool_calls`, where there are tool calls.
pub open spec fn tool_calls_member(calls: Option<Seq<ToolCallView>>) -> Seq<
    (Seq<char>, JsonView),
> {
    match calls {
        Some(calls) => seq![
            (
                "tool_calls"@,
                JsonView::Array(Seq::new(calls.len(), |i: int| tool_call_json(calls[i]))),
            ),
        ],
        None => Seq::empty(),
    }
}

/// A message as JSON: its role and content, and then only those of
/// `name`, `tool_calls` and `tool_call_id` that it has.
pub open spec fn message_json(message: MessageView) -> JsonView {
    JsonView::Object(
        seq![("role"@, JsonView::Str(message.role)), ("content"@, content_json(message.content))]
            + optional_member("name"@, message.name) + tool_calls_member(message.tool_calls)
            + optional_member("tool_call_id"@, message.tool_call_id),
    )
}

/// A tool as it is advertised in a request.
pub open spec fn tool_json(definition: ToolDefinitionView) -> JsonView {
    JsonView::Object(
        seq![
            ("type"@, JsonView::Str("function"@)),
            (
                "function"@,
                JsonView::Object(
                    seq![
                        ("name"@, JsonView::Str(definition.name)),
                        ("description"@, JsonView::Str(definition.description)),
                        ("parameters"@, definition.parameters),
                    ],
                ),
            ),
        ],
    )
}

/// The member `tools` of a request, where there are tools.
pub open spec fn tools_member(tools: Seq<ToolDefinitionView>) -> Seq<(Seq<char>, JsonView)> {
    if tools.len() == 0 {
        Seq::empty()
    } else {
        seq![("tools"@, JsonView::Array(Seq::new(tools.len(), |i: int| tool_json(tools[i]))))]
    }
}

/// The body of a chat completion request.
pub open spec fn request_json(
    model: Seq<char>,
    messages: Seq<MessageView>,
    tools: Seq<ToolDefinitionView>,
    stream: bool,
) -> JsonView {
    JsonView::Object(
        seq![
            ("model"@, JsonView::Str(model)),
            (
                "messages"@,
                JsonView::Array(Seq::new(messages.len(), |i: int| message_json(messages[i]))),
            ),
            ("temperature"@, JsonView::Number(NumberView::Float("0.7"@))),
            ("top_p"@, JsonView::Number(NumberView::Float("0.95"@))),
            ("max_tokens"@, JsonView::Number(NumberView::Int(2048))),
            ("stream"@, JsonView::Bool(stream)),
        ] + tools_member(tools),
    )
}

/// The client's settings and state.
pub ghost struct OpenAIClientView {
    pub api_key: Seq<char>,
    pub model: Seq<char>,
    pub base_url: Seq<char>,
    pub conversation: ConversationView,
    pub available_tools: Seq<ToolDefinitionView>,
}

/// The request that sends `message` after the history.
pub open spec fn openai_request(client: OpenAIClientView, message: Seq<char>, stream: bool)
    -> HttpRequestView {
    HttpRequestView {
        url: client.base_url + "/chat/completions"@,
        headers: seq![
            ("Authorization"@, "Bearer "@ + client.api_key),
            ("Content-Type"@, "application/json"@),
        ],
        body: json_text(
            request_json(
                client.model,
                openai_messages(client.conversation, new_message(message)),
                client.available_tools,
                stream,
            ),
        ),
    }
}

/// The texts of the pieces of a content list, joined in order, or `None`
/// where a piece has no string `text`.
pub open spec fn pieces_text(pieces: Seq<JsonView>) -> Option<Seq<char>>
    decreases pieces.len(),
{
    if pieces.len() == 0 {
        Some(Seq::empty())
    } else {
        match (pieces_text(pieces.drop_last()), pieces.last().field("text"@)) {
            (Some(before), Some(JsonView::Str(text))) => Some(before + text),
            _ => None,
        }
    }
}

/// The text of the content of a message in a response.
pub open spec fn content_text(content: JsonView) -> Option<Seq<char>> {
    match content {
        JsonView::Str(text) => Some(text),
        JsonView::Array(pieces) => pieces_text(pieces),
        _ => None,
    }
}

/// The reason that is reported for a response without a choice.
pub open spec fn no_choice_reason() -> Seq<char> {
    "No response from API"@
}

/// The text of a response body that was parsed: that of the content of
/// the first choice's message.
pub open spec fn response_text(json: JsonView) -> Result<Seq<char>, Seq<char>> {
    match json.field("choices"@) {
        Some(JsonView::Array(choices)) => if choices.len() == 0 {
            Err(no_choice_reason())
        } else {
            match choices[0].field("message"@) {
                Some(message) => match message.field("content"@) {
                    Some(content) => match content_text(content) {
                        Some(text) => Ok(text),
                        None => Err(shape_reason()),
                    },
                    None => Err(shape_reason()),
                },
                None => Err(shape_reason()),
            }
        },
        _ => Err(shape_reason()),
    }
}

/// What a response comes to: its text; a transport error that quotes the
/// body where the status is no success; a protocol error where the body is
/// not JSON, is not shaped as a chat completion, or has no choice.
pub open spec fn openai_response(status: u16, body: Seq<u8>) -> Result<Seq<char>, ChatErrorView> {
    if !is_success(status) {
        Err(ChatErrorView::Transport("API request failed: "@ + utf8_lossy(body)))
    } else {
        match json_parse(body) {
            Err(reason) => Err(ChatErrorView::Protocol { reason, payload: utf8_lossy(body) }),
            Ok(json) => match response_text(json) {
                Ok(text) => Ok(text),
                Err(reason) => Err(ChatErrorView::Protocol { reason, payload: utf8_lossy(body) }),
            },
        }
    }
}

/// The value of a text or an error.
pub open spec fn text_result_view(result: Result<String, ChatError>) -> Result<
    Seq<char>,
    ChatErrorView,
> {
    match result {
        Ok(text) => Ok(text@),
        Err(error) => Err(error@),
    }
}

/// A message that holds a text and nothing else.
pub fn text_message(role: &str, text: &str) -> (r: Message)
    ensures
        r@ == plain_message(role@, text@),
{
    Message {
        role: role.to_string(),
        content: MessageContent::Text(text.to_string()),
        name: None,
        tool_calls: None,
        tool_call_id: None,
    }
}

/// The texts among the parts, joined in order.
fn join_texts(parts: &Vec<Part>) -> (r: String)
    ensures
        r@ == joined_text(crate::conversation::parts_view(parts@)),
{
    let ghost all = crate::conversation::parts_view(parts@);
    let mut out = String::new();
    let mut i: usize = 0;
    assert(all.take(0) =~= Seq::empty());
    while i < parts.len()
        invariant
            i <= parts.len(),
            all == crate::conversation::parts_view(parts@),
            out@ == joined_text(all.take(i as int)),
        decreases parts.len() - i,
    {
        proof {
            assert(all.take(i + 1).drop_last() =~= all.take(i as int));
            assert(all.take(i + 1).last() == parts@[i as int]@);
        }
        match &parts[i] {
            Part::Text(text) => {
                append(&mut out, text.as_str());
            },
            _ => {},
        }
        i += 1;
    }
    assert(all.take(i as int) =~= all);
    out
}

/// The tool calls among the parts, as written on the wire.
fn collect_calls(parts: &Vec<Part>) -> (r: Vec<ToolCall>)
    ensures
        tool_calls_view(r@) == wire_calls(crate::conversation::parts_view(parts@)),
{
    let ghost all = crate::conversation::parts_view(parts@);
    let mut out: Vec<ToolCall> = Vec::new();
    let mut i: usize = 0;
    assert(all.take(0) =~= Seq::empty());
    assert(tool_calls_view(out@) =~= Seq::empty());
    while i < parts.len()
        invariant
            i <= parts.len(),
            all == crate::conversation::parts_view(parts@),
            tool_calls_view(out@) == wire_calls(all.take(i as int)),
        decreases parts.len() - i,
    {
        proof {
            assert(all.take(i + 1).drop_last() =~= all.take(i as int));
            assert(all.take(i + 1).last() == parts@[i as int]@);
        }
        match &parts[i] {
            Part::ToolCall(call) => {
                let id = match &call.id {
                    Some(id) => id.clone(),
                    None => call.name.clone(),
                };
                let wire = ToolCall {
                    id,
                    call_type: "function".to_string(),
                    function: FunctionCall {
                        name: call.name.clone(),
                        arguments: call.args.to_text(),
                    },
                };
                let ghost before = tool_calls_view(out@);
                out.push(wire);
                assert(tool_calls_view(out@) =~= before.push(wire_call(call@)));
            },
            _ => {},
        }
        i += 1;
    }
    assert(all.take(i as int) =~= all);
    out
}

/// The value of an optional tool result.
pub open spec fn opt_response_view(response: Option<&FunctionResponse>) -> Option<
    FunctionResponseView,
> {
    match response {
        Some(response) => Some(response@),
        None => None,
    }
}

/// The first tool result among the parts.
fn find_result(parts: &Vec<Part>) -> (r: Option<&FunctionResponse>)
    ensures
        opt_response_view(r) == first_result(crate::conversation::parts_view(parts@)),
{
    let ghost all = crate::conversation::parts_view(parts@);
    let mut i: usize = 0;
    assert(all.skip(0) =~= all);
    while i < parts.len()
        invariant
            i <= parts.len(),
            all == crate::conversation::parts_view(parts@),
            first_result(all) == first_result(all.skip(i as int)),
        decreases parts.len() - i,
    {
        proof {
            assert(all.skip(i as int)[0] == parts@[i as int]@);
            assert(all.skip(i as int).drop_first() =~= all.skip(i + 1));
        }
        match &parts[i] {
            Part::ToolResult(response) => {
                return Some(response);
            },
            _ => {},
        }
        i += 1;
    }
    assert(all.skip(i as int) =~= Seq::empty());
    None
}

/// The message that a turn is written as.
pub fn message_of_turn(turn: &ConversationTurn) -> (r: Message)
    ensures
        r@ == turn_message(turn@),
{
    match turn.role {
        Role::User => {
            let text = join_texts(&turn.parts);
            text_message("user", text.as_str())
        },
        Role::Model => {
            let text = join_texts(&turn.parts);
            let calls = collect_calls(&turn.parts);
            let mut message = text_message("assistant", text.as_str());
            if calls.len() > 0 {
                message.tool_calls = Some(calls);
            }
            message
        },
        Role::Function => match find_result(&turn.parts) {
            Some(response) => {
                let text = response.response.to_text();
                let mut message = text_message("tool", text.as_str());
                message.name = Some(response.name.clone());
                message.tool_call_id = Some(response.id.clone());
                message
            },
            None => {
                proof {
                    reveal_strlit("");
                    assert(""@ =~= Seq::<char>::empty());
                }
                text_message("tool", "")
            },
        },
    }
}

/// A content part as JSON.
fn content_part_to_json(part: &ContentPart) -> (r: Json)
    ensures
        r@ == content_part_json(part@),
{
    let mut members: Vec<(String, Json)> = Vec::new();
    assert(members_view(members@) =~= Seq::empty());
    push_member(&mut members, "type", Json::Str(part.content_type.clone()));
    push_member(&mut members, "text", Json::Str(part.text.clone()));
    assert(members_view(members@) =~= seq![
        ("type"@, JsonView::Str(part@.content_type)),
        ("text"@, JsonView::Str(part@.text)),
    ]);
    Json::object(members)
}

/// A tool call as JSON.
fn tool_call_to_json(call: &ToolCall) -> (r: Json)
    ensures
        r@ == tool_call_json(call@),
{
    let mut function: Vec<(String, Json)> = Vec::new();
    assert(members_view(function@) =~= Seq::empty());
    push_member(&mut function, "name", Json::Str(call.function.name.clone()));
    push_member(&mut function, "arguments", Json::Str(call.function.arguments.clone()));
    assert(members_view(function@) =~= seq![
        ("name"@, JsonView::Str(call@.name)),
        ("arguments"@, JsonView::Str(call@.arguments)),
    ]);
    let mut members: Vec<(String, Json)> = Vec::new();
    assert(members_view(members@) =~= Seq::empty());
    push_member(&mut members, "id", Json::Str(call.id.clone()));
    push_member(&mut members, "type", Json::Str(call.call_type.clone()));
    push_member(&mut members, "function", Json::object(function));
    assert(members_view(members@) =~= seq![
        ("id"@, JsonView::Str(call@.id)),
        ("type"@, JsonView::Str(call@.call_type)),
        (
            "function"@,
            JsonView::Object(
                seq![
                    ("name"@, JsonView::Str(call@.name)),
                    ("arguments"@, JsonView::Str(call@.arguments)),
                ],
            ),
        ),
    ]);
    Json::object(members)
}

impl MessageContent {
    /// The content as JSON.
    pub fn to_json(&self) -> (r: Json)
        ensures
            r@ == content_json(self@),
    {
        match self {
            MessageContent::Text(text) => Json::Str(text.clone()),
            MessageContent::Array(parts) => {
                let ghost all = content_parts_view(parts@);
                let mut items: Vec<Json> = Vec::new();
                let mut i: usize = 0;
                while i < parts.len()
                    invariant
                        i <= parts.len(),
                        all == content_parts_view(parts@),
                        items.len() == i,
                        forall|k: int| 0 <= k < i ==> items@[k]@ == content_part_json(all[k]),
                    decreases parts.len() - i,
                {
                    items.push(content_part_to_json(&parts[i]));
                    i += 1;
                }
                assert(items_view(items@) =~= Seq::new(
                    all.len(),
                    |i: int| content_part_json(all[i]),
                ));
                Json::array(items)
            },
        }
    }
}

impl Message {
    /// The message as JSON.
    pub fn to_json(&self) -> (r: Json)
        ensures
            r@ == message_json(self@),
    {
        let mut members: Vec<(String, Json)> = Vec::new();
        assert(members_view(members@) =~= Seq::empty());
        push_member(&mut members, "role", Json::Str(self.role.clone()));
        push_member(&mut members, "content", self.content.to_json());
        let ghost head = seq![
            ("role"@, JsonView::Str(self@.role)),
            ("content"@, content_json(self@.content)),
        ];
        assert(members_view(members@) =~= head);
        match &self.name {
            Some(name) => {
                push_member(&mut members, "name", Json::Str(name.clone()));
            },
            None => {},
        }
        let ghost named = head + optional_member("name"@, self@.name);
        assert(members_view(members@) =~= named);
        match &self.tool_calls {
            Some(calls) => {
                let ghost all = tool_calls_view(calls@);
                let mut items: Vec<Json> = Vec::new();
                let mut i: usize = 0;
                while i < calls.len()
                    invariant
                        i <= calls.len(),
                        all == tool_calls_view(calls@),
                        items.len() == i,
                        forall|k: int| 0 <= k < i ==> items@[k]@ == tool_call_json(all[k]),
                    decreases calls.len() - i,
                {
                    items.push(tool_call_to_json(&calls[i]));
                    i += 1;
                }
                assert(items_view(items@) =~= Seq::new(all.len(), |i: int| tool_call_json(all[i])));
                push_member(&mut members, "tool_calls", Json::array(items));
            },
            None => {},
        }
        let ghost called = named + tool_calls_member(self@.tool_calls);
        assert(members_view(members@) =~= called);
        match &self.tool_call_id {
            Some(id) => {
                push_member(&mut members, "tool_call_id", Json::Str(id.clone()));
            },
            None => {},
        }
        assert(members_view(members@) =~= called + optional_member(
            "tool_call_id"@,
            self@.tool_call_id,
        ));
        Json::object(members)
    }
}

/// A tool as it is advertised in a request.
fn tool_to_json(definition: &ToolDefinition) -> (r: Json)
    ensures
        r@ == tool_json(definition@),
{
    let mut function: Vec<(String, Json)> = Vec::new();
    assert(members_view(function@) =~= Seq::empty());
    push_member(&mut function, "name", Json::Str(definition.name.clone()));
    push_member(&mut function, "description", Json::Str(definition.description.clone()));
    push_member(&mut function, "parameters", definition.parameters.clone());
    assert(members_view(function@) =~= seq![
        ("name"@, JsonView::Str(definition@.name)),
        ("description"@, JsonView::Str(definition@.description)),
        ("parameters"@, definition@.parameters),
    ]);
    let mut members: Vec<(String, Json)> = Vec::new();
    assert(members_view(members@) =~= Seq::empty());
    push_member(&mut members, "type", Json::string("function"));
    push_member(&mut members, "function", Json::object(function));
    assert(members_view(members@) =~= seq![
        ("type"@, JsonView::Str("function"@)),
        (
            "function"@,
            JsonView::Object(
                seq![
                    ("name"@, JsonView::Str(definition@.name)),
                    ("description"@, JsonView::Str(definition@.description)),
                    ("parameters"@, definition@.parameters),
                ],
            ),
        ),
    ]);
    Json::object(members)
}

/// The client for an OpenAI-shaped backend.
pub struct OpenAIClient {
    api_key: String,
    model: String,
    base_url: String,
    conversation: Conversation,
    available_tools: Vec<ToolDefinition>,
}

impl View for OpenAIClient {
    type V = OpenAIClientView;

    closed spec fn view(&self) -> OpenAIClientView {
        OpenAIClientView {
            api_key: self.api_key@,
            model: self.model@,
            base_url: self.base_url@,
            conversation: self.conversation@,
            available_tools: definitions_view(self.available_tools@),
        }
    }
}

impl OpenAIClient {
    /// A client for `model` at the public endpoint, with an empty history.
    pub fn new(api_key: String, model: String) -> (r: Self)
        ensures
            r@.api_key == api_key@,
            r@.model == model@,
            r@.base_url == "https://api.openai.com/v1"@,
            r@.conversation.turns.len() == 0,
            r@.conversation.system_instruction is None,
            r@.available_tools.len() == 0,
    {
        let available_tools: Vec<ToolDefinition> = Vec::new();
        OpenAIClient {
            api_key,
            model,
            base_url: "https://api.openai.com/v1".to_string(),
            conversation: Conversation::new(),
            available_tools,
        }
    }

    /// The same client, for the endpoint at `base_url`.
    pub fn with_base_url(self, base_url: String) -> (r: Self)
        ensures
            r@ == (OpenAIClientView { base_url: base_url@, ..self@ }),
    {
        let mut client = self;
        client.base_url = base_url;
        client
    }

    /// Sets the system instruction.
    pub fn load_system_prompt(&mut self, prompt_content: &str) -> (r: Result<(), ChatError>)
        ensures
            r is Ok,
            final(self)@ == (OpenAIClientView {
                conversation: ConversationView {
                    system_instruction: Some(prompt_content@),
                    ..old(self)@.conversation
                },
                ..old(self)@
            }),
    {
        self.conversation.load_system_prompt(prompt_content);
        Ok(())
    }

    /// Sets the tools that are advertised with every request.
    pub fn set_available_tools(&mut self, tools: Vec<ToolDefinition>)
        ensures
            final(self)@ == (OpenAIClientView {
                available_tools: definitions_view(tools@),
                ..old(self)@
            }),
    {
        self.available_tools = tools;
    }

    /// Appends a user turn to the history.
    pub fn add_user_message(&mut self, message: &str)
        ensures
            final(self)@ == (OpenAIClientView {
                conversation: ConversationView {
                    turns: old(self)@.conversation.turns.push(
                        crate::conversation::user_turn(message@),
                    ),
                    ..old(self)@.conversation
                },
                ..old(self)@
            }),
    {
        self.conversation.add_user_message(message);
    }

    /// Appends the result of a tool call to the history.
    pub fn add_function_response(&mut self, function_response: &FunctionResponse)
        ensures
            final(self)@ == (OpenAIClientView {
                conversation: ConversationView {
                    turns: old(self)@.conversation.turns.push(
                        crate::conversation::function_turn(function_response@),
                    ),
                    ..old(self)@.conversation
                },
                ..old(self)@
            }),
    {
        self.conversation.add_function_response(function_response);
    }

    /// Appends a model turn to the history.
    pub fn add_model_response(
        &mut self,
        response: &str,
        function_calls: Vec<crate::function_calling::FunctionCall>,
    )
        ensures
            final(self)@ == (OpenAIClientView {
                conversation: ConversationView {
                    turns: old(self)@.conversation.turns.push(
                        crate::conversation::model_turn(
                            response@,
                            crate::function_calling::calls_view(function_calls@),
                        ),
                    ),
                    ..old(self)@.conversation
                },
                ..old(self)@
            }),
    {
        self.conversation.add_model_response(response, function_calls);
    }

    /// Forgets the history.
    pub fn clear_conversation(&mut self)
        ensures
            final(self)@ == (OpenAIClientView {
                conversation: ConversationView {
                    turns: Seq::empty(),
                    ..old(self)@.conversation
                },
                ..old(self)@
            }),
    {
        self.conversation.clear_conversation();
    }

    /// The conversation that the client holds.
    pub fn conversation(&self) -> (r: &Conversation)
        ensures
            r@ == self@.conversation,
    {
        &self.conversation
    }

    /// The messages of a request: the system message, the history, and
    /// the new user message where there is one.
    pub fn build_messages(&self, user_message: Option<&str>) -> (r: Vec<Message>)
        ensures
            messages_view(r@) == openai_messages(
                self@.conversation,
                match user_message {
                    Some(text) => Some(text@),
                    None => None,
                },
            ),
    {
        let mut messages: Vec<Message> = Vec::new();
        assert(messages_view(messages@) =~= Seq::empty());
        match self.conversation.system_instruction() {
            Some(text) => {
                messages.push(text_message("system", text.as_str()));
            },
            None => {},
        }
        let ghost system = messages_view(messages@);
        assert(system =~= match self@.conversation.system_instruction {
            Some(text) => seq![plain_message("system"@, text)],
            None => Seq::empty(),
        });
        let turns = self.conversation.turns();
        let ghost all = self@.conversation.turns;
        let mut i: usize = 0;
        assert(system + history_messages(all.take(0)) =~= system);
        while i < turns.len()
            invariant
                i <= turns.len(),
                all == crate::conversation::turns_view(turns@),
                messages_view(messages@) == system + history_messages(all.take(i as int)),
            decreases turns.len() - i,
        {
            let ghost before = messages_view(messages@);
            let message = message_of_turn(&turns[i]);
            messages.push(message);
            proof {
                assert(messages_view(messages@) =~= before.push(turn_message(all[i as int])));
                assert(history_messages(all.take(i + 1)) =~= history_messages(
                    all.take(i as int),
                ).push(turn_message(all[i as int])));
                assert((system + history_messages(all.take(i as int))).push(
                    turn_message(all[i as int]),
                ) =~= system + history_messages(all.take(i + 1)));
            }
            i += 1;
        }
        assert(all.take(i as int) =~= all);
        let ghost replayed = messages_view(messages@);
        match user_message {
            Some(text) => {
                messages.push(text_message("user", text));
                assert(messages_view(messages@) =~= replayed + seq![
                    plain_message("user"@, text@),
                ]);
            },
            None => {
                assert(replayed + Seq::<MessageView>::empty() =~= replayed);
            },
        }
        messages
    }

    /// The member `tools` of a request: the tools that are advertised, or
    /// nothing where there are none.
    pub fn build_tools(&self) -> (r: Option<Json>)
        ensures
            r is Some == (self@.available_tools.len() > 0),
            r matches Some(tools) ==> tools_member(self@.available_tools) == seq![
                ("tools"@, tools@),
            ],
    {
        if self.available_tools.len() == 0 {
            return None;
        }
        let ghost all = definitions_view(self.available_tools@);
        let mut items: Vec<Json> = Vec::new();
        let mut i: usize = 0;
        while i < self.available_tools.len()
            invariant
                i <= self.available_tools.len(),
                all == definitions_view(self.available_tools@),
                items.len() == i,
                forall|k: int| 0 <= k < i ==> items@[k]@ == tool_json(all[k]),
            decreases self.available_tools.len() - i,
        {
            items.push(tool_to_json(&self.available_tools[i]));
            i += 1;
        }
        assert(items_view(items@) =~= Seq::new(all.len(), |i: int| tool_json(all[i])));
        Some(Json::array(items))
    }

    /// The body of the request that sends `message` after the history.
    pub fn request_body(&self, message: &str, stream: bool) -> (r: Json)
        ensures
            r@ == request_json(
                self@.model,
                openai_messages(self@.conversation, new_message(message@)),
                self@.available_tools,
                stream,
            ),
    {
        let messages = if message.unicode_len() == 0 {
            self.build_messages(None)
        } else {
            self.build_messages(Some(message))
        };
        let ghost all = messages_view(messages@);
        let mut items: Vec<Json> = Vec::new();
        let mut i: usize = 0;
        while i < messages.len()
            invariant
                i <= messages.len(),
                all == messages_view(messages@),
                items.len() == i,
                forall|k: int| 0 <= k < i ==> items@[k]@ == message_json(all[k]),
            decreases messages.len() - i,
        {
            items.push(messages[i].to_json());
            i += 1;
        }
        assert(items_view(items@) =~= Seq::new(all.len(), |i: int| message_json(all[i])));
        let mut members: Vec<(String, Json)> = Vec::new();
        assert(members_view(members@) =~= Seq::empty());
        push_member(&mut members, "model", Json::Str(self.model.clone()));
        push_member(&mut members, "messages", Json::array(items));
        push_member(
            &mut members,
            "temperature",
            Json::Number(JsonNumber::Float("0.7".to_string())),
        );
        push_member(&mut members, "top_p", Json::Number(JsonNumber::Float("0.95".to_string())));
        push_member(&mut members, "max_tokens", Json::Number(JsonNumber::Int(2048)));
        push_member(&mut members, "stream", Json::Bool(stream));
        let ghost head = seq![
            ("model"@, JsonView::Str(self@.model)),
            ("messages"@, JsonView::Array(Seq::new(all.len(), |i: int| message_json(all[i])))),
            ("temperature"@, JsonView::Number(NumberView::Float("0.7"@))),
            ("top_p"@, JsonView::Number(NumberView::Float("0.95"@))),
            ("max_tokens"@, JsonView::Number(NumberView::Int(2048))),
            ("stream"@, JsonView::Bool(stream)),
        ];
        assert(members_view(members@) =~= head);
        match self.build_tools() {
            Some(tools) => {
                push_member(&mut members, "tools", tools);
                assert(members_view(members@) =~= head + tools_member(self@.available_tools));
            },
            None => {
                assert(members_view(members@) =~= head + tools_member(self@.available_tools));
            },
        }
        Json::object(members)
    }

    /// The request that sends `message` after the history.
    pub fn chat_request(&self, message: &str, stream: bool) -> (r: HttpRequest)
        ensures
            r@ == openai_request(self@, message@, stream),
    {
        let url = join2(self.base_url.as_str(), "/chat/completions");
        let mut headers: Vec<(String, String)> = Vec::new();
        headers.push(("Authorization".to_string(), join2("Bearer ", self.api_key.as_str())));
        headers.push(("Content-Type".to_string(), "application/json".to_string()));
        assert(headers_view(headers@) =~= seq![
            ("Authorization"@, "Bearer "@ + self@.api_key),
            ("Content-Type"@, "application/json"@),
        ]);
        let body = self.request_body(message, stream).to_text();
        HttpRequest { url, headers, body }
    }

    /// How to get the whole response to `message`: by the request that
    /// sends it after the history.
    pub fn send_message(&self, message: &str) -> (plan: SendPlan)
        ensures
            plan@ == SendPlanView::Http(openai_request(self@, message@, false)),
    {
        SendPlan::Http(self.chat_request(message, false))
    }

    /// How to get the response to `message` as a stream: by the request
    /// that sends it after the history and asks for a stream.
    pub fn send_message_stream(&self, message: &str) -> (plan: StreamPlan)
        ensures
            plan@ == (StreamPlanView::Http {
                request: openai_request(self@, message@, true),
                provider: Provider::OpenAI,
            }),
    {
        StreamPlan::Http { request: self.chat_request(message, true), provider: Provider::OpenAI }
    }
}

/// The texts of the pieces of a content list, joined in order.
fn join_pieces(pieces: &Vec<Json>) -> (r: Option<String>)
    ensures
        opt_text(r) == pieces_text(items_view(pieces@)),
{
    let ghost all = items_view(pieces@);
    let mut out = String::new();
    let mut i: usize = 0;
    assert(all.take(0) =~= Seq::empty());
    while i < pieces.len()
        invariant
            i <= pieces.len(),
            all == items_view(pieces@),
            pieces_text(all.take(i as int)) == Some(out@),
        decreases pieces.len() - i,
    {
        proof {
            assert(all.take(i + 1).drop_last() =~= all.take(i as int));
            assert(all.take(i + 1).last() == pieces@[i as int]@);
        }
        match pieces[i].get("text") {
            Some(Json::Str(text)) => {
                append(&mut out, text.as_str());
            },
            _ => {
                proof {
                    assert(pieces_text(all.take(i + 1)) is None);
                    lemma_pieces_text_prefix(all, i + 1);
                }
                return None;
            },
        }
        i += 1;
    }
    assert(all.take(i as int) =~= all);
    Some(out)
}

/// Where a prefix of the pieces has no text, neither have the pieces.
proof fn lemma_pieces_text_prefix(pieces: Seq<JsonView>, n: int)
    requires
        0 <= n <= pieces.len(),
        pieces_text(pieces.take(n)) is None,
    ensures
        pieces_text(pieces) is None,
    decreases pieces.len() - n,
{
    if n < pieces.len() {
        assert(pieces.take(n + 1).drop_last() =~= pieces.take(n));
        lemma_pieces_text_prefix(pieces, n + 1);
    } else {
        assert(pieces.take(n) =~= pieces);
    }
}

/// The value of a text or a reason.
pub open spec fn reason_result_view(result: Result<String, String>) -> Result<Seq<char>, Seq<char>> {
    match result {
        Ok(text) => Ok(text@),
        Err(reason) => Err(reason@),
    }
}

/// The text of a response body that was parsed.
pub fn read_response_text(json: &Json) -> (r: Result<String, String>)
    ensures
        reason_result_view(r) == response_text(json@),
{
    let choices = match json.get("choices") {
        Some(Json::Array(choices)) => choices,
        _ => { return Err("unexpected response shape".to_string()); },
    };
    proof {
        lemma_array_view(*choices);
    }
    if choices.len() == 0 {
        return Err("No response from API".to_string());
    }
    let content = match choices[0].get("message") {
        Some(message) => match message.get("content") {
            Some(content) => content,
            None => { return Err("unexpected response shape".to_string()); },
        },
        None => { return Err("unexpected response shape".to_string()); },
    };
    let text = match content {
        Json::Str(text) => Some(text.clone()),
        Json::Array(pieces) => {
            proof {
                lemma_array_view(*pieces);
            }
            join_pieces(pieces)
        },
        _ => None,
    };
    match text {
        Some(text) => Ok(text),
        None => Err("unexpected response shape".to_string()),
    }
}

/// Reads the text out of the response to a chat completion request.
pub fn read_openai_response(status: u16, body: &[u8]) -> (r: Result<String, ChatError>)
    ensures
        text_result_view(r) == openai_response(status, body@),
{
    if !status_is_success(status) {
        let quoted = lossy_text(body);
        return Err(ChatError::Transport(join2("API request failed: ", quoted.as_str())));
    }
    match parse_json(body) {
        Err(reason) => Err(ChatError::Protocol { reason, payload: lossy_text(body) }),
        Ok(json) => match read_response_text(&json) {
            Ok(text) => Ok(text),
            Err(reason) => Err(ChatError::Protocol { reason, payload: lossy_text(body) }),
        },
    }
}

impl ChatClient for OpenAIClient {
    open spec fn conversation(&self) -> ConversationView {
        self@.conversation
    }

    open spec fn planned_message(&self, message: Seq<char>) -> SendPlanView {
        SendPlanView::Http(openai_request(self@, message, false))
    }

    open spec fn planned_stream(&self, message: Seq<char>) -> StreamPlanView {
        StreamPlanView::Http {
            request: openai_request(self@, message, true),
            provider: Provider::OpenAI,
        }
    }

    open spec fn follows_plan(&self, message: Seq<char>, after: &Self) -> bool {
        after@ == self@
    }

    open spec fn read_text(&self, status: u16, body: Seq<u8>) -> Result<Seq<char>, ChatErrorView> {
        openai_response(status, body)
    }

    open spec fn backend_name(&self) -> Seq<char> {
        "OpenAI"@
    }

    fn load_system_prompt(&mut self, prompt_content: &str) -> (r: Result<(), ChatError>)
        ensures
            r is Ok,
            final(self)@ == (OpenAIClientView {
                conversation: ConversationView {
                    system_instruction: Some(prompt_content@),
                    ..old(self)@.conversation
                },
                ..old(self)@
            }),    {
        self.load_system_prompt(prompt_content)
    }

    fn set_available_tools(&mut self, tools: Vec<ToolDefinition>)
        ensures
            final(self)@ == (OpenAIClientView {
                available_tools: definitions_view(tools@),
                ..old(self)@
            }),    {
        self.set_available_tools(tools)
    }

    fn add_user_message(&mut self, message: &str)
        ensures
            final(self)@ == (OpenAIClientView {
                conversation: ConversationView {
                    turns: old(self)@.conversation.turns.push(
                        crate::conversation::user_turn(message@),
                    ),
                    ..old(self)@.conversation
                },
                ..old(self)@
            }),    {
        self.add_user_message(message)
    }

    fn add_function_response(&mut self, function_response: &FunctionResponse)
        ensures
            final(self)@ == (OpenAIClientView {
                conversation: ConversationView {
                    turns: old(self)@.conversation.turns.push(
                        crate::conversation::function_turn(function_response@),
                    ),
                    ..old(self)@.conversation
                },
                ..old(self)@
            }),    {
        self.add_function_response(function_response)
    }

    fn add_model_response(
        &mut self,
        response: &str,
        function_calls: Vec<crate::function_calling::FunctionCall>,
    )
        ensures
            final(self)@ == (OpenAIClientView {
                conversation: ConversationView {
                    turns: old(self)@.conversation.turns.push(
                        crate::conversation::model_turn(
                            response@,
                            crate::function_calling::calls_view(function_calls@),
                        ),
                    ),
                    ..old(self)@.conversation
                },
                ..old(self)@
            }),    {
        self.add_model_response(response, function_calls)
    }

    fn clear_conversation(&mut self)
        ensures
            final(self)@ == (OpenAIClientView {
                conversation: ConversationView {
                    turns: Seq::empty(),
                    ..old(self)@.conversation
                },
                ..old(self)@
            }),    {
        self.clear_conversation()
    }

    fn send_message(&mut self, message: &str) -> (plan: SendPlan)
        ensures
            plan@ == SendPlanView::Http(openai_request(old(self)@, message@, false)),
            final(self)@ == old(self)@,
    {
        OpenAIClient::send_message(self, message)
    }

    fn send_message_stream(&mut self, message: &str) -> (plan: StreamPlan)
        ensures
            plan@ == (StreamPlanView::Http {
                request: openai_request(old(self)@, message@, true),
                provider: Provider::OpenAI,
            }),
            final(self)@ == old(self)@,
    {
        OpenAIClient::send_message_stream(self, message)
    }

    fn read_response(&self, status: u16, body: &[u8]) -> (r: Result<String, ChatError>)
        ensures
            text_result_view(r) == openai_response(status, body@),
    {
        read_openai_response(status, body)
    }

    fn client_name(&self) -> (r: &'static str)
        ensures
            r@ == "OpenAI"@,
    {
        "OpenAI"
    }
}

} // verus!
