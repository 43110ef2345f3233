//! Tool calls as data: what the model asks for, what is handed back to it,
//! and how a tool is advertised.

use vstd::prelude::*;
use vstd::string::StringSliceAdditionalSpecFns;
use crate::json::{json_parse, lemma_object_view, members_view, parse_json, Json, JsonView};
use crate::text::{clone_opt, opt_text};

verus! {

/// A request by the model to run the tool `name` on `args`.  `id` is the
/// call id where the provider assigns one.
#[derive(Debug, PartialEq, Eq)]
pub struct FunctionCall {
    pub id: Option<String>,
    pub name: String,
    pub args: Json,
}

pub ghost struct FunctionCallView {
    pub id: Option<Seq<char>>,
    pub name: Seq<char>,
    pub args: JsonView,
}

impl View for FunctionCall {
    type V = FunctionCallView;

    open spec fn view(&self) -> FunctionCallView {
        FunctionCallView { id: opt_text(self.id), name: self.name@, args: self.args@ }
    }
}

impl Clone for FunctionCall {
    fn clone(&self) -> (r: Self)
        ensures
            r@ == self@,
    {
        FunctionCall { id: clone_opt(&self.id), name: self.name.clone(), args: self.args.clone() }
    }
}

/// What a tool call came to, as it is fed back to the model.
#[derive(Debug, PartialEq, Eq)]
pub struct FunctionResponse {
    pub id: String,
    pub name: String,
    pub response: Json,
}

pub ghost struct FunctionResponseView {
    pub id: Seq<char>,
    pub name: Seq<char>,
    pub response: JsonView,
}

impl View for FunctionResponse {
    type V = FunctionResponseView;

    open spec fn view(&self) -> FunctionResponseView {
        FunctionResponseView { id: self.id@, name: self.name@, response: self.response@ }
    }
}

impl Clone for FunctionResponse {
    fn clone(&self) -> (r: Self)
        ensures
            r@ == self@,
    {
        FunctionResponse {
            id: self.id.clone(),
            name: self.name.clone(),
            response: self.response.clone(),
        }
    }
}

/// A tool as it is advertised to the model: its name, what it does, and
/// the JSON schema of its parameters.
#[derive(Debug, PartialEq, Eq)]
pub struct ToolDefinition {
    pub name: String,
    pub description: String,
    pub parameters: Json,
}

pub ghost struct ToolDefinitionView {
    pub name: Seq<char>,
    pub description: Seq<char>,
    pub parameters: JsonView,
}

impl View for ToolDefinition {
    type V = ToolDefinitionView;

    open spec fn view(&self) -> ToolDefinitionView {
        ToolDefinitionView {
            name: self.name@,
            description: self.description@,
            parameters: self.parameters@,
        }
    }
}

impl Clone for ToolDefinition {
    fn clone(&self) -> (r: Self)
        ensures
            r@ == self@,
    {
        ToolDefinition {
            name: self.name.clone(),
            description: self.description.clone(),
            parameters: self.parameters.clone(),
        }
    }
}

/// The values of a list of tool calls.
pub open spec fn calls_view(calls: Seq<FunctionCall>) -> Seq<FunctionCallView> {
    Seq::new(calls.len(), |i: int| calls[i]@)
}

/// The values of a list of tool definitions.
pub open spec fn definitions_view(definitions: Seq<ToolDefinition>) -> Seq<ToolDefinitionView> {
    Seq::new(definitions.len(), |i: int| definitions[i]@)
}

/// A copy of a list of tool calls.
pub fn clone_calls(calls: &Vec<FunctionCall>) -> (r: Vec<FunctionCall>)
    ensures
        calls_view(r@) == calls_view(calls@),
{
    let mut out: Vec<FunctionCall> = Vec::new();
    let mut i: usize = 0;
    while i < calls.len()
        invariant
            i <= calls.len(),
            out.len() == i,
            forall|k: int| 0 <= k < i ==> out@[k]@ == calls@[k]@,
        decreases calls.len() - i,
    {
        out.push(calls[i].clone());
        i += 1;
    }
    assert(calls_view(out@) =~= calls_view(calls@));
    out
}

/// A copy of a list of tool definitions.
pub fn clone_definitions(definitions: &Vec<ToolDefinition>) -> (r: Vec<ToolDefinition>)
    ensures
        definitions_view(r@) == definitions_view(definitions@),
{
    let mut out: Vec<ToolDefinition> = Vec::new();
    let mut i: usize = 0;
    while i < definitions.len()
        invariant
            i <= definitions.len(),
            out.len() == i,
            forall|k: int| 0 <= k < i ==> out@[k]@ == definitions@[k]@,
        decreases definitions.len() - i,
    {
        out.push(definitions[i].clone());
        i += 1;
    }
    assert(definitions_view(out@) =~= definitions_view(definitions@));
    out
}

/// The call that a JSON value spells out: an object with a string `name`
/// and a member `args`, and a string `id` where it has one.  Other members
/// are ignored.
pub open spec fn call_of_json(json: JsonView) -> Option<FunctionCallView> {
    match (json.field("name"@), json.field("args"@)) {
        (Some(JsonView::Str(name)), Some(args)) => Some(
            FunctionCallView {
                id: match json.field("id"@) {
                    Some(JsonView::Str(id)) => Some(id),
                    _ => None,
                },
                name,
                args,
            },
        ),
        _ => None,
    }
}

/// The object `{"name": .., "args": ..}` that spells out a call.
pub open spec fn json_of_call(call: FunctionCallView) -> JsonView {
    JsonView::Object(seq![("name"@, JsonView::Str(call.name)), ("args"@, call.args)])
}

impl FunctionCall {
    /// Reads a call from the JSON value that spells it out.
    pub fn from_json(json: &Json) -> (r: Option<FunctionCall>)
        ensures
            r is Some == call_of_json(json@) is Some,
            r matches Some(call) ==> call_of_json(json@) == Some(call@),
    {
        let name = match json.get("name") {
            Some(Json::Str(name)) => name.clone(),
            _ => { return None; },
        };
        let args = match json.get("args") {
            Some(args) => args.clone(),
            None => { return None; },
        };
        let id = match json.get("id") {
            Some(Json::Str(id)) => Some(id.clone()),
            _ => None,
        };
        Some(FunctionCall { id, name, args })
    }

    /// The object `{"name": .., "args": ..}` for this call.
    pub fn to_json(&self) -> (r: Json)
        ensures
            r@ == json_of_call(self@),
    {
        let mut members: Vec<(String, Json)> = Vec::new();
        members.push(("name".to_string(), Json::Str(self.name.clone())));
        members.push(("args".to_string(), self.args.clone()));
        proof {
            lemma_object_view(members);
            assert(members_view(members@) =~= seq![
                ("name"@, JsonView::Str(self.name@)),
                ("args"@, self.args@),
            ]);
        }
        Json::Object(members)
    }
}

/// The call that a text spells out as JSON, where it does.
pub open spec fn call_of_text(bytes: Seq<u8>) -> Option<FunctionCallView> {
    match json_parse(bytes) {
        Ok(json) => call_of_json(json),
        Err(_) => None,
    }
}

/// Reads a tool call that a text spells out as JSON, where it does.
pub fn parse_function_call_from_text(text: &str) -> (r: Option<FunctionCall>)
    ensures
        r is Some == call_of_text(text.spec_bytes()) is Some,
        r matches Some(call) ==> call_of_text(text.spec_bytes()) == Some(call@),
{
    match parse_json(text.as_bytes()) {
        Ok(json) => FunctionCall::from_json(&json),
        Err(_) => None,
    }
}

} // verus!
