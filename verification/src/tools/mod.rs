//! Tools: what a tool has to offer, and the registry of the built-in ones.
//!
//! The registry knows each tool by the name under which it was registered.
//! It decides whether a call can go ahead, and it wraps what a tool gives
//! into the response that is fed back to the model.  Running a tool is not
//! its business.

use vstd::prelude::*;
use crate::error::{ChatError, ChatErrorView};
use crate::function_calling::{
    definitions_view, FunctionCall, FunctionCallView, FunctionResponse, FunctionResponseView,
    ToolDefinition, ToolDefinitionView,
};
use crate::tools::params::unit_view;
use crate::json::{members_view, push_member, Json, JsonView};
use crate::keyed::{
    distinct_names, find_name, lemma_name_index, lemma_with_name_distinct, name_index, names_view,
    with_name,
};
use crate::text::{join3, opt_text, signed_decimal, signed_decimal_text};

pub mod builtin;
pub mod glob;
pub mod google_web_search;
pub mod list_directory;
pub mod params;
pub mod patterns;
pub mod read_file;
pub mod read_many_files;
pub mod replace;
pub mod report;
pub mod run_shell_command;
pub mod save_memory;
pub mod search_file_content;
pub mod web_fetch;
pub mod write_file;

verus! {

/// What a tool gives when it has run.
#[derive(Debug, PartialEq, Eq)]
pub struct ToolResult {
    /// A one-line account of what was done.
    pub summary: Option<String>,
    /// What is handed back to the model.
    pub llm_content: Json,
    /// What is shown to the user.
    pub return_display: String,
}

pub ghost struct ToolResultView {
    pub summary: Option<Seq<char>>,
    pub llm_content: JsonView,
    pub return_display: Seq<char>,
}

impl View for ToolResult {
    type V = ToolResultView;

    open spec fn view(&self) -> ToolResultView {
        ToolResultView {
            summary: opt_text(self.summary),
            llm_content: self.llm_content@,
            return_display: self.return_display@,
        }
    }
}

/// A place in a file that a tool is about to touch.
#[derive(Debug, PartialEq, Eq)]
pub struct ToolLocation {
    pub path: String,
    pub line: Option<usize>,
}

pub ghost struct ToolLocationView {
    pub path: Seq<char>,
    pub line: Option<usize>,
}

impl View for ToolLocation {
    type V = ToolLocationView;

    open spec fn view(&self) -> ToolLocationView {
        ToolLocationView { path: self.path@, line: self.line }
    }
}

impl Clone for ToolLocation {
    fn clone(&self) -> (r: Self)
        ensures
            r@ == self@,
    {
        ToolLocation { path: self.path.clone(), line: self.line }
    }
}

/// The values of a list of locations.
pub open spec fn locations_view(locations: Seq<ToolLocation>) -> Seq<ToolLocationView> {
    Seq::new(locations.len(), |i: int| locations[i]@)
}

/// What a tool says of itself and of the parameters of a call.  Each
/// answer depends on the tool and on the parameters alone: the spec
/// functions name the answers, and an implementation says what they are.
/// Of an answer whose spec function an implementation leaves as it is
/// here, nothing is known.
pub trait Tool {
    /// The name under which the model calls the tool.
    open spec fn name_text(&self) -> Seq<char> {
        arbitrary()
    }

    /// What the tool does, for the model.
    open spec fn description_text(&self) -> Seq<char> {
        arbitrary()
    }

    /// The tool as it is advertised to the model.
    open spec fn advertised(&self) -> ToolDefinitionView {
        arbitrary()
    }

    /// Whether the tool accepts `params`; the reason where it does not.
    open spec fn validation(&self, params: JsonView) -> Result<(), Seq<char>> {
        arbitrary()
    }

    /// What a call with `params` is going to do, for the user.
    open spec fn call_description(&self, params: JsonView) -> Seq<char> {
        arbitrary()
    }

    /// The places that a call with `params` is going to touch.
    open spec fn call_locations(&self, params: JsonView) -> Seq<ToolLocationView> {
        arbitrary()
    }

    /// The name under which the model calls the tool.
    fn name(&self) -> (r: &str)
        ensures
            r@ == self.name_text(),
    ;

    /// What the tool does, for the model.
    fn description(&self) -> (r: &str)
        ensures
            r@ == self.description_text(),
    ;

    /// The tool as it is advertised to the model.
    fn get_tool_definition(&self) -> (r: ToolDefinition)
        ensures
            r@ == self.advertised(),
    ;

    /// Whether the tool accepts `params`; the reason where it does not.
    fn validate_params(&self, params: &Json) -> (r: Result<(), String>)
        ensures
            unit_view(r) == self.validation(params@),
    ;

    /// What a call with `params` is going to do, for the user.
    fn get_description(&self, params: &Json) -> (r: String)
        ensures
            r@ == self.call_description(params@),
    ;

    /// The places that a call with `params` is going to touch.
    fn tool_locations(&self, params: &Json) -> (r: Vec<ToolLocation>)
        ensures
            locations_view(r@) == self.call_locations(params@),
    ;
}

/// A tool result as JSON: its three members, with `null` for a summary
/// that is missing.
pub open spec fn result_json(result: ToolResultView) -> JsonView {
    JsonView::Object(
        seq![
            (
                "summary"@,
                match result.summary {
                    Some(summary) => JsonView::Str(summary),
                    None => JsonView::Null,
                },
            ),
            ("llm_content"@, result.llm_content),
            ("return_display"@, JsonView::Str(result.return_display)),
        ],
    )
}

/// The id under which the result of a call is fed back: that of the
/// call where it has one, and else the name of the tool, a hyphen, and the
/// time of the call in milliseconds.
pub open spec fn response_id(call: FunctionCallView, millis: i64) -> Seq<char> {
    match call.id {
        Some(id) => id,
        None => call.name + "-"@ + signed_decimal(millis as int),
    }
}

/// The response that feeds `response` back as the result of `call`.
pub open spec fn response_to(call: FunctionCallView, response: JsonView, millis: i64)
    -> FunctionResponseView {
    FunctionResponseView { id: response_id(call, millis), name: call.name, response }
}

/// The response that feeds the result of a tool back to the model.
pub open spec fn tool_response(call: FunctionCallView, result: ToolResultView, millis: i64)
    -> FunctionResponseView {
    response_to(call, result_json(result), millis)
}

/// The JSON that tells the model that a call failed.
pub open spec fn failure_json(message: Seq<char>) -> JsonView {
    JsonView::Object(seq![("success"@, JsonView::Bool(false)), ("error"@, JsonView::Str(message))])
}

impl ToolResult {
    /// The result as JSON.
    pub fn to_json(&self) -> (r: Json)
        ensures
            r@ == result_json(self@),
    {
        let summary = match &self.summary {
            Some(summary) => Json::Str(summary.clone()),
            None => Json::Null,
        };
        let mut members: Vec<(String, Json)> = Vec::new();
        assert(members_view(members@) =~= Seq::empty());
        push_member(&mut members, "summary", summary);
        push_member(&mut members, "llm_content", self.llm_content.clone());
        push_member(&mut members, "return_display", Json::Str(self.return_display.clone()));
        assert(members_view(members@) =~= result_json(self@)->Object_0);
        Json::object(members)
    }
}

/// The id under which the result of `call` is fed back.
pub fn make_response_id(call: &FunctionCall, millis: i64) -> (r: String)
    ensures
        r@ == response_id(call@, millis),
{
    match &call.id {
        Some(id) => id.clone(),
        None => {
            let stamp = signed_decimal_text(millis);
            join3(call.name.as_str(), "-", stamp.as_str())
        },
    }
}

/// The response that feeds `response` back as the result of `call`.
pub fn respond(call: &FunctionCall, response: Json, millis: i64) -> (r: FunctionResponse)
    ensures
        r@ == response_to(call@, response@, millis),
{
    FunctionResponse { id: make_response_id(call, millis), name: call.name.clone(), response }
}

/// The JSON that tells the model that a call failed.
pub fn failure(message: &str) -> (r: Json)
    ensures
        r@ == failure_json(message@),
{
    let mut members: Vec<(String, Json)> = Vec::new();
    assert(members_view(members@) =~= Seq::empty());
    push_member(&mut members, "success", Json::Bool(false));
    push_member(&mut members, "error", Json::string(message));
    assert(members_view(members@) =~= failure_json(message@)->Object_0);
    Json::object(members)
}

/// The tools after `tool` is registered as `name`: it takes the place of
/// the tool of that name where there is one, and else comes last.
pub open spec fn with_tool<T>(names: Seq<Seq<char>>, tools: Seq<T>, name: Seq<char>, tool: T)
    -> Seq<T> {
    match name_index(names, name) {
        Some(at) => tools.update(at, tool),
        None => tools.push(tool),
    }
}

/// The tools as they advertise themselves, in order.
pub open spec fn advertised_by<T: Tool>(tools: Seq<T>) -> Seq<ToolDefinitionView> {
    Seq::new(tools.len(), |i: int| tools[i].advertised())
}

/// Whether a call can go ahead: the index of the tool that is registered
/// under the name of the call, where it accepts the arguments.  No tool
/// under that name is a resolution error; a tool that refuses the
/// arguments is an execution error with the reason that it gave.
pub open spec fn call_checked<T: Tool>(names: Seq<Seq<char>>, tools: Seq<T>, call: FunctionCallView)
    -> Result<int, ChatErrorView> {
    match name_index(names, call.name) {
        None => Err(ChatErrorView::ToolResolution(call.name)),
        Some(at) => match tools[at].validation(call.args) {
            Ok(()) => Ok(at),
            Err(reason) => Err(ChatErrorView::ToolExecution(reason)),
        },
    }
}

/// What a check came to, as a value.
pub open spec fn checked_view(outcome: Result<usize, ChatError>) -> Result<int, ChatErrorView> {
    match outcome {
        Ok(at) => Ok(at as int),
        Err(error) => Err(error@),
    }
}

/// The registry of tools, each under the name that it gave when it was
/// registered.
pub struct ToolRegistry<T: Tool> {
    names: Vec<String>,
    tools: Vec<T>,
}

impl<T: Tool> View for ToolRegistry<T> {
    type V = Seq<Seq<char>>;

    /// The names of the registered tools, in the order of registration.
    closed spec fn view(&self) -> Seq<Seq<char>> {
        names_view(self.names@)
    }
}

impl<T: Tool> ToolRegistry<T> {
    /// The registered tools, each at the index of its name.
    pub closed spec fn tools(&self) -> Seq<T> {
        self.tools@
    }

    /// Whether the registry is as it should be: every name has its tool,
    /// and no name occurs twice.
    pub open spec fn wf(&self) -> bool {
        &&& self@.len() == self.tools().len()
        &&& distinct_names(self@)
    }

    /// A registry without tools.
    pub fn empty() -> (r: Self)
        ensures
            r.wf(),
            r@.len() == 0,
            r.tools().len() == 0,
    {
        let names: Vec<String> = Vec::new();
        let tools: Vec<T> = Vec::new();
        assert(names_view(names@) =~= Seq::empty());
        ToolRegistry { names, tools }
    }

    /// The index of the tool registered as `name`.
    pub fn find(&self, name: &str) -> (r: Option<usize>)
        requires
            self.wf(),
        ensures
            r is Some == self@.contains(name@),
            r matches Some(at) ==> at < self@.len() && self@[at as int] == name@,
            match r {
                Some(at) => name_index(self@, name@) == Some(at as int),
                None => name_index(self@, name@) is None,
            },
    {
        find_name(&self.names, name)
    }

    /// Registers `tool` under `name`.  A tool that was registered under
    /// that name is replaced.
    pub fn register_as(&mut self, name: String, tool: T)
        requires
            old(self).wf(),
        ensures
            final(self).wf(),
            final(self)@ == with_name(old(self)@, name@),
            final(self).tools() == with_tool(old(self)@, old(self).tools(), name@, tool),
    {
        match self.find(name.as_str()) {
            Some(at) => {
                self.tools.set(at, tool);
            },
            None => {
                let ghost before = names_view(self.names@);
                proof {
                    lemma_name_index(before, name@);
                }
                self.names.push(name);
                self.tools.push(tool);
                proof {
                    lemma_with_name_distinct(before, name@);
                }
                assert(names_view(self.names@) =~= before.push(name@));
            },
        }
    }

    /// Registers `tool` under the name that it gives.
    pub fn register_tool(&mut self, tool: T)
        requires
            old(self).wf(),
        ensures
            final(self).wf(),
            final(self)@ == with_name(old(self)@, tool.name_text()),
            final(self).tools() == with_tool(
                old(self)@,
                old(self).tools(),
                tool.name_text(),
                tool,
            ),
    {
        let name = tool.name().to_string();
        self.register_as(name, tool);
    }

    /// The tool registered as `name`.
    pub fn get_tool(&self, name: &str) -> (r: Option<&T>)
        requires
            self.wf(),
        ensures
            r is Some == self@.contains(name@),
            match name_index(self@, name@) {
                Some(at) => r == Some(&self.tools()[at]),
                None => r is None,
            },
    {
        match self.find(name) {
            Some(at) => Some(&self.tools[at]),
            None => None,
        }
    }

    /// The registered tools as they advertise themselves, in the order of
    /// registration.
    pub fn get_available_tools(&self) -> (r: Vec<ToolDefinition>)
        requires
            self.wf(),
        ensures
            definitions_view(r@) == advertised_by(self.tools()),
    {
        let mut out: Vec<ToolDefinition> = Vec::new();
        let mut i: usize = 0;
        while i < self.tools.len()
            invariant
                i <= self.tools.len(),
                out.len() == i,
                forall|k: int| 0 <= k < i ==> (#[trigger] out@[k])@ == self.tools@[k].advertised(),
            decreases self.tools.len() - i,
        {
            out.push(self.tools[i].get_tool_definition());
            i += 1;
        }
        assert(definitions_view(out@) =~= advertised_by(self.tools()));
        out
    }

    /// Whether the call can go ahead: `Ok` with the index of the tool where
    /// a tool is registered under the name of the call and accepts the
    /// arguments.  No tool under that name is a resolution error; a tool
    /// that refuses the arguments is an execution error with the reason
    /// that it gave.
    pub fn check_call(&self, call: &FunctionCall) -> (r: Result<usize, ChatError>)
        requires
            self.wf(),
        ensures
            checked_view(r) == call_checked(self@, self.tools(), call@),
    {
        match self.find(call.name.as_str()) {
            None => Err(ChatError::ToolResolution(call.name.clone())),
            Some(at) => accepted(at, self.tools[at].validate_params(&call.args)),
        }
    }
}

/// What the answer of a tool to its parameters means for the call: the
/// call goes ahead, or fails with the reason that the tool gave.
pub fn accepted(at: usize, answer: Result<(), String>) -> (r: Result<usize, ChatError>)
    ensures
        answer is Ok ==> r == Ok::<usize, ChatError>(at),
        answer matches Err(reason) ==> (r matches Err(error) && error@
            == ChatErrorView::ToolExecution(reason@)),
{
    match answer {
        Ok(()) => Ok(at),
        Err(reason) => Err(ChatError::ToolExecution(reason)),
    }
}

/// The response that feeds the result of a tool back to the model.
pub fn respond_with_result(call: &FunctionCall, result: &ToolResult, millis: i64) -> (r:
    FunctionResponse)
    ensures
        r@ == tool_response(call@, result@, millis),
{
    respond(call, result.to_json(), millis)
}

} // verus!
