//! The tool dispatcher: which tool a call goes to, and what is fed back.
//!
//! A call is resolved by its name: the shell command first, then the
//! built-in tools of the registry, then the tools that servers provide.
//! The dispatcher decides; running the tool is left to its caller, who
//! hands back what came of it, to be wrapped for the model.  A call that
//! cannot be run is not an error of the conversation: it is answered with a
//! response that tells the model what went wrong.

use vstd::prelude::*;
use crate::error::{ChatError, ChatErrorView};
use crate::function_calling::{
    definitions_view, FunctionCall, FunctionCallView, FunctionResponse, FunctionResponseView,
    ToolDefinition, ToolDefinitionView,
};
use crate::json::{
    json_parse, members_view, parse_json, push_member, Json, JsonNumber, JsonView, NumberView,
};
use crate::keyed::name_index;
use crate::mcp_client::{arguments_of, call_arguments, owner, McpClientManager, McpManagerView};
use crate::text::{join2, join3, same_text, signed_decimal, signed_decimal_text};
use crate::tools::{
    advertised_by, failure, failure_json, respond, response_to, Tool, ToolRegistry,
};

verus! {

/// The name of the tool that runs a shell command.
pub open spec fn shell_name() -> Seq<char> {
    "shell_command"@
}

/// What a name resolves to.
#[derive(Debug, PartialEq, Eq)]
pub enum ToolHandle {
    /// The shell command.
    Shell,
    /// The built-in tool at this index of the registry.
    BuiltIn(usize),
    /// A tool that this server provides.
    Mcp(String),
}

pub ghost enum ToolHandleView {
    Shell,
    BuiltIn(int),
    Mcp(Seq<char>),
}

impl View for ToolHandle {
    type V = ToolHandleView;

    open spec fn view(&self) -> ToolHandleView {
        match self {
            ToolHandle::Shell => ToolHandleView::Shell,
            ToolHandle::BuiltIn(index) => ToolHandleView::BuiltIn(*index as int),
            ToolHandle::Mcp(server) => ToolHandleView::Mcp(server@),
        }
    }
}

/// The value of an optional handle.
pub open spec fn opt_handle_view(handle: Option<ToolHandle>) -> Option<ToolHandleView> {
    match handle {
        Some(handle) => Some(handle@),
        None => None,
    }
}

/// What is to be run for a call.
#[derive(Debug, PartialEq, Eq)]
pub enum Dispatch {
    /// Run this command in a shell.
    Shell { command: String },
    /// Run the built-in tool at this index of the registry.
    BuiltIn { index: usize },
    /// Call the tool on this server, with these arguments.
    Mcp { server: String, arguments: Option<Json> },
    /// Run nothing: the call fails with this error.
    Failed(ChatError),
}

pub ghost enum DispatchView {
    Shell { command: Seq<char> },
    BuiltIn { index: int },
    Mcp { server: Seq<char>, arguments: Option<JsonView> },
    Failed(ChatErrorView),
}

impl View for Dispatch {
    type V = DispatchView;

    open spec fn view(&self) -> DispatchView {
        match self {
            Dispatch::Shell { command } => DispatchView::Shell { command: command@ },
            Dispatch::BuiltIn { index } => DispatchView::BuiltIn { index: *index as int },
            Dispatch::Mcp { server, arguments } => DispatchView::Mcp {
                server: server@,
                arguments: match arguments {
                    Some(arguments) => Some(arguments@),
                    None => None,
                },
            },
            Dispatch::Failed(error) => DispatchView::Failed(error@),
        }
    }
}

/// What `name` resolves to: the shell command, else a built-in tool, else
/// a tool of a server, else nothing.
pub open spec fn resolution(
    registry: Seq<Seq<char>>,
    servers: Option<McpManagerView>,
    name: Seq<char>,
) -> Option<ToolHandleView> {
    if name == shell_name() {
        Some(ToolHandleView::Shell)
    } else {
        match name_index(registry, name) {
            Some(at) => Some(ToolHandleView::BuiltIn(at)),
            None => match servers {
                Some(table) => match owner(table, name) {
                    Some(server) => Some(ToolHandleView::Mcp(server)),
                    None => None,
                },
                None => None,
            },
        }
    }
}

/// The report of a shell call without a command.
pub open spec fn missing_command() -> Seq<char> {
    "Missing 'command' parameter"@
}

/// The JSON text of the schema of the shell command's parameters.
pub open spec fn shell_schema_text() -> Seq<char> {
    "{\"type\":\"object\",\"properties\":{\"command\":{\"type\":\"string\",\"description\":\"The shell command to execute\"}},\"required\":[\"command\"]}"@
}

/// The schema that a JSON text spells out; the empty object where the
/// text is not JSON.
pub open spec fn schema_of(text: Seq<char>) -> JsonView {
    match json_parse(vstd::utf8::encode_utf8(text)) {
        Ok(schema) => schema,
        Err(_) => JsonView::Object(Seq::empty()),
    }
}

/// How the shell command is advertised.
pub open spec fn shell_definition() -> ToolDefinitionView {
    ToolDefinitionView {
        name: shell_name(),
        description: "Execute a shell command in the current working directory"@,
        parameters: schema_of(shell_schema_text()),
    }
}

/// What a finished process is reported as.
pub ghost struct CommandOutputView {
    pub success: bool,
    pub exit_code: Option<i32>,
    pub stdout: Seq<char>,
    pub stderr: Seq<char>,
}

/// What a finished process is reported as.
#[derive(Debug, PartialEq, Eq)]
pub struct CommandOutput {
    pub success: bool,
    pub exit_code: Option<i32>,
    pub stdout: String,
    pub stderr: String,
}

impl View for CommandOutput {
    type V = CommandOutputView;

    open spec fn view(&self) -> CommandOutputView {
        CommandOutputView {
            success: self.success,
            exit_code: self.exit_code,
            stdout: self.stdout@,
            stderr: self.stderr@,
        }
    }
}

/// An exit code as it is written into a sentence: `Some(n)` or `None`.
pub open spec fn exit_code_text(exit_code: Option<i32>) -> Seq<char> {
    match exit_code {
        Some(code) => "Some("@ + signed_decimal(code as int) + ")"@,
        None => "None"@,
    }
}

/// The sentence that sums up a finished process.
pub open spec fn output_text(output: CommandOutputView) -> Seq<char> {
    if output.success {
        "Command executed successfully.\nOutput:\n"@ + output.stdout
    } else {
        "Command failed with exit code "@ + exit_code_text(output.exit_code) + ".\nStdout:\n"@
            + output.stdout + "\nStderr:\n"@ + output.stderr
    }
}

/// What a finished process is fed back as.
pub open spec fn output_json(output: CommandOutputView) -> JsonView {
    JsonView::Object(
        seq![
            ("success"@, JsonView::Bool(output.success)),
            (
                "exit_code"@,
                match output.exit_code {
                    Some(code) => JsonView::Number(NumberView::Int(code as int)),
                    None => JsonView::Null,
                },
            ),
            ("stdout"@, JsonView::Str(output.stdout)),
            ("stderr"@, JsonView::Str(output.stderr)),
            ("output"@, JsonView::Str(output_text(output))),
        ],
    )
}

impl CommandOutput {
    /// The sentence that sums up the process.
    pub fn summary(&self) -> (r: String)
        ensures
            r@ == output_text(self@),
    {
        if self.success {
            join2("Command executed successfully.\nOutput:\n", self.stdout.as_str())
        } else {
            let code = match self.exit_code {
                Some(code) => {
                    let digits = signed_decimal_text(code as i64);
                    join3("Some(", digits.as_str(), ")")
                },
                None => "None".to_string(),
            };
            let head = join3("Command failed with exit code ", code.as_str(), ".\nStdout:\n");
            let both = join3(head.as_str(), self.stdout.as_str(), "\nStderr:\n");
            join2(both.as_str(), self.stderr.as_str())
        }
    }

    /// What the process is fed back as.
    pub fn to_json(&self) -> (r: Json)
        ensures
            r@ == output_json(self@),
    {
        let exit_code = match self.exit_code {
            Some(code) => Json::Number(JsonNumber::Int(code as i64)),
            None => Json::Null,
        };
        let mut members: Vec<(String, Json)> = Vec::new();
        assert(members_view(members@) =~= Seq::empty());
        push_member(&mut members, "success", Json::Bool(self.success));
        push_member(&mut members, "exit_code", exit_code);
        push_member(&mut members, "stdout", Json::Str(self.stdout.clone()));
        push_member(&mut members, "stderr", Json::Str(self.stderr.clone()));
        push_member(&mut members, "output", Json::Str(self.summary()));
        assert(members_view(members@) =~= output_json(self@)->Object_0);
        Json::object(members)
    }
}

/// The schema that a JSON text spells out.
pub fn parse_schema(text: &str) -> (r: Json)
    ensures
        r@ == schema_of(text@),
{
    match parse_json(text.as_bytes()) {
        Ok(schema) => schema,
        Err(_) => Json::empty_object(),
    }
}

/// How the shell command is advertised.
pub fn make_shell_definition() -> (r: ToolDefinition)
    ensures
        r@ == shell_definition(),
{
    ToolDefinition {
        name: "shell_command".to_string(),
        description: "Execute a shell command in the current working directory".to_string(),
        parameters: parse_schema(
            "{\"type\":\"object\",\"properties\":{\"command\":{\"type\":\"string\",\"description\":\"The shell command to execute\"}},\"required\":[\"command\"]}",
        ),
    }
}

/// The time now, in milliseconds since the start of 1970, read off the
/// system clock by `chrono::Utc::now` and `DateTime::timestamp_millis`.
/// Nothing is known of the value.  On a machine whose clock stands before
/// 1970 `chrono` does not return.
#[verifier::external_body]
pub(crate) fn current_millis() -> i64 {
    chrono::Utc::now().timestamp_millis()
}

/// What is to be run for a call to the registered tool `tool`, which
/// stands at `at`: the tool, where it accepts the arguments; else nothing,
/// and the call fails with the reason that the tool gave.
pub open spec fn tool_dispatch<T: Tool>(tool: T, at: int, args: JsonView) -> DispatchView {
    match tool.validation(args) {
        Ok(()) => DispatchView::BuiltIn { index: at },
        Err(report) => DispatchView::Failed(ChatErrorView::ToolExecution(report)),
    }
}

/// The dispatcher.
pub struct FunctionExecutor<T: Tool> {
    mcp_manager: Option<McpClientManager>,
    tool_registry: ToolRegistry<T>,
}

impl<T: Tool> FunctionExecutor<T> {
    /// Whether the dispatcher is as it should be: its registry and its
    /// table of servers' tools are.
    pub open spec fn wf(&self) -> bool {
        &&& self.registry().wf()
        &&& self.servers() matches Some(table) ==> table.wf()
    }

    /// The registry of the built-in tools.
    pub closed spec fn registry(&self) -> ToolRegistry<T> {
        self.tool_registry
    }

    /// The table of the servers' tools, where there are servers.
    pub closed spec fn servers(&self) -> Option<McpClientManager> {
        self.mcp_manager
    }

    /// The table of the servers' tools, as a value.
    pub open spec fn servers_view(&self) -> Option<McpManagerView> {
        match self.servers() {
            Some(table) => Some(table@),
            None => None,
        }
    }

    /// A dispatcher for the tools of `tool_registry`, without servers.
    pub fn with_registry(tool_registry: ToolRegistry<T>) -> (r: Self)
        requires
            tool_registry.wf(),
        ensures
            r.wf(),
            r.registry() == tool_registry,
            r.servers() is None,
    {
        FunctionExecutor { mcp_manager: None, tool_registry }
    }

    /// The same dispatcher, with the tools of `mcp_manager` as well.
    pub fn with_mcp_manager(self, mcp_manager: McpClientManager) -> (r: Self)
        requires
            self.wf(),
            mcp_manager.wf(),
        ensures
            r.wf(),
            r.registry() == self.registry(),
            r.servers() == Some(mcp_manager),
    {
        let mut executor = self;
        executor.mcp_manager = Some(mcp_manager);
        executor
    }

    /// The registry of the built-in tools.
    pub fn tool_registry(&self) -> (r: &ToolRegistry<T>)
        ensures
            *r == self.registry(),
    {
        &self.tool_registry
    }

    /// Every tool as it is advertised: the shell command, then the
    /// built-in tools, then the tools of the servers.
    pub fn get_available_tools(&self) -> (r: Vec<ToolDefinition>)
        requires
            self.wf(),
        ensures
            definitions_view(r@) == seq![shell_definition()] + advertised_by(
                self.registry().tools(),
            ) + (match self.servers_view() {
                Some(table) => table.definitions,
                None => Seq::empty(),
            }),
    {
        let mut tools: Vec<ToolDefinition> = Vec::new();
        tools.push(make_shell_definition());
        let mut built_in = self.tool_registry.get_available_tools();
        tools.append(&mut built_in);
        match &self.mcp_manager {
            Some(manager) => {
                let mut provided = manager.get_available_tools();
                let ghost head = tools@;
                let ghost tail = provided@;
                tools.append(&mut provided);
                assert(definitions_view(tools@).skip(head.len() as int) =~= definitions_view(tail));
            },
            None => {},
        }
        tools
    }

    /// What `name` resolves to.
    pub fn resolve(&self, name: &str) -> (r: Option<ToolHandle>)
        requires
            self.wf(),
        ensures
            opt_handle_view(r) == resolution(self.registry()@, self.servers_view(), name@),
    {
        if same_text(name, "shell_command") {
            return Some(ToolHandle::Shell);
        }
        match self.tool_registry.find(name) {
            Some(at) => Some(ToolHandle::BuiltIn(at)),
            None => match &self.mcp_manager {
                Some(manager) => match manager.server_of(name) {
                    Some(server) => Some(ToolHandle::Mcp(server)),
                    None => None,
                },
                None => None,
            },
        }
    }

    /// What is to be run for `call`.
    ///
    /// The shell command runs the string `command` of the arguments, and
    /// fails without one.  A built-in tool runs where it accepts the
    /// arguments, and else the call fails with the reason that the tool
    /// gave.  A tool of a server goes to its server, with the arguments
    /// where they are an object.  A name that resolves to nothing fails as
    /// unknown.
    pub fn begin(&self, call: &FunctionCall) -> (r: Dispatch)
        requires
            self.wf(),
        ensures
            match resolution(self.registry()@, self.servers_view(), call@.name) {
                Some(ToolHandleView::Shell) => match call@.args.field("command"@) {
                    Some(JsonView::Str(command)) => r@ == (DispatchView::Shell { command }),
                    _ => r@ == DispatchView::Failed(
                        ChatErrorView::ToolExecution(missing_command()),
                    ),
                },
                Some(ToolHandleView::BuiltIn(at)) => r@ == tool_dispatch(
                    self.registry().tools()[at],
                    at,
                    call@.args,
                ),
                Some(ToolHandleView::Mcp(server)) => r@ == (DispatchView::Mcp {
                    server,
                    arguments: call_arguments(call@),
                }),
                None => r@ == DispatchView::Failed(ChatErrorView::ToolResolution(call@.name)),
            },
    {
        match self.resolve(call.name.as_str()) {
            Some(ToolHandle::Shell) => match call.args.get("command") {
                Some(Json::Str(command)) => Dispatch::Shell { command: command.clone() },
                _ => Dispatch::Failed(
                    ChatError::ToolExecution("Missing 'command' parameter".to_string()),
                ),
            },
            Some(ToolHandle::BuiltIn(_)) => {
                proof {
                    crate::keyed::lemma_name_index(self.registry()@, call@.name);
                }
                match self.tool_registry.check_call(call) {
                    Ok(index) => Dispatch::BuiltIn { index },
                    Err(error) => Dispatch::Failed(error),
                }
            },
            Some(ToolHandle::Mcp(server)) => Dispatch::Mcp { server, arguments: arguments_of(call) },
            None => Dispatch::Failed(ChatError::ToolResolution(call.name.clone())),
        }
    }
}

/// The response that tells the model that `call` failed with `error`.
pub open spec fn failure_response(call: FunctionCallView, error: ChatErrorView, millis: i64)
    -> FunctionResponseView {
    response_to(call, failure_json(error.message()), millis)
}

/// The response that tells the model that `call` failed with `error`.
pub fn respond_with_failure(call: &FunctionCall, error: &ChatError, millis: i64) -> (r:
    FunctionResponse)
    ensures
        r@ == failure_response(call@, error@, millis),
{
    let message = error.message();
    respond(call, failure(message.as_str()), millis)
}

/// The response that feeds `response` back as the result of `call`, under
/// the id of the call, or else under an id made of the name of the tool
/// and the time now.
pub fn respond_now(call: &FunctionCall, response: Json) -> (r: FunctionResponse)
    ensures
        exists|millis: i64| r@ == response_to(call@, response@, millis),
{
    let millis = current_millis();
    let r = respond(call, response, millis);
    assert(r@ == response_to(call@, response@, millis));
    r
}

/// The response that tells the model that `call` failed with `error`,
/// made now.
pub fn fail_now(call: &FunctionCall, error: &ChatError) -> (r: FunctionResponse)
    ensures
        exists|millis: i64| r@ == failure_response(call@, error@, millis),
{
    let millis = current_millis();
    let r = respond_with_failure(call, error, millis);
    assert(r@ == failure_response(call@, error@, millis));
    r
}

} // verus!
