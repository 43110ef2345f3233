//! Tools that servers of the Model Context Protocol provide.
//!
//! The manager keeps the table of the tools that were discovered: each
//! under its name, with the server that owns it and how it is advertised.
//! Starting the servers and calling them is left to whoever holds the
//! processes; the manager says which server a call goes to, with which
//! arguments, and wraps what came back.

use vstd::prelude::*;
use crate::function_calling::{
    definitions_view, FunctionCall, FunctionCallView, FunctionResponse, FunctionResponseView,
    ToolDefinition, ToolDefinitionView,
};
use crate::input_manager::{
    inputs_view, resolved_value, with_inputs, InputManager, InputManagerView, McpInput,
    McpInputView,
};
use crate::json::{members_view, push_member, Json, JsonView};
use crate::keyed::{
    distinct_names, find_name, lemma_name_index, lemma_with_name_distinct, name_index, names_view,
    with_name,
};
use crate::text::{join2, opt_text, strings_view};
use crate::tools::{respond, response_to};

verus! {

/// How one server is started.
#[derive(Debug, PartialEq, Eq)]
pub struct McpServerConfig {
    pub command: String,
    pub args: Vec<String>,
    /// The environment of the server, each entry a name and a value.  A
    /// value may be a placeholder for an input.
    pub env: Vec<(String, String)>,
}

/// The configuration of the servers.
#[derive(Debug, PartialEq, Eq)]
pub struct McpConfig {
    pub inputs: Option<Vec<McpInput>>,
    /// The servers, each under its name.
    pub servers: Vec<(String, McpServerConfig)>,
}

/// The inputs that a configuration declares.
pub open spec fn declared(inputs: Option<Vec<McpInput>>) -> Seq<McpInputView> {
    match inputs {
        Some(inputs) => inputs_view(inputs@),
        None => Seq::empty(),
    }
}

/// How a tool is advertised: under its name, with the description that
/// its server gave, or else one made of its name, and with its schema.
pub open spec fn mcp_definition(name: Seq<char>, description: Option<Seq<char>>, schema: JsonView)
    -> ToolDefinitionView {
    ToolDefinitionView {
        name,
        description: match description {
            Some(description) => description,
            None => "MCP tool: "@ + name,
        },
        parameters: schema,
    }
}

/// The table of the discovered tools.
pub struct McpClientManager {
    names: Vec<String>,
    servers: Vec<String>,
    definitions: Vec<ToolDefinition>,
    input_manager: InputManager,
}

pub ghost struct McpManagerView {
    /// The names of the tools, each once, in the order of discovery.
    pub names: Seq<Seq<char>>,
    /// The server that owns each tool.
    pub servers: Seq<Seq<char>>,
    /// How each tool is advertised.
    pub definitions: Seq<ToolDefinitionView>,
}

impl View for McpClientManager {
    type V = McpManagerView;

    closed spec fn view(&self) -> McpManagerView {
        McpManagerView {
            names: names_view(self.names@),
            servers: strings_view(self.servers@),
            definitions: definitions_view(self.definitions@),
        }
    }
}

/// The table after a tool is discovered: it takes the place of the tool
/// of its name where there is one, and else comes last.
pub open spec fn with_tool(
    table: McpManagerView,
    server: Seq<char>,
    definition: ToolDefinitionView,
) -> McpManagerView {
    match name_index(table.names, definition.name) {
        Some(at) => McpManagerView {
            names: table.names,
            servers: table.servers.update(at, server),
            definitions: table.definitions.update(at, definition),
        },
        None => McpManagerView {
            names: table.names.push(definition.name),
            servers: table.servers.push(server),
            definitions: table.definitions.push(definition),
        },
    }
}

/// The server that owns the tool `name`.
pub open spec fn owner(table: McpManagerView, name: Seq<char>) -> Option<Seq<char>> {
    match name_index(table.names, name) {
        Some(at) => Some(table.servers[at]),
        None => None,
    }
}

/// The arguments with which a server is called: those of the call where
/// they are an object, and else none.
pub open spec fn call_arguments(call: FunctionCallView) -> Option<JsonView> {
    if call.args is Object {
        Some(call.args)
    } else {
        None
    }
}

/// What a server's answer is fed back as: its content, marked as a
/// success, or as a failure where the server said that the call failed.
pub open spec fn answer_json(is_error: Option<bool>, content: JsonView) -> JsonView {
    if is_error == Some(true) {
        JsonView::Object(
            seq![
                ("success"@, JsonView::Bool(false)),
                ("error"@, JsonView::Str("Tool execution failed"@)),
                ("content"@, content),
            ],
        )
    } else {
        JsonView::Object(seq![("success"@, JsonView::Bool(true)), ("content"@, content)])
    }
}

/// The response that feeds a server's answer back to the model.
pub open spec fn mcp_response(
    call: FunctionCallView,
    is_error: Option<bool>,
    content: JsonView,
    millis: i64,
) -> FunctionResponseView {
    response_to(call, answer_json(is_error, content), millis)
}

/// How a tool is advertised.
pub fn make_definition(name: &str, description: Option<&str>, schema: Json) -> (r: ToolDefinition)
    ensures
        r@ == mcp_definition(
            name@,
            match description {
                Some(description) => Some(description@),
                None => None,
            },
            schema@,
        ),
{
    let description = match description {
        Some(description) => description.to_string(),
        None => join2("MCP tool: ", name),
    };
    ToolDefinition { name: name.to_string(), description, parameters: schema }
}

/// The arguments with which a server is called.
pub fn arguments_of(call: &FunctionCall) -> (r: Option<Json>)
    ensures
        crate::mock_llm::opt_json_view(r) == call_arguments(call@),
{
    if call.args.is_object() {
        Some(call.args.clone())
    } else {
        None
    }
}

/// The response that feeds a server's answer back to the model.
pub fn respond_with_answer(
    call: &FunctionCall,
    is_error: Option<bool>,
    content: Json,
    millis: i64,
) -> (r: FunctionResponse)
    ensures
        r@ == mcp_response(call@, is_error, content@, millis),
{
    let failed = match is_error {
        Some(failed) => failed,
        None => false,
    };
    let mut members: Vec<(String, Json)> = Vec::new();
    assert(members_view(members@) =~= Seq::empty());
    if failed {
        push_member(&mut members, "success", Json::Bool(false));
        push_member(&mut members, "error", Json::string("Tool execution failed"));
        push_member(&mut members, "content", content);
        assert(members_view(members@) =~= answer_json(is_error, content@)->Object_0);
    } else {
        push_member(&mut members, "success", Json::Bool(true));
        push_member(&mut members, "content", content);
        assert(members_view(members@) =~= answer_json(is_error, content@)->Object_0);
    }
    respond(call, Json::object(members), millis)
}

impl McpClientManager {
    /// Whether the table is as it should be: every tool has its server
    /// and its definition under its own name, and no name occurs twice.
    pub closed spec fn wf(&self) -> bool {
        &&& self@.names.len() == self@.servers.len()
        &&& self@.names.len() == self@.definitions.len()
        &&& distinct_names(self@.names)
        &&& forall|i: int| 0 <= i < self@.names.len() ==> self@.definitions[i].name == self@.names[i]
        &&& self.input_manager.wf()
    }

    /// An empty table, with no input declared and no value found.
    pub fn new() -> (r: Self)
        ensures
            r.wf(),
            r@ == (McpManagerView {
                names: Seq::empty(),
                servers: Seq::empty(),
                definitions: Seq::empty(),
            }),
            r.inputs().inputs.len() == 0,
            r.inputs().resolved_ids.len() == 0,
            r.inputs().resolved_values.len() == 0,
    {
        let manager = McpClientManager {
            names: Vec::new(),
            servers: Vec::new(),
            definitions: Vec::new(),
            input_manager: InputManager::new(),
        };
        assert(names_view(manager.names@) =~= Seq::empty());
        assert(strings_view(manager.servers@) =~= Seq::empty());
        assert(definitions_view(manager.definitions@) =~= Seq::empty());
        manager
    }

    /// The inputs that were declared and the values that were found.
    pub closed spec fn inputs(&self) -> InputManagerView {
        self.input_manager@
    }

    /// Declares the inputs of a configuration, in order.  The table stays
    /// as it is.
    pub fn register_inputs(&mut self, config: &McpConfig)
        requires
            old(self).wf(),
        ensures
            final(self).wf(),
            final(self)@ == old(self)@,
            final(self).inputs() == (InputManagerView {
                inputs: with_inputs(old(self).inputs().inputs, declared(config.inputs)),
                ..old(self).inputs()
            }),
    {
        match &config.inputs {
            Some(inputs) => {
                let mut copies: Vec<McpInput> = Vec::new();
                let mut i: usize = 0;
                while i < inputs.len()
                    invariant
                        i <= inputs.len(),
                        copies.len() == i,
                        forall|k: int| 0 <= k < i ==> copies@[k]@ == inputs@[k]@,
                    decreases inputs.len() - i,
                {
                    copies.push(inputs[i].clone());
                    i += 1;
                }
                assert(inputs_view(copies@) =~= inputs_view(inputs@));
                self.input_manager.register_inputs(copies);
            },
            None => {},
        }
    }

    /// The inputs and the values found for them.
    pub fn input_manager(&self) -> (r: &InputManager)
        requires
            self.wf(),
        ensures
            r.wf(),
            r@ == self.inputs(),
    {
        &self.input_manager
    }

    /// Records the value found for an input.  A value recorded before is
    /// replaced.  The table stays as it is.
    pub fn set_input_value(&mut self, input_id: &str, value: String)
        requires
            old(self).wf(),
        ensures
            final(self).wf(),
            final(self)@ == old(self)@,
            final(self).inputs().inputs == old(self).inputs().inputs,
            final(self).inputs().resolved_ids == with_name(
                old(self).inputs().resolved_ids,
                input_id@,
            ),
            resolved_value(
                final(self).inputs().resolved_ids,
                final(self).inputs().resolved_values,
                input_id@,
            ) == Some(value@),
            forall|other: Seq<char>|
                other != input_id@ ==> resolved_value(
                    final(self).inputs().resolved_ids,
                    final(self).inputs().resolved_values,
                    other,
                ) == resolved_value(
                    old(self).inputs().resolved_ids,
                    old(self).inputs().resolved_values,
                    other,
                ),
    {
        self.input_manager.set_input_value(input_id, value);
    }

    /// Records a tool that the server `server` provides.
    pub fn add_tool(&mut self, server: &str, definition: ToolDefinition)
        requires
            old(self).wf(),
        ensures
            final(self).wf(),
            final(self)@ == with_tool(old(self)@, server@, definition@),
    {
        let ghost before = self@;
        proof {
            lemma_name_index(before.names, definition.name@);
            lemma_with_name_distinct(before.names, definition.name@);
        }
        match find_name(&self.names, definition.name.as_str()) {
            Some(at) => {
                self.servers.set(at, server.to_string());
                self.definitions.set(at, definition);
                assert(strings_view(self.servers@) =~= before.servers.update(at as int, server@));
                assert(definitions_view(self.definitions@) =~= before.definitions.update(
                    at as int,
                    definition@,
                ));
            },
            None => {
                self.names.push(definition.name.clone());
                self.servers.push(server.to_string());
                self.definitions.push(definition);
                assert(names_view(self.names@) =~= before.names.push(definition.name@));
                assert(strings_view(self.servers@) =~= before.servers.push(server@));
                assert(definitions_view(self.definitions@) =~= before.definitions.push(
                    definition@,
                ));
            },
        }
    }

    /// The tools of the table as they are advertised, in the order of
    /// discovery.
    pub fn get_available_tools(&self) -> (r: Vec<ToolDefinition>)
        ensures
            definitions_view(r@) == self@.definitions,
    {
        crate::function_calling::clone_definitions(&self.definitions)
    }

    /// Whether a server provides the tool `name`.
    pub fn has_tool(&self, tool_name: &str) -> (r: bool)
        ensures
            r == self@.names.contains(tool_name@),
    {
        find_name(&self.names, tool_name).is_some()
    }

    /// The server that owns the tool `name`.
    pub fn server_of(&self, tool_name: &str) -> (r: Option<String>)
        requires
            self.wf(),
        ensures
            opt_text(r) == owner(self@, tool_name@),
    {
        match find_name(&self.names, tool_name) {
            Some(at) => Some(self.servers[at].clone()),
            None => None,
        }
    }
}

} // verus!
