use chat_cli::dispatcher::{
    fail_now, make_shell_definition, parse_schema, respond_now, respond_with_failure,
    CommandOutput, Dispatch, FunctionExecutor, ToolHandle,
};
use chat_cli::error::ChatError;
use chat_cli::function_calling::{FunctionCall, FunctionResponse, ToolDefinition};
use chat_cli::json::{parse_json, Json, JsonNumber};
use chat_cli::mcp_client::{
    arguments_of, make_definition, respond_with_answer, McpClientManager, McpConfig,
    McpServerConfig,
};
use chat_cli::tools::{
    accepted, failure, make_response_id, respond, respond_with_result, Tool, ToolLocation,
    ToolRegistry, ToolResult,
};

fn json(text: &str) -> Json {
    parse_json(text.as_bytes()).unwrap()
}

struct Named(&'static str, bool);

impl Tool for Named {
    fn name(&self) -> &str {
        self.0
    }

    fn description(&self) -> &str {
        "A tool"
    }

    fn get_tool_definition(&self) -> ToolDefinition {
        ToolDefinition {
            name: self.name().to_string(),
            description: self.description().to_string(),
            parameters: Json::Null,
        }
    }

    fn validate_params(&self, _params: &Json) -> Result<(), String> {
        if self.1 {
            Ok(())
        } else {
            Err("no".to_string())
        }
    }

    fn get_description(&self, _params: &Json) -> String {
        "does it".to_string()
    }

    fn tool_locations(&self, _params: &Json) -> Vec<ToolLocation> {
        Vec::new()
    }
}

fn call(name: &str, args: &str) -> FunctionCall {
    FunctionCall { id: None, name: name.to_string(), args: json(args) }
}

fn servers() -> McpClientManager {
    let mut manager = McpClientManager::new();
    manager.add_tool("files", make_definition("read_file", Some("Reads"), json("{\"type\":\"object\"}")));
    manager.add_tool("files", make_definition("stat", None, Json::Null));
    manager.add_tool("web", make_definition("fetch", None, Json::Null));
    manager
}

fn executor() -> FunctionExecutor<Named> {
    let mut registry = ToolRegistry::empty();
    registry.register_tool(Named("read_file", true));
    registry.register_tool(Named("strict", false));
    registry.register_tool(Named("shell_command", true));
    FunctionExecutor::with_registry(registry).with_mcp_manager(servers())
}

#[test]
fn names_resolve_shell_first_then_registry_then_servers() {
    let executor = executor();
    assert_eq!(executor.resolve("shell_command"), Some(ToolHandle::Shell));
    assert_eq!(executor.resolve("read_file"), Some(ToolHandle::BuiltIn(0)));
    assert_eq!(executor.resolve("strict"), Some(ToolHandle::BuiltIn(1)));
    assert_eq!(executor.resolve("stat"), Some(ToolHandle::Mcp("files".to_string())));
    assert_eq!(executor.resolve("fetch"), Some(ToolHandle::Mcp("web".to_string())));
    assert_eq!(executor.resolve("Read_File"), None);
    assert_eq!(executor.resolve(""), None);
}

#[test]
fn call_is_dispatched_or_fails() {
    let executor = executor();
    assert_eq!(
        executor.begin(&call("shell_command", "{\"command\":\"ls -l\"}")),
        Dispatch::Shell { command: "ls -l".to_string() }
    );
    assert_eq!(
        executor.begin(&call("shell_command", "{\"command\":7}")),
        Dispatch::Failed(ChatError::ToolExecution("Missing 'command' parameter".to_string()))
    );
    assert_eq!(executor.begin(&call("read_file", "{}")), Dispatch::BuiltIn { index: 0 });
    assert_eq!(
        executor.begin(&call("strict", "{}")),
        Dispatch::Failed(ChatError::ToolExecution("no".to_string()))
    );
    assert_eq!(
        executor.begin(&call("stat", "{\"path\":\"/tmp\"}")),
        Dispatch::Mcp { server: "files".to_string(), arguments: Some(json("{\"path\":\"/tmp\"}")) }
    );
    assert_eq!(
        executor.begin(&call("fetch", "[1]")),
        Dispatch::Mcp { server: "web".to_string(), arguments: None }
    );
    assert_eq!(
        executor.begin(&call("nothing", "{}")),
        Dispatch::Failed(ChatError::ToolResolution("nothing".to_string()))
    );
}

#[test]
fn every_tool_is_advertised_shell_first() {
    let tools = executor().get_available_tools();
    let names: Vec<&str> = tools.iter().map(|tool| tool.name.as_str()).collect();
    assert_eq!(names, vec!["shell_command", "read_file", "strict", "shell_command", "read_file", "stat", "fetch"]);
    assert_eq!(tools[0], make_shell_definition());
    assert_eq!(tools[0].description, "Execute a shell command in the current working directory");
    assert_eq!(
        tools[0].parameters.to_text(),
        "{\"properties\":{\"command\":{\"description\":\"The shell command to execute\",\"type\":\"string\"}},\"required\":[\"command\"],\"type\":\"object\"}"
    );
    assert_eq!(tools[4].description, "Reads");
    assert_eq!(tools[5].description, "MCP tool: stat");
    let alone: FunctionExecutor<Named> = FunctionExecutor::with_registry(ToolRegistry::empty());
    assert_eq!(alone.get_available_tools().len(), 1);
    assert_eq!(alone.resolve("stat"), None);
    assert_eq!(parse_schema("not json"), Json::Object(Vec::new()));
}

#[test]
fn registry_keeps_one_tool_for_each_name() {
    let mut registry = ToolRegistry::empty();
    registry.register_tool(Named("a", true));
    registry.register_tool(Named("b", true));
    registry.register_tool(Named("a", false));
    assert_eq!(registry.find("a"), Some(0));
    assert_eq!(registry.find("b"), Some(1));
    assert_eq!(registry.find("c"), None);
    assert_eq!(registry.get_available_tools().len(), 2);
    assert!(!registry.get_tool("a").unwrap().1);
    assert!(registry.get_tool("c").is_none());
    assert_eq!(registry.check_call(&call("b", "{}")), Ok(1));
    assert_eq!(registry.check_call(&call("a", "{}")), Err(ChatError::ToolExecution("no".to_string())));
    assert_eq!(registry.check_call(&call("c", "{}")), Err(ChatError::ToolResolution("c".to_string())));
    assert_eq!(accepted(3, Ok(())), Ok(3));
    registry.register_as("alias".to_string(), Named("a", true));
    assert_eq!(registry.find("alias"), Some(2));
}

#[test]
fn response_goes_under_the_id_of_the_call_or_a_stamp() {
    let unnamed = call("get_weather", "{}");
    assert_eq!(make_response_id(&unnamed, 1700000000123), "get_weather-1700000000123");
    assert_eq!(make_response_id(&unnamed, -5), "get_weather--5");
    assert_eq!(make_response_id(&unnamed, 0), "get_weather-0");
    let named = FunctionCall { id: Some("call_9".to_string()), ..call("get_weather", "{}") };
    assert_eq!(make_response_id(&named, 1700000000123), "call_9");
    assert_eq!(
        respond(&named, Json::Bool(true), 1),
        FunctionResponse { id: "call_9".to_string(), name: "get_weather".to_string(), response: Json::Bool(true) }
    );
    let now = respond_now(&unnamed, Json::Null);
    let stamp: i64 = now.id.strip_prefix("get_weather-").unwrap().parse().unwrap();
    assert!(stamp > 1_600_000_000_000);
    assert_eq!(now.name, "get_weather");
    assert_eq!(now.response, Json::Null);
}

#[test]
fn tool_result_is_wrapped_as_it_is() {
    let result = ToolResult { summary: None, llm_content: json("[1,2]"), return_display: "shown".to_string() };
    assert_eq!(
        result.to_json(),
        Json::Object(vec![
            ("summary".to_string(), Json::Null),
            ("llm_content".to_string(), json("[1,2]")),
            ("return_display".to_string(), Json::Str("shown".to_string())),
        ])
    );
    let response = respond_with_result(&call("f", "{}"), &result, 42);
    assert_eq!(response.id, "f-42");
    assert_eq!(response.response.to_text(), "{\"llm_content\":[1,2],\"return_display\":\"shown\",\"summary\":null}");
}

#[test]
fn failure_is_told_to_the_model() {
    assert_eq!(failure("bad").to_text(), "{\"error\":\"bad\",\"success\":false}");
    let error = ChatError::ToolResolution("nothing".to_string());
    let response = respond_with_failure(&call("nothing", "{}"), &error, 7);
    assert_eq!(response.id, "nothing-7");
    assert_eq!(response.name, "nothing");
    assert_eq!(response.response.to_text(), "{\"error\":\"Unknown function: nothing\",\"success\":false}");
    let now = fail_now(&call("nothing", "{}"), &ChatError::ToolExecution("it broke".to_string()));
    assert_eq!(now.response.get("error"), Some(&Json::Str("Tool execution failed: it broke".to_string())));
}

#[test]
fn finished_process_is_summed_up() {
    let fine = CommandOutput { success: true, exit_code: Some(0), stdout: "a.txt\n".to_string(), stderr: String::new() };
    assert_eq!(fine.summary(), "Command executed successfully.\nOutput:\na.txt\n");
    assert_eq!(
        fine.to_json(),
        Json::Object(vec![
            ("success".to_string(), Json::Bool(true)),
            ("exit_code".to_string(), Json::Number(JsonNumber::Int(0))),
            ("stdout".to_string(), Json::Str("a.txt\n".to_string())),
            ("stderr".to_string(), Json::Str(String::new())),
            ("output".to_string(), Json::Str("Command executed successfully.\nOutput:\na.txt\n".to_string())),
        ])
    );
    let failed = CommandOutput { success: false, exit_code: Some(-2), stdout: "o".to_string(), stderr: "e".to_string() };
    assert_eq!(failed.summary(), "Command failed with exit code Some(-2).\nStdout:\no\nStderr:\ne");
    let killed = CommandOutput { success: false, exit_code: None, stdout: String::new(), stderr: String::new() };
    assert_eq!(killed.summary(), "Command failed with exit code None.\nStdout:\n\nStderr:\n");
    assert_eq!(killed.to_json().get("exit_code"), Some(&Json::Null));
}

#[test]
fn server_table_keeps_one_tool_for_each_name() {
    let mut manager = servers();
    assert!(manager.has_tool("stat"));
    assert!(!manager.has_tool("shell_command"));
    assert_eq!(manager.server_of("read_file"), Some("files".to_string()));
    manager.add_tool("other", make_definition("read_file", Some("Reads more"), Json::Null));
    assert_eq!(manager.server_of("read_file"), Some("other".to_string()));
    let tools = manager.get_available_tools();
    assert_eq!(tools.len(), 3);
    assert_eq!(tools[0].name, "read_file");
    assert_eq!(tools[0].description, "Reads more");
    assert_eq!(manager.server_of("nothing"), None);
    assert!(McpClientManager::new().get_available_tools().is_empty());
}

#[test]
fn server_answer_is_wrapped() {
    let asked = call("stat", "{\"path\":\"/\"}");
    assert_eq!(arguments_of(&asked), Some(json("{\"path\":\"/\"}")));
    assert_eq!(arguments_of(&call("stat", "\"/\"")), None);
    let good = respond_with_answer(&asked, None, json("[\"ok\"]"), 5);
    assert_eq!(good.id, "stat-5");
    assert_eq!(good.response.to_text(), "{\"content\":[\"ok\"],\"success\":true}");
    let fine = respond_with_answer(&asked, Some(false), Json::Null, 5);
    assert_eq!(fine.response.to_text(), "{\"content\":null,\"success\":true}");
    let bad = respond_with_answer(&asked, Some(true), json("[\"no\"]"), 5);
    assert_eq!(bad.response.to_text(), "{\"content\":[\"no\"],\"error\":\"Tool execution failed\",\"success\":false}");
}

#[test]
fn server_inputs_are_declared_and_resolved() {
    let mut manager = McpClientManager::new();
    let config = McpConfig {
        inputs: Some(vec![chat_cli::input_manager::McpInput {
            input_type: "promptString".to_string(),
            id: "token".to_string(),
            description: "The token".to_string(),
            password: true,
            required: true,
        }]),
        servers: vec![(
            "files".to_string(),
            McpServerConfig {
                command: "server".to_string(),
                args: Vec::new(),
                env: vec![("TOKEN".to_string(), "${input:token}".to_string())],
            },
        )],
    };
    manager.register_inputs(&config);
    assert_eq!(
        manager.input_manager().resolve_env_vars("${input:token}"),
        Err("Required input 'token' was not provided".to_string())
    );
    manager.set_input_value("token", "SECRET-REDACTED".to_string());
    assert_eq!(manager.input_manager().resolve_env_vars("${input:token}"), Ok("SECRET-REDACTED".to_string()));
}
