use chat_cli::chat_client::{AnyChatClient, ChatClient};
use chat_cli::conversation::{ConversationTurn, Part, Role};
use chat_cli::dispatcher::{fail_now, respond_now, Dispatch, FunctionExecutor};
use chat_cli::error::ChatError;
use chat_cli::function_calling::{FunctionCall, FunctionResponse, ToolDefinition};
use chat_cli::json::{parse_json, Json};
use chat_cli::mock_llm::MockLLMClient;
use chat_cli::orchestrator::{Orchestrator, TurnAction, TurnState};
use chat_cli::stream::StreamEvent;
use chat_cli::tools::{Tool, ToolLocation, ToolRegistry, ToolResult};
use chat_cli::transport::StreamPlan;

fn json(text: &str) -> Json {
    parse_json(text.as_bytes()).unwrap()
}

struct WeatherTool;

impl Tool for WeatherTool {
    fn name(&self) -> &str {
        "get_weather"
    }

    fn description(&self) -> &str {
        "Tells the weather"
    }

    fn get_tool_definition(&self) -> ToolDefinition {
        ToolDefinition {
            name: self.name().to_string(),
            description: self.description().to_string(),
            parameters: json("{\"type\":\"object\"}"),
        }
    }

    fn validate_params(&self, params: &Json) -> Result<(), String> {
        match params.get("location") {
            Some(Json::Str(_)) => Ok(()),
            _ => Err("location is missing".to_string()),
        }
    }

    fn get_description(&self, _params: &Json) -> String {
        "Look up the weather".to_string()
    }

    fn tool_locations(&self, _params: &Json) -> Vec<ToolLocation> {
        Vec::new()
    }
}

fn executor() -> FunctionExecutor<WeatherTool> {
    let mut registry = ToolRegistry::empty();
    registry.register_tool(WeatherTool);
    FunctionExecutor::with_registry(registry)
}

fn dispatch(executor: &FunctionExecutor<WeatherTool>, call: &FunctionCall) -> FunctionResponse {
    match executor.begin(call) {
        Dispatch::BuiltIn { index } => {
            assert_eq!(index, 0);
            let result = ToolResult {
                summary: Some("sunny".to_string()),
                llm_content: json("{\"sky\":\"clear\"}"),
                return_display: "Sunny".to_string(),
            };
            respond_now(call, result.to_json())
        }
        Dispatch::Failed(error) => fail_now(call, &error),
        other => panic!("{:?}", other),
    }
}

struct Run {
    streams: Vec<String>,
    forwarded: Vec<String>,
    executed: Vec<FunctionCall>,
    outcome: Result<(), ChatError>,
}

fn run_turn<C: ChatClient>(
    orchestrator: &mut Orchestrator,
    client: &mut C,
    executor: &FunctionExecutor<WeatherTool>,
    message: &str,
) -> Run {
    let mut run = Run { streams: Vec::new(), forwarded: Vec::new(), executed: Vec::new(), outcome: Ok(()) };
    let mut action = orchestrator.on_user_message(client, message);
    loop {
        action = match action {
            TurnAction::SendStream(text) => {
                assert_eq!(orchestrator.state(), TurnState::Streaming);
                let events = match client.send_message_stream(&text) {
                    StreamPlan::Canned { events, .. } => events,
                    other => panic!("{:?}", other),
                };
                run.streams.push(text);
                for event in events {
                    match orchestrator.on_stream_event(event) {
                        TurnAction::Forward(text) => run.forwarded.push(text),
                        TurnAction::Continue => {}
                        other => panic!("{:?}", other),
                    }
                }
                orchestrator.on_stream_closed(client)
            }
            TurnAction::Execute(call) => {
                assert_eq!(orchestrator.state(), TurnState::ExecutingTools);
                let response = dispatch(executor, &call);
                run.executed.push(call);
                orchestrator.on_tool_response(client, &response)
            }
            TurnAction::Complete => return run,
            TurnAction::Fail(error) => {
                run.outcome = Err(error);
                return run;
            }
            other => panic!("{:?}", other),
        };
    }
}

fn weather_call() -> Json {
    json("{\"name\":\"get_weather\",\"args\":{\"location\":\"San Francisco\"}}")
}

fn function_turns(history: &[ConversationTurn]) -> Vec<&ConversationTurn> {
    history.iter().filter(|turn| turn.role == Role::Function).collect()
}

#[test]
fn tool_call_is_run_and_the_model_goes_on() {
    let mut client = MockLLMClient::with_responses(vec!["It is sunny.".to_string()]);
    client.add_function_call_response("weather", weather_call());
    let mut orchestrator = Orchestrator::new(5);
    let run = run_turn(&mut orchestrator, &mut client, &executor(), "weather?");

    assert_eq!(run.outcome, Ok(()));
    assert_eq!(run.streams, vec!["weather?".to_string(), String::new()]);
    assert_eq!(
        run.executed,
        vec![FunctionCall {
            id: None,
            name: "get_weather".to_string(),
            args: json("{\"location\":\"San Francisco\"}"),
        }]
    );
    assert_eq!(
        run.forwarded.concat(),
        "I need to call a function to help with: weather?Mock LLM: It is sunny."
    );
    assert!(run.forwarded.len() > 2);
    assert_eq!(orchestrator.state(), TurnState::Idle);
    assert_eq!(orchestrator.iterations(), 1);

    let history = client.get_conversation_history();
    assert_eq!(history.len(), 4);
    assert_eq!(history[0], ConversationTurn { role: Role::User, parts: vec![Part::Text("weather?".to_string())] });
    assert_eq!(
        history[1],
        ConversationTurn {
            role: Role::Model,
            parts: vec![
                Part::Text("I need to call a function to help with: weather?".to_string()),
                Part::ToolCall(run.executed[0].clone()),
            ],
        }
    );
    assert_eq!(history[2].role, Role::Function);
    match &history[2].parts[..] {
        [Part::ToolResult(response)] => {
            assert_eq!(response.name, "get_weather");
            assert!(response.id.starts_with("get_weather-"));
            assert_eq!(response.response.get("summary"), Some(&Json::Str("sunny".to_string())));
            assert_eq!(response.response.get("llm_content"), Some(&json("{\"sky\":\"clear\"}")));
        }
        other => panic!("{:?}", other),
    }
    assert_eq!(
        history[3],
        ConversationTurn { role: Role::Model, parts: vec![Part::Text("Mock LLM: It is sunny.".to_string())] }
    );
}

#[test]
fn unknown_tool_is_answered_and_the_turn_goes_on() {
    let mut client = AnyChatClient::new_mock_with_responses(vec!["Sorry.".to_string()]);
    if let AnyChatClient::Mock(mock) = &mut client {
        mock.add_function_call_response("stock", json("{\"name\":\"get_stock\",\"args\":{}}"));
    }
    let mut orchestrator = Orchestrator::new(5);
    let run = run_turn(&mut orchestrator, &mut client, &executor(), "stock price?");
    assert_eq!(run.outcome, Ok(()));
    assert_eq!(run.streams.len(), 2);
    let history = match &client {
        AnyChatClient::Mock(mock) => mock.get_conversation_history(),
        _ => panic!("not the mock"),
    };
    let answered = function_turns(history);
    assert_eq!(answered.len(), 1);
    match &answered[0].parts[..] {
        [Part::ToolResult(response)] => {
            assert_eq!(response.name, "get_stock");
            assert_eq!(
                response.response,
                Json::Object(vec![
                    ("success".to_string(), Json::Bool(false)),
                    ("error".to_string(), Json::Str("Unknown function: get_stock".to_string())),
                ])
            );
        }
        other => panic!("{:?}", other),
    }
    assert_eq!(history.len(), 4);
    assert_eq!(history[3].role, Role::Model);
}

#[test]
fn refused_arguments_are_answered_with_the_reason() {
    let mut client = MockLLMClient::new();
    client.add_function_call_response("weather", json("{\"name\":\"get_weather\",\"args\":{}}"));
    let mut orchestrator = Orchestrator::new(5);
    let run = run_turn(&mut orchestrator, &mut client, &executor(), "weather?");
    assert_eq!(run.outcome, Ok(()));
    match &function_turns(client.get_conversation_history())[0].parts[..] {
        [Part::ToolResult(response)] => assert_eq!(
            response.response.get("error"),
            Some(&Json::Str("Tool execution failed: location is missing".to_string()))
        ),
        other => panic!("{:?}", other),
    }
}

#[test]
fn tool_loop_is_cut_off_at_the_limit() {
    let mut client = MockLLMClient::new();
    client.add_function_call_response("", weather_call());
    let mut orchestrator = Orchestrator::new(5);
    let run = run_turn(&mut orchestrator, &mut client, &executor(), "again");
    assert_eq!(run.outcome, Err(ChatError::ToolLoopExceeded(5)));
    assert_eq!(run.streams.len(), 6);
    assert_eq!(run.executed.len(), 5);
    assert_eq!(orchestrator.state(), TurnState::Idle);
    assert_eq!(orchestrator.iterations(), 5);
    let history = client.get_conversation_history();
    assert_eq!(function_turns(history).len(), 5);
    assert_eq!(history.len(), 11);
    assert_eq!(history[0].role, Role::User);
    for round in 0..5 {
        assert_eq!(history[1 + 2 * round].role, Role::Model);
        assert!(matches!(history[1 + 2 * round].parts.last(), Some(Part::ToolCall(_))));
        assert_eq!(history[2 + 2 * round].role, Role::Function);
    }
    assert_eq!(
        ChatError::ToolLoopExceeded(5).message(),
        "Tool loop exceeded the limit of 5 iterations"
    );
}

#[test]
fn limit_of_zero_runs_no_tool() {
    let mut client = MockLLMClient::new();
    client.add_function_call_response("", weather_call());
    let mut orchestrator = Orchestrator::new(0);
    let run = run_turn(&mut orchestrator, &mut client, &executor(), "again");
    assert_eq!(run.outcome, Err(ChatError::ToolLoopExceeded(0)));
    assert!(run.executed.is_empty());
    assert_eq!(client.get_conversation_history().len(), 1);
}

#[test]
fn next_turn_starts_the_count_over() {
    let mut client = MockLLMClient::with_responses(vec!["fine".to_string()]);
    client.add_function_call_response("weather", weather_call());
    let mut orchestrator = Orchestrator::new(1);
    assert_eq!(run_turn(&mut orchestrator, &mut client, &executor(), "weather?").outcome, Ok(()));
    assert_eq!(orchestrator.iterations(), 1);
    assert_eq!(run_turn(&mut orchestrator, &mut client, &executor(), "weather again?").outcome, Ok(()));
    assert_eq!(orchestrator.iterations(), 1);
    assert_eq!(function_turns(client.get_conversation_history()).len(), 2);
}

#[test]
fn several_calls_are_run_in_order_before_the_model_goes_on() {
    let mut client = MockLLMClient::new();
    let mut orchestrator = Orchestrator::new(3);
    let first = FunctionCall { id: Some("a".to_string()), name: "one".to_string(), args: Json::Null };
    let second = FunctionCall { id: Some("b".to_string()), name: "two".to_string(), args: Json::Null };
    assert_eq!(orchestrator.on_user_message(&mut client, "go"), TurnAction::SendStream("go".to_string()));
    assert_eq!(
        orchestrator.on_stream_event(StreamEvent::ToolCallDelta {
            index: 0,
            id: None,
            name: None,
            args_fragment: None
        }),
        TurnAction::Continue
    );
    assert_eq!(orchestrator.on_stream_event(StreamEvent::ToolCallComplete(first.clone())), TurnAction::Continue);
    assert_eq!(orchestrator.on_stream_event(StreamEvent::Text("x".to_string())), TurnAction::Forward("x".to_string()));
    assert_eq!(orchestrator.on_stream_event(StreamEvent::ToolCallComplete(second.clone())), TurnAction::Continue);
    assert_eq!(orchestrator.on_stream_event(StreamEvent::Done), TurnAction::Continue);
    assert_eq!(orchestrator.on_stream_closed(&mut client), TurnAction::Execute(first.clone()));
    let wrong = FunctionResponse { id: "b".to_string(), name: "two".to_string(), response: Json::Null };
    assert_eq!(orchestrator.on_tool_response(&mut client, &wrong), TurnAction::Ignored);
    assert_eq!(client.get_conversation_history().len(), 2);
    let right = FunctionResponse { id: "a".to_string(), name: "one".to_string(), response: Json::Null };
    assert_eq!(orchestrator.on_tool_response(&mut client, &right), TurnAction::Execute(second.clone()));
    assert_eq!(orchestrator.on_tool_response(&mut client, &wrong), TurnAction::SendStream(String::new()));
    let history = client.get_conversation_history();
    assert_eq!(history.len(), 4);
    assert_eq!(
        history[1].parts,
        vec![Part::Text("x".to_string()), Part::ToolCall(first), Part::ToolCall(second)]
    );
    assert_eq!(history[2].parts, vec![Part::ToolResult(right)]);
    assert_eq!(history[3].parts, vec![Part::ToolResult(wrong)]);
}

#[test]
fn failed_stream_keeps_the_text_and_drops_the_calls() {
    let mut client = MockLLMClient::new();
    let mut orchestrator = Orchestrator::new(3);
    orchestrator.on_user_message(&mut client, "go");
    orchestrator.on_stream_event(StreamEvent::Text("partial".to_string()));
    let call = FunctionCall { id: None, name: "one".to_string(), args: Json::Null };
    orchestrator.on_stream_event(StreamEvent::ToolCallComplete(call));
    let error = ChatError::Transport("Stream error: reset".to_string());
    assert_eq!(orchestrator.on_stream_event(StreamEvent::Error(error.clone())), TurnAction::Report(error));
    assert_eq!(orchestrator.on_stream_closed(&mut client), TurnAction::Complete);
    assert_eq!(orchestrator.state(), TurnState::Idle);
    let history = client.get_conversation_history();
    assert_eq!(history.len(), 2);
    assert_eq!(history[1].parts, vec![Part::Text("partial".to_string())]);

    orchestrator.on_user_message(&mut client, "again");
    orchestrator.on_stream_event(StreamEvent::Error(ChatError::Transport("x".to_string())));
    assert_eq!(orchestrator.on_stream_closed(&mut client), TurnAction::Complete);
    assert_eq!(client.get_conversation_history().len(), 3);
}

#[test]
fn what_does_not_fit_the_state_is_ignored() {
    let mut client = MockLLMClient::new();
    let mut orchestrator = Orchestrator::new(3);
    assert_eq!(orchestrator.state(), TurnState::AwaitingUserInput);
    assert_eq!(orchestrator.max_iterations(), 3);
    assert_eq!(orchestrator.on_stream_event(StreamEvent::Text("x".to_string())), TurnAction::Ignored);
    assert_eq!(orchestrator.on_stream_closed(&mut client), TurnAction::Ignored);
    let response = FunctionResponse { id: "a".to_string(), name: "one".to_string(), response: Json::Null };
    assert_eq!(orchestrator.on_tool_response(&mut client, &response), TurnAction::Ignored);
    assert_eq!(client.get_conversation_history().len(), 0);
    orchestrator.on_user_message(&mut client, "go");
    assert_eq!(orchestrator.on_user_message(&mut client, "too early"), TurnAction::Ignored);
    assert_eq!(client.get_conversation_history().len(), 1);
}
