use chat_cli::chat_client::ChatClient;
use chat_cli::conversation::{Part, Role};
use chat_cli::json::{parse_json, Json};
use chat_cli::mock_llm::MockLLMClient;
use chat_cli::stream::StreamEvent;
use chat_cli::transport::{SendPlan, StreamPlan};

fn weather_call() -> Json {
    parse_json(b"{\"name\":\"get_weather\",\"args\":{\"location\":\"San Francisco\"}}").unwrap()
}

#[test]
fn test_mock_llm_basic_response() {
    let mut client = MockLLMClient::new();
    let response = client.send_message("Hello").unwrap();
    assert!(response.contains("Mock LLM"));
}

#[test]
fn test_mock_llm_custom_responses() {
    let responses = vec!["Custom response 1".to_string(), "Custom response 2".to_string()];
    let mut client = MockLLMClient::with_responses(responses);

    let response1 = client.send_message("Test 1").unwrap();
    let response2 = client.send_message("Test 2").unwrap();

    assert!(response1.contains("Custom response 1"));
    assert!(response2.contains("Custom response 2"));
}

#[test]
fn test_mock_llm_streaming() {
    let mut client = MockLLMClient::new().with_delay(1);
    let pairs = client.send_message_stream("Hello");

    let mut chunks = Vec::new();
    for (chunk, _) in pairs {
        chunks.push(chunk);
    }

    assert!(!chunks.is_empty());
    let full_response = chunks.join("");
    assert!(full_response.contains("Mock LLM"));
}

#[test]
fn test_mock_llm_function_calls() {
    let mut client = MockLLMClient::new();
    client.add_function_call_response("weather", weather_call());

    let _response = client.send_message("What's the weather like?").unwrap();

    let history = client.get_conversation_history();
    let last_message = history.last().unwrap();
    assert_eq!(last_message.role, Role::Model);
    assert!(last_message.parts.iter().any(|part| matches!(part, Part::ToolCall(_))));
}

#[test]
fn test_conversation_history() {
    let client = MockLLMClient::new();

    let mut client_mut = client.clone();
    client_mut.add_user_message("Hello");
    let _ = client_mut.send_message("How are you?").unwrap();

    let history = client_mut.get_conversation_history();
    assert_eq!(history.len(), 3);
    assert_eq!(history[0].role, Role::User);
    assert_eq!(history[1].role, Role::User);
    assert_eq!(history[2].role, Role::Model);
}

#[test]
fn canned_responses_are_given_in_turn_and_start_over() {
    let mut client = MockLLMClient::with_responses(vec!["one".to_string(), "two".to_string()]);
    assert_eq!(client.get_next_response("a").0, "Mock LLM: one");
    assert_eq!(client.get_next_response("b").0, "Mock LLM: two");
    assert_eq!(client.get_next_response("c").0, "Mock LLM: one");
}

#[test]
fn message_decides_the_wording() {
    let mut client = MockLLMClient::with_responses(vec!["one".to_string()]);
    assert_eq!(client.get_next_response("a TEST run").0, "Mock LLM (Test Mode): one");
    assert_eq!(
        client.get_next_response("an Error here").0,
        "Mock LLM: Simulating error handling scenario"
    );
    let mut silent = MockLLMClient::with_responses(Vec::new());
    assert_eq!(silent.get_next_response("hi").0, "Mock LLM: No responses configured");
}

#[test]
fn trigger_is_found_in_any_case_and_uses_up_no_response() {
    let mut client = MockLLMClient::with_responses(vec!["one".to_string()]);
    client.add_function_call_response("Weather", weather_call());
    let (text, call) = client.get_next_response("WEATHER today?");
    assert_eq!(text, "I need to call a function to help with: WEATHER today?");
    assert_eq!(call, Some(weather_call()));
    assert_eq!(client.get_next_response("plain").0, "Mock LLM: one");
}

#[test]
fn later_trigger_replaces_the_earlier_one() {
    let mut client = MockLLMClient::new();
    client.add_function_call_response("weather", Json::Null);
    client.add_function_call_response("WEATHER", weather_call());
    assert_eq!(client.get_next_response("weather").1, Some(weather_call()));
}

#[test]
fn chunks_hold_three_words_each() {
    let client = MockLLMClient::new();
    assert_eq!(
        client.split_into_chunks("one two three four  five six seven"),
        vec!["one two three".to_string(), " four five six".to_string(), " seven".to_string()]
    );
    assert_eq!(client.split_into_chunks("   "), vec!["   ".to_string()]);
    assert_eq!(client.split_into_chunks(""), vec!["".to_string()]);
}

#[test]
fn call_goes_with_the_last_chunk_only() {
    let mut client = MockLLMClient::new();
    client.add_function_call_response("weather", weather_call());
    let pairs = client.send_message_stream("weather?");
    assert!(pairs.len() > 1);
    for (i, (_, call)) in pairs.iter().enumerate() {
        if i + 1 == pairs.len() {
            assert_eq!(call, &Some(weather_call()));
        } else {
            assert_eq!(call, &None);
        }
    }
}

#[test]
fn stream_plan_delivers_text_then_call_then_done() {
    let mut client = MockLLMClient::new().with_delay(7);
    client.add_function_call_response("weather", weather_call());
    let plan = ChatClient::send_message_stream(&mut client, "weather?");
    match plan {
        StreamPlan::Canned { events, delay_ms } => {
            assert_eq!(delay_ms, 7);
            let n = events.len();
            assert!(n >= 3);
            assert_eq!(events[n - 1], StreamEvent::Done);
            assert!(matches!(events[n - 2], StreamEvent::ToolCallComplete(_)));
            for event in &events[..n - 2] {
                assert!(matches!(event, StreamEvent::Text(_)));
            }
        }
        _ => panic!("the mock plans no request"),
    }
    assert_eq!(client.get_conversation_history().len(), 0);
}

#[test]
fn whole_answer_is_due_after_twice_the_delay() {
    let mut client = MockLLMClient::with_responses(vec!["one".to_string()]).with_delay(50);
    match ChatClient::send_message(&mut client, "hi") {
        SendPlan::Canned { text, delay_ms } => {
            assert_eq!(text, "Mock LLM: one");
            assert_eq!(delay_ms, 100);
        }
        _ => panic!("the mock plans no request"),
    }
    let mut slow = MockLLMClient::new().with_delay(u64::MAX);
    match slow.answer_plan("hi") {
        SendPlan::Canned { delay_ms, .. } => assert_eq!(delay_ms, u64::MAX),
        _ => panic!("the mock plans no request"),
    }
}

#[test]
fn clear_starts_the_responses_over() {
    let mut client = MockLLMClient::with_responses(vec!["one".to_string(), "two".to_string()]);
    client.send_message("a").unwrap();
    client.clear_conversation();
    assert_eq!(client.get_conversation_history().len(), 0);
    assert_eq!(client.send_message("b").unwrap(), "Mock LLM: one");
}

#[test]
fn system_prompt_is_kept() {
    let mut client = MockLLMClient::new();
    assert_eq!(client.get_system_prompt(), None);
    client.load_system_prompt("be brief").unwrap();
    assert_eq!(client.get_system_prompt(), Some(&"be brief".to_string()));
    assert_eq!(client.client_name(), "MockLLM");
}

#[test]
fn empty_message_continues_without_a_user_turn() {
    let mut client = MockLLMClient::new();
    client.add_user_message("weather?");
    let _ = client.send_message("").unwrap();
    let history = client.get_conversation_history();
    assert_eq!(history.len(), 2);
    assert_eq!(history[0].role, Role::User);
    assert_eq!(history[1].role, Role::Model);

    let _ = client.send_message_stream("");
    let history = client.get_conversation_history();
    assert_eq!(history.len(), 3);
    assert_eq!(history[2].role, Role::Model);
    assert_eq!(history.iter().filter(|turn| turn.role == Role::User).count(), 1);

    let _ = client.send_message_stream("more");
    let history = client.get_conversation_history();
    assert_eq!(history.len(), 5);
    assert_eq!(history[3].role, Role::User);
    assert_eq!(history[3].parts, vec![Part::Text("more".to_string())]);
    assert_eq!(history[4].role, Role::Model);
}
