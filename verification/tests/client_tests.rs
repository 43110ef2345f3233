use chat_cli::chat_client::{AnyChatClient, ChatClient};
use chat_cli::error::ChatError;
use chat_cli::function_calling::{FunctionCall, FunctionResponse, ToolDefinition};
use chat_cli::gemini::{read_gemini_response, GeminiClient};
use chat_cli::json::{parse_json, Json};
use chat_cli::openai::{
    read_openai_response, ContentPart, Message, MessageContent, OpenAIClient, ToolCall,
};
use chat_cli::session::Provider;
use chat_cli::transport::{status_is_success, stream_rejection, SendPlan, StreamPlan};

fn json(text: &str) -> Json {
    parse_json(text.as_bytes()).unwrap()
}

fn tool() -> ToolDefinition {
    ToolDefinition {
        name: "get_weather".to_string(),
        description: "d".to_string(),
        parameters: json("{\"type\":\"object\"}"),
    }
}

fn call() -> FunctionCall {
    FunctionCall { id: Some("c1".to_string()), name: "get_weather".to_string(), args: json("{\"city\":\"Oslo\"}") }
}

fn response() -> FunctionResponse {
    FunctionResponse { id: "c1".to_string(), name: "get_weather".to_string(), response: json("{\"temp\":3}") }
}

fn fill<C: ChatClient>(client: &mut C) {
    client.load_system_prompt("sys").unwrap();
    client.set_available_tools(vec![tool()]);
    client.add_user_message("hi");
    client.add_model_response("Let me check.", vec![call()]);
    client.add_function_response(&response());
}

#[test]
fn openai_request_replays_the_history() {
    let mut client = OpenAIClient::new("SECRET-REDACTED".to_string(), "gpt-4".to_string());
    fill(&mut client);
    let request = client.chat_request("", true);
    assert_eq!(request.url, "https://api.openai.com/v1/chat/completions");
    assert_eq!(
        request.headers,
        vec![
            ("Authorization".to_string(), "Bearer SECRET-REDACTED".to_string()),
            ("Content-Type".to_string(), "application/json".to_string()),
        ]
    );
    assert_eq!(
        request.body,
        "{\"max_tokens\":2048,\"messages\":[{\"content\":\"sys\",\"role\":\"system\"},{\"content\":\"hi\",\"role\":\"user\"},{\"content\":\"Let me check.\",\"role\":\"assistant\",\"tool_calls\":[{\"function\":{\"arguments\":\"{\\\"city\\\":\\\"Oslo\\\"}\",\"name\":\"get_weather\"},\"id\":\"c1\",\"type\":\"function\"}]},{\"content\":\"{\\\"temp\\\":3}\",\"name\":\"get_weather\",\"role\":\"tool\",\"tool_call_id\":\"c1\"}],\"model\":\"gpt-4\",\"stream\":true,\"temperature\":0.7,\"tools\":[{\"function\":{\"description\":\"d\",\"name\":\"get_weather\",\"parameters\":{\"type\":\"object\"}},\"type\":\"function\"}],\"top_p\":0.95}"
    );
}

#[test]
fn openai_request_adds_the_new_message_and_leaves_out_what_is_missing() {
    let client = OpenAIClient::new("k".to_string(), "m".to_string())
        .with_base_url("http://localhost:8080/v1".to_string());
    let request = client.chat_request("hello", false);
    assert_eq!(request.url, "http://localhost:8080/v1/chat/completions");
    assert_eq!(
        request.body,
        "{\"max_tokens\":2048,\"messages\":[{\"content\":\"hello\",\"role\":\"user\"}],\"model\":\"m\",\"stream\":false,\"temperature\":0.7,\"top_p\":0.95}"
    );
    assert_eq!(client.build_tools(), None);
    assert_eq!(client.conversation().len(), 0);
}

#[test]
fn openai_messages_one_for_each_turn() {
    let mut client = OpenAIClient::new("k".to_string(), "m".to_string());
    client.add_model_response("", vec![FunctionCall { id: None, name: "f".to_string(), args: Json::Null }]);
    let messages = client.build_messages(Some("next"));
    assert_eq!(messages.len(), 2);
    assert_eq!(
        messages[0],
        Message {
            role: "assistant".to_string(),
            content: MessageContent::Text(String::new()),
            name: None,
            tool_calls: Some(vec![ToolCall {
                id: "f".to_string(),
                call_type: "function".to_string(),
                function: chat_cli::openai::FunctionCall { name: "f".to_string(), arguments: "null".to_string() },
            }]),
            tool_call_id: None,
        }
    );
    assert_eq!(messages[1].role, "user");
    assert_eq!(messages[1].content, MessageContent::Text("next".to_string()));
    let listed = Message {
        role: "user".to_string(),
        content: MessageContent::Array(vec![ContentPart { content_type: "text".to_string(), text: "a".to_string() }]),
        name: None,
        tool_calls: None,
        tool_call_id: None,
    };
    assert_eq!(listed.to_json().to_text(), "{\"content\":[{\"text\":\"a\",\"type\":\"text\"}],\"role\":\"user\"}");
}

#[test]
fn openai_plans_are_requests() {
    let mut client = OpenAIClient::new("k".to_string(), "m".to_string());
    client.add_user_message("hi");
    let whole = client.chat_request("x", false);
    let streamed = client.chat_request("x", true);
    assert_eq!(client.send_message("x"), SendPlan::Http(whole));
    assert_eq!(
        client.send_message_stream("x"),
        StreamPlan::Http { request: streamed, provider: Provider::OpenAI }
    );
    assert_eq!(ChatClient::client_name(&client), "OpenAI");
    client.clear_conversation();
    assert_eq!(client.conversation().len(), 0);
}

#[test]
fn openai_response_is_read() {
    let body = b"{\"id\":\"x\",\"choices\":[{\"index\":0,\"message\":{\"role\":\"assistant\",\"content\":\"Hello!\"},\"finish_reason\":\"stop\"}]}";
    assert_eq!(read_openai_response(200, body), Ok("Hello!".to_string()));
    let listed = b"{\"choices\":[{\"message\":{\"content\":[{\"type\":\"text\",\"text\":\"a\"},{\"type\":\"text\",\"text\":\"b\"}]}}]}";
    assert_eq!(read_openai_response(201, listed), Ok("ab".to_string()));
}

#[test]
fn openai_response_that_failed_is_an_error() {
    assert_eq!(
        read_openai_response(401, b"{\"error\":\"no key\"}"),
        Err(ChatError::Transport("API request failed: {\"error\":\"no key\"}".to_string()))
    );
    assert_eq!(
        read_openai_response(199, b"early"),
        Err(ChatError::Transport("API request failed: early".to_string()))
    );
    assert_eq!(
        read_openai_response(200, b"<html>"),
        Err(ChatError::Protocol {
            reason: "expected value at line 1 column 1".to_string(),
            payload: "<html>".to_string(),
        })
    );
    assert_eq!(
        read_openai_response(200, b"{\"choices\":[]}"),
        Err(ChatError::Protocol {
            reason: "No response from API".to_string(),
            payload: "{\"choices\":[]}".to_string(),
        })
    );
    for bad in [
        "{}",
        "{\"choices\":[{}]}",
        "{\"choices\":[{\"message\":{}}]}",
        "{\"choices\":[{\"message\":{\"content\":null}}]}",
        "{\"choices\":[{\"message\":{\"content\":[{\"type\":\"text\"}]}}]}",
    ] {
        assert_eq!(
            read_openai_response(200, bad.as_bytes()),
            Err(ChatError::Protocol { reason: "unexpected response shape".to_string(), payload: bad.to_string() })
        );
    }
    assert!(status_is_success(200) && status_is_success(299));
    assert!(!status_is_success(300) && !status_is_success(199));
}

#[test]
fn gemini_request_replays_the_history() {
    let mut client = GeminiClient::new("SECRET-REDACTED".to_string(), "gemini-2.0-flash-exp".to_string());
    fill(&mut client);
    let request = client.chat_request("next", true);
    assert_eq!(
        request.url,
        "https://generativelanguage.googleapis.com/v1beta/models/gemini-2.0-flash-exp:streamGenerateContent?alt=sse&key=SECRET-REDACTED"
    );
    assert_eq!(request.headers, vec![("Content-Type".to_string(), "application/json".to_string())]);
    assert_eq!(
        request.body,
        "{\"contents\":[{\"parts\":[{\"text\":\"hi\"}],\"role\":\"user\"},{\"parts\":[{\"text\":\"Let me check.\"},{\"functionCall\":{\"args\":{\"city\":\"Oslo\"},\"name\":\"get_weather\"}}],\"role\":\"model\"},{\"parts\":[{\"functionResponse\":{\"id\":\"c1\",\"name\":\"get_weather\",\"response\":{\"temp\":3}}}],\"role\":\"user\"},{\"parts\":[{\"text\":\"next\"}],\"role\":\"user\"}],\"generationConfig\":{\"maxOutputTokens\":2048,\"temperature\":0.7,\"topK\":40,\"topP\":0.95},\"systemInstruction\":{\"parts\":[{\"text\":\"sys\"}]},\"tools\":[{\"functionDeclarations\":[{\"description\":\"d\",\"name\":\"get_weather\",\"parameters\":{\"type\":\"object\"}}]}]}"
    );
    let plain = GeminiClient::new("k".to_string(), "m".to_string()).chat_request("", false);
    assert_eq!(plain.url, "https://generativelanguage.googleapis.com/v1beta/models/m:generateContent?key=k");
    assert_eq!(
        plain.body,
        "{\"contents\":[],\"generationConfig\":{\"maxOutputTokens\":2048,\"temperature\":0.7,\"topK\":40,\"topP\":0.95},\"tools\":[{\"functionDeclarations\":[]}]}"
    );
}

#[test]
fn gemini_plans_are_requests() {
    let client = GeminiClient::new("k".to_string(), "m".to_string());
    assert_eq!(client.send_message("x"), SendPlan::Http(client.chat_request("x", false)));
    assert_eq!(
        client.send_message_stream("x"),
        StreamPlan::Http { request: client.chat_request("x", true), provider: Provider::Gemini }
    );
    assert_eq!(ChatClient::client_name(&client), "Gemini");
}

#[test]
fn gemini_response_is_read() {
    let body = b"{\"candidates\":[{\"content\":{\"parts\":[{\"functionCall\":{\"name\":\"f\"}},{\"text\":\"first\"},{\"text\":\"second\"}],\"role\":\"model\"},\"finishReason\":\"STOP\"}]}";
    assert_eq!(read_gemini_response(200, body), Ok("firstsecond".to_string()));
    let two = b"{\"candidates\":[{\"content\":{\"parts\":[{\"text\":\"Hello \"},{\"text\":\"world\"}]}}]}";
    assert_eq!(read_gemini_response(200, two), Ok("Hello world".to_string()));
}

#[test]
fn gemini_response_that_failed_is_an_error() {
    assert_eq!(
        read_gemini_response(500, b"down"),
        Err(ChatError::Transport("API request failed: down".to_string()))
    );
    let cases = [
        ("{\"candidates\":[]}", "No response from API"),
        ("{\"candidates\":[{\"content\":{\"parts\":[],\"role\":\"model\"}}]}", "Empty response from API"),
        ("{\"candidates\":[{\"content\":{\"parts\":[{\"functionCall\":{}}]}}]}", "No text content in response"),
        ("{\"candidates\":[{\"content\":{}}]}", "unexpected response shape"),
        ("{\"candidates\":{}}", "unexpected response shape"),
        ("[", "EOF while parsing a list at line 1 column 1"),
    ];
    for (body, reason) in cases {
        assert_eq!(
            read_gemini_response(200, body.as_bytes()),
            Err(ChatError::Protocol { reason: reason.to_string(), payload: body.to_string() })
        );
    }
}

#[test]
fn any_client_is_one_of_the_backends() {
    let gemini = AnyChatClient::new_gemini("k".to_string(), "m".to_string());
    let openai = AnyChatClient::new_openai("k".to_string(), "m".to_string());
    let custom = AnyChatClient::new_openai_with_base_url("k".to_string(), "m".to_string(), "http://h/v1".to_string());
    let mock = AnyChatClient::new_mock();
    let canned = AnyChatClient::new_mock_with_responses(vec!["one".to_string()]);
    assert_eq!(gemini.client_name(), "Gemini");
    assert_eq!(openai.client_name(), "OpenAI");
    assert_eq!(custom.client_name(), "OpenAI");
    assert_eq!(mock.client_name(), "MockLLM");
    assert!(matches!(gemini, AnyChatClient::Gemini(_)));
    assert!(matches!(openai, AnyChatClient::OpenAI(_)));
    assert!(matches!(mock, AnyChatClient::Mock(_)));
    let mut custom = custom;
    match custom.send_message("hi") {
        SendPlan::Http(request) => assert_eq!(request.url, "http://h/v1/chat/completions"),
        other => panic!("{:?}", other),
    }
    let mut canned = canned;
    match canned.send_message("hi") {
        SendPlan::Canned { text, delay_ms } => {
            assert_eq!(text, "Mock LLM: one");
            assert_eq!(delay_ms, 100);
        }
        other => panic!("{:?}", other),
    }
    match canned.send_message_stream("hi") {
        StreamPlan::Canned { events, delay_ms } => {
            assert_eq!(events.len(), 2);
            assert_eq!(delay_ms, 50);
        }
        other => panic!("{:?}", other),
    }
}

#[test]
fn any_client_keeps_the_history_of_its_backend() {
    let mut client = AnyChatClient::new_gemini("k".to_string(), "m".to_string());
    fill(&mut client);
    match &client {
        AnyChatClient::Gemini(inner) => {
            assert_eq!(inner.conversation().len(), 3);
            assert_eq!(inner.conversation().system_instruction(), &Some("sys".to_string()));
        }
        _ => panic!("not gemini"),
    }
    client.clear_conversation();
    match &client {
        AnyChatClient::Gemini(inner) => {
            assert!(inner.conversation().turns().is_empty());
            assert_eq!(inner.conversation().system_instruction(), &Some("sys".to_string()));
        }
        _ => panic!("not gemini"),
    }
    assert_eq!(
        client.read_response(200, b"{\"candidates\":[{\"content\":{\"parts\":[{\"text\":\"t\"}]}}]}"),
        Ok("t".to_string())
    );
    let openai = AnyChatClient::new_openai("k".to_string(), "m".to_string());
    assert_eq!(
        openai.read_response(200, b"{\"choices\":[{\"message\":{\"content\":\"o\"}}]}"),
        Ok("o".to_string())
    );
}

#[test]
fn failed_status_rejects_a_stream() {
    assert_eq!(stream_rejection(200, b"ignored"), None);
    assert_eq!(stream_rejection(299, b""), None);
    assert_eq!(
        stream_rejection(401, b"bad key"),
        Some(ChatError::Transport("API request failed: bad key".to_string()))
    );
    assert_eq!(
        stream_rejection(199, b""),
        Some(ChatError::Transport("API request failed: ".to_string()))
    );
    assert_eq!(
        stream_rejection(500, &[b'x', 0xff]),
        Some(ChatError::Transport("API request failed: x\u{fffd}".to_string()))
    );
}

#[test]
fn new_clients_advertise_no_tools() {
    let tool = ToolDefinition {
        name: "t".to_string(),
        description: "d".to_string(),
        parameters: parse_json(b"{}").unwrap(),
    };
    for mut client in [
        AnyChatClient::new_openai("k".to_string(), "m".to_string()),
        AnyChatClient::new_openai_with_base_url("k".to_string(), "m".to_string(), "u".to_string()),
        AnyChatClient::new_gemini("k".to_string(), "m".to_string()),
    ] {
        let fresh = client.plan_message("hi");
        client.set_available_tools(vec![tool.clone()]);
        assert_ne!(client.plan_message("hi"), fresh);
        client.set_available_tools(Vec::new());
        assert_eq!(client.plan_message("hi"), fresh);
    }
}
