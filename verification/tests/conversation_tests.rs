use chat_cli::conversation::{Conversation, ConversationTurn, Part, Role};
use chat_cli::function_calling::{parse_function_call_from_text, FunctionCall, FunctionResponse};
use chat_cli::json::{parse_json, Json};

fn json(text: &str) -> Json {
    parse_json(text.as_bytes()).unwrap()
}

fn call() -> FunctionCall {
    FunctionCall { id: Some("c1".to_string()), name: "get_weather".to_string(), args: json("{\"city\":\"Oslo\"}") }
}

fn response() -> FunctionResponse {
    FunctionResponse { id: "c1".to_string(), name: "get_weather".to_string(), response: json("{\"temp\":3}") }
}

#[test]
fn tool_round_trip_adds_two_turns_in_order() {
    let mut conversation = Conversation::new();
    conversation.add_user_message("weather?");
    let before: Vec<ConversationTurn> = conversation.turns().clone();
    conversation.add_model_response("Let me check.", vec![call()]);
    conversation.add_function_response(&response());
    let replayed = conversation.replay("");
    assert_eq!(replayed.len(), before.len() + 2);
    assert_eq!(&replayed[..before.len()], &before[..]);
    assert_eq!(
        replayed[before.len()],
        ConversationTurn {
            role: Role::Model,
            parts: vec![Part::Text("Let me check.".to_string()), Part::ToolCall(call())],
        }
    );
    assert_eq!(
        replayed[before.len() + 1],
        ConversationTurn { role: Role::Function, parts: vec![Part::ToolResult(response())] }
    );
    assert_eq!(&replayed, conversation.turns());
}

#[test]
fn clear_leaves_nothing_to_read() {
    let mut conversation = Conversation::new();
    conversation.load_system_prompt("be brief");
    conversation.add_user_message("a");
    conversation.add_model_response("b", Vec::new());
    conversation.clear_conversation();
    assert_eq!(conversation.len(), 0);
    assert!(conversation.turns().is_empty());
    assert!(conversation.replay("").is_empty());
    assert_eq!(conversation.system_instruction(), &Some("be brief".to_string()));
    conversation.clear_conversation();
    assert!(conversation.turns().is_empty());
    let mut empty = Conversation::new();
    empty.clear_conversation();
    assert!(empty.turns().is_empty());
}

#[test]
fn model_turn_without_text_holds_only_its_calls() {
    let mut conversation = Conversation::new();
    conversation.add_model_response("", vec![call(), call()]);
    assert_eq!(
        conversation.turns()[0],
        ConversationTurn { role: Role::Model, parts: vec![Part::ToolCall(call()), Part::ToolCall(call())] }
    );
    conversation.add_model_response("", Vec::new());
    assert_eq!(conversation.turns()[1].parts.len(), 0);
}

#[test]
fn replay_adds_the_new_message_last() {
    let mut conversation = Conversation::new();
    conversation.add_user_message("one");
    let replayed = conversation.replay("two");
    assert_eq!(replayed.len(), 2);
    assert_eq!(
        replayed[1],
        ConversationTurn { role: Role::User, parts: vec![Part::Text("two".to_string())] }
    );
    assert_eq!(conversation.len(), 1);
}

#[test]
fn clone_is_a_copy() {
    let mut conversation = Conversation::new();
    conversation.add_model_response("x", vec![call()]);
    let mut copy = conversation.clone();
    copy.add_user_message("more");
    assert_eq!(conversation.len(), 1);
    assert_eq!(copy.len(), 2);
    assert_eq!(copy.turns()[0], conversation.turns()[0]);
}

#[test]
fn call_is_read_from_text() {
    assert_eq!(
        parse_function_call_from_text("{\"name\":\"f\",\"args\":{\"a\":1},\"more\":true}"),
        Some(FunctionCall { id: None, name: "f".to_string(), args: json("{\"a\":1}") })
    );
    assert_eq!(
        parse_function_call_from_text("{\"id\":\"7\",\"name\":\"f\",\"args\":null}"),
        Some(FunctionCall { id: Some("7".to_string()), name: "f".to_string(), args: Json::Null })
    );
    assert_eq!(parse_function_call_from_text("{\"name\":\"f\"}"), None);
    assert_eq!(parse_function_call_from_text("{\"name\":1,\"args\":{}}"), None);
    assert_eq!(parse_function_call_from_text("call f please"), None);
    assert_eq!(
        call().to_json(),
        Json::Object(vec![
            ("name".to_string(), Json::Str("get_weather".to_string())),
            ("args".to_string(), json("{\"city\":\"Oslo\"}")),
        ])
    );
    assert_eq!(call().to_json().to_text(), "{\"args\":{\"city\":\"Oslo\"},\"name\":\"get_weather\"}");
}
