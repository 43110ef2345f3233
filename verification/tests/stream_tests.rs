use chat_cli::error::ChatError;
use chat_cli::function_calling::FunctionCall;
use chat_cli::gemini_stream::normalize_gemini;
use chat_cli::json::{parse_json, Json};
use chat_cli::openai_stream::{Delta, OpenAiNormalizer};
use chat_cli::session::{Provider, StreamSession};
use chat_cli::stream::StreamEvent;
use chat_cli::tool_calls::{merge_fragment, PendingToolCall, ToolCallFragment};

fn json(text: &str) -> Json {
    parse_json(text.as_bytes()).unwrap()
}

fn sse(payload: &str) -> Vec<u8> {
    format!("data: {}\n\n", payload).into_bytes()
}

fn fragment(index: usize, arguments: &str) -> ToolCallFragment {
    ToolCallFragment {
        index,
        id: None,
        call_type: None,
        name: None,
        arguments: Some(arguments.to_string()),
    }
}

#[test]
fn gemini_parts_become_events_in_order() {
    let frame = json(
        "{\"candidates\":[{\"content\":{\"role\":\"model\",\"parts\":[{\"text\":\"Hello\"},{\"text\":\"\"},{\"functionCall\":{\"name\":\"get_weather\",\"args\":{\"city\":\"Oslo\"}}},{\"text\":\" there\"}]}}]}",
    );
    let events = normalize_gemini(&frame).unwrap();
    assert_eq!(
        events,
        vec![
            StreamEvent::Text("Hello".to_string()),
            StreamEvent::ToolCallComplete(FunctionCall {
                id: None,
                name: "get_weather".to_string(),
                args: json("{\"city\":\"Oslo\"}"),
            }),
            StreamEvent::Text(" there".to_string()),
        ]
    );
}

#[test]
fn gemini_part_may_hold_text_and_call() {
    let frame = json(
        "{\"candidates\":[{\"content\":{\"parts\":[{\"text\":\"t\",\"functionCall\":{\"name\":\"f\",\"id\":\"c1\"}}]}}]}",
    );
    assert_eq!(
        normalize_gemini(&frame).unwrap(),
        vec![
            StreamEvent::Text("t".to_string()),
            StreamEvent::ToolCallComplete(FunctionCall {
                id: Some("c1".to_string()),
                name: "f".to_string(),
                args: Json::Object(Vec::new()),
            }),
        ]
    );
}

#[test]
fn gemini_frame_without_candidates_gives_nothing() {
    assert_eq!(normalize_gemini(&json("{\"candidates\":[]}")), Some(Vec::new()));
}

#[test]
fn gemini_frame_of_another_shape_is_refused() {
    assert_eq!(normalize_gemini(&json("{\"error\":{\"code\":429}}")), None);
    assert_eq!(normalize_gemini(&json("{\"candidates\":[{\"content\":{}}]}")), None);
    assert_eq!(
        normalize_gemini(&json("{\"candidates\":[{\"content\":{\"parts\":[{\"text\":5}]}}]}")),
        None
    );
    assert_eq!(
        normalize_gemini(&json(
            "{\"candidates\":[{\"content\":{\"parts\":[{\"text\":\"a\"},{\"functionCall\":{\"args\":{}}}]}}]}"
        )),
        None
    );
}

#[test]
fn openai_text_delta_becomes_a_text_event() {
    let mut normalizer = OpenAiNormalizer::new();
    let events = normalizer
        .frame(&json("{\"choices\":[{\"index\":0,\"delta\":{\"role\":\"assistant\",\"content\":\"Hi\"}}]}"))
        .unwrap();
    assert_eq!(events, vec![StreamEvent::Text("Hi".to_string())]);
    let none = normalizer
        .frame(&json("{\"choices\":[{\"delta\":{\"content\":\"\"},\"finish_reason\":null}]}"))
        .unwrap();
    assert!(none.is_empty());
    assert!(normalizer.frame(&json("{\"choices\":[]}")).unwrap().is_empty());
}

#[test]
fn openai_fragments_are_merged_by_index() {
    let mut normalizer = OpenAiNormalizer::new();
    let first = normalizer
        .frame(&json(
            "{\"choices\":[{\"delta\":{\"tool_calls\":[{\"index\":1,\"id\":\"call_b\",\"type\":\"function\",\"function\":{\"name\":\"second\",\"arguments\":\"{\\\"b\\\"\"}},{\"index\":0,\"id\":\"call_a\",\"function\":{\"name\":\"first\",\"arguments\":\"\"}}]}}]}",
        ))
        .unwrap();
    assert_eq!(first.len(), 2);
    assert_eq!(
        first[0],
        StreamEvent::ToolCallDelta {
            index: 1,
            id: Some("call_b".to_string()),
            name: Some("second".to_string()),
            args_fragment: Some("{\"b\"".to_string()),
        }
    );
    let second = normalizer
        .frame(&json(
            "{\"choices\":[{\"delta\":{\"tool_calls\":[{\"index\":1,\"function\":{\"arguments\":\":2}\"}},{\"function\":{\"arguments\":\"{\\\"a\\\":1}\"}}]}}]}",
        ))
        .unwrap();
    assert_eq!(second.len(), 2);
    assert_eq!(normalizer.pending().len(), 2);
    assert_eq!(normalizer.pending()[0].args_buffer, "{\"a\":1}");
    assert_eq!(normalizer.pending()[1].args_buffer, "{\"b\":2}");
    let last = normalizer
        .frame(&json("{\"choices\":[{\"delta\":{},\"finish_reason\":\"tool_calls\"}]}"))
        .unwrap();
    assert_eq!(
        last,
        vec![
            StreamEvent::ToolCallComplete(FunctionCall {
                id: Some("call_a".to_string()),
                name: "first".to_string(),
                args: json("{\"a\":1}"),
            }),
            StreamEvent::ToolCallComplete(FunctionCall {
                id: Some("call_b".to_string()),
                name: "second".to_string(),
                args: json("{\"b\":2}"),
            }),
        ]
    );
    assert!(normalizer.pending().is_empty());
}

#[test]
fn arguments_are_rebuilt_however_they_are_sliced() {
    let arguments = "{\"location\":\"San Francisco\",\"unit\":\"°C\"}";
    let cuts: Vec<usize> = (0..=arguments.len()).filter(|&i| arguments.is_char_boundary(i)).collect();
    for &first in &cuts {
        for &second in cuts.iter().filter(|&&c| c >= first) {
            let mut pending: Vec<PendingToolCall> = Vec::new();
            merge_fragment(&mut pending, &fragment(2, &arguments[..first]));
            merge_fragment(&mut pending, &fragment(0, "{}"));
            merge_fragment(&mut pending, &fragment(2, &arguments[first..second]));
            merge_fragment(&mut pending, &fragment(2, &arguments[second..]));
            assert_eq!(pending.len(), 3);
            assert_eq!(pending[2].args_buffer, arguments);
            assert_eq!(pending[2].arguments(), json(arguments));
            assert_eq!(pending[0].args_buffer, "{}");
            assert_eq!(pending[1], PendingToolCall::new());
        }
    }
}

#[test]
fn fragment_replaces_id_type_and_name() {
    let slot = PendingToolCall {
        id: Some("old".to_string()),
        call_type: None,
        name: "before".to_string(),
        args_buffer: "ab".to_string(),
    };
    let merged = slot.merged(&ToolCallFragment {
        index: 0,
        id: Some("".to_string()),
        call_type: Some("function".to_string()),
        name: Some("after".to_string()),
        arguments: None,
    });
    assert_eq!(
        merged,
        PendingToolCall {
            id: Some("old".to_string()),
            call_type: Some("function".to_string()),
            name: "after".to_string(),
            args_buffer: "ab".to_string(),
        }
    );
}

#[test]
fn arguments_that_are_no_json_become_the_empty_object() {
    let mut normalizer = OpenAiNormalizer::new();
    normalizer
        .frame(&json(
            "{\"choices\":[{\"delta\":{\"tool_calls\":[{\"index\":0,\"function\":{\"name\":\"f\",\"arguments\":\"{oops\"}},{\"index\":1,\"function\":{\"arguments\":\"{}\"}},{\"index\":2,\"function\":{\"name\":\"g\"}}]}}]}",
        ))
        .unwrap();
    let done = normalizer
        .frame(&json("{\"choices\":[{\"delta\":{},\"finish_reason\":\"tool_calls\"}]}"))
        .unwrap();
    assert_eq!(
        done,
        vec![
            StreamEvent::ToolCallComplete(FunctionCall {
                id: None,
                name: "f".to_string(),
                args: Json::Object(Vec::new()),
            }),
            StreamEvent::ToolCallComplete(FunctionCall {
                id: None,
                name: "g".to_string(),
                args: Json::Object(Vec::new()),
            }),
        ]
    );
}

#[test]
fn other_finish_reason_completes_nothing() {
    let mut normalizer = OpenAiNormalizer::new();
    normalizer
        .frame(&json("{\"choices\":[{\"delta\":{\"tool_calls\":[{\"function\":{\"name\":\"f\"}}]}}]}"))
        .unwrap();
    let done = normalizer
        .frame(&json("{\"choices\":[{\"delta\":{},\"finish_reason\":\"stop\"}]}"))
        .unwrap();
    assert!(done.is_empty());
    assert_eq!(normalizer.pending().len(), 1);
}

#[test]
fn openai_frame_of_another_shape_is_refused_and_changes_nothing() {
    let mut normalizer = OpenAiNormalizer::new();
    normalizer
        .frame(&json("{\"choices\":[{\"delta\":{\"tool_calls\":[{\"function\":{\"name\":\"f\"}}]}}]}"))
        .unwrap();
    for bad in [
        "{\"error\":\"x\"}",
        "{\"choices\":[{}]}",
        "{\"choices\":[{\"delta\":[]}]}",
        "{\"choices\":[{\"delta\":{\"content\":7}}]}",
        "{\"choices\":[{\"delta\":{\"tool_calls\":{}}}]}",
        "{\"choices\":[{\"delta\":{\"tool_calls\":[{\"index\":-1}]}}]}",
        "{\"choices\":[{\"delta\":{\"tool_calls\":[{\"index\":2147483648}]}}]}",
        "{\"choices\":[{\"delta\":{\"tool_calls\":[{\"index\":0,\"function\":\"f\"}]}}]}",
        "{\"choices\":[{\"delta\":{\"tool_calls\":[{\"function\":{\"name\":\"g\"}},{\"id\":5}]}}]}",
        "{\"choices\":[{\"delta\":{},\"finish_reason\":1}]}",
    ] {
        assert_eq!(normalizer.frame(&json(bad)), None, "{}", bad);
        assert_eq!(normalizer.pending().len(), 1);
        assert_eq!(normalizer.pending()[0].name, "f");
    }
    assert_eq!(Delta::from_frame(&json("{\"choices\":[]}")), Some(None));
}

#[test]
fn session_turns_chunks_into_events() {
    let mut session = StreamSession::new(Provider::Gemini);
    let stream = sse("{\"candidates\":[{\"content\":{\"parts\":[{\"text\":\"Hel\"}],\"role\":\"model\"}}]}");
    let (head, tail) = stream.split_at(25);
    assert!(session.on_chunk(head).is_empty());
    assert_eq!(session.on_chunk(tail), vec![StreamEvent::Text("Hel".to_string())]);
    assert!(!session.is_closed());
    assert_eq!(session.finish(), vec![StreamEvent::Done]);
    assert!(session.is_closed());
    assert!(session.finish().is_empty());
    assert!(session.on_chunk(&stream).is_empty());
}

#[test]
fn session_gives_the_same_events_for_every_chunking() {
    let mut stream = Vec::new();
    stream.extend(sse("{\"choices\":[{\"delta\":{\"content\":\"Let me check. \"}}]}"));
    stream.extend(sse("{\"choices\":[{\"delta\":{\"tool_calls\":[{\"index\":0,\"id\":\"c1\",\"function\":{\"name\":\"get_weather\",\"arguments\":\"{\\\"city\\\":\"}}]}}]}"));
    stream.extend(sse("{\"choices\":[{\"delta\":{\"tool_calls\":[{\"index\":0,\"function\":{\"arguments\":\"\\\"Oslo\\\"}\"}}]}}]}"));
    stream.extend(sse("{\"choices\":[{\"delta\":{},\"finish_reason\":\"tool_calls\"}]}"));
    stream.extend(sse("[DONE]"));
    let mut whole = StreamSession::new(Provider::OpenAI);
    let mut expected = whole.on_chunk(&stream);
    expected.extend(whole.finish());
    assert_eq!(expected.len(), 5);
    assert_eq!(expected[0], StreamEvent::Text("Let me check. ".to_string()));
    assert_eq!(
        expected[3],
        StreamEvent::ToolCallComplete(FunctionCall {
            id: Some("c1".to_string()),
            name: "get_weather".to_string(),
            args: json("{\"city\":\"Oslo\"}"),
        })
    );
    assert_eq!(expected[4], StreamEvent::Done);
    for size in 1..40 {
        let mut session = StreamSession::new(Provider::OpenAI);
        let mut events = Vec::new();
        for chunk in stream.chunks(size) {
            events.extend(session.on_chunk(chunk));
        }
        events.extend(session.finish());
        assert_eq!(events, expected);
    }
}

#[test]
fn payload_that_is_no_json_ends_the_stream_with_an_error() {
    let mut session = StreamSession::new(Provider::OpenAI);
    let mut stream = sse("{\"choices\":[{\"delta\":{\"content\":\"ok\"}}]}");
    stream.extend(sse("{broken"));
    stream.extend(sse("{\"choices\":[{\"delta\":{\"content\":\"late\"}}]}"));
    let events = session.on_chunk(&stream);
    assert_eq!(events.len(), 2);
    assert_eq!(events[0], StreamEvent::Text("ok".to_string()));
    match &events[1] {
        StreamEvent::Error(ChatError::Protocol { reason, payload }) => {
            assert_eq!(reason, "key must be a string at line 1 column 2");
            assert_eq!(payload, "{broken");
        }
        other => panic!("{:?}", other),
    }
    assert!(session.is_closed());
    assert!(session.on_chunk(&sse("{\"choices\":[]}")).is_empty());
    assert!(session.finish().is_empty());
    assert!(session.fail("late").is_empty());
}

#[test]
fn payload_of_another_shape_ends_the_stream_with_an_error() {
    let mut session = StreamSession::new(Provider::Gemini);
    let events = session.on_chunk(&sse("{\"choices\":[]}"));
    assert_eq!(
        events,
        vec![StreamEvent::Error(ChatError::Protocol {
            reason: "unexpected response shape".to_string(),
            payload: "{\"choices\":[]}".to_string(),
        })]
    );
    assert_eq!(
        events[0].as_chunk(),
        Some((
            "JSON parse error: unexpected response shape - Data: {\"choices\":[]}".to_string(),
            None
        ))
    );
}

#[test]
fn transport_failure_is_an_event() {
    let mut session = StreamSession::new(Provider::Gemini);
    assert_eq!(
        session.fail("connection reset"),
        vec![StreamEvent::Error(ChatError::Transport("Stream error: connection reset".to_string()))]
    );
    assert!(session.is_closed());
    assert!(session.fail("again").is_empty());
}

#[test]
fn body_that_ends_inside_an_event_is_an_error() {
    let mut session = StreamSession::new(Provider::Gemini);
    assert!(session.on_chunk(b"data: {\"candidates\":[]}\n\n \r\n").is_empty());
    assert_eq!(session.finish(), vec![StreamEvent::Done]);
    let mut cut = StreamSession::new(Provider::Gemini);
    assert!(cut.on_chunk(b"data: {\"candi").is_empty());
    assert_eq!(
        cut.finish(),
        vec![StreamEvent::Error(ChatError::Protocol {
            reason: "stream ended inside an event".to_string(),
            payload: "data: {\"candi".to_string(),
        })]
    );
}

#[test]
fn payload_that_is_no_text_is_quoted_with_replacements() {
    let mut session = StreamSession::new(Provider::Gemini);
    let events = session.on_chunk(&[b'd', b'a', b't', b'a', b':', b' ', 0xff, b'{', b'\n', b'\n']);
    match &events[0] {
        StreamEvent::Error(ChatError::Protocol { payload, .. }) => assert_eq!(payload, "\u{fffd}{"),
        other => panic!("{:?}", other),
    }
}

#[test]
fn events_as_pairs_of_text_and_call() {
    assert_eq!(StreamEvent::Text("a".to_string()).as_chunk(), Some(("a".to_string(), None)));
    let call = FunctionCall { id: Some("x".to_string()), name: "f".to_string(), args: json("[1]") };
    assert_eq!(
        StreamEvent::ToolCallComplete(call).as_chunk(),
        Some((
            String::new(),
            Some(Json::Object(vec![
                ("name".to_string(), Json::Str("f".to_string())),
                ("args".to_string(), json("[1]")),
            ]))
        ))
    );
    assert_eq!(StreamEvent::Done.as_chunk(), None);
    assert!(StreamEvent::Done.is_terminal());
    assert!(StreamEvent::Error(ChatError::ToolLoopExceeded(1)).is_terminal());
    assert!(!StreamEvent::Text("a".to_string()).is_terminal());
}
