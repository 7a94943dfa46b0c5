use maple_proxy::stream::{
    BackendSignal, StreamEvent, chunk_signal, done_event, event_payload, translate_all,
    translate_signal,
};

fn payloads(events: &[StreamEvent]) -> Vec<String> {
    events.iter().map(event_payload).collect()
}

#[test]
fn test_stream_all_chunks_ends_with_done() {
    let signals = vec![
        BackendSignal::Chunk(Ok("{\"id\":\"c1\"}".to_string())),
        BackendSignal::Chunk(Ok("{\"id\":\"c2\"}".to_string())),
        BackendSignal::Chunk(Ok("{\"id\":\"c3\"}".to_string())),
    ];
    let events = translate_all(signals);
    assert_eq!(events.len(), 4);
    assert_eq!(
        payloads(&events),
        vec!["{\"id\":\"c1\"}", "{\"id\":\"c2\"}", "{\"id\":\"c3\"}", "[DONE]"]
    );
    for e in &events[..3] {
        assert!(matches!(e, StreamEvent::Data(_)));
    }
    assert!(matches!(events[3], StreamEvent::Done));
}

#[test]
fn test_empty_stream_is_one_done_event() {
    let events = translate_all(Vec::new());
    assert_eq!(events.len(), 1);
    assert!(matches!(events[0], StreamEvent::Done));
    assert_eq!(event_payload(&events[0]), "[DONE]");
}

#[test]
fn test_transport_error_truncates_stream() {
    let signals = vec![
        BackendSignal::Chunk(Ok("{\"id\":\"c1\"}".to_string())),
        BackendSignal::Chunk(Ok("{\"id\":\"c2\"}".to_string())),
        BackendSignal::Transport("connection reset".to_string()),
        BackendSignal::Chunk(Ok("{\"id\":\"never\"}".to_string())),
    ];
    let events = translate_all(signals);
    assert_eq!(events.len(), 3);
    assert!(matches!(events[0], StreamEvent::Data(_)));
    assert!(matches!(events[1], StreamEvent::Data(_)));
    assert!(matches!(events[2], StreamEvent::ErrorEvent(_)));
    assert_eq!(
        event_payload(&events[2]),
        "{\"error\": \"Stream error: connection reset\"}"
    );
    assert!(!events.iter().any(|e| matches!(e, StreamEvent::Done)));
}

#[test]
fn test_serialization_error_truncates_stream() {
    let signals = vec![
        BackendSignal::Chunk(Err("key must be a string".to_string())),
        BackendSignal::Chunk(Ok("{\"id\":\"never\"}".to_string())),
    ];
    let events = translate_all(signals);
    assert_eq!(events.len(), 1);
    assert_eq!(
        event_payload(&events[0]),
        "{\"error\": \"Failed to serialize chunk: key must be a string\"}"
    );
    assert!(!events.iter().any(|e| matches!(e, StreamEvent::Done)));
}

#[test]
fn test_translate_signal_halts_only_on_errors() {
    let (e, halt) = translate_signal(&BackendSignal::Chunk(Ok("{}".to_string())));
    assert!(matches!(e, StreamEvent::Data(_)));
    assert!(!halt);

    let (e, halt) = translate_signal(&BackendSignal::Chunk(Err("oops".to_string())));
    assert!(matches!(e, StreamEvent::ErrorEvent(_)));
    assert!(halt);

    let (e, halt) = translate_signal(&BackendSignal::Transport("gone".to_string()));
    assert!(matches!(e, StreamEvent::ErrorEvent(_)));
    assert!(halt);
}

#[test]
fn test_done_event_payload_is_end_marker() {
    assert_eq!(event_payload(&done_event()), "[DONE]");
}

#[test]
fn test_chunk_signal_serializes_real_chunk() {
    let mut fields = serde_json::Map::new();
    fields.insert(
        "id".to_string(),
        serde_json::Value::String("chatcmpl-1".to_string()),
    );
    let chunk = opensecret::ChatCompletionChunk(serde_json::Value::Object(fields));
    let signal = chunk_signal(&chunk);
    let (event, halt) = translate_signal(&signal);
    assert!(!halt);
    assert_eq!(event_payload(&event), "{\"id\":\"chatcmpl-1\"}");
}
