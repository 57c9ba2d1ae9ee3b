use anthropic_stream::choice::DecodeError;
use anthropic_stream::decode::decode_event;
use anthropic_stream::event::{
    Content, ContentDelta, MessageDelta, MessageStart, PartialUsage, StreamingEvent, Usage,
};

fn malformed(payload: &str) -> String {
    match decode_event(payload) {
        Err(DecodeError::JsonMalformed(report)) => report,
        other => panic!("unexpected outcome {:?}", other),
    }
}

#[test]
fn decodes_message_start() {
    let payload = "{\"type\":\"message_start\",\"message\":{\"id\":\"msg_1\",\"type\":\"message\",\"role\":\"assistant\",\"content\":[{\"type\":\"text\",\"text\":\"hi\"},{\"type\":\"tool_use\",\"id\":\"t\",\"name\":\"n\",\"input\":{}},{\"type\":\"thinking\"}],\"model\":\"model-x\",\"stop_reason\":\"end_turn\",\"stop_sequence\":null,\"usage\":{\"input_tokens\":25,\"output_tokens\":1}}}";
    let expected = StreamingEvent::MessageStart {
        message: MessageStart {
            id: "msg_1".to_string(),
            role: "assistant".to_string(),
            content: vec![
                Content::Text { text: "hi".to_string() },
                Content::ToolUse { id: "t".to_string(), name: "n".to_string() },
                Content::Other,
            ],
            model: "model-x".to_string(),
            stop_reason: Some("end_turn".to_string()),
            stop_sequence: None,
            usage: Usage { input_tokens: 25, output_tokens: 1 },
        },
    };
    assert_eq!(decode_event(payload).unwrap(), expected);
}

#[test]
fn message_start_needs_its_members() {
    malformed("{\"type\":\"message_start\"}");
    malformed("{\"type\":\"message_start\",\"message\":{\"id\":\"m\",\"role\":\"r\",\"content\":[],\"model\":\"x\"}}");
    malformed("{\"type\":\"message_start\",\"message\":{\"id\":\"m\",\"role\":\"r\",\"content\":{},\"model\":\"x\",\"usage\":{\"input_tokens\":1,\"output_tokens\":1}}}");
    malformed("{\"type\":\"message_start\",\"message\":{\"id\":\"m\",\"role\":\"r\",\"content\":[{\"type\":\"text\"}],\"model\":\"x\",\"usage\":{\"input_tokens\":1,\"output_tokens\":1}}}");
    malformed("{\"type\":\"message_start\",\"message\":{\"id\":\"m\",\"role\":\"r\",\"content\":[],\"model\":\"x\",\"stop_reason\":7,\"usage\":{\"input_tokens\":1,\"output_tokens\":1}}}");
    malformed("{\"type\":\"message_start\",\"message\":{\"id\":\"m\",\"role\":\"r\",\"content\":[],\"model\":\"x\",\"usage\":{\"input_tokens\":-1,\"output_tokens\":1}}}");
}

#[test]
fn decodes_content_block_start() {
    assert_eq!(
        decode_event("{\"type\":\"content_block_start\",\"index\":3,\"content_block\":{\"type\":\"tool_use\",\"id\":\"t1\",\"name\":\"lookup\"}}").unwrap(),
        StreamingEvent::ContentBlockStart {
            index: 3,
            content_block: Content::ToolUse { id: "t1".to_string(), name: "lookup".to_string() },
        }
    );
    assert_eq!(
        decode_event("{\"content_block\":{\"text\":\"\",\"type\":\"text\"},\"index\":0,\"type\":\"content_block_start\"}").unwrap(),
        StreamingEvent::ContentBlockStart { index: 0, content_block: Content::Text { text: String::new() } }
    );
    assert_eq!(
        decode_event("{\"type\":\"content_block_start\",\"index\":0,\"content_block\":{\"type\":\"image\"}}").unwrap(),
        StreamingEvent::ContentBlockStart { index: 0, content_block: Content::Other }
    );
}

#[test]
fn content_block_start_needs_its_members() {
    malformed("{\"type\":\"content_block_start\",\"content_block\":{\"type\":\"text\",\"text\":\"\"}}");
    malformed("{\"type\":\"content_block_start\",\"index\":0}");
    malformed("{\"type\":\"content_block_start\",\"index\":0,\"content_block\":{\"text\":\"\"}}");
    malformed("{\"type\":\"content_block_start\",\"index\":0,\"content_block\":{\"type\":\"tool_use\",\"id\":\"t1\"}}");
    malformed("{\"type\":\"content_block_start\",\"index\":0,\"content_block\":{\"type\":\"tool_use\",\"name\":\"n\"}}");
    malformed("{\"type\":\"content_block_start\",\"index\":0,\"content_block\":\"text\"}");
}

#[test]
fn decodes_content_block_delta() {
    assert_eq!(
        decode_event("{\"type\":\"content_block_delta\",\"index\":0,\"delta\":{\"type\":\"text_delta\",\"text\":\"Hello\"}}").unwrap(),
        StreamingEvent::ContentBlockDelta { index: 0, delta: ContentDelta::TextDelta { text: "Hello".to_string() } }
    );
    assert_eq!(
        decode_event("{\"type\":\"content_block_delta\",\"index\":1,\"delta\":{\"type\":\"input_json_delta\",\"partial_json\":\"{\\\"q\\\":\"}}").unwrap(),
        StreamingEvent::ContentBlockDelta {
            index: 1,
            delta: ContentDelta::InputJsonDelta { partial_json: "{\"q\":".to_string() },
        }
    );
}

#[test]
fn content_block_delta_of_unknown_kind_is_malformed() {
    malformed("{\"type\":\"content_block_delta\",\"index\":0,\"delta\":{\"type\":\"signature_delta\",\"signature\":\"x\"}}");
    malformed("{\"type\":\"content_block_delta\",\"index\":0,\"delta\":{\"type\":\"text_delta\"}}");
    malformed("{\"type\":\"content_block_delta\",\"index\":0,\"delta\":{\"type\":\"text_delta\",\"text\":5}}");
    malformed("{\"type\":\"content_block_delta\",\"index\":0,\"delta\":{\"type\":\"input_json_delta\",\"text\":\"x\"}}");
    malformed("{\"type\":\"content_block_delta\",\"index\":0}");
    malformed("{\"type\":\"content_block_delta\",\"delta\":{\"type\":\"text_delta\",\"text\":\"x\"}}");
}

#[test]
fn decodes_content_block_stop() {
    assert_eq!(
        decode_event("{\"type\":\"content_block_stop\",\"index\":7}").unwrap(),
        StreamingEvent::ContentBlockStop { index: 7 }
    );
}

#[test]
fn index_has_to_be_a_count() {
    malformed("{\"type\":\"content_block_stop\"}");
    malformed("{\"type\":\"content_block_stop\",\"index\":-1}");
    malformed("{\"type\":\"content_block_stop\",\"index\":1.0}");
    malformed("{\"type\":\"content_block_stop\",\"index\":\"1\"}");
    malformed("{\"type\":\"content_block_stop\",\"index\":null}");
    malformed("{\"type\":\"content_block_stop\",\"index\":18446744073709551616}");
    assert_eq!(
        decode_event("{\"type\":\"content_block_stop\",\"index\":4294967295}").unwrap(),
        StreamingEvent::ContentBlockStop { index: 4294967295 }
    );
}

#[test]
fn decodes_message_delta() {
    assert_eq!(
        decode_event("{\"type\":\"message_delta\",\"delta\":{\"stop_reason\":\"tool_use\",\"stop_sequence\":\"END\"},\"usage\":{\"output_tokens\":15,\"input_tokens\":4}}").unwrap(),
        StreamingEvent::MessageDelta {
            delta: MessageDelta { stop_reason: Some("tool_use".to_string()), stop_sequence: Some("END".to_string()) },
            usage: PartialUsage { output_tokens: 15, input_tokens: Some(4) },
        }
    );
    assert_eq!(
        decode_event("{\"type\":\"message_delta\",\"delta\":{},\"usage\":{\"output_tokens\":0,\"input_tokens\":null}}").unwrap(),
        StreamingEvent::MessageDelta {
            delta: MessageDelta { stop_reason: None, stop_sequence: None },
            usage: PartialUsage { output_tokens: 0, input_tokens: None },
        }
    );
}

#[test]
fn message_delta_needs_its_members() {
    malformed("{\"type\":\"message_delta\",\"delta\":{}}");
    malformed("{\"type\":\"message_delta\",\"usage\":{\"output_tokens\":1}}");
    malformed("{\"type\":\"message_delta\",\"delta\":{},\"usage\":{}}");
    malformed("{\"type\":\"message_delta\",\"delta\":{},\"usage\":{\"output_tokens\":1,\"input_tokens\":\"2\"}}");
    malformed("{\"type\":\"message_delta\",\"delta\":{\"stop_reason\":[]},\"usage\":{\"output_tokens\":1}}");
}

#[test]
fn decodes_events_without_members() {
    assert_eq!(decode_event("{\"type\":\"message_stop\"}").unwrap(), StreamingEvent::MessageStop);
    assert_eq!(decode_event("{\"type\":\"ping\"}").unwrap(), StreamingEvent::Ping);
    assert_eq!(decode_event(" { \"extra\" : [1, 2] , \"type\" : \"ping\" } ").unwrap(), StreamingEvent::Ping);
}

#[test]
fn unknown_kind_is_not_an_error() {
    assert_eq!(decode_event("{\"type\":\"error\",\"error\":{\"type\":\"overloaded_error\"}}").unwrap(), StreamingEvent::Unknown);
    assert_eq!(decode_event("{\"type\":\"\"}").unwrap(), StreamingEvent::Unknown);
    assert_eq!(decode_event("{\"type\":\"pings\"}").unwrap(), StreamingEvent::Unknown);
    assert_eq!(decode_event("{\"type\":\"pin\"}").unwrap(), StreamingEvent::Unknown);
}

#[test]
fn kinds_are_matched_without_regard_to_case() {
    assert_eq!(decode_event("{\"type\":\"PING\"}").unwrap(), StreamingEvent::Ping);
    assert_eq!(decode_event("{\"type\":\"Message_Stop\"}").unwrap(), StreamingEvent::MessageStop);
    assert_eq!(
        decode_event("{\"type\":\"Content_Block_Delta\",\"index\":0,\"delta\":{\"type\":\"TEXT_DELTA\",\"text\":\"x\"}}").unwrap(),
        StreamingEvent::ContentBlockDelta { index: 0, delta: ContentDelta::TextDelta { text: "x".to_string() } }
    );
    assert_eq!(
        decode_event("{\"type\":\"content_block_start\",\"index\":0,\"content_block\":{\"type\":\"Tool_Use\",\"id\":\"a\",\"name\":\"b\"}}").unwrap(),
        StreamingEvent::ContentBlockStart { index: 0, content_block: Content::ToolUse { id: "a".to_string(), name: "b".to_string() } }
    );
    assert_eq!(decode_event("{\"type\":\"p\u{131}ng\"}").unwrap(), StreamingEvent::Unknown);
    assert_eq!(decode_event("{\"type\":\"ping\u{40}\"}").unwrap(), StreamingEvent::Unknown);
    assert_eq!(decode_event("{\"type\":\"PiNG\u{5b}\"}").unwrap(), StreamingEvent::Unknown);
}

#[test]
fn kind_has_to_be_a_text() {
    malformed("{}");
    malformed("{\"type\":1}");
    malformed("{\"type\":null}");
    malformed("{\"Type\":\"ping\"}");
    malformed("[\"ping\"]");
    malformed("\"ping\"");
    malformed("null");
}

#[test]
fn text_that_is_not_json_is_malformed() {
    malformed("{\"type\":\"ping\"");
    malformed("{\"type\":\"ping\"} x");
    malformed("[DONE]");
    malformed("");
}

#[test]
fn report_quotes_the_payload() {
    let report = malformed("{\"type\":1}");
    assert_eq!(
        report,
        "Failed to parse JSON: the payload does not describe an event (Data: {\"type\":1})"
    );
    let report = malformed("{oops");
    assert!(report.starts_with("Failed to parse JSON: key must be a string"));
    assert!(report.ends_with(" (Data: {oops)"));
}
