use llm_protocols::annotated::Annotated;
use llm_protocols::frame::{Frame, FramingError};
use llm_protocols::pipeline::{convert_message, convert_sse_stream, envelope_from_decoded};

#[derive(Debug, PartialEq, Eq)]
struct Reply {
    text: String,
}

fn decode_reply(frame: &Frame) -> Result<Annotated<Reply>, String> {
    let value: serde_json::Value = serde_json::from_str(&frame.data).map_err(|e| e.to_string())?;
    match value.get("text").and_then(|t| t.as_str()) {
        Some(text) => Ok(Annotated::from_data(Reply { text: text.to_string() })),
        None => Err("missing field `text`".to_string()),
    }
}

fn valid(text: &str) -> Result<Frame, FramingError> {
    Ok(Frame::new(format!("{{\"text\":\"{}\"}}", text)))
}

fn reply(text: &str) -> Annotated<Reply> {
    Annotated::Data(Reply { text: text.to_string() })
}

#[test]
fn valid_frame_decodes_to_value() {
    let out = convert_sse_stream(vec![valid("hi")], decode_reply);
    assert_eq!(out, vec![reply("hi")]);
}

#[test]
fn truncated_frame_becomes_error_envelope() {
    let out = convert_sse_stream(vec![Err(FramingError::Truncated)], decode_reply);
    assert_eq!(out, vec![Annotated::Error("Truncated".to_string())]);
}

#[test]
fn undecodable_payload_becomes_error_envelope() {
    let expected = serde_json::from_str::<serde_json::Value>("{not json")
        .unwrap_err()
        .to_string();
    let out = convert_sse_stream(vec![Ok(Frame::new("{not json".to_string()))], decode_reply);
    assert_eq!(out, vec![Annotated::Error(expected)]);
}

#[test]
fn empty_stream_gives_empty_output() {
    let out = convert_sse_stream(Vec::new(), decode_reply);
    assert!(out.is_empty());
}

#[test]
fn framing_error_between_valid_frames() {
    let out = convert_sse_stream(
        vec![valid("a"), Err(FramingError::Truncated), valid("b")],
        decode_reply,
    );
    assert_eq!(out.len(), 3);
    assert!(out[0].is_data());
    assert!(out[1].is_error());
    assert!(out[2].is_data());
    assert_eq!(out[0], reply("a"));
    assert_eq!(out[2], reply("b"));
}

#[test]
fn output_length_equals_input_length() {
    let input = vec![
        valid("x"),
        Err(FramingError::InvalidEncoding),
        Ok(Frame::new("[]".to_string())),
        Err(FramingError::Malformed("no colon".to_string())),
        valid("y"),
        Ok(Frame::new(String::new())),
        valid("z"),
    ];
    let out = convert_sse_stream(input, decode_reply);
    assert_eq!(out.len(), 7);
}

#[test]
fn output_order_follows_input_order() {
    let tags = ["0", "1", "2", "3", "4", "5", "6", "7", "8", "9"];
    let input: Vec<_> = tags.iter().map(|t| valid(t)).collect();
    let out = convert_sse_stream(input, decode_reply);
    let texts: Vec<&str> = out
        .iter()
        .map(|a| a.data().map(|r| r.text.as_str()).unwrap())
        .collect();
    assert_eq!(texts, tags.to_vec());
}

#[test]
fn one_failure_leaves_other_positions_alone() {
    let clean = convert_sse_stream(vec![valid("a"), valid("b"), valid("c")], decode_reply);
    let framing = convert_sse_stream(
        vec![valid("a"), Err(FramingError::Truncated), valid("c")],
        decode_reply,
    );
    let payload = convert_sse_stream(
        vec![valid("a"), Ok(Frame::new("{\"other\":1}".to_string())), valid("c")],
        decode_reply,
    );
    for out in [&framing, &payload] {
        assert_eq!(out.len(), clean.len());
        assert_eq!(out[0], clean[0]);
        assert_eq!(out[2], clean[2]);
        assert!(out[1].is_error());
    }
    assert_eq!(payload[1], Annotated::Error("missing field `text`".to_string()));
}

#[test]
fn adversarial_items_never_stop_the_stream() {
    let input = vec![
        Err(FramingError::Truncated),
        Ok(Frame::new("\u{0}\u{1}".to_string())),
        Err(FramingError::InvalidEncoding),
        Ok(Frame::new("{\"text\":".to_string())),
        Ok(Frame::new("{\"text\":42}".to_string())),
        Err(FramingError::Malformed(String::new())),
        valid("end"),
    ];
    let out = convert_sse_stream(input, decode_reply);
    assert_eq!(out.len(), 7);
    assert!(out[..6].iter().all(|a| a.is_error()));
    assert_eq!(out[6], reply("end"));
}

#[test]
fn framing_messages_describe_the_fault() {
    assert_eq!(FramingError::Truncated.message(), "Truncated");
    assert_eq!(FramingError::InvalidEncoding.message(), "InvalidEncoding");
    assert_eq!(
        FramingError::Malformed("line without field".to_string()).message(),
        "Malformed: line without field"
    );
    let out = convert_sse_stream(
        vec![Err(FramingError::Malformed("bad".to_string())), Err(FramingError::InvalidEncoding)],
        decode_reply,
    );
    assert_eq!(
        out,
        vec![
            Annotated::Error("Malformed: bad".to_string()),
            Annotated::Error("InvalidEncoding".to_string()),
        ]
    );
}

#[test]
fn decoded_envelope_passes_through_unchanged() {
    let passed: Annotated<Reply> = envelope_from_decoded(Ok(Annotated::Error("upstream".to_string())));
    assert_eq!(passed, Annotated::Error("upstream".to_string()));
    let failed: Annotated<Reply> = envelope_from_decoded(Err("bad payload".to_string()));
    assert_eq!(failed, Annotated::Error("bad payload".to_string()));
    let value = envelope_from_decoded::<Reply>(Ok(reply("v")));
    assert_eq!(value, reply("v"));
}

#[test]
fn single_item_conversion() {
    let decode = |f: &Frame| decode_reply(f);
    assert_eq!(convert_message(&valid("one"), &decode), reply("one"));
    assert_eq!(
        convert_message(&Err(FramingError::Truncated), &decode),
        Annotated::Error("Truncated".to_string())
    );
}

#[test]
fn empty_data_segment_is_left_to_the_decoder() {
    let lenient = |_: &Frame| Ok::<Annotated<Reply>, String>(reply(""));
    let out = convert_sse_stream(vec![Ok(Frame::new(String::new()))], lenient);
    assert_eq!(out, vec![reply("")]);
    let strict = convert_sse_stream(vec![Ok(Frame::new(String::new()))], decode_reply);
    assert!(strict[0].is_error());
}
