use std::cell::Cell;
use watsonx_rs::json::{parse_json, Json};
use watsonx_rs::sse::{
    decode_chunks, decode_line, extract_text_from_json, extract_thread_id, line_payload,
    parse_sse_line, parse_sse_stream, LineBuffer, SseEvent, StreamDecoder,
};

fn object(members: Vec<(&str, Json)>) -> Json {
    Json::Object(members.into_iter().map(|(k, v)| (k.to_string(), v)).collect())
}

fn text(s: &str) -> Json {
    Json::Text(s.to_string())
}

fn completion_doc(s: &str) -> Json {
    object(vec![("results", Json::Array(vec![object(vec![("generated_text", text(s))])]))])
}

fn delta_doc(s: &str) -> Json {
    object(vec![(
        "choices",
        Json::Array(vec![object(vec![("delta", object(vec![("content", text(s))]))])]),
    )])
}

fn message_doc(s: &str) -> Json {
    object(vec![(
        "choices",
        Json::Array(vec![object(vec![("message", object(vec![("content", text(s))]))])]),
    )])
}

#[test]
fn test_parse_sse_line_empty() {
    assert!(parse_sse_line("").unwrap().is_none());
    assert!(parse_sse_line("   ").unwrap().is_none());
}

#[test]
fn test_parse_sse_line_non_data() {
    assert!(parse_sse_line("id: 123").unwrap().is_none());
    assert!(parse_sse_line("event: message").unwrap().is_none());
    assert!(parse_sse_line(": comment").unwrap().is_none());
}

#[test]
fn test_parse_sse_line_done() {
    assert!(parse_sse_line("data: [DONE]").unwrap().is_none());
    assert!(parse_sse_line("data:  [DONE]").unwrap().is_none());
}

#[test]
fn test_parse_sse_line_text_generation_format() {
    let line = format!("data: {}", r#"{"results":[{"generated_text":"Hello, world!"}]}"#);
    let result = parse_sse_line(&line).unwrap();
    assert_eq!(result, Some("Hello, world!".to_string()));
}

#[test]
fn test_parse_sse_line_chat_completion_delta() {
    let line = format!("data: {}", r#"{"choices":[{"delta":{"content":"Hello"}}]}"#);
    let result = parse_sse_line(&line).unwrap();
    assert_eq!(result, Some("Hello".to_string()));
}

#[test]
fn test_parse_sse_line_chat_completion_message() {
    let line = format!("data: {}", r#"{"choices":[{"message":{"content":"Complete response"}}]}"#);
    let result = parse_sse_line(&line).unwrap();
    assert_eq!(result, Some("Complete response".to_string()));
}

#[test]
fn test_extract_text_from_json_text_generation() {
    let data = completion_doc("Generated text");
    let result = extract_text_from_json(&data).unwrap();
    assert_eq!(result, Some("Generated text".to_string()));
}

#[test]
fn test_extract_text_from_json_chat_delta() {
    let data = delta_doc("Delta content");
    let result = extract_text_from_json(&data).unwrap();
    assert_eq!(result, Some("Delta content".to_string()));
}

#[test]
fn test_extract_text_from_json_chat_message() {
    let data = message_doc("Message content");
    let result = extract_text_from_json(&data).unwrap();
    assert_eq!(result, Some("Message content".to_string()));
}

#[test]
fn test_extract_text_from_json_no_match() {
    let data = object(vec![("other", text("data"))]);
    let result = extract_text_from_json(&data).unwrap();
    assert!(result.is_none());
}

#[test]
fn test_parse_sse_line_malformed_json() {
    let line = "data: {invalid json}";
    let result = parse_sse_line(line);
    assert!(result.is_ok());
    assert_eq!(result.unwrap(), None);
    assert!(matches!(decode_line(line), SseEvent::Malformed(_)));
}

#[test]
fn payload_strips_prefix_and_one_space() {
    assert_eq!(line_payload("data: {\"a\":1}"), Some("{\"a\":1}".to_string()));
    assert_eq!(line_payload("data:{\"a\":1}"), Some("{\"a\":1}".to_string()));
    assert_eq!(line_payload("  data:   x  \r"), Some("x".to_string()));
    assert_eq!(line_payload("data:\u{a0}x"), Some("x".to_string()));
    assert_eq!(line_payload("data: [DONE] x"), Some("[DONE] x".to_string()));
    assert_eq!(line_payload("data"), None);
    assert_eq!(line_payload("data:"), None);
    assert_eq!(line_payload("data: "), None);
    assert_eq!(line_payload("data:[DONE]"), None);
    assert_eq!(line_payload("data: [DONE]"), None);
    assert_eq!(line_payload("DATA: x"), None);
    assert_eq!(line_payload("id: 42"), None);
    assert_eq!(line_payload("event: message"), None);
    assert_eq!(line_payload("x data: y"), None);
    assert_eq!(line_payload(""), None);
}

#[test]
fn no_fragment_lines_for_any_chunking() {
    let stream = b"data: [DONE]\ndata:[DONE]\ndata:\nid: 42\nevent: message\n\n";
    for cut in 0..=stream.len() {
        for cut2 in cut..=stream.len() {
            let chunks = vec![
                stream[..cut].to_vec(),
                stream[cut..cut2].to_vec(),
                stream[cut2..].to_vec(),
            ];
            let (fragments, acc) = decode_chunks(&chunks, None);
            assert!(fragments.is_empty());
            assert_eq!(acc.answer(), "");
            assert_eq!(acc.malformed_lines(), 0);
            assert_eq!(acc.thread_id(), &None);
        }
    }
}

#[test]
fn each_shape_gives_its_fragment() {
    let cases = [
        (r#"data: {"results":[{"generated_text":"plain"}]}"#, "plain"),
        (r#"data: {"choices":[{"delta":{"content":"delta"}}]}"#, "delta"),
        (r#"data: {"choices":[{"message":{"content":"message"}}]}"#, "message"),
        (r#"data: {"event":"message.delta","data":{"delta":{"content":[{"text":"agent"}]}}}"#, "agent"),
        (r#"data: {"event":"message.delta","data":{"content":[{"text":"direct"}]}}"#, "direct"),
    ];
    for (line, expected) in cases {
        assert_eq!(parse_sse_line(line).unwrap(), Some(expected.to_string()), "{}", line);
    }
    assert_eq!(parse_sse_line(r#"data: {"other":"data"}"#).unwrap(), None);
    assert!(matches!(decode_line(r#"data: {"other":"data"}"#), SseEvent::Payload(_)));
}

#[test]
fn shapes_take_precedence_in_order() {
    let all = r#"{"results":[{"generated_text":"a"}],"choices":[{"delta":{"content":"b"},"message":{"content":"c"}}],"data":{"delta":{"content":[{"text":"d"}]},"content":[{"text":"e"}]}}"#;
    let doc = parse_json(all).unwrap();
    assert_eq!(extract_text_from_json(&doc).unwrap(), Some("a".to_string()));

    let not_a_string = r#"{"results":[{"generated_text":5}],"choices":[{"delta":{"content":null},"message":{"content":"c"}}]}"#;
    let doc = parse_json(not_a_string).unwrap();
    assert_eq!(extract_text_from_json(&doc).unwrap(), Some("c".to_string()));

    let empty_results = r#"{"results":[],"choices":[{"delta":{"content":"b"}}]}"#;
    let doc = parse_json(empty_results).unwrap();
    assert_eq!(extract_text_from_json(&doc).unwrap(), Some("b".to_string()));

    let agent = r#"{"data":{"delta":{"content":[]},"content":[{"text":"e"}]}}"#;
    let doc = parse_json(agent).unwrap();
    assert_eq!(extract_text_from_json(&doc).unwrap(), Some("e".to_string()));

    let second_element = r#"{"results":[{"x":1},{"generated_text":"late"}]}"#;
    let doc = parse_json(second_element).unwrap();
    assert_eq!(extract_text_from_json(&doc).unwrap(), None);
}

#[test]
fn thread_id_is_read_without_a_fragment() {
    let doc = parse_json(r#"{"thread_id":"t-1"}"#).unwrap();
    assert_eq!(extract_text_from_json(&doc).unwrap(), None);
    assert_eq!(extract_thread_id(&doc), Some("t-1".to_string()));

    let doc = parse_json(r#"{"event":"message.created","data":{"thread_id":"t-2"}}"#).unwrap();
    assert_eq!(extract_thread_id(&doc), Some("t-2".to_string()));

    let doc = parse_json(r#"{"thread_id":"top","data":{"thread_id":"nested"}}"#).unwrap();
    assert_eq!(extract_thread_id(&doc), Some("top".to_string()));

    let doc = parse_json(r#"{"thread_id":7,"data":{"thread_id":"nested"}}"#).unwrap();
    assert_eq!(extract_thread_id(&doc), Some("nested".to_string()));

    let doc = parse_json(r#"{"data":{"thread_id":null}}"#).unwrap();
    assert_eq!(extract_thread_id(&doc), None);
}

#[test]
fn line_buffer_splits_at_line_feeds() {
    let mut buffer = LineBuffer::new();
    assert!(buffer.is_empty());
    assert_eq!(buffer.push_chunk(b"ab"), Vec::<Vec<u8>>::new());
    assert_eq!(buffer.len(), 2);
    assert_eq!(buffer.push_chunk(b"c\n\nde\nf"), vec![b"abc".to_vec(), b"".to_vec(), b"de".to_vec()]);
    assert_eq!(buffer.len(), 1);
    assert_eq!(buffer.push_chunk(b""), Vec::<Vec<u8>>::new());
    assert_eq!(buffer.push_chunk(b"\n"), vec![b"f".to_vec()]);
    assert!(buffer.is_empty());
    assert_eq!(buffer.take_rest(), None);
    assert_eq!(buffer.push_chunk(b"tail"), Vec::<Vec<u8>>::new());
    assert_eq!(buffer.take_rest(), Some(b"tail".to_vec()));
    assert!(buffer.is_empty());
}

#[test]
fn line_buffer_loses_and_doubles_nothing() {
    let stream: Vec<u8> = b"one\ntwo\r\n\n\xff\xfe three \n\nlast".to_vec();
    for size in 1..=stream.len() {
        let mut buffer = LineBuffer::new();
        let mut rebuilt: Vec<u8> = Vec::new();
        for chunk in stream.chunks(size) {
            for line in buffer.push_chunk(chunk) {
                rebuilt.extend_from_slice(&line);
                rebuilt.push(b'\n');
            }
        }
        if let Some(rest) = buffer.take_rest() {
            rebuilt.extend_from_slice(&rest);
        }
        assert_eq!(rebuilt, stream);
    }
}

fn sample_stream() -> Vec<u8> {
    let mut s = String::new();
    s.push_str("id: 1\nevent: message\n");
    s.push_str("data: {\"results\":[{\"generated_text\":\"Grüße \"}]}\n\n");
    s.push_str("data: {broken\n");
    s.push_str(": keep-alive\n");
    s.push_str("data: {\"choices\":[{\"delta\":{\"content\":\"日本語\"}}],\"thread_id\":\"t-9\"}\r\n");
    s.push_str("data: {\"heartbeat\":true}\n");
    s.push_str("data: [DONE]\n");
    s.push_str("data: {\"results\":[{\"generated_text\":\" end\"}]}");
    s.into_bytes()
}

#[test]
fn fragments_do_not_depend_on_chunk_boundaries() {
    let stream = sample_stream();
    let (whole, whole_acc) = decode_chunks(&vec![stream.clone()], None);
    assert_eq!(whole, vec!["Grüße ".to_string(), "日本語".to_string(), " end".to_string()]);
    assert_eq!(whole_acc.answer(), "Grüße 日本語 end");
    assert_eq!(whole_acc.thread_id(), &Some("t-9".to_string()));
    assert_eq!(whole_acc.malformed_lines(), 1);

    for size in 1..=stream.len() {
        let chunks: Vec<Vec<u8>> = stream.chunks(size).map(|c| c.to_vec()).collect();
        let (fragments, acc) = decode_chunks(&chunks, None);
        assert_eq!(fragments, whole, "chunk size {}", size);
        assert_eq!(acc.answer(), whole_acc.answer());
        assert_eq!(acc.thread_id(), whole_acc.thread_id());
        assert_eq!(acc.malformed_lines(), 1);
    }
    let (fragments, _) = decode_chunks(&vec![Vec::new(), stream.clone(), Vec::new()], None);
    assert_eq!(fragments, whole);
}

#[test]
fn decoder_hands_out_fragments_as_lines_complete() {
    let mut decoder = StreamDecoder::new(Some("old".to_string()));
    assert_eq!(decoder.push_chunk(b"data: {\"results\":[{\"generated_te"), Vec::<String>::new());
    assert_eq!(decoder.accumulated().answer(), "");
    assert!(decoder.pending_len() > 0);
    assert_eq!(
        decoder.push_chunk(b"xt\":\"a\"}]}\ndata: {\"results\":[{\"generated_text\":\"b\"}]}\nda"),
        vec!["a".to_string(), "b".to_string()]
    );
    assert_eq!(decoder.accumulated().answer(), "ab");
    assert_eq!(decoder.accumulated().thread_id(), &Some("old".to_string()));
    assert_eq!(decoder.push_chunk(b"ta: {\"thread_id\":\"new\"}\n"), Vec::<String>::new());
    assert_eq!(decoder.accumulated().thread_id(), &Some("new".to_string()));
    assert_eq!(decoder.push_chunk(b"data: {\"results\":[{\"generated_text\":\"c\"}]}"), Vec::<String>::new());
    let (last, acc) = decoder.finish();
    assert_eq!(last, vec!["c".to_string()]);
    let (answer, thread_id) = acc.into_parts();
    assert_eq!(answer, "abc");
    assert_eq!(thread_id, Some("new".to_string()));
}

#[test]
fn invalid_utf8_is_replaced_not_fatal() {
    let mut stream = b"data: {\"results\":[{\"generated_text\":\"a".to_vec();
    stream.push(0xff);
    stream.extend_from_slice(b"b\"}]}\n");
    let (fragments, acc) = decode_chunks(&vec![stream], None);
    assert_eq!(fragments, vec!["a\u{fffd}b".to_string()]);
    assert_eq!(acc.malformed_lines(), 0);
}

#[test]
fn parse_json_converts_every_kind_of_value() {
    let doc = parse_json(r#" {"b":[null,true,1.5,-2,"s",{"k":[]}],"a":18446744073709551615} "#).unwrap();
    let expected = Json::Object(vec![
        ("a".to_string(), Json::Number("18446744073709551615".to_string())),
        (
            "b".to_string(),
            Json::Array(vec![
                Json::Null,
                Json::Bool(true),
                Json::Number("1.5".to_string()),
                Json::Number("-2".to_string()),
                Json::Text("s".to_string()),
                Json::Object(vec![("k".to_string(), Json::Array(vec![]))]),
            ]),
        ),
    ]);
    assert_eq!(format!("{:?}", doc), format!("{:?}", expected));
    assert!(parse_json("{").is_err());
    assert!(parse_json("").is_err());
    assert!(parse_json("[DONE]").is_err());
    assert!(parse_json("{} x").is_err());
}

#[test]
fn json_lookups() {
    let doc = parse_json(r#"{"a":{"b":["x","y"]},"n":1}"#).unwrap();
    assert_eq!(doc.get("a").and_then(|a| a.get("b")).and_then(|b| b.first()).and_then(|x| x.as_str()), Some("x"));
    assert!(doc.get("missing").is_none());
    assert!(doc.get("n").unwrap().as_str().is_none());
    assert!(doc.get("n").unwrap().get("a").is_none());
    assert!(doc.first().is_none());
    assert!(Json::Array(vec![]).first().is_none());
    let twice = Json::Object(vec![
        ("k".to_string(), Json::Text("first".to_string())),
        ("k".to_string(), Json::Text("second".to_string())),
    ]);
    assert_eq!(twice.get("k").and_then(|v| v.as_str()), Some("first"));
}

#[test]
fn marker_stream_never_reaches_the_callback() {
    let stream = b"data: [DONE]\ndata:[DONE]\ndata:\nid: 42\nevent: message\n\n";
    for first in 0..=stream.len() {
        for second in first..=stream.len() {
            let chunks = vec![
                stream[..first].to_vec(),
                stream[first..second].to_vec(),
                stream[second..].to_vec(),
            ];
            let calls = Cell::new(0usize);
            let answer = parse_sse_stream(&chunks, Some(|_: &str| calls.set(calls.get() + 1)));
            assert_eq!(answer.unwrap(), "");
            assert_eq!(calls.get(), 0);
        }
    }
    for size in 1..=stream.len() {
        let chunks: Vec<Vec<u8>> = stream.chunks(size).map(|c| c.to_vec()).collect();
        let calls = Cell::new(0usize);
        let answer = parse_sse_stream(&chunks, Some(|_: &str| calls.set(calls.get() + 1)));
        assert_eq!(answer.unwrap(), "");
        assert_eq!(calls.get(), 0);
    }
}
