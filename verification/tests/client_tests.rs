use std::cell::RefCell;
use watsonx_rs::client::{
    bearer, clean_completion, conclude, is_success_status, require_token, settle, status_failure,
    CallAction, CallInput, CallStage, EndpointAttempts, GenerationParams, StreamKind,
    StreamOutcome, StreamingCall,
};
use watsonx_rs::sse::{
    deliver, deliver_while_accepted, parse_chat_completion_sse, parse_sse_stream,
    StreamAccumulator, StreamDecoder,
};
use watsonx_rs::{Error, Float32, GenerationConfig};

fn gathered(chunks: &[&[u8]], thread_id: Option<&str>) -> StreamAccumulator {
    let mut decoder = StreamDecoder::new(thread_id.map(|s| s.to_string()));
    for chunk in chunks {
        decoder.push_chunk(chunk);
    }
    decoder.finish().1
}

const EMPTY_GENERATION: &str = "Received empty response from WatsonX API. The model may have generated no output, or the response format was unexpected. Try adjusting your prompt or parameters.";

#[test]
fn completion_is_cleaned_of_the_template_echo() {
    assert_eq!(
        clean_completion("Answer: Paris is the capital.\nQuery: something else"),
        "Paris is the capital."
    );
}

#[test]
fn clean_completion_edge_cases() {
    assert_eq!(clean_completion(""), "");
    assert_eq!(clean_completion("  \n\t "), "");
    assert_eq!(clean_completion("  plain text  "), "plain text");
    assert_eq!(clean_completion("Answer:"), "");
    assert_eq!(clean_completion("Answer:x"), "x");
    assert_eq!(clean_completion("answer: x"), "answer: x");
    assert_eq!(clean_completion(" Answer:  first\r\nsecond"), "first");
    assert_eq!(clean_completion("Answer: Answer: twice"), "Answer: twice");
    assert_eq!(clean_completion("Query: only"), "");
    assert_eq!(clean_completion("a Query: b Query: c"), "a");
    assert_eq!(clean_completion("one\ntwo Query: three"), "one");
    assert_eq!(clean_completion("Answer:\nsecond line"), "second line");
    assert_eq!(clean_completion("Answer: Query: q"), "");
    assert_eq!(clean_completion("é\u{3000}\nx"), "é");
    assert_eq!(clean_completion("The Answer: 42"), "The Answer: 42");
}

#[test]
fn success_is_every_code_from_200_to_299() {
    assert!(!is_success_status(0));
    assert!(!is_success_status(199));
    assert!(is_success_status(200));
    assert!(is_success_status(204));
    assert!(is_success_status(299));
    assert!(!is_success_status(300));
    assert!(!is_success_status(404));
    assert!(!is_success_status(u16::MAX));
}

#[test]
fn missing_token_is_an_authentication_failure() {
    let none: Option<String> = None;
    match require_token(&none, "Not authenticated. Call connect() first.") {
        Err(Error::Authentication(m)) => assert_eq!(m, "Not authenticated. Call connect() first."),
        other => panic!("unexpected {:?}", other),
    }
    let some = Some("tok".to_string());
    assert_eq!(require_token(&some, "x").unwrap(), "tok");
}

#[test]
fn failure_status_carries_code_and_body() {
    match status_failure(StreamKind::Completion, 404, "no such model", "ibm/m") {
        Error::Api(m) => assert_eq!(
            m,
            "WatsonX API request failed (HTTP 404): no such model. Verify your model ID 'ibm/m' is correct and your project has access to it."
        ),
        other => panic!("unexpected {:?}", other),
    }
    match status_failure(StreamKind::Completion, 500, "", "m") {
        Error::Api(m) => assert!(m.starts_with("WatsonX API request failed (HTTP 500): . Verify")),
        other => panic!("unexpected {:?}", other),
    }
    match status_failure(StreamKind::Chat, 65535, "b", "m") {
        Error::Api(m) => assert_eq!(m, "Chat completion stream failed with status 65535: b"),
        other => panic!("unexpected {:?}", other),
    }
    match status_failure(StreamKind::Agent, 0, "b", "m") {
        Error::Api(m) => assert_eq!(m, "Failed to stream message: 0 - b"),
        other => panic!("unexpected {:?}", other),
    }
    match status_failure(StreamKind::Agent, 10, "b", "m") {
        Error::Api(m) => assert_eq!(m, "Failed to stream message: 10 - b"),
        other => panic!("unexpected {:?}", other),
    }
}

#[test]
fn conclusions_of_each_kind() {
    let line: &[u8] = b"data: {\"results\":[{\"generated_text\":\"Answer: yes\\nQuery: q\"}],\"thread_id\":\"t\"}\n";
    match conclude(StreamKind::Completion, gathered(&[line], None), "m", "r") {
        Ok(StreamOutcome::Generation(g)) => {
            assert_eq!(g.text, "yes");
            assert_eq!(g.model_id, "m");
            assert_eq!(g.request_id, Some("r".to_string()));
            assert!(g.tokens_used.is_none() && g.quality_score.is_none());
        }
        other => panic!("unexpected {:?}", other),
    }
    let labelled: &[u8] = b"data: {\"results\":[{\"generated_text\":\"Answer: x\"}]}\n";
    match conclude(StreamKind::Completion, gathered(&[labelled], None), "m", "r") {
        Ok(StreamOutcome::Generation(g)) => assert_eq!(g.text, "x"),
        other => panic!("unexpected {:?}", other),
    }
    match conclude(StreamKind::Chat, gathered(&[line], None), "m", "r") {
        Ok(StreamOutcome::Chat(c)) => {
            assert_eq!(c.message.role, "assistant");
            assert_eq!(c.content(), "Answer: yes\nQuery: q");
            assert_eq!(c.model_id, "m");
            assert_eq!(c.request_id, Some("r".to_string()));
            assert!(c.prompt_tokens.is_none() && c.finish_reason.is_none());
        }
        other => panic!("unexpected {:?}", other),
    }
    match conclude(StreamKind::Agent, gathered(&[line], Some("old")), "m", "r") {
        Ok(StreamOutcome::Agent { text, thread_id }) => {
            assert_eq!(text, "Answer: yes\nQuery: q");
            assert_eq!(thread_id, Some("t".to_string()));
        }
        other => panic!("unexpected {:?}", other),
    }
}

#[test]
fn blank_answers_fail_except_for_agents() {
    let blank: &[u8] = b"data: {\"results\":[{\"generated_text\":\" \\n\"}]}\n";
    for chunks in [&[][..], &[blank][..]] {
        match conclude(StreamKind::Completion, gathered(chunks, None), "m", "r") {
            Err(Error::Api(m)) => assert_eq!(m, EMPTY_GENERATION),
            other => panic!("unexpected {:?}", other),
        }
    }
    match conclude(StreamKind::Chat, gathered(&[], None), "m", "r") {
        Err(Error::Api(m)) => assert_eq!(m, "Empty response from chat completion API"),
        other => panic!("unexpected {:?}", other),
    }
    match conclude(StreamKind::Agent, gathered(&[], Some("keep")), "m", "r") {
        Ok(StreamOutcome::Agent { text, thread_id }) => {
            assert_eq!(text, "");
            assert_eq!(thread_id, Some("keep".to_string()));
        }
        other => panic!("unexpected {:?}", other),
    }
}

fn begin(kind: StreamKind) -> StreamingCall {
    StreamingCall::begin(kind, &Some("token".to_string()), "no token", "model-x", "req-1", None)
        .unwrap()
}

#[test]
fn call_without_token_never_starts() {
    match StreamingCall::begin(StreamKind::Chat, &None, "Not authenticated.", "m", "r", None) {
        Err(Error::Authentication(m)) => assert_eq!(m, "Not authenticated."),
        Ok(_) => panic!("a call began without a credential"),
        Err(other) => panic!("unexpected {:?}", other),
    }
}

#[test]
fn call_streams_and_concludes() {
    let mut call = begin(StreamKind::Completion);
    assert_eq!(call.stage(), CallStage::AwaitingResponse);
    match call.step(CallInput::Response(200)) {
        CallAction::Deliver(f) => assert!(f.is_empty()),
        other => panic!("unexpected {:?}", other),
    }
    assert_eq!(call.stage(), CallStage::Streaming);
    match call.step(CallInput::Chunk(b"data: {\"results\":[{\"generated_text\":\"Answer: Par".to_vec())) {
        CallAction::Deliver(f) => assert!(f.is_empty()),
        other => panic!("unexpected {:?}", other),
    }
    match call.step(CallInput::Chunk(b"is\"}]}\ndata: {\"results\":[{\"generated_text\":\" is it.\"}]}\n".to_vec())) {
        CallAction::Deliver(f) => assert_eq!(f, vec!["Answer: Paris".to_string(), " is it.".to_string()]),
        other => panic!("unexpected {:?}", other),
    }
    assert_eq!(call.accumulated().answer(), "Answer: Paris is it.");
    match call.step(CallInput::Chunk(b"data: {\"results\":[{\"generated_text\":\"\\nQuery: x\"}]}".to_vec())) {
        CallAction::Deliver(f) => assert!(f.is_empty()),
        other => panic!("unexpected {:?}", other),
    }
    match call.step(CallInput::End) {
        CallAction::Finish(last, Ok(StreamOutcome::Generation(g))) => {
            assert_eq!(last, vec!["\nQuery: x".to_string()]);
            assert_eq!(g.text, "Paris is it.");
            assert_eq!(g.model_id, "model-x");
            assert_eq!(g.request_id, Some("req-1".to_string()));
        }
        other => panic!("unexpected {:?}", other),
    }
    assert_eq!(call.stage(), CallStage::Done);
    match call.step(CallInput::Chunk(b"more".to_vec())) {
        CallAction::Finish(last, Err(Error::InvalidInput(m))) => {
            assert!(last.is_empty());
            assert_eq!(m, "Event out of turn for the state of the call");
        }
        other => panic!("unexpected {:?}", other),
    }
}

#[test]
fn call_with_failure_status_reads_the_body_once() {
    let mut call = begin(StreamKind::Completion);
    assert!(matches!(call.step(CallInput::Response(503)), CallAction::ReadFailureBody));
    assert_eq!(call.stage(), CallStage::AwaitingFailureBody(503));
    match call.step(CallInput::FailureBody("busy".to_string())) {
        CallAction::Finish(last, Err(Error::Api(m))) => {
            assert!(last.is_empty());
            assert_eq!(
                m,
                "WatsonX API request failed (HTTP 503): busy. Verify your model ID 'model-x' is correct and your project has access to it."
            );
        }
        other => panic!("unexpected {:?}", other),
    }
    assert_eq!(call.stage(), CallStage::Done);
}

#[test]
fn call_fails_on_read_error_timeout_and_events_out_of_turn() {
    let mut call = begin(StreamKind::Chat);
    call.step(CallInput::Response(200));
    call.step(CallInput::Chunk(b"data: {\"choices\":[{\"delta\":{\"content\":\"kept\"}}]}\n".to_vec()));
    match call.step(CallInput::ReadFailed("reset".to_string())) {
        CallAction::Finish(last, Err(Error::Network(m))) => {
            assert!(last.is_empty());
            assert_eq!(m, "reset");
        }
        other => panic!("unexpected {:?}", other),
    }
    assert_eq!(call.accumulated().answer(), "kept");

    for prepare in 0..3 {
        let mut call = begin(StreamKind::Agent);
        if prepare >= 1 {
            call.step(CallInput::Response(if prepare == 1 { 200 } else { 500 }));
        }
        match call.step(CallInput::TimedOut) {
            CallAction::Finish(last, Err(Error::Timeout(m))) => {
                assert!(last.is_empty());
                assert_eq!(m, "Request timed out");
            }
            other => panic!("unexpected {:?}", other),
        }
        assert!(matches!(
            call.step(CallInput::TimedOut),
            CallAction::Finish(_, Err(Error::InvalidInput(_)))
        ));
    }

    let out_of_turn = |input: CallInput, open: bool| {
        let mut call = begin(StreamKind::Chat);
        if open {
            call.step(CallInput::Response(200));
        }
        matches!(call.step(input), CallAction::Finish(_, Err(Error::InvalidInput(_))))
    };
    assert!(out_of_turn(CallInput::Chunk(vec![]), false));
    assert!(out_of_turn(CallInput::End, false));
    assert!(out_of_turn(CallInput::FailureBody(String::new()), false));
    assert!(out_of_turn(CallInput::ReadFailed(String::new()), false));
    assert!(out_of_turn(CallInput::Response(200), true));
    assert!(out_of_turn(CallInput::FailureBody(String::new()), true));
}

#[test]
fn agent_call_returns_text_and_thread() {
    let mut call = StreamingCall::begin(
        StreamKind::Agent,
        &Some("t".to_string()),
        "no token",
        "",
        "",
        Some("thread-0".to_string()),
    )
    .unwrap();
    call.step(CallInput::Response(201));
    let stream = b"data: {\"event\":\"message.created\",\"data\":{\"thread_id\":\"thread-1\"}}\ndata: {\"event\":\"message.delta\",\"data\":{\"delta\":{\"content\":[{\"text\":\"Hi\"}]}}}\n";
    match call.step(CallInput::Chunk(stream.to_vec())) {
        CallAction::Deliver(f) => assert_eq!(f, vec!["Hi".to_string()]),
        other => panic!("unexpected {:?}", other),
    }
    match call.step(CallInput::End) {
        CallAction::Finish(last, Ok(StreamOutcome::Agent { text, thread_id })) => {
            assert!(last.is_empty());
            assert_eq!(text, "Hi");
            assert_eq!(thread_id, Some("thread-1".to_string()));
        }
        other => panic!("unexpected {:?}", other),
    }
}

#[test]
fn callback_sees_each_fragment_once_and_in_order() {
    let stream: &[u8] = b"data: {\"choices\":[{\"delta\":{\"content\":\"a\"}}]}\n\ndata: {\"choices\":[{\"delta\":{\"content\":\"b\"}}]}\ndata: [DONE]\ndata: {\"choices\":[{\"message\":{\"content\":\"c\"}}]}";
    for size in 1..=stream.len() {
        let chunks: Vec<Vec<u8>> = stream.chunks(size).map(|c| c.to_vec()).collect();
        let seen = RefCell::new(Vec::<String>::new());
        let answer = parse_chat_completion_sse(&chunks, |s: &str| seen.borrow_mut().push(s.to_string())).unwrap();
        assert_eq!(answer, "abc");
        assert_eq!(*seen.borrow(), vec!["a".to_string(), "b".to_string(), "c".to_string()]);

        let seen = RefCell::new(Vec::<String>::new());
        let answer = parse_sse_stream(&chunks, Some(|s: &str| seen.borrow_mut().push(s.to_string()))).unwrap();
        assert_eq!(answer, "abc");
        assert_eq!(seen.borrow().join(""), "abc");
    }
    let silent: Option<fn(&str)> = None;
    assert_eq!(parse_sse_stream(&vec![stream.to_vec()], silent).unwrap(), "abc");
    let silent: Option<fn(&str)> = None;
    assert_eq!(parse_sse_stream(&vec![], silent).unwrap(), "");
}

#[test]
fn request_parameters_fill_what_the_settings_leave_open() {
    let params = GenerationParams::from_config(&GenerationConfig::default(), 5);
    assert_eq!(params.decoding_method, "greedy");
    assert_eq!(params.max_new_tokens, 8192);
    assert_eq!(params.min_new_tokens, 5);
    assert_eq!(params.top_k, 50);
    assert_eq!(f32::from_bits(params.top_p.to_bits()), 1.0);
    assert_eq!(f32::from_bits(params.repetition_penalty.to_bits()), 1.1);
    assert!(params.stop_sequences.is_empty());

    let mut config = GenerationConfig::default()
        .with_max_tokens(9)
        .with_top_k(3)
        .with_top_p(Float32::from_bits(0.25f32.to_bits()))
        .with_stop_sequences(vec!["a".to_string(), "b".to_string()]);
    config.repetition_penalty = None;
    let params = GenerationParams::from_config(&config, 1);
    assert_eq!((params.max_new_tokens, params.min_new_tokens, params.top_k), (9, 1, 3));
    assert_eq!(f32::from_bits(params.top_p.to_bits()), 0.25);
    assert_eq!(f32::from_bits(params.repetition_penalty.to_bits()), 1.1);
    assert_eq!(params.stop_sequences, vec!["a".to_string(), "b".to_string()]);
    config.top_k = None;
    config.top_p = None;
    let params = GenerationParams::from_config(&config, 1);
    assert_eq!(params.top_k, 50);
    assert_eq!(f32::from_bits(params.top_p.to_bits()), 1.0);

    assert_eq!(bearer("abc"), "Bearer abc");
}

#[test]
fn endpoints_are_tried_in_order_until_none_is_left() {
    let mut attempts = EndpointAttempts::new(vec!["a".to_string(), "b".to_string()]);
    assert_eq!(attempts.current(), Some("a"));
    attempts.record_failure(Error::Api("first".to_string()));
    assert_eq!(attempts.current(), Some("b"));
    attempts.record_failure(Error::Network("second".to_string()));
    assert_eq!(attempts.current(), None);
    assert!(matches!(attempts.give_up("none"), Error::Network(m) if m == "second"));

    let attempts = EndpointAttempts::new(vec![]);
    assert_eq!(attempts.current(), None);
    assert!(matches!(attempts.give_up("All endpoints failed"), Error::Api(m) if m == "All endpoints failed"));

    let mut attempts = EndpointAttempts::new(vec![]);
    attempts.record_failure(Error::Timeout("t".to_string()));
    assert_eq!(attempts.current(), None);
    assert!(matches!(attempts.give_up("x"), Error::Timeout(_)));
}

#[test]
fn delivery_stops_at_the_first_refusal() {
    let fragments = vec!["a".to_string(), "b".to_string(), "c".to_string()];
    let seen = RefCell::new(Vec::<String>::new());
    let accept = |s: &str| -> Result<(), Error> {
        seen.borrow_mut().push(s.to_string());
        Ok(())
    };
    assert!(deliver_while_accepted(&fragments, &accept).is_ok());
    assert_eq!(*seen.borrow(), fragments);

    let seen = RefCell::new(Vec::<String>::new());
    let refuse_b = |s: &str| -> Result<(), Error> {
        seen.borrow_mut().push(s.to_string());
        if s == "b" {
            Err(Error::InvalidInput(format!("no {}", s)))
        } else {
            Ok(())
        }
    };
    assert!(matches!(
        deliver_while_accepted(&fragments, &refuse_b),
        Err(Error::InvalidInput(m)) if m == "no b"
    ));
    assert_eq!(*seen.borrow(), vec!["a".to_string(), "b".to_string()]);
    assert!(deliver_while_accepted(&vec![], &refuse_b).is_ok());

    let seen = RefCell::new(Vec::<String>::new());
    deliver(&fragments, &|s: &str| seen.borrow_mut().push(s.to_string()));
    assert_eq!(*seen.borrow(), fragments);
}

#[test]
fn a_call_settles_with_the_callback_failure_or_its_result() {
    let outcome = || -> Result<StreamOutcome, Error> {
        Ok(StreamOutcome::Agent { text: "t".to_string(), thread_id: None })
    };
    let last = vec!["x".to_string(), "y".to_string()];
    let accept = |_: &str| -> Result<(), Error> { Ok(()) };
    let refuse = |s: &str| -> Result<(), Error> { Err(Error::Io(s.to_string())) };

    assert!(matches!(settle(&last, outcome(), &accept), Ok(StreamOutcome::Agent { text, .. }) if text == "t"));
    assert!(matches!(settle(&last, outcome(), &refuse), Err(Error::Io(m)) if m == "x"));
    assert!(matches!(settle(&vec![], outcome(), &refuse), Ok(_)));
    assert!(matches!(
        settle(&last, Err(Error::Timeout("late".to_string())), &accept),
        Err(Error::Timeout(m)) if m == "late"
    ));
    assert!(matches!(
        settle(&last, Err(Error::Timeout("late".to_string())), &refuse),
        Err(Error::Io(m)) if m == "x"
    ));
}

#[test]
fn a_refused_fragment_ends_the_call() {
    let mut call = begin(StreamKind::Agent);
    call.step(CallInput::Response(200));
    call.step(CallInput::Chunk(b"data: {\"results\":[{\"generated_text\":\"kept\"}]}\n".to_vec()));
    match call.step(CallInput::CallbackFailed(Error::Io("disk full".to_string()))) {
        CallAction::Finish(last, Err(Error::Io(m))) => {
            assert!(last.is_empty());
            assert_eq!(m, "disk full");
        }
        other => panic!("unexpected {:?}", other),
    }
    assert_eq!(call.stage(), CallStage::Done);
    assert_eq!(call.accumulated().answer(), "kept");

    let mut call = begin(StreamKind::Chat);
    assert!(matches!(
        call.step(CallInput::CallbackFailed(Error::Io("early".to_string()))),
        CallAction::Finish(_, Err(Error::InvalidInput(_)))
    ));
}
