use watsonx_rs::json::{parse_json, Json};
use watsonx_rs::responses::{
    chat_completion_result, fallback_message, final_message, generation_text, listed_model,
    listing,
    parse_body,
};
use watsonx_rs::Error;

#[test]
fn bodies_that_are_not_json_are_serialization_failures() {
    assert!(parse_body(r#"{"a":1}"#).is_ok());
    match parse_body("<html>") {
        Err(Error::Serialization(m)) => {
            assert!(m.starts_with("Failed to parse JSON response: "));
            assert!(m.ends_with(". The API response format may have changed. Please report this issue."));
            assert!(m.len() > "Failed to parse JSON response: . The API response format may have changed. Please report this issue.".len());
        }
        other => panic!("unexpected {:?}", other),
    }
}

#[test]
fn generation_text_is_the_first_result() {
    let body = parse_json(r#"{"results":[{"generated_text":"first"},{"generated_text":"second"}]}"#).unwrap();
    assert_eq!(generation_text(&body).unwrap(), "first");

    let body = parse_json(r#"{"results":[]}"#).unwrap();
    match generation_text(&body) {
        Err(Error::Api(m)) => assert_eq!(
            m,
            "No generation results returned from API. The model may not have generated any output. Try adjusting your prompt or parameters."
        ),
        other => panic!("unexpected {:?}", other),
    }
    for malformed in [r#"{}"#, r#"{"results":{}}"#, r#"{"results":[{"generated_text":1}]}"#, r#"[1]"#] {
        let body = parse_json(malformed).unwrap();
        assert!(matches!(generation_text(&body), Err(Error::Serialization(_))), "{}", malformed);
    }
}

#[test]
fn chat_completion_with_usage_and_reason() {
    let body = parse_json(
        r#"{"choices":[{"message":{"role":"assistant","content":"Hi"},"finish_reason":"stop"}],
            "usage":{"prompt_tokens":10,"completion_tokens":20,"total_tokens":30}}"#,
    )
    .unwrap();
    let result = chat_completion_result(&body, "model", "req").unwrap();
    assert_eq!(result.message.role, "assistant");
    assert_eq!(result.content(), "Hi");
    assert_eq!(result.model_id, "model");
    assert_eq!(result.request_id, Some("req".to_string()));
    assert_eq!(result.finish_reason, Some("stop".to_string()));
    assert_eq!(
        (result.prompt_tokens, result.completion_tokens, result.total_tokens),
        (Some(10), Some(20), Some(30))
    );
}

#[test]
fn chat_completion_usage_needs_all_three_counts() {
    for usage in [
        r#"{"prompt_tokens":10,"completion_tokens":20}"#,
        r#"{"prompt_tokens":10,"completion_tokens":20,"total_tokens":-1}"#,
        r#"{"prompt_tokens":10,"completion_tokens":20,"total_tokens":30.0}"#,
        r#"{"prompt_tokens":"10","completion_tokens":20,"total_tokens":30}"#,
        r#"null"#,
    ] {
        let text = format!(r#"{{"choices":[{{"message":{{"content":"x"}}}}],"usage":{}}}"#, usage);
        let result = chat_completion_result(&parse_json(&text).unwrap(), "m", "r").unwrap();
        assert_eq!((result.prompt_tokens, result.completion_tokens, result.total_tokens), (None, None, None));
        assert!(result.finish_reason.is_none());
    }
    let text = r#"{"choices":[{"message":{"content":"x"}}],"usage":{"prompt_tokens":4294967296,"completion_tokens":4294967297,"total_tokens":18446744073709551615}}"#;
    let result = chat_completion_result(&parse_json(text).unwrap(), "m", "r").unwrap();
    assert_eq!(
        (result.prompt_tokens, result.completion_tokens, result.total_tokens),
        (Some(0), Some(1), Some(u32::MAX))
    );
}

#[test]
fn chat_completion_failures() {
    for body in [r#"{}"#, r#"{"choices":[]}"#, r#"{"choices":{}}"#] {
        match chat_completion_result(&parse_json(body).unwrap(), "m", "r") {
            Err(Error::Api(m)) => assert_eq!(m, "No choices in response"),
            other => panic!("unexpected {:?}", other),
        }
    }
    for body in [r#"{"choices":[{}]}"#, r#"{"choices":[{"message":{"content":1}}]}"#, r#"{"choices":[null]}"#] {
        match chat_completion_result(&parse_json(body).unwrap(), "m", "r") {
            Err(Error::Api(m)) => assert_eq!(m, "No message content in response"),
            other => panic!("unexpected {:?}", other),
        }
    }
}

#[test]
fn unsigned_numbers() {
    let n = |s: &str| Json::Number(s.to_string()).as_u64();
    assert_eq!(n("0"), Some(0));
    assert_eq!(n("42"), Some(42));
    assert_eq!(n("18446744073709551615"), Some(u64::MAX));
    assert_eq!(n("18446744073709551616"), None);
    assert_eq!(n("99999999999999999999999"), None);
    assert_eq!(n("-1"), None);
    assert_eq!(n("1.0"), None);
    assert_eq!(n("1e3"), None);
    assert_eq!(n(""), None);
    assert_eq!(Json::Text("5".to_string()).as_u64(), None);
    let doc = parse_json(r#"[7, 7.5, -7, 18446744073709551615, 18446744073709551616]"#).unwrap();
    let items = doc.as_array().unwrap();
    let values: Vec<Option<u64>> = items.iter().map(|j| j.as_u64()).collect();
    assert_eq!(values, vec![Some(7), None, None, Some(u64::MAX), None]);
    assert!(doc.as_array().is_some() && !doc.is_object());
    assert!(parse_json("{}").unwrap().is_object());
    assert!(parse_json("{}").unwrap().as_array().is_none());
}

#[test]
fn final_message_is_the_first_created_event() {
    let body = concat_lines(&[
        r#"{"event":"run.started","data":{"thread_id":"ignored"}}"#,
        "",
        "not json",
        r#"{"event":"message.created","data":"not an object"}"#,
        r#"{"event":"message.created","data":{"message":{"content":[{"text":"Hello"},{"text":"x"}]},"thread_id":"t-1"}}"#,
        r#"{"event":"message.created","data":{"message":{"content":[{"text":"Later"}]},"thread_id":"t-2"}}"#,
    ]);
    assert_eq!(final_message(body.as_bytes(), None), ("Hello".to_string(), Some("t-1".to_string())));
    assert_eq!(
        final_message(body.as_bytes(), Some("old".to_string())),
        ("Hello".to_string(), Some("t-1".to_string()))
    );
    let crlf = body.replace('\n', "\r\n");
    assert_eq!(final_message(crlf.as_bytes(), None), ("Hello".to_string(), Some("t-1".to_string())));
}

#[test]
fn final_message_defaults() {
    assert_eq!(final_message(b"", Some("old".to_string())), (String::new(), Some("old".to_string())));
    assert_eq!(final_message(b"\n\n", None), (String::new(), None));
    let no_text = br#"{"event":"message.created","data":{"message":{"content":[]}}}"#;
    assert_eq!(final_message(no_text, Some("old".to_string())), (String::new(), Some("old".to_string())));
    let delta_only = br#"{"event":"message.delta","data":{"delta":{"content":[{"text":"x"}]},"thread_id":"t"}}"#;
    assert_eq!(final_message(delta_only, None), (String::new(), None));
    let no_data = br#"{"event":"message.created"}"#;
    assert_eq!(final_message(no_data, None), (String::new(), None));
}

fn concat_lines(lines: &[&str]) -> String {
    lines.join("\n")
}

#[test]
fn fallback_answers() {
    assert_eq!(fallback_message(r#"{"message":"m","content":"c"}"#), "m");
    assert_eq!(fallback_message(r#"{"message":1,"content":"c"}"#), "c");
    assert_eq!(fallback_message(r#"{"other":true}"#), "No response");
    assert_eq!(fallback_message(r#"["message"]"#), "No response");
    assert_eq!(fallback_message("plain words"), "plain words");
    assert_eq!(fallback_message(""), "");
}

#[test]
fn listed_models() {
    let text = |s: &str| Some(s.to_string());
    let info = listed_model(
        "m".to_string(),
        text("Label"),
        text("ibm"),
        text("short"),
        text("long"),
        Some(vec!["text_generation".to_string()]),
        Some(vec!["withdrawn".to_string(), "available".to_string()]),
    );
    assert_eq!(info.model_id, "m");
    assert_eq!(info.name, text("Label"));
    assert_eq!(info.provider, text("ibm"));
    assert_eq!(info.description, text("long"));
    assert_eq!(info.supported_tasks, Some(vec!["text_generation".to_string()]));
    assert_eq!(info.available, Some(true));
    assert!(info.version.is_none() && info.max_context_length.is_none());

    let info = listed_model("m".to_string(), None, None, text("short"), None, None, Some(vec![]));
    assert_eq!(info.description, text("short"));
    assert_eq!(info.available, None);
    assert!(info.name.is_none() && info.supported_tasks.is_none());

    let info = listed_model(
        "m".to_string(),
        None,
        None,
        None,
        None,
        Some(vec![]),
        Some(vec!["Available".to_string(), "deprecated".to_string()]),
    );
    assert_eq!(info.description, None);
    assert_eq!(info.available, None);
    assert_eq!(info.supported_tasks, Some(vec![]));
    assert_eq!(listed_model("m".to_string(), None, None, None, None, None, None).available, None);
}

#[test]
fn listings_bare_or_held() {
    let texts = |items: Option<&Vec<Json>>| -> Option<Vec<String>> {
        items.map(|v| v.iter().map(|j| j.as_str().unwrap_or("?").to_string()).collect())
    };
    let bare = parse_json(r#"["a","b"]"#).unwrap();
    assert_eq!(texts(listing(&bare, "tools")), Some(vec!["a".to_string(), "b".to_string()]));
    let held = parse_json(r#"{"tools":["c"],"runs":["d"]}"#).unwrap();
    assert_eq!(texts(listing(&held, "tools")), Some(vec!["c".to_string()]));
    assert_eq!(texts(listing(&held, "runs")), Some(vec!["d".to_string()]));
    assert_eq!(texts(listing(&held, "skills")), None);
    let empty = parse_json(r#"{"tools":[]}"#).unwrap();
    assert_eq!(texts(listing(&empty, "tools")), Some(vec![]));
    for neither in [r#"{"tools":{"a":1}}"#, r#"{"tools":"x"}"#, r#""tools""#, "null", "3"] {
        assert!(listing(&parse_json(neither).unwrap(), "tools").is_none(), "{}", neither);
    }
}
