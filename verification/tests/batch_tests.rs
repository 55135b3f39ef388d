use std::time::Duration;
use watsonx_rs::batch::BatchCollector;
use watsonx_rs::{
    BatchGenerationResult, BatchItemResult, BatchRequest, Error, GenerationConfig, GenerationResult,
};

#[test]
fn test_batch_request_creation() {
    let req = BatchRequest::new("test prompt");
    assert_eq!(req.prompt, "test prompt");
    assert!(req.config.is_none());
    assert!(req.id.is_none());

    let req = BatchRequest::new("test prompt").with_id("test-id");
    assert_eq!(req.id, Some("test-id".to_string()));

    let config = GenerationConfig::default();
    let req = BatchRequest::with_config("test prompt", config.clone());
    assert_eq!(req.prompt, "test prompt");
    assert!(req.config.is_some());
}

#[test]
fn test_batch_item_result() {
    let result = GenerationResult::new("test text".to_string(), "model".to_string());
    let item = BatchItemResult::success(Some("id-1".to_string()), "prompt".to_string(), result.clone());

    assert!(item.is_success());
    assert!(!item.is_failure());
    assert_eq!(item.id, Some("id-1".to_string()));
    assert_eq!(item.prompt, "prompt");
    assert!(item.result.is_some());
    assert!(item.error.is_none());

    let error = Error::Api("test error".to_string());
    let item = BatchItemResult::failure(Some("id-2".to_string()), "prompt2".to_string(), error.clone());

    assert!(!item.is_success());
    assert!(item.is_failure());
    assert_eq!(item.id, Some("id-2".to_string()));
    assert!(item.result.is_none());
    assert!(item.error.is_some());
}

#[test]
fn test_batch_generation_result() {
    let results = vec![
        BatchItemResult::success(
            Some("id-1".to_string()),
            "prompt1".to_string(),
            GenerationResult::new("result1".to_string(), "model".to_string()),
        ),
        BatchItemResult::success(
            Some("id-2".to_string()),
            "prompt2".to_string(),
            GenerationResult::new("result2".to_string(), "model".to_string()),
        ),
        BatchItemResult::failure(
            Some("id-3".to_string()),
            "prompt3".to_string(),
            Error::Api("error".to_string()),
        ),
    ];

    let batch_result = BatchGenerationResult::new(results, Duration::from_secs(1));

    assert_eq!(batch_result.total, 3);
    assert_eq!(batch_result.successful, 2);
    assert_eq!(batch_result.failed, 1);
    assert!(!batch_result.all_succeeded());
    assert!(batch_result.any_failed());

    let successes = batch_result.successes();
    assert_eq!(successes.len(), 2);

    let failures = batch_result.failures();
    assert_eq!(failures.len(), 1);
    assert_eq!(failures[0].0, "prompt3");
}

#[test]
fn test_batch_generation_result_all_succeeded() {
    let results = vec![
        BatchItemResult::success(
            None,
            "prompt1".to_string(),
            GenerationResult::new("result1".to_string(), "model".to_string()),
        ),
        BatchItemResult::success(
            None,
            "prompt2".to_string(),
            GenerationResult::new("result2".to_string(), "model".to_string()),
        ),
    ];

    let batch_result = BatchGenerationResult::new(results, Duration::from_secs(1));

    assert_eq!(batch_result.total, 2);
    assert_eq!(batch_result.successful, 2);
    assert_eq!(batch_result.failed, 0);
    assert!(batch_result.all_succeeded());
    assert!(!batch_result.any_failed());
}

#[test]
fn empty_batch_report() {
    let report = BatchGenerationResult::new(vec![], Duration::from_millis(5));
    assert_eq!((report.total, report.successful, report.failed), (0, 0, 0));
    assert!(report.all_succeeded());
    assert!(!report.any_failed());
    assert!(report.successes().is_empty());
    assert!(report.failures().is_empty());
    assert_eq!(report.duration, Duration::from_millis(5));
}

#[test]
fn successes_and_failures_keep_order() {
    let ok = |p: &str, t: &str| {
        BatchItemResult::success(None, p.to_string(), GenerationResult::new(t.to_string(), "m".to_string()))
    };
    let bad = |p: &str, e: &str| BatchItemResult::failure(None, p.to_string(), Error::Network(e.to_string()));
    let report = BatchGenerationResult::new(
        vec![bad("ask0", "e0"), ok("ask1", "t1"), bad("ask2", "e2"), ok("ask3", "t3"), ok("ask4", "t4")],
        Duration::from_secs(0),
    );
    assert_eq!((report.total, report.successful, report.failed), (5, 3, 2));
    let texts: Vec<&str> = report.successes().iter().map(|g| g.text.as_str()).collect();
    assert_eq!(texts, vec!["t1", "t3", "t4"]);
    let failures: Vec<(String, String)> =
        report.failures().iter().map(|(p, e)| (p.to_string(), e.message().to_string())).collect();
    assert_eq!(
        failures,
        vec![("ask0".to_string(), "e0".to_string()), ("ask2".to_string(), "e2".to_string())]
    );
}

#[test]
fn effective_config_prefers_the_request() {
    let default_config = GenerationConfig::default().with_model("batch-model");
    let own = GenerationConfig::default().with_model("own-model").with_max_tokens(7);
    let plain = BatchRequest::new("p");
    let special = BatchRequest::with_config("q", own);
    assert_eq!(plain.effective_config(&default_config).model_id, "batch-model");
    assert_eq!(special.effective_config(&default_config).model_id, "own-model");
    assert_eq!(special.effective_config(&default_config).max_tokens, 7);
}

#[test]
fn requests_from_prompts() {
    let requests = BatchRequest::from_prompts(vec!["a".to_string(), "b".to_string(), "c".to_string()]);
    let prompts: Vec<&str> = requests.iter().map(|r| r.prompt.as_str()).collect();
    assert_eq!(prompts, vec!["a", "b", "c"]);
    assert!(requests.iter().all(|r| r.config.is_none() && r.id.is_none()));
    assert!(BatchRequest::from_prompts(vec![]).is_empty());
}

#[test]
fn one_failing_item_does_not_fail_the_batch() {
    let requests = vec![
        BatchRequest::new("first").with_id("1"),
        BatchRequest::new("second").with_id("2"),
        BatchRequest::new("third").with_id("3"),
    ];
    let mut collector = BatchCollector::new(&requests, &GenerationConfig::default());
    assert_eq!(collector.len(), 3);
    assert!(collector.complete(0, Ok("one".to_string())));
    assert!(collector.complete(1, Err(Error::Network("simulated".to_string()))));
    assert!(collector.complete(2, Ok("three".to_string())));
    let report = collector.finish(Duration::from_secs(2));

    assert_eq!(report.total, 3);
    assert_eq!(report.successful, 2);
    assert_eq!(report.failed, 1);
    assert_eq!(report.results[1].prompt, "second");
    assert_eq!(report.results[1].id, Some("2".to_string()));
    assert!(report.results[1].result.is_none());
    assert!(matches!(&report.results[1].error, Some(Error::Network(m)) if m == "simulated"));
    for (i, text) in [(0usize, "one"), (2usize, "three")] {
        assert!(report.results[i].error.is_none());
        let answer = report.results[i].result.as_ref().unwrap();
        assert_eq!(answer.text, text);
        assert_eq!(answer.model_id, "ibm/granite-4-h-small");
    }
}

#[test]
fn results_follow_the_requests_whatever_the_order_of_completion() {
    let requests: Vec<BatchRequest> = (0..20)
        .map(|i| {
            let r = BatchRequest::new(&format!("prompt {}", i)).with_id(&format!("id-{}", i));
            if i % 3 == 0 {
                BatchRequest { config: Some(GenerationConfig::default().with_model(&format!("model-{}", i))), ..r }
            } else {
                r
            }
        })
        .collect();
    let default_config = GenerationConfig::default().with_model("shared");
    let mut order: Vec<usize> = (0..20).collect();
    let mut seed: u64 = 0x9e3779b97f4a7c15;
    for i in (1..order.len()).rev() {
        seed = seed.wrapping_mul(6364136223846793005).wrapping_add(1442695040888963407);
        order.swap(i, (seed >> 33) as usize % (i + 1));
    }
    assert_ne!(order, (0..20).collect::<Vec<usize>>());

    let mut collector = BatchCollector::new(&requests, &default_config);
    for &i in &order {
        let outcome = if i % 5 == 4 {
            Err(Error::Api(format!("failure {}", i)))
        } else {
            Ok(format!("answer {}", i))
        };
        assert!(collector.complete(i, outcome));
    }
    let report = collector.finish(Duration::from_secs(1));
    assert_eq!(report.total, 20);
    assert_eq!(report.failed, 4);
    assert_eq!(report.successful, 16);
    for (i, item) in report.results.iter().enumerate() {
        assert_eq!(item.prompt, format!("prompt {}", i));
        assert_eq!(item.id, Some(format!("id-{}", i)));
        if i % 5 == 4 {
            assert!(matches!(&item.error, Some(Error::Api(m)) if *m == format!("failure {}", i)));
            assert!(item.result.is_none());
        } else {
            let answer = item.result.as_ref().unwrap();
            assert_eq!(answer.text, format!("answer {}", i));
            let model = if i % 3 == 0 { format!("model-{}", i) } else { "shared".to_string() };
            assert_eq!(answer.model_id, model);
            assert!(item.error.is_none());
        }
    }
}

#[test]
fn collector_refuses_strangers_and_repeats_and_reports_lost_items() {
    let requests = vec![BatchRequest::new("a"), BatchRequest::new("b")];
    let mut collector = BatchCollector::new(&requests, &GenerationConfig::default());
    assert!(!collector.complete(2, Ok("x".to_string())));
    assert!(collector.complete(0, Ok("first".to_string())));
    assert!(!collector.complete(0, Ok("again".to_string())));
    let report = collector.finish(Duration::from_secs(0));
    assert_eq!((report.total, report.successful, report.failed), (2, 1, 1));
    assert_eq!(report.results[0].result.as_ref().unwrap().text, "first");
    assert_eq!(report.results[1].prompt, "b");
    assert!(matches!(
        &report.results[1].error,
        Some(Error::Network(m)) if m == "Task join error: the request did not complete"
    ));
    assert!(report.results[1].error.as_ref().unwrap().is_retryable());
}
