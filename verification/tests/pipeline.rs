use my_rust_service::config::Config;
use my_rust_service::error::AppError;
use my_rust_service::models::{Activity, Commit, PushEventPayload, SummarizeRequest};
use my_rust_service::summarize::{
    extract_commit_text, build_body, build_url, decode_success, summarize_plan, summarize_step,
    CallOutcome, RequestBody, SummarizePlan, SummarizeStep, UpstreamCall,
};

fn test_config() -> Config {
    Config::from_parts(
        None,
        None,
        None,
        Some("k".to_string()),
        Some("bucket".to_string()),
        Some("eu-west-1".to_string()),
    )
    .ok()
    .unwrap()
}

fn push_activity(messages: &[&str]) -> Activity {
    Activity {
        kind: "PushEvent".to_string(),
        payload: Some(PushEventPayload {
            commits: Some(
                messages
                    .iter()
                    .map(|m| Commit { message: m.to_string() })
                    .collect(),
            ),
        }),
    }
}

#[test]
fn scenario_one_push_two_commits() {
    let activities = vec![push_activity(&["fix bug", "add test"])];
    assert_eq!(extract_commit_text(&activities), "fix bug\n---\nadd test");
}

#[test]
fn empty_activities_short_circuit() {
    let config = test_config();
    let req = SummarizeRequest {
        activities: vec![],
        openapi_base_url: None,
        model: None,
        endpoint_type: None,
    };
    match summarize_plan(req, &config) {
        SummarizePlan::Done(resp) => {
            assert_eq!(resp.summary, "No new commits to summarize.");
            assert_eq!(resp.endpoint_used, "none");
        }
        SummarizePlan::Call(_) => panic!("no upstream call is owed"),
    }
}

#[test]
fn non_push_and_empty_commit_lists_short_circuit() {
    let config = test_config();
    let activities = vec![
        Activity {
            kind: "WatchEvent".to_string(),
            payload: None,
        },
        Activity {
            kind: "PushEvent".to_string(),
            payload: Some(PushEventPayload { commits: None }),
        },
        push_activity(&[]),
    ];
    let req = SummarizeRequest {
        activities,
        openapi_base_url: None,
        model: None,
        endpoint_type: None,
    };
    match summarize_plan(req, &config) {
        SummarizePlan::Done(resp) => {
            assert_eq!(resp.summary, "No new commits to summarize.");
            assert_eq!(resp.endpoint_used, "none");
        }
        SummarizePlan::Call(_) => panic!("no upstream call is owed"),
    }
}

#[test]
fn join_preserves_order_across_activities() {
    let activities = vec![
        push_activity(&["first"]),
        Activity {
            kind: "IssueEvent".to_string(),
            payload: None,
        },
        push_activity(&["second", "third"]),
    ];
    assert_eq!(extract_commit_text(&activities), "first\n---\nsecond\n---\nthird");
}

#[test]
fn single_message_has_no_separator() {
    let activities = vec![push_activity(&["only"])];
    assert_eq!(extract_commit_text(&activities), "only");
}

#[test]
fn body_shape_embeddings() {
    let body = build_body(
        &"embeddings".to_string(),
        &"m1".to_string(),
        &"some text".to_string(),
    );
    match body {
        RequestBody::Embeddings { model, input } => {
            assert_eq!(model, "m1");
            assert_eq!(input, "some text");
        }
        RequestBody::Prompt { .. } => panic!("embeddings kind owes the input shape"),
    }
}

#[test]
fn body_shape_other_kinds() {
    for kind in ["completions", "chat", ""] {
        let body = build_body(
            &kind.to_string(),
            &"m2".to_string(),
            &"t".to_string(),
        );
        match body {
            RequestBody::Prompt { model, prompt } => {
                assert_eq!(model, "m2");
                assert_eq!(prompt, "t");
            }
            RequestBody::Embeddings { .. } => panic!("only embeddings owes the input shape"),
        }
    }
}

#[test]
fn url_strips_trailing_slashes() {
    let url = build_url(&"https://api.example.com///".to_string(), &"completions".to_string());
    assert_eq!(url, "https://api.example.com/v1/completions");
    let url2 = build_url(&"https://api.example.com".to_string(), &"embeddings".to_string());
    assert_eq!(url2, "https://api.example.com/v1/embeddings");
}

#[test]
fn plan_uses_request_overrides_over_defaults() {
    let config = test_config();
    let req = SummarizeRequest {
        activities: vec![push_activity(&["work"])],
        openapi_base_url: Some("http://localhost:9/".to_string()),
        model: Some("my-model".to_string()),
        endpoint_type: Some("embeddings".to_string()),
    };
    match summarize_plan(req, &config) {
        SummarizePlan::Call(call) => {
            assert_eq!(call.url, "http://localhost:9/v1/embeddings");
            assert_eq!(call.endpoint, "embeddings");
            assert_eq!(call.attempt, 0);
            match call.body {
                RequestBody::Embeddings { model, input } => {
                    assert_eq!(model, "my-model");
                    assert_eq!(input, "work");
                }
                RequestBody::Prompt { .. } => panic!("embeddings shape owed"),
            }
        }
        SummarizePlan::Done(_) => panic!("an upstream call is owed"),
    }
}

#[test]
fn plan_falls_back_to_configured_defaults() {
    let config = test_config();
    let req = SummarizeRequest {
        activities: vec![push_activity(&["work"])],
        openapi_base_url: None,
        model: None,
        endpoint_type: None,
    };
    match summarize_plan(req, &config) {
        SummarizePlan::Call(call) => {
            assert_eq!(call.url, "https://api.openai.com/v1/completions");
            assert_eq!(call.endpoint, "completions");
            match call.body {
                RequestBody::Prompt { model, prompt } => {
                    assert_eq!(model, "text-davinci-003");
                    assert_eq!(prompt, "work");
                }
                RequestBody::Embeddings { .. } => panic!("completion shape owed"),
            }
        }
        SummarizePlan::Done(_) => panic!("an upstream call is owed"),
    }
}

fn call_at_attempt(attempt: u8) -> UpstreamCall {
    UpstreamCall {
        url: "u".to_string(),
        endpoint: "completions".to_string(),
        body: RequestBody::Prompt {
            model: "m".to_string(),
            prompt: "p".to_string(),
        },
        attempt,
    }
}

#[test]
fn first_failure_retries_after_one_second() {
    let step = summarize_step(
        call_at_attempt(0),
        CallOutcome::Reply {
            status: 503,
            body: "oops".to_string(),
        },
    );
    match step {
        SummarizeStep::RetryAfter { delay_secs, next } => {
            assert_eq!(delay_secs, 1);
            assert_eq!(next.attempt, 1);
            assert_eq!(next.url, "u");
        }
        _ => panic!("one attempt remains, so a retry is owed"),
    }
}

#[test]
fn exhausted_attempts_fail_with_last_status() {
    let step = summarize_step(
        call_at_attempt(1),
        CallOutcome::Reply {
            status: 503,
            body: "oops".to_string(),
        },
    );
    match step {
        SummarizeStep::Failure(AppError::Api(m)) => {
            assert_eq!(m, "Upstream API error: 503");
        }
        _ => panic!("attempts are exhausted, so an API error is owed"),
    }
}

#[test]
fn exhausted_attempts_fail_with_last_transport_detail() {
    let step = summarize_step(
        call_at_attempt(1),
        CallOutcome::Transport {
            message: "connection refused".to_string(),
        },
    );
    match step {
        SummarizeStep::Failure(AppError::Api(m)) => {
            assert_eq!(m, "Request failed: connection refused");
        }
        _ => panic!("attempts are exhausted, so an API error is owed"),
    }
}

#[test]
fn success_reply_decodes_completion_text() {
    let step = summarize_step(
        call_at_attempt(0),
        CallOutcome::Reply {
            status: 200,
            body: "{\"choices\":[{\"text\":\"a summary\"}]}".to_string(),
        },
    );
    match step {
        SummarizeStep::Success(resp) => {
            assert_eq!(resp.summary, "a summary");
            assert_eq!(resp.endpoint_used, "completions");
        }
        _ => panic!("a success reply ends the pipeline"),
    }
}

#[test]
fn success_reply_renders_embeddings_data() {
    let call = UpstreamCall {
        url: "u".to_string(),
        endpoint: "embeddings".to_string(),
        body: RequestBody::Embeddings {
            model: "m".to_string(),
            input: "t".to_string(),
        },
        attempt: 0,
    };
    let step = summarize_step(
        call,
        CallOutcome::Reply {
            status: 200,
            body: "{\"data\":[{\"embedding\":[1,2]}]}".to_string(),
        },
    );
    match step {
        SummarizeStep::Success(resp) => {
            assert_eq!(resp.summary, "[{\"embedding\":[1,2]}]");
            assert_eq!(resp.endpoint_used, "embeddings");
        }
        _ => panic!("a success reply ends the pipeline"),
    }
}

#[test]
fn decode_missing_text_yields_empty_summary() {
    let r = decode_success(false, "{\"choices\":[]}");
    assert_eq!(r.ok().unwrap(), "");
    let r2 = decode_success(false, "{}");
    assert_eq!(r2.ok().unwrap(), "");
}

#[test]
fn decode_invalid_json_is_api_error() {
    match decode_success(false, "not json") {
        Err(AppError::Api(m)) => assert!(m.starts_with("Parse error: ")),
        _ => panic!("an invalid body owes an API error"),
    }
}

#[test]
fn decode_embeddings_renders_data_field() {
    let r = decode_success(true, "{\"data\":[1,2,3]}");
    assert_eq!(r.ok().unwrap(), "[1,2,3]");
    let r2 = decode_success(true, "{}");
    assert_eq!(r2.ok().unwrap(), "null");
}
