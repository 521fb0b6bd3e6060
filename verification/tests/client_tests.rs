use ci_failure_core::client::bearer_value;
use ci_failure_core::client::build_request_body;
use ci_failure_core::client::endpoint_url;
use ci_failure_core::client::prepare_request;
use ci_failure_core::client::protocol_version;
use ci_failure_core::client::AnalysisError;
use ci_failure_core::pr::fetch_pr_info;
use ci_failure_core::prompt::build_prompt;

#[test]
fn blank_credential_is_rejected() {
    for key in ["", " ", "\t \n"] {
        let r = prepare_request("some log", "build", key);
        assert!(matches!(r, Err(AnalysisError::MissingCredential)));
    }
}

#[test]
fn credential_is_trimmed() {
    let req = prepare_request("log", "build", "  sk-123  ").unwrap();
    assert_eq!(req.api_key, "sk-123");
}

#[test]
fn request_body_carries_fixed_model_and_budget() {
    let body = build_request_body("hello");
    assert_eq!(
        body,
        "{\"model\":\"MiniMax-M2.5-highspeed\",\"max_tokens\":2048,\"messages\":[{\"role\":\"user\",\"content\":\"hello\"}]}"
    );
}

#[test]
fn request_body_escapes_the_prompt() {
    let body = build_request_body("a \"quote\" and\nnewline \\ done");
    assert!(body.contains("a \\\"quote\\\" and\\nnewline \\\\ done"));
    // The body must itself parse as JSON carrying the prompt verbatim.
    let v: serde_json::Value = serde_json::from_str(&body).unwrap();
    assert_eq!(
        v["messages"][0]["content"].as_str().unwrap(),
        "a \"quote\" and\nnewline \\ done"
    );
    let ctl = build_request_body("bell\u{7}end");
    let v: serde_json::Value = serde_json::from_str(&ctl).unwrap();
    assert_eq!(v["messages"][0]["content"].as_str().unwrap(), "bell\u{7}end");
    assert!(ctl.contains("bell\\u0007end"));
}

#[test]
fn prepared_body_embeds_job_and_log() {
    let req = prepare_request("the log text", "build-job", "key").unwrap();
    let v: serde_json::Value = serde_json::from_str(&req.body).unwrap();
    let content = v["messages"][0]["content"].as_str().unwrap();
    assert_eq!(content, build_prompt("build-job", "the log text"));
    assert!(content.contains("build-job"));
    assert!(content.contains("```\nthe log text\n```"));
    assert_eq!(v["model"], "MiniMax-M2.5-highspeed");
    assert_eq!(v["max_tokens"], 2048);
}

#[test]
fn fixed_endpoint_and_headers() {
    assert_eq!(endpoint_url(), "https://api.minimaxi.com/anthropic/v1/messages");
    assert_eq!(protocol_version(), "2023-06-01");
    assert_eq!(bearer_value("sk-1"), "Bearer sk-1");
}

#[test]
fn error_messages_are_descriptive() {
    assert_eq!(AnalysisError::MissingCredential.message(), "API key is missing");
    assert_eq!(
        AnalysisError::RequestFailed("dns".to_string()).message(),
        "request failed: dns"
    );
    assert_eq!(
        AnalysisError::HttpError(404, "gone".to_string()).message(),
        "HTTP 404: gone"
    );
    assert_eq!(
        AnalysisError::MalformedResponse("eof".to_string(), "{".to_string()).message(),
        "JSON parse failed: eof; raw response: {"
    );
    assert_eq!(
        AnalysisError::UnexpectedShape("{}".to_string()).message(),
        "Unexpected response: {}"
    );
}

#[test]
fn stubbed_pr_details() {
    let d = fetch_pr_info("a/b", 42);
    assert_eq!(d.pr.id, 42);
    assert_eq!(d.pr.number, 42);
    assert_eq!(d.pr.title, "PR #42 from a/b");
    assert_eq!(d.pr.state, "open");
    assert_eq!(d.pr.html_url, "https://github.com/a/b/pull/42");
    assert_eq!(d.pr.head_sha, "abc123");
    assert!(d.check_runs.is_empty());
}
