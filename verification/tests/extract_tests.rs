use ci_failure_core::client::extract_diagnosis;
use ci_failure_core::client::handle_response;
use ci_failure_core::client::AnalysisError;

#[test]
fn tagged_text_item_wins() {
    let body = r#"{"content":[{"type":"thinking","text":"x"},{"type":"text","text":"diagnosis here"}]}"#;
    assert_eq!(extract_diagnosis(body).unwrap(), "diagnosis here");
}

#[test]
fn first_tagged_text_item_wins_over_later_ones() {
    let body = r#"{"content":[{"type":"text","text":"first"},{"type":"text","text":"second"}]}"#;
    assert_eq!(extract_diagnosis(body).unwrap(), "first");
}

#[test]
fn legacy_first_element_text() {
    let body = r#"{"content":[{"text":"legacy diagnosis"}]}"#;
    assert_eq!(extract_diagnosis(body).unwrap(), "legacy diagnosis");
}

#[test]
fn choices_message_content() {
    let body = r#"{"choices":[{"message":{"content":"alt diagnosis"}}]}"#;
    assert_eq!(extract_diagnosis(body).unwrap(), "alt diagnosis");
}

#[test]
fn unknown_shape_reports_whole_document() {
    let body = r#"{"foo":"bar"}"#;
    match extract_diagnosis(body) {
        Err(AnalysisError::UnexpectedShape(doc)) => {
            assert_eq!(doc, r#"{"foo":"bar"}"#);
        }
        _ => panic!("expected UnexpectedShape"),
    }
}

#[test]
fn tagged_item_with_non_string_text_falls_through() {
    // The tagged item carries no string text, the first element
    // neither, and there are no choices: no shape matches.
    let body = r#"{"content":[{"type":"text","text":5}]}"#;
    assert!(matches!(
        extract_diagnosis(body),
        Err(AnalysisError::UnexpectedShape(_))
    ));
}

#[test]
fn choices_used_when_content_is_not_a_list() {
    let body = r#"{"content":"nope","choices":[{"message":{"content":"from choices"}}]}"#;
    assert_eq!(extract_diagnosis(body).unwrap(), "from choices");
}

#[test]
fn malformed_body_reports_parse_error_and_prefix() {
    let body = "not json at all";
    match extract_diagnosis(body) {
        Err(AnalysisError::MalformedResponse(detail, prefix)) => {
            assert!(!detail.is_empty());
            assert_eq!(prefix, "not json at all");
        }
        _ => panic!("expected MalformedResponse"),
    }
}

#[test]
fn malformed_body_prefix_is_bounded() {
    let body = format!("<{}", "e".repeat(400));
    match extract_diagnosis(&body) {
        Err(AnalysisError::MalformedResponse(_, prefix)) => {
            assert_eq!(prefix.chars().count(), 200);
            assert_eq!(prefix, body.chars().take(200).collect::<String>());
        }
        _ => panic!("expected MalformedResponse"),
    }
}

#[test]
fn success_status_extracts() {
    let body = r#"{"content":[{"type":"text","text":"ok"}]}"#;
    assert_eq!(handle_response(200, body).unwrap(), "ok");
    assert_eq!(handle_response(299, body).unwrap(), "ok");
}

#[test]
fn error_status_reports_status_and_bounded_body() {
    match handle_response(404, "missing") {
        Err(AnalysisError::HttpError(status, prefix)) => {
            assert_eq!(status, 404);
            assert_eq!(prefix, "missing");
        }
        _ => panic!("expected HttpError"),
    }
    let long = "b".repeat(700);
    match handle_response(500, &long) {
        Err(AnalysisError::HttpError(status, prefix)) => {
            assert_eq!(status, 500);
            assert_eq!(prefix, "b".repeat(500));
        }
        _ => panic!("expected HttpError"),
    }
}
