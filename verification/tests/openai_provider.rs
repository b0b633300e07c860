use morrow::openai_provider::{
    openai_request_body, CANDIDATE_FORMAT_NAME, OPENAI_MODEL,
    output_text, response_text, transport_failure, OpenAiHttpRequest, OpenAiProvider,
    OpenAiProviderError, ResponseContent, ResponseOutput, ResponsesEnvelope, OPENAI_RESPONSES_URL,
    OPENAI_TIMEOUT_MS,
};

fn content(kind: &str, text: Option<&str>) -> ResponseContent {
    ResponseContent {
        content_type: kind.to_owned(),
        text: text.map(str::to_owned),
    }
}

fn assistant(status: Option<&str>, content: Vec<ResponseContent>) -> ResponseOutput {
    ResponseOutput {
        item_type: "message".to_owned(),
        role: Some("assistant".to_owned()),
        status: status.map(str::to_owned),
        content,
    }
}

fn envelope(output: Vec<ResponseOutput>) -> ResponsesEnvelope {
    ResponsesEnvelope {
        status: "completed".to_owned(),
        incomplete_details_present: false,
        output,
    }
}

fn rejected(reason: &'static str) -> Result<String, OpenAiProviderError> {
    Err(OpenAiProviderError::InvalidResponse { reason })
}

#[test]
fn output_text_finds_the_single_candidate() {
    let reasoning = ResponseOutput {
        item_type: "reasoning".to_owned(),
        role: None,
        status: None,
        content: vec![content("output_text", Some("ignored"))],
    };
    let reply = envelope(vec![
        reasoning,
        assistant(
            Some("completed"),
            vec![content("annotation", None), content("output_text", Some("{\"a\":1}"))],
        ),
    ]);
    assert_eq!(output_text(&reply), Ok("{\"a\":1}".to_owned()));
}

#[test]
fn output_text_rejects_refusals_duplicates_and_incomplete_messages() {
    let refused = envelope(vec![assistant(
        Some("completed"),
        vec![content("refusal", Some("no"))],
    )]);
    assert_eq!(output_text(&refused), rejected("assistant refused"));
    let twice = envelope(vec![assistant(
        Some("completed"),
        vec![content("output_text", Some("a")), content("output_text", Some("b"))],
    )]);
    assert_eq!(output_text(&twice), rejected("multiple output_text candidates"));
    let pending = envelope(vec![assistant(Some("in_progress"), Vec::new())]);
    assert_eq!(output_text(&pending), rejected("assistant message was not completed"));
    assert_eq!(output_text(&envelope(Vec::new())), rejected("missing output_text"));
}

#[test]
fn response_text_checks_status_and_envelope_first() {
    assert_eq!(
        response_text(429, None),
        Err(OpenAiProviderError::HttpStatus { status_code: 429 })
    );
    assert_eq!(response_text(200, None), rejected("invalid response envelope"));
    let mut not_done = envelope(Vec::new());
    not_done.status = "incomplete".to_owned();
    assert_eq!(
        response_text(200, Some(not_done)),
        rejected("response was not completed")
    );
    let mut partial = envelope(Vec::new());
    partial.incomplete_details_present = true;
    assert_eq!(
        response_text(200, Some(partial)),
        rejected("response included incomplete details")
    );
    let good = envelope(vec![assistant(
        Some("completed"),
        vec![content("output_text", Some("x"))],
    )]);
    assert_eq!(response_text(201, Some(good)), Ok("x".to_owned()));
}

#[test]
fn openai_provider_errors_have_messages() {
    assert_eq!(
        OpenAiProviderError::HttpStatus { status_code: 503 }.to_text(),
        "provider response has unsupported status 503"
    );
    assert_eq!(transport_failure(true), OpenAiProviderError::Timeout);
    assert_eq!(
        transport_failure(false).to_text(),
        "provider network unavailable"
    );
}

#[test]
fn requests_carry_the_token_and_endpoint() {
    let provider = OpenAiProvider::new("sk-test".to_owned(), ());
    let request: OpenAiHttpRequest = provider.request("{}".to_owned());
    assert_eq!(request.url, OPENAI_RESPONSES_URL);
    assert_eq!(request.timeout_ms, OPENAI_TIMEOUT_MS);
    assert_eq!(request.body, "{}");
    assert_eq!(request.token(), "sk-test");
}

#[test]
fn request_body_carries_the_evidence_under_the_strict_schema() {
    let body = openai_request_body("evidence text".to_owned());
    assert_eq!(body.model, OPENAI_MODEL);
    assert_eq!(body.role, "user");
    assert_eq!(body.content_type, "input_text");
    assert_eq!(body.text, "evidence text");
    assert_eq!(body.format_type, "json_schema");
    assert_eq!(body.format_name, CANDIDATE_FORMAT_NAME);
    assert_eq!(CANDIDATE_FORMAT_NAME, "morrow_provider_candidate");
    assert!(body.strict);
}
