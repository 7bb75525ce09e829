use hublish::error::PublishError;
use hublish::release::ReleaseResponse;
use hublish::response::{classify, conclude, interpret_response, HttpOutcome, RawResponse};

fn success(page: &str) -> Result<HttpOutcome, PublishError> {
    Ok(HttpOutcome::Success { html_url: page.to_string() })
}

fn unreadable(body: &str) -> Result<HttpOutcome, PublishError> {
    Err(PublishError::ResponseParseError(body.to_string()))
}

#[test]
fn created_release_is_a_success() {
    let body = "{\"url\":\"u\",\"html_url\":\"h\",\"upload_url\":\"up\"}";
    assert_eq!(interpret_response(201, body.to_string()), success("h"));
}

#[test]
fn refusal_keeps_status_and_body() {
    let body = "{\"message\":\"already_exists\"}";
    assert_eq!(
        interpret_response(422, body.to_string()),
        Ok(HttpOutcome::Failure { status_code: 422, body: body.to_string() })
    );
}

#[test]
fn success_status_with_a_body_that_is_not_json_is_a_parse_error() {
    let outcome = interpret_response(200, "not json".to_string());
    assert_eq!(outcome, unreadable("not json"));
    assert!(!matches!(outcome, Ok(HttpOutcome::Success { .. })));
}

#[test]
fn success_status_without_html_url_is_a_parse_error() {
    let body = "{\"url\":\"u\",\"upload_url\":\"up\"}";
    assert_eq!(interpret_response(200, body.to_string()), unreadable(body));
    assert_eq!(interpret_response(200, "{}".to_string()), unreadable("{}"));
    assert_eq!(interpret_response(200, String::new()), unreadable(""));
}

#[test]
fn html_url_must_be_a_string() {
    let body = "{\"html_url\":5}";
    assert_eq!(interpret_response(200, body.to_string()), unreadable(body));
    let body = "{\"html_url\":null}";
    assert_eq!(interpret_response(200, body.to_string()), unreadable(body));
}

#[test]
fn body_must_be_an_object() {
    let body = "[\"u\",\"h\",\"up\"]";
    assert_eq!(interpret_response(200, body.to_string()), unreadable(body));
    let body = "\"html_url\"";
    assert_eq!(interpret_response(200, body.to_string()), unreadable(body));
}

#[test]
fn html_url_alone_is_enough() {
    assert_eq!(interpret_response(200, "{\"html_url\":\"h\"}".to_string()), success("h"));
}

#[test]
fn other_members_are_passed_over() {
    let body = "{\"id\":1,\"html_url\":\"https://example.org/r/1\",\"assets\":[],\"draft\":true}";
    assert_eq!(interpret_response(201, body.to_string()), success("https://example.org/r/1"));
}

#[test]
fn escapes_in_html_url_are_resolved() {
    let body = "{\"html_url\":\"a\\/b\\u00e9\\n\"}";
    assert_eq!(interpret_response(200, body.to_string()), success("a/bé\n"));
}

#[test]
fn refusal_begins_at_status_300() {
    let body = "{\"html_url\":\"h\"}";
    assert_eq!(interpret_response(299, body.to_string()), success("h"));
    assert_eq!(
        interpret_response(300, body.to_string()),
        Ok(HttpOutcome::Failure { status_code: 300, body: body.to_string() })
    );
    assert_eq!(
        interpret_response(u16::MAX, String::new()),
        Ok(HttpOutcome::Failure { status_code: u16::MAX, body: String::new() })
    );
}

#[test]
fn status_below_200_is_read_like_a_success() {
    assert_eq!(interpret_response(100, "{\"html_url\":\"h\"}".to_string()), success("h"));
    assert_eq!(interpret_response(0, "nothing".to_string()), unreadable("nothing"));
}

#[test]
fn refusal_body_is_not_read() {
    assert_eq!(
        interpret_response(500, "not json".to_string()),
        Ok(HttpOutcome::Failure { status_code: 500, body: "not json".to_string() })
    );
}

#[test]
fn release_response_is_read_from_json() {
    let body = "{\"url\":\"u\",\"html_url\":\"h\",\"upload_url\":\"up\"}";
    assert_eq!(
        ReleaseResponse::from_json(body),
        Some(ReleaseResponse {
            url: Some("u".to_string()),
            html_url: "h".to_string(),
            upload_url: Some("up".to_string()),
        })
    );
    assert_eq!(
        ReleaseResponse::from_json("{\"html_url\":\"h\",\"url\":7}"),
        Some(ReleaseResponse { url: None, html_url: "h".to_string(), upload_url: None })
    );
    assert_eq!(ReleaseResponse::from_json("{\"url\":\"u\"}"), None);
    assert_eq!(ReleaseResponse::from_json("{\"html_url\":\"h\""), None);
    assert_eq!(ReleaseResponse::from_json("{\"html_url\":\"h\"} x"), None);
}

#[test]
fn last_of_two_equal_keys_is_read() {
    assert_eq!(
        ReleaseResponse::from_json("{\"html_url\":\"first\",\"html_url\":\"second\"}"),
        Some(ReleaseResponse { url: None, html_url: "second".to_string(), upload_url: None })
    );
}

#[test]
fn release_response_needs_html_url_among_its_members() {
    assert_eq!(
        ReleaseResponse::from_members(Some("u".to_string()), None, Some("up".to_string())),
        None
    );
    assert_eq!(
        ReleaseResponse::from_members(None, Some("h".to_string()), None),
        Some(ReleaseResponse { url: None, html_url: "h".to_string(), upload_url: None })
    );
}

#[test]
fn classify_goes_by_status_first() {
    let found = ReleaseResponse { url: None, html_url: "h".to_string(), upload_url: None };
    assert_eq!(
        classify(404, "b".to_string(), Some(found)),
        Ok(HttpOutcome::Failure { status_code: 404, body: "b".to_string() })
    );
    let found = ReleaseResponse { url: None, html_url: "h".to_string(), upload_url: None };
    assert_eq!(classify(201, "b".to_string(), Some(found)), success("h"));
    assert_eq!(classify(201, "b".to_string(), None), unreadable("b"));
}

#[test]
fn outcome_becomes_the_result_of_the_run() {
    assert_eq!(
        HttpOutcome::Success { html_url: "h".to_string() }.into_result(),
        Ok("h".to_string())
    );
    assert_eq!(
        HttpOutcome::Failure { status_code: 422, body: "b".to_string() }.into_result(),
        Err(PublishError::HttpError(422, "b".to_string()))
    );
}

#[test]
fn conclude_tells_a_network_error_from_a_refusal() {
    assert_eq!(
        conclude(Err("connection refused".to_string())),
        Err(PublishError::NetworkError("connection refused".to_string()))
    );
    assert_eq!(
        conclude(Ok(RawResponse { status_code: 503, body: "busy".to_string() })),
        Err(PublishError::HttpError(503, "busy".to_string()))
    );
}

#[test]
fn conclude_gives_the_page_of_the_release() {
    assert_eq!(
        conclude(Ok(RawResponse { status_code: 201, body: "{\"html_url\":\"h\"}".to_string() })),
        Ok("h".to_string())
    );
    assert_eq!(
        conclude(Ok(RawResponse { status_code: 201, body: "<html>".to_string() })),
        Err(PublishError::ResponseParseError("<html>".to_string()))
    );
}
