//! Status classification runs before any decoding, and the two error
//! kinds stay distinguishable.
use lemonaid::Groundstation;
use lemonaid::Json;
use lemonaid::LemonaidError;
use lemonaid::classify_response;

#[test]
fn not_found_yields_api_error_with_status_and_body() {
    let r = classify_response(404, Some("not found".to_string()));
    match r {
        Err(LemonaidError::Api { status, message }) => {
            assert_eq!(status, 404);
            assert_eq!(message, "not found");
        },
        _ => panic!("a 404 must classify as an API error"),
    }
}

#[test]
fn success_statuses_pass_the_body_through() {
    let r = classify_response(200, Some("{}".to_string()));
    assert_eq!(r.unwrap(), Some("{}".to_string()));
    let r = classify_response(299, None);
    assert_eq!(r.unwrap(), None);
}

#[test]
fn non_success_boundaries_classify_as_api_errors() {
    assert!(classify_response(199, Some("x".to_string())).is_err());
    assert!(classify_response(300, Some("x".to_string())).is_err());
    assert!(classify_response(500, Some("boom".to_string())).is_err());
    assert!(classify_response(201, Some("x".to_string())).is_ok());
}

#[test]
fn unreadable_error_body_becomes_the_placeholder() {
    match classify_response(502, None) {
        Err(LemonaidError::Api { status, message }) => {
            assert_eq!(status, 502);
            assert_eq!(message, "unknown error");
        },
        _ => panic!("a 502 must classify as an API error"),
    }
}

#[test]
fn classification_happens_before_decoding() {
    // A plain-text error page never reaches the JSON decoder: the status
    // decides first, so the carried message is the raw body.
    let body = "<html>Service Unavailable</html>".to_string();
    match classify_response(503, Some(body.clone())) {
        Err(LemonaidError::Api { status, message }) => {
            assert_eq!(status, 503);
            assert_eq!(message, body);
        },
        _ => panic!("a 503 must classify as an API error"),
    }
}

#[test]
fn decode_failure_is_not_an_api_error() {
    // A 200 whose body does not fit the expected shape fails in the
    // decode layer; that failure is a different kind than an API error.
    let ok = classify_response(200, Some("[1,2,3]".to_string()));
    assert!(ok.is_ok());
    let bad_shape = Json::Arr(vec![Json::Num("1".to_string())]);
    assert!(Groundstation::from_json(&bad_shape).is_none());
    let http_kind = LemonaidError::Http { message: "error decoding response body".to_string() };
    let api_kind = LemonaidError::Api { status: 404, message: "not found".to_string() };
    assert!(http_kind.is_http() && !http_kind.is_api());
    assert!(api_kind.is_api() && !api_kind.is_http());
}

#[test]
fn describe_names_the_kind() {
    let http_kind = LemonaidError::Http { message: "connection refused".to_string() };
    assert_eq!(http_kind.describe(), "HTTP error: connection refused");
    let api_kind = LemonaidError::Api { status: 404, message: "not found".to_string() };
    assert_eq!(api_kind.describe(), "API error (404): not found");
}
