use bpx_api::dispatch::success_body;
use bpx_api::BpxError;

#[test]
fn non_success_status_is_an_api_error() {
    let body = r#"{"code":"INVALID_CLIENT_REQUEST","message":"Invalid symbol"}"#.to_string();
    assert_eq!(
        success_body(400, body.clone()),
        Err(BpxError::Api { status: 400, body })
    );
}

#[test]
fn success_status_hands_the_body_on() {
    assert_eq!(success_body(200, "[]".to_string()), Ok("[]".to_string()));
    assert_eq!(success_body(299, "x".to_string()), Ok("x".to_string()));
}

#[test]
fn edges_of_the_success_range() {
    assert!(matches!(success_body(199, String::new()), Err(BpxError::Api { status: 199, .. })));
    assert!(matches!(success_body(300, String::new()), Err(BpxError::Api { status: 300, .. })));
    assert!(matches!(success_body(429, String::new()), Err(BpxError::Api { status: 429, .. })));
    assert!(matches!(success_body(500, String::new()), Err(BpxError::Api { status: 500, .. })));
}
