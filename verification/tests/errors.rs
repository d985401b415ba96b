use shopify_sdk::clients::{HttpError, HttpResponseError, MaxRetriesError, RestError};
use shopify_sdk::json::{JsonMember, JsonValue};
use shopify_sdk::rest::errors::parse_validation_errors;
use shopify_sdk::rest::{FieldErrors, ResourceError};

fn text(s: &str) -> JsonValue {
    JsonValue::String(s.to_string())
}

fn member(key: &str, value: JsonValue) -> JsonMember {
    JsonMember { key: key.to_string(), value }
}

fn strings(items: &[&str]) -> JsonValue {
    JsonValue::Array(items.iter().map(|s| text(s)).collect())
}

#[test]
fn test_not_found_error_formats_message_with_resource_and_id() {
    let error = ResourceError::NotFound { resource: "Product", id: "123456".to_string() };
    let message = error.message();

    assert!(message.contains("Product"));
    assert!(message.contains("123456"));
    assert!(message.contains("not found"));
}

#[test]
fn test_validation_failed_stores_and_retrieves_field_errors() {
    let mut errors = FieldErrors::new();
    errors.insert("title".to_string(), vec!["can't be blank".to_string()]);
    errors.insert(
        "price".to_string(),
        vec!["must be greater than 0".to_string(), "is invalid".to_string()],
    );

    let error = ResourceError::ValidationFailed { errors: errors.clone(), request_id: Some("abc-123".to_string()) };

    if let ResourceError::ValidationFailed { errors: returned_errors, request_id } = error {
        assert_eq!(returned_errors.len(), 2);
        assert_eq!(returned_errors.get("title"), Some(&vec!["can't be blank".to_string()]));
        assert_eq!(returned_errors.get("price").map(|v| v.len()), Some(2));
        assert_eq!(request_id, Some("abc-123".to_string()));
    } else {
        panic!("Expected ValidationFailed variant");
    }
}

#[test]
fn test_path_resolution_failed_includes_operation_context() {
    let error = ResourceError::PathResolutionFailed { resource: "Variant", operation: "find" };
    let message = error.message();

    assert!(message.contains("Variant"));
    assert!(message.contains("find"));
    assert!(message.contains("path"));
}

#[test]
fn test_http_error_wraps_correctly() {
    let http_error = HttpError::Response(HttpResponseError {
        code: 500,
        message: r#"{"error":"Internal Server Error"}"#.to_string(),
        error_reference: Some("req-xyz".to_string()),
    });

    let resource_error = ResourceError::Http(http_error);
    let message = resource_error.message();

    assert!(message.contains("Internal Server Error"));
}

#[test]
fn test_from_http_error_conversion() {
    let http_error = HttpError::Response(HttpResponseError {
        code: 503,
        message: "Service unavailable".to_string(),
        error_reference: None,
    });

    let resource_error: ResourceError = http_error.into();
    assert!(matches!(resource_error, ResourceError::Http(_)));
}

#[test]
fn test_from_rest_error_conversion() {
    let rest_error = RestError::InvalidPath { path: "/bad/path".to_string() };

    let resource_error: ResourceError = rest_error.into();
    assert!(matches!(resource_error, ResourceError::Rest(_)));
}

#[test]
fn test_all_error_variants_implement_std_error() {
    // Every variant has a message.
    let not_found_error = ResourceError::NotFound { resource: "Product", id: "123".to_string() };
    assert!(!not_found_error.message().is_empty());

    let validation_error = ResourceError::ValidationFailed { errors: FieldErrors::new(), request_id: None };
    assert!(!validation_error.message().is_empty());

    let path_error = ResourceError::PathResolutionFailed { resource: "Variant", operation: "all" };
    assert!(!path_error.message().is_empty());

    let http_error = ResourceError::Http(HttpError::Response(HttpResponseError {
        code: 400,
        message: "test".to_string(),
        error_reference: None,
    }));
    assert!(!http_error.message().is_empty());

    let rest_error = ResourceError::Rest(RestError::InvalidPath { path: "test".to_string() });
    assert!(!rest_error.message().is_empty());
}

#[test]
fn test_from_http_response_maps_404_to_not_found() {
    let body = JsonValue::Object(vec![member("error", text("Not found"))]);
    let error = ResourceError::from_http_response(404, &body, "Product", Some("123"), Some("req-123"));

    assert!(matches!(
        error,
        ResourceError::NotFound { resource: "Product", id } if id == "123"
    ));
}

#[test]
fn test_from_http_response_maps_422_to_validation_failed() {
    let body = JsonValue::Object(vec![member(
        "errors",
        JsonValue::Object(vec![
            member("title", strings(&["can't be blank"])),
            member("price", strings(&["must be a number", "must be positive"])),
        ]),
    )]);

    let error = ResourceError::from_http_response(422, &body, "Product", Some("123"), Some("req-456"));

    if let ResourceError::ValidationFailed { errors, request_id } = error {
        assert_eq!(errors.get("title"), Some(&vec!["can't be blank".to_string()]));
        assert_eq!(errors.get("price").map(|v| v.len()), Some(2));
        assert_eq!(request_id, Some("req-456".to_string()));
    } else {
        panic!("Expected ValidationFailed variant");
    }
}

#[test]
fn test_from_http_response_maps_other_codes_to_http() {
    let body = JsonValue::Object(vec![member("error", text("Internal error"))]);
    let error = ResourceError::from_http_response(500, &body, "Product", None, Some("req-789"));

    assert!(matches!(error, ResourceError::Http(_)));
}

#[test]
fn test_parse_validation_errors_object_format() {
    let body = JsonValue::Object(vec![member(
        "errors",
        JsonValue::Object(vec![
            member("title", strings(&["can't be blank"])),
            member("tags", strings(&["is invalid", "has too many items"])),
        ]),
    )]);

    let errors = parse_validation_errors(&body);
    assert_eq!(errors.len(), 2);
    assert_eq!(errors.get("title"), Some(&vec!["can't be blank".to_string()]));
    assert_eq!(errors.get("tags").map(|v| v.len()), Some(2));
}

#[test]
fn test_parse_validation_errors_array_format() {
    let body = JsonValue::Object(vec![member("errors", strings(&["Error 1", "Error 2"]))]);

    let errors = parse_validation_errors(&body);
    assert_eq!(errors.len(), 1);
    assert_eq!(errors.get("base").map(|v| v.len()), Some(2));
}

#[test]
fn test_request_id_extraction() {
    let error = ResourceError::ValidationFailed { errors: FieldErrors::new(), request_id: Some("req-abc".to_string()) };
    assert_eq!(error.request_id(), Some("req-abc"));

    let error = ResourceError::NotFound { resource: "Product", id: "123".to_string() };
    assert_eq!(error.request_id(), None);
}

// --- further cases ---

#[test]
fn parse_validation_errors_string_format_goes_under_base() {
    let body = JsonValue::Object(vec![member("errors", text("Title is required"))]);
    let errors = parse_validation_errors(&body);
    assert_eq!(errors.len(), 1);
    assert_eq!(errors.get("base"), Some(&vec!["Title is required".to_string()]));
}

#[test]
fn parse_validation_errors_without_errors_member_is_empty() {
    let body = JsonValue::Object(vec![member("error", text("oops"))]);
    assert!(parse_validation_errors(&body).is_empty());
    assert!(parse_validation_errors(&JsonValue::Null).is_empty());
}

#[test]
fn parse_validation_errors_single_string_field_value() {
    let body = JsonValue::Object(vec![member(
        "errors",
        JsonValue::Object(vec![member("title", text("is too long"))]),
    )]);
    let errors = parse_validation_errors(&body);
    assert_eq!(errors.get("title"), Some(&vec!["is too long".to_string()]));
}

#[test]
fn from_http_response_404_without_id_is_unknown() {
    let error = ResourceError::from_http_response(404, &JsonValue::Null, "Order", None, None);
    assert_eq!(error, ResourceError::NotFound { resource: "Order", id: "unknown".to_string() });
}

#[test]
fn from_http_response_other_code_keeps_code_body_and_request_id() {
    let body = JsonValue::Object(vec![member("error", text("Internal error"))]);
    let error = ResourceError::from_http_response(500, &body, "Product", None, Some("req-789"));
    match error {
        ResourceError::Http(HttpError::Response(e)) => {
            assert_eq!(e.code, 500);
            assert_eq!(e.message, r#"{"error":"Internal error"}"#);
            assert_eq!(e.error_reference, Some("req-789".to_string()));
        }
        other => panic!("unexpected {other:?}"),
    }
}

#[test]
fn error_messages_exact() {
    let e = ResourceError::NotFound { resource: "Product", id: "42".to_string() };
    assert_eq!(e.message(), "Product with id 42 not found");
    let e = ResourceError::PathResolutionFailed { resource: "Variant", operation: "find" };
    assert_eq!(e.message(), "Cannot resolve path for Variant::find with provided IDs");
    let e = ResourceError::Rest(RestError::InvalidPath { path: "/x".to_string() });
    assert_eq!(e.message(), "Invalid path: /x");
    let e = ResourceError::Http(HttpError::MaxRetries(MaxRetriesError {
        code: 429,
        tries: 3,
        error_reference: None,
    }));
    assert_eq!(e.message(), "Maximum retries (3) reached; last status 429");
    let e = ResourceError::Http(HttpError::Response(HttpResponseError {
        code: 500,
        message: "boom".to_string(),
        error_reference: None,
    }));
    assert_eq!(e.message(), "HTTP 500: boom");
    let mut errors = FieldErrors::new();
    errors.insert("title".to_string(), vec!["can't be blank".to_string()]);
    let e = ResourceError::ValidationFailed { errors, request_id: None };
    assert_eq!(e.message(), r#"Validation failed: {"title": ["can't be blank"]}"#);
}

#[test]
fn request_id_of_http_error_is_its_reference() {
    let e = ResourceError::Http(HttpError::Response(HttpResponseError {
        code: 500,
        message: "x".to_string(),
        error_reference: Some("ref-1".to_string()),
    }));
    assert_eq!(e.request_id(), Some("ref-1"));
    let e = ResourceError::PathResolutionFailed { resource: "A", operation: "b" };
    assert_eq!(e.request_id(), None);
}
