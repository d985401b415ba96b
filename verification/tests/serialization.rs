use shopify_sdk::rest::resources::v2025_10::{Asset, DraftOrderInvoice, TrackingInfo};

#[test]
fn test_tracking_info_serialization() {
    let tracking = TrackingInfo {
        tracking_number: Some("1Z999AA10123456784".to_string()),
        tracking_url: Some("https://ups.com/tracking/1Z999AA10123456784".to_string()),
        tracking_company: Some("UPS".to_string()),
    };

    let parsed = tracking.to_json();

    assert_eq!(parsed.get("tracking_number").and_then(|v| v.as_str()), Some("1Z999AA10123456784"));
    assert_eq!(
        parsed.get("tracking_url").and_then(|v| v.as_str()),
        Some("https://ups.com/tracking/1Z999AA10123456784")
    );
    assert_eq!(parsed.get("tracking_company").and_then(|v| v.as_str()), Some("UPS"));

    // Test partial tracking info
    let partial_tracking = TrackingInfo { tracking_number: Some("12345".to_string()), ..Default::default() };

    let partial_json = partial_tracking.to_json();
    assert_eq!(partial_json.get("tracking_number").and_then(|v| v.as_str()), Some("12345"));
    assert!(partial_json.get("tracking_url").is_none());
    assert!(partial_json.get("tracking_company").is_none());
}

#[test]
fn test_draft_order_invoice_serialization() {
    let invoice = DraftOrderInvoice {
        to: Some("customer@example.com".to_string()),
        subject: Some("Invoice for your order".to_string()),
        custom_message: Some("Thank you for shopping with us!".to_string()),
        ..Default::default()
    };

    let json = invoice.to_json();

    assert_eq!(json.get("to").and_then(|v| v.as_str()), Some("customer@example.com"));
    assert_eq!(json.get("subject").and_then(|v| v.as_str()), Some("Invoice for your order"));
    assert_eq!(json.get("custom_message").and_then(|v| v.as_str()), Some("Thank you for shopping with us!"));
    assert!(json.get("from").is_none());
    assert!(json.get("bcc").is_none());

    // Test empty invoice
    let empty_invoice = DraftOrderInvoice::default();
    let empty_json = empty_invoice.to_json();
    assert_eq!(empty_json.to_json_string(), "{}");
}

#[test]
fn test_asset_struct_serialization() {
    let asset = Asset {
        key: "templates/index.liquid".to_string(),
        public_url: Some("https://cdn.shopify.com/asset.liquid".to_string()),
        value: Some("<div>Hello World</div>".to_string()),
        attachment: None,
        content_type: Some("text/x-liquid".to_string()),
        size: Some(1234),
        checksum: Some("abc123".to_string()),
        theme_id: Some(67890),
        created_at: Some("2024-01-15T10:30:00Z".to_string()),
        updated_at: Some("2024-06-20T15:45:00Z".to_string()),
    };

    let parsed = asset.to_json();

    // Writable fields should be present
    assert_eq!(parsed.get("key").and_then(|v| v.as_str()), Some("templates/index.liquid"));
    assert_eq!(parsed.get("value").and_then(|v| v.as_str()), Some("<div>Hello World</div>"));

    // Read-only fields should be omitted
    assert!(parsed.get("public_url").is_none());
    assert!(parsed.get("content_type").is_none());
    assert!(parsed.get("size").is_none());
    assert!(parsed.get("checksum").is_none());
    assert!(parsed.get("theme_id").is_none());
    assert!(parsed.get("created_at").is_none());
    assert!(parsed.get("updated_at").is_none());
}

#[test]
fn test_asset_key_based_identification() {
    // Assets use string keys, not numeric IDs
    let asset = Asset {
        key: "templates/product.liquid".to_string(),
        value: Some("{{ product.title }}".to_string()),
        ..Default::default()
    };

    // Key should be serialized
    let json = asset.to_json();
    assert_eq!(json.get("key").and_then(|v| v.as_str()), Some("templates/product.liquid"));
}

#[test]
fn asset_json_text_orders_members() {
    let asset = Asset {
        key: "assets/logo.png".to_string(),
        attachment: Some("SGVsbG8=".to_string()),
        ..Default::default()
    };
    assert_eq!(asset.to_json().to_json_string(), r#"{"attachment":"SGVsbG8=","key":"assets/logo.png"}"#);
}
