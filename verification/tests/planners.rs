use shopify_sdk::clients::{HttpError, HttpResponse};
use shopify_sdk::encoding::Base64Error;
use shopify_sdk::json::{JsonMember, JsonNumber, JsonValue};
use shopify_sdk::rest::resources::v2025_10::collection_trait::product_count_from_response;
use shopify_sdk::rest::params::StringMap;
use shopify_sdk::rest::path::build_path;
use shopify_sdk::rest::resource::save_request;
use shopify_sdk::rest::resources::v2025_10::{FulfillmentOrder, FulfillmentRequest,
    AccessScope, ApplicationCharge, Article, Asset, AssetListParams, ChargeStatus, Comment, DiscountCode, Event,
    GiftCard, HoldReason, InventoryLevel, MetafieldOwner,
};
use shopify_sdk::rest::ResourceError;
use shopify_sdk::HttpMethod;

fn member(key: &str, value: JsonValue) -> JsonMember {
    JsonMember { key: key.to_string(), value }
}

fn text(s: &str) -> JsonValue {
    JsonValue::String(s.to_string())
}

#[test]
fn json_text_of_nested_values() {
    let v = JsonValue::Object(vec![
        member("a", JsonValue::Array(vec![JsonValue::Null, JsonValue::Bool(false)])),
        member("b", JsonValue::Number(JsonNumber::NegInt(-12))),
        member("c", JsonValue::Number(JsonNumber::Float("1.5".to_string()))),
        member("d", text("x\"y\\z\n\u{1}")),
    ]);
    assert_eq!(v.to_json_string(), r#"{"a":[null,false],"b":-12,"c":1.5,"d":"x\"y\\z\n\u0001"}"#);
    assert_eq!(JsonValue::Array(vec![]).to_json_string(), "[]");
    assert_eq!(JsonValue::Object(vec![]).to_json_string(), "{}");
}

#[test]
fn json_get_takes_first_member_with_key() {
    let v = JsonValue::Object(vec![member("k", text("one")), member("k", text("two"))]);
    assert_eq!(v.get("k").and_then(|x| x.as_str()), Some("one"));
    assert_eq!(v.get("missing"), None);
    assert_eq!(JsonValue::Null.get("k"), None);
}

#[test]
fn json_as_u64() {
    assert_eq!(JsonValue::Number(JsonNumber::PosInt(5)).as_u64(), Some(5));
    assert_eq!(JsonValue::Number(JsonNumber::NegInt(-5)).as_u64(), None);
    assert_eq!(text("5").as_u64(), None);
}

fn attachment(text: &str) -> Asset {
    Asset { key: "assets/x.bin".to_string(), attachment: Some(text.to_string()), ..Default::default() }
}

fn decode_message(text: &str) -> String {
    match attachment(text).download_content() {
        Err(ResourceError::Http(HttpError::Response(e))) => e.message,
        other => panic!("unexpected {other:?}"),
    }
}

#[test]
fn base64_upload_encodes_and_download_decodes() {
    let asset = Asset::upload_from_bytes("assets/h.txt", b"Hello");
    assert_eq!(asset.attachment, Some("SGVsbG8=".to_string()));
    assert_eq!(attachment("SGVsbG8=").download_content().unwrap(), b"Hello".to_vec());
    let empty = Asset::upload_from_bytes("assets/e.txt", b"");
    assert_eq!(empty.attachment, Some(String::new()));
    assert_eq!(empty.download_content().unwrap(), Vec::<u8>::new());
}

#[test]
fn base64_decode_errors_and_messages() {
    assert_eq!(decode_message("SGV$bG8="), "Failed to decode base64 attachment: Invalid symbol 36, offset 3.");
    assert_eq!(decode_message("SGVsbG8"), "Failed to decode base64 attachment: Invalid padding");
    assert_eq!(Base64Error::InvalidPadding.message(), "Invalid padding");
    assert_eq!(Base64Error::InvalidByte { offset: 3, byte: b'$' }.message(), "Invalid symbol 36, offset 3.");
    assert_eq!(Base64Error::InvalidLength { length: 5 }.message(), "Invalid input length: 5");
    assert_eq!(
        Base64Error::InvalidLastSymbol { offset: 2, byte: 66 }.message(),
        "Invalid last symbol 66, offset 2."
    );
}

#[test]
fn asset_download_of_bad_attachment_is_http_400() {
    let asset = Asset { key: "a".to_string(), attachment: Some("SGV$bG8=".to_string()), ..Default::default() };
    match asset.download_content() {
        Err(ResourceError::Http(HttpError::Response(e))) => {
            assert_eq!(e.code, 400);
            assert_eq!(e.message, "Failed to decode base64 attachment: Invalid symbol 36, offset 3.");
            assert_eq!(e.error_reference, None);
        }
        other => panic!("unexpected {other:?}"),
    }
}

#[test]
fn asset_download_prefers_text_value() {
    let asset = Asset {
        key: "a".to_string(),
        value: Some("héllo".to_string()),
        attachment: Some("SGVsbG8=".to_string()),
        ..Default::default()
    };
    assert_eq!(asset.download_content().unwrap(), "héllo".as_bytes().to_vec());
}

#[test]
fn asset_download_without_content_names_the_operation() {
    let asset = Asset { key: "a".to_string(), ..Default::default() };
    assert_eq!(
        asset.download_content(),
        Err(ResourceError::PathResolutionFailed {
            resource: "Asset",
            operation: "download_content (no value or attachment)"
        })
    );
}

#[test]
fn asset_requests() {
    let r = Asset::all_for_theme_request(828155753, None).unwrap();
    assert_eq!(r.method, HttpMethod::Get);
    assert_eq!(r.path, "themes/828155753/assets");
    assert!(r.query.is_none());

    let params = AssetListParams { fields: Some("key".to_string()) };
    let r = Asset::all_for_theme_request(1, Some(&params)).unwrap();
    assert_eq!(r.query.unwrap().get("fields"), Some(&"key".to_string()));
    let empty = AssetListParams::default();
    assert!(Asset::all_for_theme_request(1, Some(&empty)).unwrap().query.is_none());

    let r = Asset::find_by_key_request(2, "templates/index.liquid").unwrap();
    assert_eq!(r.path, "themes/2/assets");
    assert_eq!(r.query.unwrap().get("asset[key]"), Some(&"templates/index.liquid".to_string()));

    let asset = Asset { key: "snippets/a.liquid".to_string(), value: Some("<b>".to_string()), ..Default::default() };
    let r = Asset::save_to_theme_request(3, &asset).unwrap();
    assert_eq!(r.method, HttpMethod::Put);
    assert_eq!(r.path, "themes/3/assets");
    assert_eq!(r.body.unwrap().to_json_string(), r#"{"asset":{"key":"snippets/a.liquid","value":"<b>"}}"#);

    let r = Asset::delete_from_theme_request(4, "assets/x.css").unwrap();
    assert_eq!(r.method, HttpMethod::Delete);
    assert_eq!(r.path, "themes/4/assets");
    assert_eq!(r.query.unwrap().get("asset[key]"), Some(&"assets/x.css".to_string()));
}

#[test]
fn access_scope_all_request() {
    let r = AccessScope::all_request();
    assert_eq!(r.method, HttpMethod::Get);
    assert_eq!(r.path, "oauth/access_scopes");
}

#[test]
fn article_count_with_parent() {
    let r = Article::count_with_parent_request("blog_id", "241253187", None).unwrap();
    assert_eq!(r.method, HttpMethod::Get);
    assert_eq!(r.path, "blogs/241253187/articles/count");
    let r = Article::count_with_parent_request("other_id", "1", None);
    assert_eq!(r, Err(ResourceError::PathResolutionFailed { resource: "Article", operation: "count" }));
}

#[test]
fn comment_count_for_article() {
    let params = JsonValue::Object(vec![member("status", text("published"))]);
    let r = Comment::count_for_article_request(134645308, Some(&params)).unwrap();
    assert_eq!(r.path, "articles/134645308/comments/count");
    assert_eq!(r.query.unwrap().get("status"), Some(&"published".to_string()));
    let unsaved = Comment::default();
    assert_eq!(
        unsaved.approve_request(),
        Err(ResourceError::PathResolutionFailed { resource: "Comment", operation: "approve" })
    );
}

#[test]
fn event_owner_requests() {
    let r = Event::all_for_owner_request("order_id", "450789469", None).unwrap();
    assert_eq!(r.path, "orders/450789469/events");
    let r = Event::count_for_owner_request("product_id", "632910392", None).unwrap();
    assert_eq!(r.path, "products/632910392/events/count");
}

#[test]
fn discount_code_requests() {
    let r = DiscountCode::count_with_parent_request(507328175, None).unwrap();
    assert_eq!(r.path, "price_rules/507328175/discount_codes/count");
    let r = DiscountCode::find_with_parent_request(507328175, 1054381139).unwrap();
    assert_eq!(r.path, "price_rules/507328175/discount_codes/1054381139");
    let r = DiscountCode::batch_request(507328175, vec!["SUMMER".to_string(), "FALL".to_string()]);
    assert_eq!(r.method, HttpMethod::Post);
    assert_eq!(r.path, "price_rules/507328175/batch");
    assert_eq!(r.body.unwrap().to_json_string(), r#"{"discount_codes":[{"code":"SUMMER"},{"code":"FALL"}]}"#);
    assert_eq!(DiscountCode::batch_status_request(1, 2).path, "price_rules/1/batch/2");
    assert_eq!(DiscountCode::batch_codes_request(1, 2).path, "price_rules/1/batch/2/discount_codes");
}

#[test]
fn inventory_level_bodies() {
    let r = InventoryLevel::adjust_request(808950810, 655441491, -5);
    assert_eq!(
        r.body.unwrap().to_json_string(),
        r#"{"available_adjustment":-5,"inventory_item_id":808950810,"location_id":655441491}"#
    );
    let r = InventoryLevel::connect_request(1, 2, Some(true));
    assert_eq!(r.body.unwrap().to_json_string(), r#"{"inventory_item_id":1,"location_id":2,"relocate_if_necessary":true}"#);
    let r = InventoryLevel::set_request(1, 2, 42, Some(false));
    assert_eq!(
        r.body.unwrap().to_json_string(),
        r#"{"available":42,"disconnect_if_necessary":false,"inventory_item_id":1,"location_id":2}"#
    );
    let r = InventoryLevel::delete_at_location_request(1, 2);
    assert_eq!(r.method, HttpMethod::Delete);
    let q = r.query.unwrap();
    assert_eq!(q.get("inventory_item_id"), Some(&"1".to_string()));
    assert_eq!(q.get("location_id"), Some(&"2".to_string()));
}

#[test]
fn product_count_from_responses() {
    let ok = HttpResponse {
        code: 200,
        body: JsonValue::Object(vec![member("count", JsonValue::Number(JsonNumber::PosInt(4)))]),
        request_id: None,
    };
    assert_eq!(product_count_from_response(9, &ok), Ok(4));
    let missing = HttpResponse { code: 404, body: JsonValue::Null, request_id: None };
    assert_eq!(
        product_count_from_response(9, &missing),
        Err(ResourceError::NotFound { resource: "Collection", id: "9".to_string() })
    );
}

#[test]
fn hold_reason_default_and_names() {
    assert_eq!(HoldReason::default(), HoldReason::Other);
    assert_eq!(HoldReason::HighRiskOfFraud.as_str(), "high_risk_of_fraud");
    assert_eq!(HoldReason::InventoryOutOfStock.as_str(), "inventory_out_of_stock");
}

#[test]
fn charge_status_of_application_charge() {
    let charge = ApplicationCharge { status: Some(ChargeStatus::Declined), ..Default::default() };
    assert!(!charge.is_active());
    assert!(!charge.is_pending());
    assert!(ChargeStatus::Declined.is_declined());
}

#[test]
fn gift_card_enabled_by_default() {
    let card = GiftCard::default();
    assert!(card.is_enabled());
    assert!(!card.is_disabled());
}

#[test]
fn metafield_owner_names_and_segments() {
    assert_eq!(MetafieldOwner::Variant.name(), "variant");
    assert_eq!(MetafieldOwner::Article.to_path_segment(), "articles");
}

#[test]
fn article_saved_under_its_blog() {
    let article = Article {
        blog_id: Some(123),
        title: Some("New Post".to_string()),
        ..Default::default()
    };
    let body = JsonValue::Object(vec![member("blog_id", JsonValue::Number(JsonNumber::PosInt(123))), member("title", text("New Post"))]);
    let r = save_request(&Article::paths(), None, Article::NAME, None, &article.parent_ids(), body).unwrap();
    assert_eq!(r.method, HttpMethod::Post);
    assert_eq!(r.path, "blogs/123/articles");
    assert_eq!(r.body.unwrap().to_json_string(), r#"{"article":{"blog_id":123,"title":"New Post"}}"#);
    let r = save_request(&Article::paths(), None, Article::NAME, Some("9"), &article.parent_ids(), JsonValue::Object(vec![]))
        .unwrap();
    assert_eq!(r.method, HttpMethod::Put);
    assert_eq!(r.path, "blogs/123/articles/9");
    assert!(Article::default().parent_ids().is_empty());
}

fn order(id: u64) -> JsonValue {
    JsonValue::Object(vec![member("id", JsonValue::Number(JsonNumber::PosInt(id)))])
}

fn reply(members: Vec<JsonMember>) -> HttpResponse {
    HttpResponse { code: 200, body: JsonValue::Object(members), request_id: Some("rid".to_string()) }
}

#[test]
fn moved_order_prefers_moved_then_original_then_plain() {
    let r = reply(vec![
        member("original_fulfillment_order", order(1046000778)),
        member("moved_fulfillment_order", order(1046000779)),
        member("fulfillment_order", order(1)),
    ]);
    assert_eq!(FulfillmentOrder::moved_order(&r), Ok(&order(1046000779)));
    let r = reply(vec![member("fulfillment_order", order(1)), member("original_fulfillment_order", order(2))]);
    assert_eq!(FulfillmentOrder::moved_order(&r), Ok(&order(2)));
    let r = reply(vec![member("fulfillment_order", order(1))]);
    assert_eq!(FulfillmentOrder::moved_order(&r), Ok(&order(1)));
    assert_eq!(FulfillmentOrder::reply_order(&r), Ok(&order(1)));
    match FulfillmentOrder::moved_order(&reply(vec![])) {
        Err(ResourceError::Http(HttpError::Response(e))) => {
            assert_eq!(e.message, "Missing 'fulfillment_order' in response");
            assert_eq!(e.error_reference, Some("rid".to_string()));
        }
        other => panic!("unexpected {other:?}"),
    }
}

#[test]
fn created_order_prefers_original_then_plain() {
    let r = reply(vec![member("original_fulfillment_order", order(1046000778)), member("fulfillment_order", order(9))]);
    assert_eq!(FulfillmentRequest::created_order(&r), Ok(&order(1046000778)));
    let r = reply(vec![member("fulfillment_order", order(9))]);
    assert_eq!(FulfillmentRequest::created_order(&r), Ok(&order(9)));
    match FulfillmentRequest::created_order(&reply(vec![])) {
        Err(ResourceError::Http(HttpError::Response(e))) => {
            assert_eq!(e.code, 200);
            assert_eq!(e.message, "Missing fulfillment_order in response");
            assert_eq!(e.error_reference, Some("rid".to_string()));
        }
        other => panic!("unexpected {other:?}"),
    }
}

#[test]
fn build_path_fills_named_placeholders_only() {
    let mut ids = StringMap::new();
    ids.insert_u64("id", 123);
    ids.insert("unused", "x");
    assert_eq!(build_path("products/{id}", &ids), "products/123");
    assert_eq!(build_path("a/{other}/{id}", &ids), "a/{other}/123");
}

#[test]
fn upload_text_is_standard_base64() {
    let asset = Asset::upload_from_bytes("a", b"\xFF\xEC\x20\x55\0");
    assert_eq!(asset.attachment, Some("/+wgVQA=".to_string()));
}
