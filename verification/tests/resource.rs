use shopify_sdk::clients::{HttpError, HttpResponse};
use shopify_sdk::json::{JsonMember, JsonNumber, JsonValue};
use shopify_sdk::rest::path::{get_path, ResourceOperation, ResourcePath};
use shopify_sdk::rest::resource::{
    all_request, all_with_parent_request, build_full_path, check_response, count_from_response, count_request,
    delete_request, find_request, resource_key, response_member, save_partial_request, save_request,
    serialize_to_query, RestRequest,
};
use shopify_sdk::rest::params::StringMap;
use shopify_sdk::rest::ResourceError;
use shopify_sdk::HttpMethod;

// A resource as a library user would declare one.
#[derive(Debug, Clone, PartialEq)]
struct MockProduct {
    id: Option<u64>,
    title: String,
    vendor: Option<String>,
}

impl MockProduct {
    const NAME: &'static str = "Product";
    const PLURAL: &'static str = "products";

    fn paths() -> Vec<ResourcePath> {
        vec![
            ResourcePath::new(HttpMethod::Get, ResourceOperation::Find, &["id"], "products/{id}"),
            ResourcePath::new(HttpMethod::Get, ResourceOperation::All, &[], "products"),
            ResourcePath::new(HttpMethod::Get, ResourceOperation::Count, &[], "products/count"),
            ResourcePath::new(HttpMethod::Post, ResourceOperation::Create, &[], "products"),
            ResourcePath::new(HttpMethod::Put, ResourceOperation::Update, &["id"], "products/{id}"),
            ResourcePath::new(HttpMethod::Delete, ResourceOperation::Delete, &["id"], "products/{id}"),
        ]
    }

    fn get_id(&self) -> Option<u64> {
        self.id
    }
}

// A nested resource.
#[derive(Debug, Clone, PartialEq)]
struct MockVariant {
    id: Option<u64>,
    product_id: Option<u64>,
    title: String,
}

impl MockVariant {
    const NAME: &'static str = "Variant";

    fn paths() -> Vec<ResourcePath> {
        vec![
            ResourcePath::new(
                HttpMethod::Get,
                ResourceOperation::Find,
                &["product_id", "id"],
                "products/{product_id}/variants/{id}",
            ),
            ResourcePath::new(HttpMethod::Get, ResourceOperation::All, &["product_id"], "products/{product_id}/variants"),
            ResourcePath::new(HttpMethod::Get, ResourceOperation::Find, &["id"], "variants/{id}"),
        ]
    }
}

fn member(key: &str, value: JsonValue) -> JsonMember {
    JsonMember { key: key.to_string(), value }
}

fn text(s: &str) -> JsonValue {
    JsonValue::String(s.to_string())
}

fn num(n: u64) -> JsonValue {
    JsonValue::Number(JsonNumber::PosInt(n))
}

fn query_of(r: &RestRequest, key: &str) -> Option<String> {
    r.query.as_ref().and_then(|q| q.get(key).cloned())
}

#[test]
fn test_resource_defines_name_and_paths() {
    assert_eq!(MockProduct::NAME, "Product");
    assert_eq!(MockProduct::PLURAL, "products");
    assert!(!MockProduct::paths().is_empty());
}

#[test]
fn test_get_id_returns_none_for_new_resource() {
    let product = MockProduct { id: None, title: "New".to_string(), vendor: None };
    assert!(product.get_id().is_none());
}

#[test]
fn test_get_id_returns_some_for_existing_resource() {
    let product = MockProduct { id: Some(123), title: "Existing".to_string(), vendor: None };
    assert_eq!(product.get_id(), Some(123));
}

#[test]
fn test_build_full_path_without_prefix() {
    let path = build_full_path(None, "products/123");
    assert_eq!(path, "products/123");
}

#[test]
fn test_serialize_to_query_handles_basic_types() {
    let params = JsonValue::Object(vec![
        member("limit", num(50)),
        member("title", text("Test")),
        member("active", JsonValue::Bool(true)),
    ]);

    let query = serialize_to_query(&params);
    assert_eq!(query.get("limit"), Some(&"50".to_string()));
    assert_eq!(query.get("title"), Some(&"Test".to_string()));
    assert_eq!(query.get("active"), Some(&"true".to_string()));
}

#[test]
fn test_serialize_to_query_skips_none() {
    // An absent optional field is either left out or null.
    let params = JsonValue::Object(vec![member("limit", num(50)), member("page_info", JsonValue::Null)]);

    let query = serialize_to_query(&params);
    assert_eq!(query.get("limit"), Some(&"50".to_string()));
    assert!(!query.contains_key("page_info"));
}

#[test]
fn test_serialize_to_query_handles_arrays() {
    let params = JsonValue::Object(vec![member("ids", JsonValue::Array(vec![num(1), num(2), num(3)]))]);

    let query = serialize_to_query(&params);
    assert_eq!(query.get("ids"), Some(&"1,2,3".to_string()));
}

#[test]
fn test_nested_resource_path_selection() {
    let paths = MockVariant::paths();
    // With product_id available, should select nested path for All
    let path = get_path(&paths, ResourceOperation::All, &["product_id"]);
    assert!(path.is_some());
    assert_eq!(path.unwrap().template, "products/{product_id}/variants");

    // With both product_id and id, should select nested Find path
    let path = get_path(&paths, ResourceOperation::Find, &["product_id", "id"]);
    assert!(path.is_some());
    assert_eq!(path.unwrap().template, "products/{product_id}/variants/{id}");

    // With only id, should select standalone Find path
    let path = get_path(&paths, ResourceOperation::Find, &["id"]);
    assert!(path.is_some());
    assert_eq!(path.unwrap().template, "variants/{id}");
}

#[test]
fn test_resource_key_lowercase() {
    assert_eq!(resource_key(MockProduct::NAME), "product");
    assert_eq!(resource_key(MockVariant::NAME), "variant");
}

// --- further cases ---

#[test]
fn build_full_path_with_prefix() {
    assert_eq!(build_full_path(Some("admin/api/2025-10"), "products/1"), "admin/api/2025-10/products/1");
}

#[test]
fn resource_key_of_camel_case_name() {
    assert_eq!(resource_key("CustomCollection"), "customcollection");
}

#[test]
fn serialize_to_query_mixed_values() {
    let params = JsonValue::Object(vec![
        member("tags", JsonValue::Array(vec![text("a"), JsonValue::Bool(true), text("b")])),
        member("empty", JsonValue::Array(vec![JsonValue::Null])),
        member("nested", JsonValue::Object(vec![member("x", num(1))])),
        member("neg", JsonValue::Number(JsonNumber::NegInt(-4))),
    ]);
    let query = serialize_to_query(&params);
    assert_eq!(query.get("tags"), Some(&"a,b".to_string()));
    assert!(!query.contains_key("empty"));
    assert_eq!(query.get("nested"), Some(&r#"{"x":1}"#.to_string()));
    assert_eq!(query.get("neg"), Some(&"-4".to_string()));
    assert_eq!(query.len(), 3);
}

#[test]
fn find_request_fills_the_find_path() {
    let paths = MockProduct::paths();
    let r = find_request(&paths, None, MockProduct::NAME, "42", None).unwrap();
    assert_eq!(r.method, HttpMethod::Get);
    assert_eq!(r.path, "products/42");
    assert!(r.query.is_none());
    assert!(r.body.is_none());
}

#[test]
fn find_request_with_prefix_and_params() {
    let paths = MockProduct::paths();
    let params = JsonValue::Object(vec![member("fields", text("id,title"))]);
    let r = find_request(&paths, Some("admin"), MockProduct::NAME, "42", Some(&params)).unwrap();
    assert_eq!(r.path, "admin/products/42");
    assert_eq!(query_of(&r, "fields"), Some("id,title".to_string()));
}

#[test]
fn find_request_without_find_path_fails() {
    let paths = vec![ResourcePath::new(HttpMethod::Get, ResourceOperation::All, &[], "things")];
    let r = find_request(&paths, None, "Thing", "1", None);
    assert_eq!(r, Err(ResourceError::PathResolutionFailed { resource: "Thing", operation: "find" }));
}

#[test]
fn all_request_with_empty_params_has_no_query() {
    let paths = MockProduct::paths();
    let params = JsonValue::Object(vec![]);
    let r = all_request(&paths, None, MockProduct::NAME, Some(&params)).unwrap();
    assert_eq!(r.path, "products");
    assert!(r.query.is_none());
}

#[test]
fn all_with_parent_request_uses_nested_path() {
    let paths = MockVariant::paths();
    let r = all_with_parent_request(&paths, None, MockVariant::NAME, "product_id", "7", None).unwrap();
    assert_eq!(r.path, "products/7/variants");
    assert_eq!(r.method, HttpMethod::Get);
}

#[test]
fn save_request_creates_without_id_and_updates_with_id() {
    let paths = MockProduct::paths();
    let json = JsonValue::Object(vec![member("title", text("Hat"))]);
    let r = save_request(&paths, None, MockProduct::NAME, None, &StringMap::new(), json).unwrap();
    assert_eq!(r.method, HttpMethod::Post);
    assert_eq!(r.path, "products");
    assert_eq!(r.body.unwrap().to_json_string(), r#"{"product":{"title":"Hat"}}"#);

    let json = JsonValue::Object(vec![member("title", text("Hat"))]);
    let r = save_request(&paths, None, MockProduct::NAME, Some("9"), &StringMap::new(), json).unwrap();
    assert_eq!(r.method, HttpMethod::Put);
    assert_eq!(r.path, "products/9");
}

#[test]
fn save_partial_request_needs_an_id() {
    let paths = MockProduct::paths();
    let r = save_partial_request(&paths, None, MockProduct::NAME, None, &StringMap::new(), JsonValue::Object(vec![]));
    assert_eq!(r, Err(ResourceError::PathResolutionFailed { resource: "Product", operation: "update" }));
    let changed = JsonValue::Object(vec![member("vendor", text("Acme"))]);
    let r = save_partial_request(&paths, None, MockProduct::NAME, Some("3"), &StringMap::new(), changed).unwrap();
    assert_eq!(r.method, HttpMethod::Put);
    assert_eq!(r.path, "products/3");
    assert_eq!(r.body.unwrap().to_json_string(), r#"{"product":{"vendor":"Acme"}}"#);
}

#[test]
fn delete_request_needs_an_id() {
    let paths = MockProduct::paths();
    let r = delete_request(&paths, None, MockProduct::NAME, None, &StringMap::new());
    assert_eq!(r, Err(ResourceError::PathResolutionFailed { resource: "Product", operation: "delete" }));
    let r = delete_request(&paths, None, MockProduct::NAME, Some("5"), &StringMap::new()).unwrap();
    assert_eq!(r.method, HttpMethod::Delete);
    assert_eq!(r.path, "products/5");
}

#[test]
fn count_request_uses_count_path() {
    let paths = MockProduct::paths();
    let params = JsonValue::Object(vec![member("vendor", text("Acme"))]);
    let r = count_request(&paths, None, MockProduct::NAME, Some(&params)).unwrap();
    assert_eq!(r.path, "products/count");
    assert_eq!(query_of(&r, "vendor"), Some("Acme".to_string()));
}

fn response(code: u16, body: JsonValue, request_id: Option<&str>) -> HttpResponse {
    HttpResponse { code, body, request_id: request_id.map(|s| s.to_string()) }
}

#[test]
fn count_from_response_reads_count() {
    let r = response(200, JsonValue::Object(vec![member("count", num(17))]), None);
    assert_eq!(count_from_response(&r), Ok(17));
}

#[test]
fn count_from_response_without_count_is_http_error() {
    let r = response(200, JsonValue::Object(vec![member("total", num(17))]), Some("rid"));
    match count_from_response(&r) {
        Err(ResourceError::Http(HttpError::Response(e))) => {
            assert_eq!(e.code, 200);
            assert_eq!(e.message, "Missing 'count' in response");
            assert_eq!(e.error_reference, Some("rid".to_string()));
        }
        other => panic!("unexpected {other:?}"),
    }
}

#[test]
fn check_response_maps_status() {
    let ok = response(201, JsonValue::Null, None);
    assert_eq!(check_response(&ok, "Product", Some("1")), Ok(()));
    let missing = response(404, JsonValue::Null, None);
    assert_eq!(
        check_response(&missing, "Product", Some("1")),
        Err(ResourceError::NotFound { resource: "Product", id: "1".to_string() })
    );
}

#[test]
fn response_member_finds_or_reports() {
    let r = response(200, JsonValue::Object(vec![member("product", num(1))]), None);
    assert_eq!(response_member(&r, "product"), Ok(&num(1)));
    match response_member(&r, "order") {
        Err(ResourceError::Http(HttpError::Response(e))) => {
            assert_eq!(e.message, "Missing 'order' in response");
        }
        other => panic!("unexpected {other:?}"),
    }
}

#[test]
fn save_nested_variant_uses_parent_ids() {
    let paths = vec![
        ResourcePath::new(HttpMethod::Post, ResourceOperation::Create, &["product_id"], "products/{product_id}/variants"),
        ResourcePath::new(HttpMethod::Put, ResourceOperation::Update, &["product_id", "id"], "products/{product_id}/variants/{id}"),
        ResourcePath::new(HttpMethod::Put, ResourceOperation::Update, &["id"], "variants/{id}"),
    ];
    let mut parents = StringMap::new();
    parents.insert_u64("product_id", 7);
    let r = save_request(&paths, None, MockVariant::NAME, None, &parents, JsonValue::Object(vec![])).unwrap();
    assert_eq!(r.method, HttpMethod::Post);
    assert_eq!(r.path, "products/7/variants");
    let r = save_request(&paths, None, MockVariant::NAME, Some("3"), &parents, JsonValue::Object(vec![])).unwrap();
    assert_eq!(r.path, "products/7/variants/3");
    let r = save_request(&paths, None, MockVariant::NAME, Some("3"), &StringMap::new(), JsonValue::Object(vec![])).unwrap();
    assert_eq!(r.path, "variants/3");
    assert_eq!(
        save_request(&paths, None, MockVariant::NAME, None, &StringMap::new(), JsonValue::Object(vec![])),
        Err(ResourceError::PathResolutionFailed { resource: "Variant", operation: "create" })
    );
}

#[test]
fn serialize_to_query_last_member_with_a_value_wins() {
    let params = JsonValue::Object(vec![
        member("a", text("first")),
        member("a", text("second")),
        member("a", JsonValue::Null),
        member("b", JsonValue::Null),
    ]);
    let query = serialize_to_query(&params);
    assert_eq!(query.get("a"), Some(&"second".to_string()));
    assert!(!query.contains_key("b"));
    assert!(serialize_to_query(&text("x")).is_empty());
}
