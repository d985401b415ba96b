use shopify_sdk::rest::params::StringMap;
use shopify_sdk::rest::path::{build_path, build_path_from_resource_path, get_path, ResourceOperation, ResourcePath};
use shopify_sdk::HttpMethod;

#[test]
fn test_resource_path_stores_fields_correctly() {
    let path = ResourcePath::new(
        HttpMethod::Get,
        ResourceOperation::Find,
        &["product_id", "id"],
        "products/{product_id}/variants/{id}",
    );

    assert_eq!(path.http_method, HttpMethod::Get);
    assert_eq!(path.operation, ResourceOperation::Find);
    assert_eq!(path.ids, &["product_id", "id"]);
    assert_eq!(path.template, "products/{product_id}/variants/{id}");
}

#[test]
fn test_path_template_interpolation_single_id() {
    let mut ids = StringMap::new();
    ids.insert("id", "123");

    let result = build_path("products/{id}", &ids);
    assert_eq!(result, "products/123");
}

#[test]
fn test_path_template_interpolation_multiple_ids() {
    let mut ids = StringMap::new();
    ids.insert("product_id", "123");
    ids.insert("id", "456");

    let result = build_path("products/{product_id}/variants/{id}", &ids);
    assert_eq!(result, "products/123/variants/456");
}

fn variant_paths() -> [ResourcePath; 2] {
    [
        ResourcePath::new(
            HttpMethod::Get,
            ResourceOperation::Find,
            &["product_id", "id"],
            "products/{product_id}/variants/{id}",
        ),
        ResourcePath::new(HttpMethod::Get, ResourceOperation::Find, &["id"], "variants/{id}"),
    ]
}

#[test]
fn test_get_path_selects_most_specific_path() {
    let paths = variant_paths();

    // With both IDs available, should select the nested path
    let path = get_path(&paths, ResourceOperation::Find, &["product_id", "id"]);
    assert!(path.is_some());
    assert_eq!(path.unwrap().template, "products/{product_id}/variants/{id}");
}

#[test]
fn test_get_path_falls_back_to_less_specific() {
    let paths = variant_paths();

    // With only id available, should select standalone path
    let path = get_path(&paths, ResourceOperation::Find, &["id"]);
    assert!(path.is_some());
    assert_eq!(path.unwrap().template, "variants/{id}");
}

#[test]
fn test_get_path_returns_none_when_no_match() {
    let paths = [ResourcePath::new(HttpMethod::Get, ResourceOperation::Find, &["id"], "products/{id}")];

    // Wrong operation
    let path = get_path(&paths, ResourceOperation::Delete, &["id"]);
    assert!(path.is_none());

    // Missing required ID
    let path = get_path(&paths, ResourceOperation::Find, &[]);
    assert!(path.is_none());
}

#[test]
fn test_get_path_filters_by_operation() {
    let paths = [
        ResourcePath::new(HttpMethod::Get, ResourceOperation::Find, &["id"], "products/{id}"),
        ResourcePath::new(HttpMethod::Delete, ResourceOperation::Delete, &["id"], "products/{id}"),
        ResourcePath::new(HttpMethod::Get, ResourceOperation::All, &[], "products"),
    ];

    let find_path = get_path(&paths, ResourceOperation::Find, &["id"]);
    assert_eq!(find_path.unwrap().http_method, HttpMethod::Get);
    assert_eq!(find_path.unwrap().operation, ResourceOperation::Find);

    let delete_path = get_path(&paths, ResourceOperation::Delete, &["id"]);
    assert_eq!(delete_path.unwrap().http_method, HttpMethod::Delete);
    assert_eq!(delete_path.unwrap().operation, ResourceOperation::Delete);

    let all_path = get_path(&paths, ResourceOperation::All, &[]);
    assert_eq!(all_path.unwrap().template, "products");
}

#[test]
fn test_path_building_with_optional_prefix() {
    // Simulate a resource with a prefix
    let prefix = "admin/api/2024-10";
    let template = "products/{id}";

    let mut ids = StringMap::new();
    ids.insert("id", "123");

    let path = build_path(template, &ids);
    let full_path = format!("{prefix}/{path}");

    assert_eq!(full_path, "admin/api/2024-10/products/123");
}

#[test]
fn test_resource_operation_default_http_method() {
    assert_eq!(ResourceOperation::Find.default_http_method(), HttpMethod::Get);
    assert_eq!(ResourceOperation::All.default_http_method(), HttpMethod::Get);
    assert_eq!(ResourceOperation::Create.default_http_method(), HttpMethod::Post);
    assert_eq!(ResourceOperation::Update.default_http_method(), HttpMethod::Put);
    assert_eq!(ResourceOperation::Delete.default_http_method(), HttpMethod::Delete);
    assert_eq!(ResourceOperation::Count.default_http_method(), HttpMethod::Get);
}

#[test]
fn test_resource_path_matches_ids() {
    let path = ResourcePath::new(
        HttpMethod::Get,
        ResourceOperation::Find,
        &["product_id", "id"],
        "products/{product_id}/variants/{id}",
    );

    assert!(path.matches_ids(&["product_id", "id"]));
    assert!(path.matches_ids(&["product_id", "id", "extra"]));
    assert!(!path.matches_ids(&["id"]));
    assert!(!path.matches_ids(&["product_id"]));
    assert!(!path.matches_ids(&[]));
}

#[test]
fn test_resource_path_id_count() {
    let path_two = ResourcePath::new(
        HttpMethod::Get,
        ResourceOperation::Find,
        &["product_id", "id"],
        "products/{product_id}/variants/{id}",
    );
    assert_eq!(path_two.id_count(), 2);

    let path_one = ResourcePath::new(HttpMethod::Get, ResourceOperation::Find, &["id"], "variants/{id}");
    assert_eq!(path_one.id_count(), 1);

    let path_zero = ResourcePath::new(HttpMethod::Get, ResourceOperation::All, &[], "products");
    assert_eq!(path_zero.id_count(), 0);
}

#[test]
fn test_build_path_handles_numeric_ids() {
    let mut ids = StringMap::new();
    ids.insert_u64("id", 123u64);

    let result = build_path("products/{id}", &ids);
    assert_eq!(result, "products/123");
}

#[test]
fn test_build_path_handles_missing_ids() {
    let ids = StringMap::new();

    // Placeholders that aren't in the map remain unchanged
    let result = build_path("products/{id}", &ids);
    assert_eq!(result, "products/{id}");
}

// --- further cases ---

#[test]
fn operation_names() {
    assert_eq!(ResourceOperation::Find.as_str(), "find");
    assert_eq!(ResourceOperation::All.as_str(), "all");
    assert_eq!(ResourceOperation::Create.as_str(), "create");
    assert_eq!(ResourceOperation::Update.as_str(), "update");
    assert_eq!(ResourceOperation::Delete.as_str(), "delete");
    assert_eq!(ResourceOperation::Count.as_str(), "count");
}

#[test]
fn get_path_prefers_later_path_on_equal_specificity() {
    let paths = [
        ResourcePath::new(HttpMethod::Get, ResourceOperation::Find, &["id"], "first/{id}"),
        ResourcePath::new(HttpMethod::Get, ResourceOperation::Find, &["id"], "second/{id}"),
    ];
    let path = get_path(&paths, ResourceOperation::Find, &["id"]).unwrap();
    assert_eq!(path.template, "second/{id}");
}

#[test]
fn build_path_replaces_every_occurrence() {
    let mut ids = StringMap::new();
    ids.insert("id", "7");
    assert_eq!(build_path("a/{id}/b/{id}", &ids), "a/7/b/7");
}

#[test]
fn build_path_without_placeholders_is_identity() {
    let mut ids = StringMap::new();
    ids.insert("id", "7");
    assert_eq!(build_path("products/count", &ids), "products/count");
}

#[test]
fn build_path_from_resource_path_uses_template() {
    let path = ResourcePath::new(HttpMethod::Get, ResourceOperation::Find, &["blog_id", "id"], "blogs/{blog_id}/articles/{id}");
    let mut ids = StringMap::new();
    ids.insert_u64("blog_id", 5);
    ids.insert_u64("id", 9);
    assert_eq!(build_path_from_resource_path(&path, &ids), "blogs/5/articles/9");
}

#[test]
fn string_map_insert_then_get() {
    let mut m = StringMap::new();
    m.insert("a", "1");
    m.insert("b", "2");
    m.insert("a", "3");
    assert_eq!(m.get("a").map(|s| s.as_str()), Some("3"));
    assert_eq!(m.get("b").map(|s| s.as_str()), Some("2"));
    assert_eq!(m.get("c"), None);
    assert_eq!(m.len(), 2);
    assert!(m.contains_key("b"));
    assert!(!m.is_empty());
}
