use base64::engine::general_purpose::STANDARD;
use base64::Engine;
use shopify_sdk::json::{JsonMember, JsonNumber, JsonValue};
use shopify_sdk::rest::path::{get_path, ResourceOperation};
use shopify_sdk::rest::resource::serialize_to_query;
use shopify_sdk::rest::resources::v2025_10::{
    AccessScope, ApplicationCharge, Article, Asset, Blog, BlogCommentable, CancellationRequest, ChargeCurrency,
    ChargeStatus, Collect, Collection, Comment, Country, Currency, CustomCollection, DiscountCode, DraftOrder,
    DraftOrderCompleteParams, DraftOrderInvoice, Event, Fulfillment, FulfillmentOrder, FulfillmentOrderHoldParams,
    FulfillmentOrderLineItemInput, FulfillmentOrderMoveParams, FulfillmentOrderRescheduleParams, FulfillmentRequest,
    FulfillmentService, GiftCard, HoldReason, InventoryItem, InventoryLevel, MetafieldOwner, SmartCollection,
    ThemeRole, TrackingInfo, WebhookFormat,
};
use shopify_sdk::rest::ResourceError;
use shopify_sdk::HttpMethod;

#[test]
fn test_access_scope_special_oauth_path() {
    let access_scope_paths = AccessScope::paths();
    // All path uses oauth prefix
    let all_path = get_path(&access_scope_paths, ResourceOperation::All, &[]);
    assert!(all_path.is_some());
    assert_eq!(all_path.unwrap().template, "oauth/access_scopes");
}

#[test]
fn test_access_scope_list_only_no_other_operations() {
    let access_scope_paths = AccessScope::paths();
    // No Find path
    let find_path = get_path(&access_scope_paths, ResourceOperation::Find, &["id"]);
    assert!(find_path.is_none());

    // No Count path
    let count_path = get_path(&access_scope_paths, ResourceOperation::Count, &[]);
    assert!(count_path.is_none());

    // No Create path
    let create_path = get_path(&access_scope_paths, ResourceOperation::Create, &[]);
    assert!(create_path.is_none());

    // No Update path
    let update_path = get_path(&access_scope_paths, ResourceOperation::Update, &["id"]);
    assert!(update_path.is_none());

    // No Delete path
    let delete_path = get_path(&access_scope_paths, ResourceOperation::Delete, &["id"]);
    assert!(delete_path.is_none());
}

#[test]
fn test_access_scope_constants() {
    assert_eq!(AccessScope::NAME, "AccessScope");
    assert_eq!(AccessScope::PLURAL, "access_scopes");
}

#[test]
fn test_access_scope_get_id_returns_handle() {
    let scope_with_handle = AccessScope {
        handle: Some("read_products".to_string()),
    };
    assert_eq!(scope_with_handle.get_id(), Some("read_products".to_string()));

    let scope_without_handle = AccessScope::default();
    assert_eq!(scope_without_handle.get_id(), None);
}
#[test]
fn test_application_charge_convenience_methods() {
    // Test is_active
    let active_charge = ApplicationCharge {
        status: Some(ChargeStatus::Active),
        ..Default::default()
    };
    assert!(active_charge.is_active());
    assert!(!active_charge.is_pending());

    // Test is_pending
    let pending_charge = ApplicationCharge {
        status: Some(ChargeStatus::Pending),
        ..Default::default()
    };
    assert!(pending_charge.is_pending());
    assert!(!pending_charge.is_active());

    // Test is_test
    let test_charge = ApplicationCharge {
        test: Some(true),
        ..Default::default()
    };
    assert!(test_charge.is_test());

    let non_test_charge = ApplicationCharge {
        test: Some(false),
        ..Default::default()
    };
    assert!(!non_test_charge.is_test());

    // Test default (no test field)
    let default_charge = ApplicationCharge::default();
    assert!(!default_charge.is_test());
    assert!(!default_charge.is_active());
    assert!(!default_charge.is_pending());
}

#[test]
fn test_application_charge_paths() {
    let application_charge_paths = ApplicationCharge::paths();
    // Find path
    let find_path = get_path(
        &application_charge_paths,
        ResourceOperation::Find,
        &["id"],
    );
    assert!(find_path.is_some());
    assert_eq!(find_path.unwrap().template, "application_charges/{id}");

    // All path
    let all_path = get_path(&application_charge_paths, ResourceOperation::All, &[]);
    assert!(all_path.is_some());
    assert_eq!(all_path.unwrap().template, "application_charges");

    // Create path
    let create_path = get_path(&application_charge_paths, ResourceOperation::Create, &[]);
    assert!(create_path.is_some());
    assert_eq!(create_path.unwrap().template, "application_charges");
    assert_eq!(create_path.unwrap().http_method, HttpMethod::Post);

    // No Update path
    let update_path = get_path(
        &application_charge_paths,
        ResourceOperation::Update,
        &["id"],
    );
    assert!(update_path.is_none());

    // No Delete path
    let delete_path = get_path(
        &application_charge_paths,
        ResourceOperation::Delete,
        &["id"],
    );
    assert!(delete_path.is_none());

    // No Count path
    let count_path = get_path(&application_charge_paths, ResourceOperation::Count, &[]);
    assert!(count_path.is_none());
}

#[test]
fn test_application_charge_constants() {
    assert_eq!(ApplicationCharge::NAME, "ApplicationCharge");
    assert_eq!(ApplicationCharge::PLURAL, "application_charges");
}

#[test]
fn test_application_charge_get_id() {
    let charge_with_id = ApplicationCharge {
        id: Some(12345),
        ..Default::default()
    };
    assert_eq!(charge_with_id.get_id(), Some(12345));

    let charge_without_id = ApplicationCharge::default();
    assert_eq!(charge_without_id.get_id(), None);
}
#[test]
fn test_article_nested_paths_require_blog_id() {
    let article_paths = Article::paths();
    // All paths should require blog_id (nested under blogs)

    // Find requires both blog_id and id
    let find_path = get_path(&article_paths, ResourceOperation::Find, &["blog_id", "id"]);
    assert!(find_path.is_some());
    assert_eq!(find_path.unwrap().template, "blogs/{blog_id}/articles/{id}");

    // Find with only id should fail (no standalone path)
    let find_without_blog = get_path(&article_paths, ResourceOperation::Find, &["id"]);
    assert!(find_without_blog.is_none());

    // All requires blog_id
    let all_path = get_path(&article_paths, ResourceOperation::All, &["blog_id"]);
    assert!(all_path.is_some());
    assert_eq!(all_path.unwrap().template, "blogs/{blog_id}/articles");

    // All without blog_id should fail
    let all_without_blog = get_path(&article_paths, ResourceOperation::All, &[]);
    assert!(all_without_blog.is_none());

    // Count requires blog_id
    let count_path = get_path(&article_paths, ResourceOperation::Count, &["blog_id"]);
    assert!(count_path.is_some());
    assert_eq!(
        count_path.unwrap().template,
        "blogs/{blog_id}/articles/count"
    );

    // Create requires blog_id
    let create_path = get_path(&article_paths, ResourceOperation::Create, &["blog_id"]);
    assert!(create_path.is_some());
    assert_eq!(create_path.unwrap().template, "blogs/{blog_id}/articles");

    // Update requires both blog_id and id
    let update_path = get_path(
        &article_paths,
        ResourceOperation::Update,
        &["blog_id", "id"],
    );
    assert!(update_path.is_some());
    assert_eq!(
        update_path.unwrap().template,
        "blogs/{blog_id}/articles/{id}"
    );

    // Delete requires both blog_id and id
    let delete_path = get_path(
        &article_paths,
        ResourceOperation::Delete,
        &["blog_id", "id"],
    );
    assert!(delete_path.is_some());
    assert_eq!(
        delete_path.unwrap().template,
        "blogs/{blog_id}/articles/{id}"
    );
}

#[test]
fn test_article_get_id_returns_correct_value() {
    // Article with ID
    let article_with_id = Article {
        id: Some(123456789),
        blog_id: Some(987654321),
        title: Some("Test Article".to_string()),
        ..Default::default()
    };
    assert_eq!(article_with_id.get_id(), Some(123456789));

    // Article without ID (new article)
    let article_without_id = Article {
        id: None,
        blog_id: Some(987654321),
        title: Some("New Article".to_string()),
        ..Default::default()
    };
    assert_eq!(article_without_id.get_id(), None);
}

#[test]
fn test_article_constants() {
    assert_eq!(Article::NAME, "Article");
    assert_eq!(Article::PLURAL, "articles");
}
#[test]
fn test_asset_upload_from_bytes() {
    let data = b"Hello, World!";
    let asset = Asset::upload_from_bytes("assets/test.txt", data);

    assert_eq!(asset.key, "assets/test.txt");
    assert!(asset.attachment.is_some());
    assert!(asset.value.is_none());
    assert!(asset.is_binary());

    // Verify the base64 encoding
    let expected_base64 = STANDARD.encode(data);
    assert_eq!(asset.attachment, Some(expected_base64));
}

#[test]
fn test_asset_download_content_text() {
    let asset = Asset {
        key: "templates/index.liquid".to_string(),
        value: Some("<div>Hello World</div>".to_string()),
        ..Default::default()
    };

    let content = asset.download_content().unwrap();
    assert_eq!(content, b"<div>Hello World</div>");
}

#[test]
fn test_asset_download_content_binary() {
    // "Hello" in base64
    let asset = Asset {
        key: "assets/test.bin".to_string(),
        attachment: Some("SGVsbG8=".to_string()),
        ..Default::default()
    };

    let content = asset.download_content().unwrap();
    assert_eq!(content, b"Hello");
}

#[test]
fn test_asset_download_content_no_content() {
    let asset = Asset {
        key: "assets/empty.txt".to_string(),
        value: None,
        attachment: None,
        ..Default::default()
    };

    let result = asset.download_content();
    assert!(result.is_err());
}

#[test]
fn test_asset_is_binary() {
    // Binary asset (has attachment)
    let binary_asset = Asset {
        key: "assets/logo.png".to_string(),
        attachment: Some("SGVsbG8=".to_string()),
        ..Default::default()
    };
    assert!(binary_asset.is_binary());

    // Text asset (has value)
    let text_asset = Asset {
        key: "templates/index.liquid".to_string(),
        value: Some("<div>Hello</div>".to_string()),
        ..Default::default()
    };
    assert!(!text_asset.is_binary());

    // Empty asset (neither)
    let empty_asset = Asset {
        key: "assets/empty".to_string(),
        ..Default::default()
    };
    assert!(!empty_asset.is_binary());
}

#[test]
fn test_asset_upload_and_download_roundtrip() {
    let original_data = b"Binary data with special chars: \x00\x01\x02\xFF";

    // Upload
    let asset = Asset::upload_from_bytes("assets/test.bin", original_data);

    // Download
    let downloaded = asset.download_content().unwrap();

    assert_eq!(downloaded, original_data);
}

#[test]
fn test_asset_paths_are_nested_under_theme() {
    let asset_paths = Asset::paths();
    // All path should require theme_id
    let all_path = get_path(&asset_paths, ResourceOperation::All, &["theme_id"]);
    assert!(all_path.is_some());
    assert_eq!(all_path.unwrap().template, "themes/{theme_id}/assets");

    // Create path (uses PUT)
    let create_path = get_path(&asset_paths, ResourceOperation::Create, &["theme_id"]);
    assert!(create_path.is_some());
    assert_eq!(create_path.unwrap().template, "themes/{theme_id}/assets");
    assert_eq!(create_path.unwrap().http_method, HttpMethod::Put);

    // Update path (uses PUT)
    let update_path = get_path(&asset_paths, ResourceOperation::Update, &["theme_id"]);
    assert!(update_path.is_some());
    assert_eq!(update_path.unwrap().template, "themes/{theme_id}/assets");
    assert_eq!(update_path.unwrap().http_method, HttpMethod::Put);

    // Find path
    let find_path = get_path(&asset_paths, ResourceOperation::Find, &["theme_id"]);
    assert!(find_path.is_some());
    assert_eq!(find_path.unwrap().template, "themes/{theme_id}/assets");

    // Delete path
    let delete_path = get_path(&asset_paths, ResourceOperation::Delete, &["theme_id"]);
    assert!(delete_path.is_some());
    assert_eq!(delete_path.unwrap().template, "themes/{theme_id}/assets");

    // No standalone paths (without theme_id)
    let standalone = get_path(&asset_paths, ResourceOperation::All, &[]);
    assert!(standalone.is_none());
}
#[test]
fn test_blog_path_constants_are_correct() {
    let blog_paths = Blog::paths();
    // Test Find path
    let find_path = get_path(&blog_paths, ResourceOperation::Find, &["id"]);
    assert!(find_path.is_some());
    assert_eq!(find_path.unwrap().template, "blogs/{id}");
    assert_eq!(find_path.unwrap().http_method, HttpMethod::Get);

    // Test All path
    let all_path = get_path(&blog_paths, ResourceOperation::All, &[]);
    assert!(all_path.is_some());
    assert_eq!(all_path.unwrap().template, "blogs");
    assert_eq!(all_path.unwrap().http_method, HttpMethod::Get);

    // Test Count path
    let count_path = get_path(&blog_paths, ResourceOperation::Count, &[]);
    assert!(count_path.is_some());
    assert_eq!(count_path.unwrap().template, "blogs/count");
    assert_eq!(count_path.unwrap().http_method, HttpMethod::Get);

    // Test Create path
    let create_path = get_path(&blog_paths, ResourceOperation::Create, &[]);
    assert!(create_path.is_some());
    assert_eq!(create_path.unwrap().template, "blogs");
    assert_eq!(create_path.unwrap().http_method, HttpMethod::Post);

    // Test Update path
    let update_path = get_path(&blog_paths, ResourceOperation::Update, &["id"]);
    assert!(update_path.is_some());
    assert_eq!(update_path.unwrap().template, "blogs/{id}");
    assert_eq!(update_path.unwrap().http_method, HttpMethod::Put);

    // Test Delete path
    let delete_path = get_path(&blog_paths, ResourceOperation::Delete, &["id"]);
    assert!(delete_path.is_some());
    assert_eq!(delete_path.unwrap().template, "blogs/{id}");
    assert_eq!(delete_path.unwrap().http_method, HttpMethod::Delete);

    // Verify constants
    assert_eq!(Blog::NAME, "Blog");
    assert_eq!(Blog::PLURAL, "blogs");
}

#[test]
fn test_blog_get_id_returns_correct_value() {
    // Blog with ID
    let blog_with_id = Blog {
        id: Some(123456789),
        title: Some("Test Blog".to_string()),
        ..Default::default()
    };
    assert_eq!(blog_with_id.get_id(), Some(123456789));

    // Blog without ID (new blog)
    let blog_without_id = Blog {
        id: None,
        title: Some("New Blog".to_string()),
        ..Default::default()
    };
    assert_eq!(blog_without_id.get_id(), None);
}
#[test]
fn test_collect_limited_paths_no_update() {
    let collect_paths = Collect::paths();
    // Find
    let find_path = get_path(&collect_paths, ResourceOperation::Find, &["id"]);
    assert!(find_path.is_some());
    assert_eq!(find_path.unwrap().template, "collects/{id}");

    // All
    let all_path = get_path(&collect_paths, ResourceOperation::All, &[]);
    assert!(all_path.is_some());
    assert_eq!(all_path.unwrap().template, "collects");

    // Count
    let count_path = get_path(&collect_paths, ResourceOperation::Count, &[]);
    assert!(count_path.is_some());
    assert_eq!(count_path.unwrap().template, "collects/count");

    // Create
    let create_path = get_path(&collect_paths, ResourceOperation::Create, &[]);
    assert!(create_path.is_some());
    assert_eq!(create_path.unwrap().template, "collects");

    // Delete
    let delete_path = get_path(&collect_paths, ResourceOperation::Delete, &["id"]);
    assert!(delete_path.is_some());
    assert_eq!(delete_path.unwrap().template, "collects/{id}");

    // No Update (the key differentiator)
    let update_path = get_path(&collect_paths, ResourceOperation::Update, &["id"]);
    assert!(update_path.is_none());
}

#[test]
fn test_collect_constants() {
    assert_eq!(Collect::NAME, "Collect");
    assert_eq!(Collect::PLURAL, "collects");
}

#[test]
fn test_collect_get_id() {
    let collect_with_id = Collect {
        id: Some(455204334),
        product_id: Some(632910392),
        collection_id: Some(841564295),
        ..Default::default()
    };
    assert_eq!(collect_with_id.get_id(), Some(455204334));

    let collect_without_id = Collect::default();
    assert_eq!(collect_without_id.get_id(), None);
}
#[test]
fn test_collection_trait_get_collection_id_custom() {
    let collection = CustomCollection {
        id: Some(841564295),
        title: Some("Test Collection".to_string()),
        ..Default::default()
    };

    assert_eq!(collection.get_collection_id(), Some(841564295));

    let new_collection = CustomCollection {
        id: None,
        title: Some("New Collection".to_string()),
        ..Default::default()
    };

    assert_eq!(new_collection.get_collection_id(), None);
}

#[test]
fn test_collection_trait_get_collection_id_smart() {
    let collection = SmartCollection {
        id: Some(1063001322),
        title: Some("Test Collection".to_string()),
        ..Default::default()
    };

    assert_eq!(collection.get_collection_id(), Some(1063001322));

    let new_collection = SmartCollection {
        id: None,
        title: Some("New Collection".to_string()),
        ..Default::default()
    };

    assert_eq!(new_collection.get_collection_id(), None);
}

#[test]
fn test_collection_trait_products_method_signature_custom() {
    // Verify PathResolutionFailed is returned for collection without ID
    let collection = CustomCollection { id: None, ..Default::default() };
    assert!(collection.get_collection_id().is_none());
    assert_eq!(
        collection.products_request(None),
        Err(ResourceError::PathResolutionFailed { resource: "CustomCollection", operation: "products" })
    );
}

#[test]
fn test_collection_trait_products_method_signature_smart() {
    // Verify PathResolutionFailed is returned for collection without ID
    let collection = SmartCollection { id: None, ..Default::default() };
    assert!(collection.get_collection_id().is_none());
    assert_eq!(
        collection.products_request(None),
        Err(ResourceError::PathResolutionFailed { resource: "SmartCollection", operation: "products" })
    );
}

#[test]
fn test_collection_trait_product_count_method_signature_custom() {
    let collection = CustomCollection { id: Some(841564295), ..Default::default() };
    let r = collection.product_count_request().unwrap();
    assert_eq!(r.method, HttpMethod::Get);
    assert_eq!(r.path, "collections/841564295/products/count");
    assert!(r.query.is_none());
}

#[test]
fn test_collection_trait_product_count_method_signature_smart() {
    let collection = SmartCollection { id: Some(1063001322), ..Default::default() };
    let r = collection.product_count_request().unwrap();
    assert_eq!(r.method, HttpMethod::Get);
    assert_eq!(r.path, "collections/1063001322/products/count");
    let none = SmartCollection::default();
    assert_eq!(
        none.product_count_request(),
        Err(ResourceError::PathResolutionFailed { resource: "SmartCollection", operation: "product_count" })
    );
}

#[test]
fn test_collection_trait_polymorphism() {
    // Verify that both collection types can be used polymorphically
    fn _takes_collection<C: Collection>(_collection: &C) {}

    let custom = CustomCollection {
        id: Some(123),
        ..Default::default()
    };
    _takes_collection(&custom);

    let smart = SmartCollection {
        id: Some(456),
        ..Default::default()
    };
    _takes_collection(&smart);
}

#[test]
fn test_serialize_to_query_helper() {
    let params = JsonValue::Object(vec![
        JsonMember { key: "limit".to_string(), value: JsonValue::Number(JsonNumber::PosInt(50)) },
        JsonMember { key: "title".to_string(), value: JsonValue::String("Test".to_string()) },
    ]);

    let query = serialize_to_query(&params);

    assert_eq!(query.get("limit"), Some(&"50".to_string()));
    assert_eq!(query.get("title"), Some(&"Test".to_string()));
}

#[test]
fn test_collection_trait_bounds() {
    fn assert_trait_bounds<T: Collection + Send + Sync>() {}
    assert_trait_bounds::<CustomCollection>();
    assert_trait_bounds::<SmartCollection>();
}
#[test]
fn test_comment_moderation_methods_path_construction() {
    // The moderation methods use URLs like:
    // POST /comments/{id}/approve
    // POST /comments/{id}/spam
    // POST /comments/{id}/not_spam
    // POST /comments/{id}/remove
    // POST /comments/{id}/restore
    //
    // These are implemented as instance methods that construct URLs directly

    let comment = Comment {
        id: Some(653537639),
        ..Default::default()
    };

    // Verify that the ID is available for URL construction
    assert_eq!(comment.id, Some(653537639));
    assert_eq!(comment.approve_request().unwrap().path, "comments/653537639/approve");
    assert_eq!(comment.spam_request().unwrap().path, "comments/653537639/spam");
    assert_eq!(comment.not_spam_request().unwrap().path, "comments/653537639/not_spam");
    assert_eq!(comment.remove_request().unwrap().path, "comments/653537639/remove");
    assert_eq!(comment.restore_request().unwrap().path, "comments/653537639/restore");
}

#[test]
fn test_comment_full_crud_paths() {
    let comment_paths = Comment::paths();
    // Find by ID
    let find_path = get_path(&comment_paths, ResourceOperation::Find, &["id"]);
    assert!(find_path.is_some());
    assert_eq!(find_path.unwrap().template, "comments/{id}");

    // List all
    let all_path = get_path(&comment_paths, ResourceOperation::All, &[]);
    assert!(all_path.is_some());
    assert_eq!(all_path.unwrap().template, "comments");

    // Count
    let count_path = get_path(&comment_paths, ResourceOperation::Count, &[]);
    assert!(count_path.is_some());
    assert_eq!(count_path.unwrap().template, "comments/count");

    // Create
    let create_path = get_path(&comment_paths, ResourceOperation::Create, &[]);
    assert!(create_path.is_some());
    assert_eq!(create_path.unwrap().template, "comments");

    // Update
    let update_path = get_path(&comment_paths, ResourceOperation::Update, &["id"]);
    assert!(update_path.is_some());
    assert_eq!(update_path.unwrap().template, "comments/{id}");

    // Delete
    let delete_path = get_path(&comment_paths, ResourceOperation::Delete, &["id"]);
    assert!(delete_path.is_some());
    assert_eq!(delete_path.unwrap().template, "comments/{id}");
}

#[test]
fn test_comment_article_specific_paths() {
    let comment_paths = Comment::paths();
    // Comments for an article
    let article_comments = get_path(&comment_paths, ResourceOperation::All, &["article_id"]);
    assert!(article_comments.is_some());
    assert_eq!(
        article_comments.unwrap().template,
        "articles/{article_id}/comments"
    );

    // Count comments for an article
    let article_count = get_path(&comment_paths, ResourceOperation::Count, &["article_id"]);
    assert!(article_count.is_some());
    assert_eq!(
        article_count.unwrap().template,
        "articles/{article_id}/comments/count"
    );
}

#[test]
fn test_comment_constants() {
    assert_eq!(Comment::NAME, "Comment");
    assert_eq!(Comment::PLURAL, "comments");
}

#[test]
fn test_comment_get_id() {
    let comment_with_id = Comment {
        id: Some(653537639),
        ..Default::default()
    };
    assert_eq!(comment_with_id.get_id(), Some(653537639));

    let comment_without_id = Comment::default();
    assert_eq!(comment_without_id.get_id(), None);
}
#[test]
fn test_charge_status_helper_methods() {
    assert!(ChargeStatus::Pending.is_pending());
    assert!(!ChargeStatus::Active.is_pending());

    assert!(ChargeStatus::Active.is_active());
    assert!(!ChargeStatus::Pending.is_active());

    assert!(ChargeStatus::Cancelled.is_cancelled());
    assert!(!ChargeStatus::Active.is_cancelled());

    assert!(ChargeStatus::Declined.is_declined());
    assert!(ChargeStatus::Expired.is_expired());
}

#[test]
fn test_charge_currency_code_method() {
    let currency = ChargeCurrency::new("CAD");
    assert_eq!(currency.code(), Some("CAD"));

    let empty = ChargeCurrency::default();
    assert_eq!(empty.code(), None);
}
#[test]
fn test_blog_commentable_default() {
    let setting = BlogCommentable::default();
    assert_eq!(setting, BlogCommentable::No);
}
#[test]
fn test_metafield_owner_to_path_segment() {
    assert_eq!(MetafieldOwner::Product.to_path_segment(), "products");
    assert_eq!(MetafieldOwner::Variant.to_path_segment(), "variants");
    assert_eq!(MetafieldOwner::Customer.to_path_segment(), "customers");
    assert_eq!(MetafieldOwner::Order.to_path_segment(), "orders");
    assert_eq!(MetafieldOwner::Shop.to_path_segment(), "");
    assert_eq!(MetafieldOwner::Collection.to_path_segment(), "collections");
    assert_eq!(MetafieldOwner::Page.to_path_segment(), "pages");
    assert_eq!(MetafieldOwner::Blog.to_path_segment(), "blogs");
    assert_eq!(MetafieldOwner::Article.to_path_segment(), "articles");
}

#[test]
fn test_metafield_owner_display() {
    assert_eq!(MetafieldOwner::Product.name(), "product");
    assert_eq!(MetafieldOwner::Customer.name(), "customer");
    assert_eq!(MetafieldOwner::Shop.name(), "shop");
    assert_eq!(MetafieldOwner::Collection.name(), "collection");
}
#[test]
fn test_theme_role_default() {
    let role = ThemeRole::default();
    assert_eq!(role, ThemeRole::Unpublished);
}
#[test]
fn test_webhook_format_default() {
    let format = WebhookFormat::default();
    assert_eq!(format, WebhookFormat::Json);
}
#[test]
fn test_country_full_crud_paths() {
    let country_paths = Country::paths();
    // Find by ID
    let find_path = get_path(&country_paths, ResourceOperation::Find, &["id"]);
    assert!(find_path.is_some());
    assert_eq!(find_path.unwrap().template, "countries/{id}");

    // List all
    let all_path = get_path(&country_paths, ResourceOperation::All, &[]);
    assert!(all_path.is_some());
    assert_eq!(all_path.unwrap().template, "countries");

    // Count
    let count_path = get_path(&country_paths, ResourceOperation::Count, &[]);
    assert!(count_path.is_some());
    assert_eq!(count_path.unwrap().template, "countries/count");

    // Create
    let create_path = get_path(&country_paths, ResourceOperation::Create, &[]);
    assert!(create_path.is_some());
    assert_eq!(create_path.unwrap().template, "countries");

    // Update
    let update_path = get_path(&country_paths, ResourceOperation::Update, &["id"]);
    assert!(update_path.is_some());
    assert_eq!(update_path.unwrap().template, "countries/{id}");

    // Delete
    let delete_path = get_path(&country_paths, ResourceOperation::Delete, &["id"]);
    assert!(delete_path.is_some());
    assert_eq!(delete_path.unwrap().template, "countries/{id}");
}

#[test]
fn test_country_constants() {
    assert_eq!(Country::NAME, "Country");
    assert_eq!(Country::PLURAL, "countries");
}

#[test]
fn test_country_get_id() {
    let country_with_id = Country {
        id: Some(879921427),
        code: Some("CA".to_string()),
        ..Default::default()
    };
    assert_eq!(country_with_id.get_id(), Some(879921427));

    let country_without_id = Country::default();
    assert_eq!(country_without_id.get_id(), None);
}
#[test]
fn test_currency_list_only_paths() {
    let currency_paths = Currency::paths();
    // All (list)
    let all_path = get_path(&currency_paths, ResourceOperation::All, &[]);
    assert!(all_path.is_some());
    assert_eq!(all_path.unwrap().template, "currencies");

    // No Find path
    let find_path = get_path(&currency_paths, ResourceOperation::Find, &["id"]);
    assert!(find_path.is_none());

    // No Count path
    let count_path = get_path(&currency_paths, ResourceOperation::Count, &[]);
    assert!(count_path.is_none());

    // No Create path
    let create_path = get_path(&currency_paths, ResourceOperation::Create, &[]);
    assert!(create_path.is_none());

    // No Update path
    let update_path = get_path(&currency_paths, ResourceOperation::Update, &["id"]);
    assert!(update_path.is_none());

    // No Delete path
    let delete_path = get_path(&currency_paths, ResourceOperation::Delete, &["id"]);
    assert!(delete_path.is_none());
}

#[test]
fn test_currency_constants() {
    assert_eq!(Currency::NAME, "Currency");
    assert_eq!(Currency::PLURAL, "currencies");
}

#[test]
fn test_currency_get_id_returns_code() {
    let currency_with_code = Currency {
        currency: Some("USD".to_string()),
        rate_updated_at: None,
        enabled: Some(true),
    };
    assert_eq!(currency_with_code.get_id(), Some("USD".to_string()));

    let currency_without_code = Currency::default();
    assert_eq!(currency_without_code.get_id(), None);
}
#[test]
fn test_custom_collection_path_constants_are_correct() {
    let custom_collection_paths = CustomCollection::paths();
    // Test Find path
    let find_path = get_path(&custom_collection_paths, ResourceOperation::Find, &["id"]);
    assert!(find_path.is_some());
    assert_eq!(find_path.unwrap().template, "custom_collections/{id}");
    assert_eq!(find_path.unwrap().http_method, HttpMethod::Get);

    // Test All path
    let all_path = get_path(&custom_collection_paths, ResourceOperation::All, &[]);
    assert!(all_path.is_some());
    assert_eq!(all_path.unwrap().template, "custom_collections");

    // Test Count path
    let count_path = get_path(&custom_collection_paths, ResourceOperation::Count, &[]);
    assert!(count_path.is_some());
    assert_eq!(count_path.unwrap().template, "custom_collections/count");

    // Test Create path
    let create_path = get_path(&custom_collection_paths, ResourceOperation::Create, &[]);
    assert!(create_path.is_some());
    assert_eq!(create_path.unwrap().http_method, HttpMethod::Post);

    // Test Update path
    let update_path = get_path(&custom_collection_paths, ResourceOperation::Update, &["id"]);
    assert!(update_path.is_some());
    assert_eq!(update_path.unwrap().http_method, HttpMethod::Put);

    // Test Delete path
    let delete_path = get_path(&custom_collection_paths, ResourceOperation::Delete, &["id"]);
    assert!(delete_path.is_some());
    assert_eq!(delete_path.unwrap().http_method, HttpMethod::Delete);

    // Verify constants
    assert_eq!(CustomCollection::NAME, "CustomCollection");
    assert_eq!(CustomCollection::PLURAL, "custom_collections");
}

#[test]
fn test_custom_collection_get_id_returns_correct_value() {
    let collection_with_id = CustomCollection {
        id: Some(841564295),
        title: Some("Test Collection".to_string()),
        ..Default::default()
    };
    assert_eq!(collection_with_id.get_id(), Some(841564295));

    let collection_without_id = CustomCollection {
        id: None,
        title: Some("New Collection".to_string()),
        ..Default::default()
    };
    assert_eq!(collection_without_id.get_id(), None);
}
#[test]
fn test_discount_code_nested_paths() {
    let discount_code_paths = DiscountCode::paths();
    // All paths should require price_rule_id

    // Find requires both price_rule_id and id
    let find_path = get_path(
        &discount_code_paths,
        ResourceOperation::Find,
        &["price_rule_id", "id"],
    );
    assert!(find_path.is_some());
    assert_eq!(
        find_path.unwrap().template,
        "price_rules/{price_rule_id}/discount_codes/{id}"
    );

    // Find with only id should fail (no standalone path)
    let find_without_parent = get_path(&discount_code_paths, ResourceOperation::Find, &["id"]);
    assert!(find_without_parent.is_none());

    // All requires price_rule_id
    let all_path = get_path(
        &discount_code_paths,
        ResourceOperation::All,
        &["price_rule_id"],
    );
    assert!(all_path.is_some());
    assert_eq!(
        all_path.unwrap().template,
        "price_rules/{price_rule_id}/discount_codes"
    );

    // All without parent should fail
    let all_without_parent = get_path(&discount_code_paths, ResourceOperation::All, &[]);
    assert!(all_without_parent.is_none());

    // Count requires price_rule_id
    let count_path = get_path(
        &discount_code_paths,
        ResourceOperation::Count,
        &["price_rule_id"],
    );
    assert!(count_path.is_some());
    assert_eq!(
        count_path.unwrap().template,
        "price_rules/{price_rule_id}/discount_codes/count"
    );

    // Create requires price_rule_id
    let create_path = get_path(
        &discount_code_paths,
        ResourceOperation::Create,
        &["price_rule_id"],
    );
    assert!(create_path.is_some());
    assert_eq!(
        create_path.unwrap().template,
        "price_rules/{price_rule_id}/discount_codes"
    );
    assert_eq!(create_path.unwrap().http_method, HttpMethod::Post);

    // Update requires both price_rule_id and id
    let update_path = get_path(
        &discount_code_paths,
        ResourceOperation::Update,
        &["price_rule_id", "id"],
    );
    assert!(update_path.is_some());
    assert_eq!(
        update_path.unwrap().template,
        "price_rules/{price_rule_id}/discount_codes/{id}"
    );
    assert_eq!(update_path.unwrap().http_method, HttpMethod::Put);

    // Delete requires both price_rule_id and id
    let delete_path = get_path(
        &discount_code_paths,
        ResourceOperation::Delete,
        &["price_rule_id", "id"],
    );
    assert!(delete_path.is_some());
    assert_eq!(
        delete_path.unwrap().template,
        "price_rules/{price_rule_id}/discount_codes/{id}"
    );
    assert_eq!(delete_path.unwrap().http_method, HttpMethod::Delete);
}

#[test]
fn test_discount_code_lookup_is_standalone_path() {
    // The lookup method uses a standalone path "discount_codes/lookup"
    // which doesn't require price_rule_id
    // No path in the paths list for this - it's a special method
    let r = DiscountCode::lookup_request("SUMMER");
    assert_eq!(r.method, HttpMethod::Get);
    assert_eq!(r.path, "discount_codes/lookup");
    assert_eq!(r.query.unwrap().get("code"), Some(&"SUMMER".to_string()));
}

#[test]
fn test_discount_code_constants() {
    assert_eq!(DiscountCode::NAME, "DiscountCode");
    assert_eq!(DiscountCode::PLURAL, "discount_codes");
}

#[test]
fn test_discount_code_get_id() {
    let code_with_id = DiscountCode {
        id: Some(12345),
        code: Some("TEST".to_string()),
        ..Default::default()
    };
    assert_eq!(code_with_id.get_id(), Some(12345));

    let code_without_id = DiscountCode::default();
    assert_eq!(code_without_id.get_id(), None);
}
#[test]
fn test_draft_order_path_constants() {
    let draft_order_paths = DraftOrder::paths();
    // Test Find path
    let find_path = get_path(&draft_order_paths, ResourceOperation::Find, &["id"]);
    assert!(find_path.is_some());
    assert_eq!(find_path.unwrap().template, "draft_orders/{id}");
    assert_eq!(find_path.unwrap().http_method, HttpMethod::Get);

    // Test All path
    let all_path = get_path(&draft_order_paths, ResourceOperation::All, &[]);
    assert!(all_path.is_some());
    assert_eq!(all_path.unwrap().template, "draft_orders");

    // Test Count path
    let count_path = get_path(&draft_order_paths, ResourceOperation::Count, &[]);
    assert!(count_path.is_some());
    assert_eq!(count_path.unwrap().template, "draft_orders/count");

    // Test Create path
    let create_path = get_path(&draft_order_paths, ResourceOperation::Create, &[]);
    assert!(create_path.is_some());
    assert_eq!(create_path.unwrap().template, "draft_orders");
    assert_eq!(create_path.unwrap().http_method, HttpMethod::Post);

    // Test Update path
    let update_path = get_path(&draft_order_paths, ResourceOperation::Update, &["id"]);
    assert!(update_path.is_some());
    assert_eq!(update_path.unwrap().template, "draft_orders/{id}");
    assert_eq!(update_path.unwrap().http_method, HttpMethod::Put);

    // Test Delete path
    let delete_path = get_path(&draft_order_paths, ResourceOperation::Delete, &["id"]);
    assert!(delete_path.is_some());
    assert_eq!(delete_path.unwrap().template, "draft_orders/{id}");
    assert_eq!(delete_path.unwrap().http_method, HttpMethod::Delete);

    // Verify constants
    assert_eq!(DraftOrder::NAME, "DraftOrder");
    assert_eq!(DraftOrder::PLURAL, "draft_orders");
}

#[test]
fn test_complete_method_signature() {
    // Verify DraftOrderCompleteParams
    let params = DraftOrderCompleteParams { payment_pending: Some(true) };
    assert_eq!(params.payment_pending, Some(true));

    // Verify PathResolutionFailed error is returned when draft order has no ID
    let draft_without_id = DraftOrder::default();
    assert!(draft_without_id.get_id().is_none());
    assert_eq!(
        draft_without_id.complete_request(Some(&params)),
        Err(ResourceError::PathResolutionFailed { resource: "DraftOrder", operation: "complete" })
    );

    let draft = DraftOrder { id: Some(994118539), ..Default::default() };
    let r = draft.complete_request(Some(&params)).unwrap();
    assert_eq!(r.method, HttpMethod::Put);
    assert_eq!(r.path, "draft_orders/994118539/complete?payment_pending=true");
    let r = draft.complete_request(None).unwrap();
    assert_eq!(r.path, "draft_orders/994118539/complete");
    assert_eq!(r.body.unwrap().to_json_string(), "{}");
}

#[test]
fn test_send_invoice_method_signature() {
    // Verify DraftOrderInvoice struct
    let invoice = DraftOrderInvoice {
        to: Some("customer@example.com".to_string()),
        from: Some("store@example.com".to_string()),
        subject: Some("Your order".to_string()),
        custom_message: Some("Thanks!".to_string()),
        bcc: Some(vec!["admin@example.com".to_string()]),
    };

    let json = invoice.to_json();
    assert_eq!(json.get("to").and_then(|v| v.as_str()), Some("customer@example.com"));
    assert_eq!(json.get("from").and_then(|v| v.as_str()), Some("store@example.com"));
    assert_eq!(json.get("subject").and_then(|v| v.as_str()), Some("Your order"));
    assert_eq!(json.get("custom_message").and_then(|v| v.as_str()), Some("Thanks!"));
    match json.get("bcc") {
        Some(JsonValue::Array(items)) => assert_eq!(items[0].as_str(), Some("admin@example.com")),
        other => panic!("unexpected {other:?}"),
    }

    let draft = DraftOrder { id: Some(7), ..Default::default() };
    let r = draft.send_invoice_request(&invoice).unwrap();
    assert_eq!(r.method, HttpMethod::Post);
    assert_eq!(r.path, "draft_orders/7/send_invoice");
}

#[test]
fn test_draft_order_get_id_returns_correct_value() {
    let draft_with_id = DraftOrder {
        id: Some(994118539),
        name: Some("#D2".to_string()),
        ..Default::default()
    };
    assert_eq!(draft_with_id.get_id(), Some(994118539));

    let draft_without_id = DraftOrder {
        id: None,
        email: Some("customer@example.com".to_string()),
        ..Default::default()
    };
    assert_eq!(draft_without_id.get_id(), None);
}
#[test]
fn test_event_read_only_paths() {
    let event_paths = Event::paths();
    // Global paths
    let find_path = get_path(&event_paths, ResourceOperation::Find, &["id"]);
    assert!(find_path.is_some());
    assert_eq!(find_path.unwrap().template, "events/{id}");

    let all_path = get_path(&event_paths, ResourceOperation::All, &[]);
    assert!(all_path.is_some());
    assert_eq!(all_path.unwrap().template, "events");

    let count_path = get_path(&event_paths, ResourceOperation::Count, &[]);
    assert!(count_path.is_some());
    assert_eq!(count_path.unwrap().template, "events/count");

    // No create, update, or delete paths
    let create_path = get_path(&event_paths, ResourceOperation::Create, &[]);
    assert!(create_path.is_none());

    let update_path = get_path(&event_paths, ResourceOperation::Update, &["id"]);
    assert!(update_path.is_none());

    let delete_path = get_path(&event_paths, ResourceOperation::Delete, &["id"]);
    assert!(delete_path.is_none());
}

#[test]
fn test_event_polymorphic_owner_paths() {
    let event_paths = Event::paths();
    // Order events path
    let order_events = get_path(&event_paths, ResourceOperation::All, &["order_id"]);
    assert!(order_events.is_some());
    assert_eq!(
        order_events.unwrap().template,
        "orders/{order_id}/events"
    );

    // Order events count path
    let order_count = get_path(&event_paths, ResourceOperation::Count, &["order_id"]);
    assert!(order_count.is_some());
    assert_eq!(
        order_count.unwrap().template,
        "orders/{order_id}/events/count"
    );

    // Product events path
    let product_events = get_path(&event_paths, ResourceOperation::All, &["product_id"]);
    assert!(product_events.is_some());
    assert_eq!(
        product_events.unwrap().template,
        "products/{product_id}/events"
    );

    // Product events count path
    let product_count = get_path(&event_paths, ResourceOperation::Count, &["product_id"]);
    assert!(product_count.is_some());
    assert_eq!(
        product_count.unwrap().template,
        "products/{product_id}/events/count"
    );
}

#[test]
fn test_event_constants() {
    assert_eq!(Event::NAME, "Event");
    assert_eq!(Event::PLURAL, "events");
}

#[test]
fn test_event_get_id() {
    let event_with_id = Event {
        id: Some(677313116),
        verb: Some("create".to_string()),
        ..Default::default()
    };
    assert_eq!(event_with_id.get_id(), Some(677313116));

    let event_without_id = Event::default();
    assert_eq!(event_without_id.get_id(), None);
}
#[test]
fn test_nested_path_under_orders() {
    let fulfillment_paths = Fulfillment::paths();
    // Test Find path (requires both order_id and id)
    let find_path = get_path(
        &fulfillment_paths,
        ResourceOperation::Find,
        &["order_id", "id"],
    );
    assert!(find_path.is_some());
    assert_eq!(
        find_path.unwrap().template,
        "orders/{order_id}/fulfillments/{id}"
    );
    assert_eq!(find_path.unwrap().http_method, HttpMethod::Get);

    // Test All path (requires order_id)
    let all_path = get_path(&fulfillment_paths, ResourceOperation::All, &["order_id"]);
    assert!(all_path.is_some());
    assert_eq!(all_path.unwrap().template, "orders/{order_id}/fulfillments");

    // Test Count path (requires order_id)
    let count_path = get_path(&fulfillment_paths, ResourceOperation::Count, &["order_id"]);
    assert!(count_path.is_some());
    assert_eq!(
        count_path.unwrap().template,
        "orders/{order_id}/fulfillments/count"
    );

    // Test Create path (requires order_id)
    let create_path = get_path(&fulfillment_paths, ResourceOperation::Create, &["order_id"]);
    assert!(create_path.is_some());
    assert_eq!(
        create_path.unwrap().template,
        "orders/{order_id}/fulfillments"
    );
    assert_eq!(create_path.unwrap().http_method, HttpMethod::Post);

    // Test Update path (requires both order_id and id)
    let update_path = get_path(
        &fulfillment_paths,
        ResourceOperation::Update,
        &["order_id", "id"],
    );
    assert!(update_path.is_some());
    assert_eq!(
        update_path.unwrap().template,
        "orders/{order_id}/fulfillments/{id}"
    );
    assert_eq!(update_path.unwrap().http_method, HttpMethod::Put);

    // Test that paths without order_id fail for All
    let no_order_all = get_path(&fulfillment_paths, ResourceOperation::All, &[]);
    assert!(no_order_all.is_none());

    // Verify constants
    assert_eq!(Fulfillment::NAME, "Fulfillment");
    assert_eq!(Fulfillment::PLURAL, "fulfillments");
}

#[test]
fn test_resource_specific_operations_signatures() {
    // Verify PathResolutionFailed error is returned when fulfillment has no ID
    let fulfillment_without_id = Fulfillment::default();
    assert!(fulfillment_without_id.get_id().is_none());
    assert_eq!(
        fulfillment_without_id.cancel_request(),
        Err(ResourceError::PathResolutionFailed { resource: "Fulfillment", operation: "cancel" })
    );

    // Verify TrackingInfo struct
    let tracking = TrackingInfo {
        tracking_number: Some("1Z999AA10123456784".to_string()),
        tracking_url: Some("https://ups.com/tracking".to_string()),
        tracking_company: Some("UPS".to_string()),
    };
    assert_eq!(tracking.tracking_number, Some("1Z999AA10123456784".to_string()));
    assert_eq!(
        fulfillment_without_id.update_tracking_request(&tracking),
        Err(ResourceError::PathResolutionFailed { resource: "Fulfillment", operation: "update_tracking" })
    );

    // Verify get_id returns correct value
    let fulfillment_with_id = Fulfillment { id: Some(255858046), order_id: Some(450789469), ..Default::default() };
    assert_eq!(fulfillment_with_id.get_id(), Some(255858046));

    let r = fulfillment_with_id.cancel_request().unwrap();
    assert_eq!(r.method, HttpMethod::Post);
    assert_eq!(r.path, "orders/450789469/fulfillments/255858046/cancel");
    let r = fulfillment_with_id.update_tracking_request(&tracking).unwrap();
    assert_eq!(r.path, "fulfillments/255858046/update_tracking");
    assert_eq!(
        r.body.unwrap().to_json_string(),
        r#"{"fulfillment":{"tracking_info":{"tracking_company":"UPS","tracking_number":"1Z999AA10123456784","tracking_url":"https://ups.com/tracking"}}}"#
    );
}
#[test]
fn test_fulfillment_order_paths() {
    let fulfillment_order_paths = FulfillmentOrder::paths();
    // Test standalone Find path
    let find_path = get_path(&fulfillment_order_paths, ResourceOperation::Find, &["id"]);
    assert!(find_path.is_some());
    assert_eq!(find_path.unwrap().template, "fulfillment_orders/{id}");
    assert_eq!(find_path.unwrap().http_method, HttpMethod::Get);

    // Test nested All path under orders
    let all_path = get_path(
        &fulfillment_order_paths,
        ResourceOperation::All,
        &["order_id"],
    );
    assert!(all_path.is_some());
    assert_eq!(
        all_path.unwrap().template,
        "orders/{order_id}/fulfillment_orders"
    );

    // Test that All without order_id fails
    let all_without_order = get_path(&fulfillment_order_paths, ResourceOperation::All, &[]);
    assert!(all_without_order.is_none());

    // Test that there is no Create path
    let create_path = get_path(&fulfillment_order_paths, ResourceOperation::Create, &[]);
    assert!(create_path.is_none());

    // Test that there is no Update path
    let update_path = get_path(&fulfillment_order_paths, ResourceOperation::Update, &["id"]);
    assert!(update_path.is_none());

    // Test that there is no Delete path
    let delete_path = get_path(&fulfillment_order_paths, ResourceOperation::Delete, &["id"]);
    assert!(delete_path.is_none());

    // Test that there is no Count path
    let count_path = get_path(&fulfillment_order_paths, ResourceOperation::Count, &[]);
    assert!(count_path.is_none());

    // Verify constants
    assert_eq!(FulfillmentOrder::NAME, "FulfillmentOrder");
    assert_eq!(FulfillmentOrder::PLURAL, "fulfillment_orders");
}

#[test]
fn test_special_operation_method_signatures() {
    // Verify FulfillmentOrderHoldParams
    let hold_params = FulfillmentOrderHoldParams {
        reason: HoldReason::AwaitingPayment,
        reason_notes: Some("Waiting for wire transfer".to_string()),
        notify_merchant: Some(true),
        fulfillment_order_line_items: None,
    };

    let json = hold_params.to_json();
    assert_eq!(json.get("reason").and_then(|v| v.as_str()), Some("awaiting_payment"));
    assert_eq!(json.get("reason_notes").and_then(|v| v.as_str()), Some("Waiting for wire transfer"));
    assert_eq!(json.get("notify_merchant"), Some(&JsonValue::Bool(true)));

    // Verify FulfillmentOrderMoveParams
    let move_params = FulfillmentOrderMoveParams {
        new_location_id: 12345,
        fulfillment_order_line_items: Some(vec![FulfillmentOrderLineItemInput { id: 111, quantity: 2 }]),
    };
    assert_eq!(move_params.new_location_id, 12345);

    // Verify FulfillmentOrderRescheduleParams
    let reschedule_params = FulfillmentOrderRescheduleParams { new_fulfill_at: "2024-02-01T00:00:00Z".to_string() };
    assert!(!reschedule_params.new_fulfill_at.is_empty());

    // The operations' requests
    let fo = FulfillmentOrder { id: Some(1046000778), ..Default::default() };
    assert_eq!(fo.cancel_request().unwrap().path, "fulfillment_orders/1046000778/cancel");
    let r = fo.hold_request(&hold_params).unwrap();
    assert_eq!(r.path, "fulfillment_orders/1046000778/hold");
    assert_eq!(
        r.body.unwrap().to_json_string(),
        r#"{"fulfillment_hold":{"notify_merchant":true,"reason":"awaiting_payment","reason_notes":"Waiting for wire transfer"}}"#
    );
    let r = fo.move_location_request(&move_params).unwrap();
    assert_eq!(r.path, "fulfillment_orders/1046000778/move");
    assert_eq!(
        r.body.unwrap().to_json_string(),
        r#"{"fulfillment_order":{"fulfillment_order_line_items":[{"id":111,"quantity":2}],"new_location_id":12345}}"#
    );
    let r = fo.reschedule_request(&reschedule_params).unwrap();
    assert_eq!(r.path, "fulfillment_orders/1046000778/reschedule");
    assert_eq!(r.body.unwrap().to_json_string(), r#"{"new_fulfill_at":"2024-02-01T00:00:00Z"}"#);
    let unsaved = FulfillmentOrder::default();
    assert_eq!(
        unsaved.hold_request(&hold_params),
        Err(ResourceError::PathResolutionFailed { resource: "FulfillmentOrder", operation: "hold" })
    );
}

#[test]
fn test_fulfillment_request_signatures() {
    let items = vec![FulfillmentOrderLineItemInput { id: 1, quantity: 3 }];
    let r = FulfillmentRequest::create_request(1046000778, Some("Ship it"), Some(&items));
    assert_eq!(r.method, HttpMethod::Post);
    assert_eq!(r.path, "fulfillment_orders/1046000778/fulfillment_request");
    assert_eq!(
        r.body.unwrap().to_json_string(),
        r#"{"fulfillment_request":{"fulfillment_order_line_items":[{"id":1,"quantity":3}],"message":"Ship it"}}"#
    );

    let r = FulfillmentRequest::accept_request(1046000778, Some("ok"));
    assert_eq!(r.path, "fulfillment_orders/1046000778/fulfillment_request/accept");
    assert_eq!(r.body.unwrap().to_json_string(), r#"{"fulfillment_request":{"message":"ok"}}"#);

    let r = FulfillmentRequest::reject_request(1046000778, None, Some("no stock"));
    assert_eq!(r.path, "fulfillment_orders/1046000778/fulfillment_request/reject");
    assert_eq!(r.body.unwrap().to_json_string(), r#"{"fulfillment_request":{"reason":"no stock"}}"#);
    let r = FulfillmentRequest::reject_request(1046000778, None, None);
    assert_eq!(r.body.unwrap().to_json_string(), "{}");
}

#[test]
fn test_cancellation_request_signatures() {
    let r = CancellationRequest::create_request(1046000778, Some("Customer cancelled"));
    assert_eq!(r.method, HttpMethod::Post);
    assert_eq!(r.path, "fulfillment_orders/1046000778/cancellation_request");
    assert_eq!(
        r.body.unwrap().to_json_string(),
        r#"{"cancellation_request":{"message":"Customer cancelled"}}"#
    );

    let r = CancellationRequest::accept_request(1046000778, None);
    assert_eq!(r.path, "fulfillment_orders/1046000778/cancellation_request/accept");
    assert_eq!(r.body.unwrap().to_json_string(), "{}");

    let r = CancellationRequest::reject_request(1046000778, Some("Already shipped"));
    assert_eq!(r.path, "fulfillment_orders/1046000778/cancellation_request/reject");
}

#[test]
fn test_fulfillment_order_get_id_returns_correct_value() {
    let fo_with_id = FulfillmentOrder {
        id: Some(1046000778),
        order_id: Some(450789469),
        ..Default::default()
    };
    assert_eq!(fo_with_id.get_id(), Some(1046000778));

    let fo_without_id = FulfillmentOrder {
        id: None,
        order_id: Some(450789469),
        ..Default::default()
    };
    assert_eq!(fo_without_id.get_id(), None);
}
#[test]
fn test_fulfillment_service_crud_without_count() {
    let fulfillment_service_paths = FulfillmentService::paths();
    // Find by ID
    let find_path = get_path(&fulfillment_service_paths, ResourceOperation::Find, &["id"]);
    assert!(find_path.is_some());
    assert_eq!(find_path.unwrap().template, "fulfillment_services/{id}");

    // List all
    let all_path = get_path(&fulfillment_service_paths, ResourceOperation::All, &[]);
    assert!(all_path.is_some());
    assert_eq!(all_path.unwrap().template, "fulfillment_services");

    // No count path
    let count_path = get_path(&fulfillment_service_paths, ResourceOperation::Count, &[]);
    assert!(count_path.is_none());

    // Create
    let create_path = get_path(&fulfillment_service_paths, ResourceOperation::Create, &[]);
    assert!(create_path.is_some());
    assert_eq!(create_path.unwrap().template, "fulfillment_services");

    // Update
    let update_path = get_path(&fulfillment_service_paths, ResourceOperation::Update, &["id"]);
    assert!(update_path.is_some());
    assert_eq!(update_path.unwrap().template, "fulfillment_services/{id}");

    // Delete
    let delete_path = get_path(&fulfillment_service_paths, ResourceOperation::Delete, &["id"]);
    assert!(delete_path.is_some());
    assert_eq!(delete_path.unwrap().template, "fulfillment_services/{id}");
}

#[test]
fn test_fulfillment_service_constants() {
    assert_eq!(FulfillmentService::NAME, "FulfillmentService");
    assert_eq!(FulfillmentService::PLURAL, "fulfillment_services");
}

#[test]
fn test_fulfillment_service_get_id() {
    let service_with_id = FulfillmentService {
        id: Some(61629186),
        name: Some("Test Service".to_string()),
        ..Default::default()
    };
    assert_eq!(service_with_id.get_id(), Some(61629186));

    let service_without_id = FulfillmentService::default();
    assert_eq!(service_without_id.get_id(), None);
}
#[test]
fn test_gift_card_path_constants() {
    let gift_card_paths = GiftCard::paths();
    // Test Find path
    let find_path = get_path(&gift_card_paths, ResourceOperation::Find, &["id"]);
    assert!(find_path.is_some());
    assert_eq!(find_path.unwrap().template, "gift_cards/{id}");
    assert_eq!(find_path.unwrap().http_method, HttpMethod::Get);

    // Test All path
    let all_path = get_path(&gift_card_paths, ResourceOperation::All, &[]);
    assert!(all_path.is_some());
    assert_eq!(all_path.unwrap().template, "gift_cards");

    // Test Count path
    let count_path = get_path(&gift_card_paths, ResourceOperation::Count, &[]);
    assert!(count_path.is_some());
    assert_eq!(count_path.unwrap().template, "gift_cards/count");

    // Test Create path
    let create_path = get_path(&gift_card_paths, ResourceOperation::Create, &[]);
    assert!(create_path.is_some());
    assert_eq!(create_path.unwrap().template, "gift_cards");
    assert_eq!(create_path.unwrap().http_method, HttpMethod::Post);

    // Test Update path
    let update_path = get_path(&gift_card_paths, ResourceOperation::Update, &["id"]);
    assert!(update_path.is_some());
    assert_eq!(update_path.unwrap().template, "gift_cards/{id}");
    assert_eq!(update_path.unwrap().http_method, HttpMethod::Put);

    // Test that there is NO Delete path
    let delete_path = get_path(&gift_card_paths, ResourceOperation::Delete, &["id"]);
    assert!(delete_path.is_none());

    // Verify constants
    assert_eq!(GiftCard::NAME, "GiftCard");
    assert_eq!(GiftCard::PLURAL, "gift_cards");
}

#[test]
fn test_disable_method_signature() {
    // Verify PathResolutionFailed error is returned when gift card has no ID
    let gift_card_without_id = GiftCard::default();
    assert!(gift_card_without_id.get_id().is_none());
    assert_eq!(
        gift_card_without_id.disable_request(),
        Err(ResourceError::PathResolutionFailed { resource: "GiftCard", operation: "disable" })
    );
    let card = GiftCard { id: Some(1035197676), ..Default::default() };
    let r = card.disable_request().unwrap();
    assert_eq!(r.method, HttpMethod::Post);
    assert_eq!(r.path, "gift_cards/1035197676/disable");
}

#[test]
fn test_search_method_signature() {
    let r = GiftCard::search_request("balance:>0");
    assert_eq!(r.method, HttpMethod::Get);
    assert_eq!(r.path, "gift_cards/search");
    assert_eq!(r.query.unwrap().get("query"), Some(&"balance:>0".to_string()));
}

#[test]
fn test_gift_card_is_enabled_disabled() {
    let enabled_gift_card = GiftCard {
        id: Some(123),
        balance: Some("100.00".to_string()),
        disabled_at: None,
        ..Default::default()
    };

    assert!(enabled_gift_card.is_enabled());
    assert!(!enabled_gift_card.is_disabled());

    let disabled_gift_card = GiftCard {
        id: Some(456),
        balance: Some("0.00".to_string()),
        disabled_at: Some("2024-01-15T10:30:00Z".to_string()),
        ..Default::default()
    };

    assert!(!disabled_gift_card.is_enabled());
    assert!(disabled_gift_card.is_disabled());
}

#[test]
fn test_gift_card_get_id_returns_correct_value() {
    let gift_card_with_id = GiftCard {
        id: Some(1035197676),
        balance: Some("100.00".to_string()),
        ..Default::default()
    };
    assert_eq!(gift_card_with_id.get_id(), Some(1035197676));

    let gift_card_without_id = GiftCard {
        id: None,
        initial_value: Some("50.00".to_string()),
        ..Default::default()
    };
    assert_eq!(gift_card_without_id.get_id(), None);
}
#[test]
fn test_inventory_item_get_id_returns_correct_value() {
    // Inventory item with ID
    let item_with_id = InventoryItem {
        id: Some(808950810),
        sku: Some("TEST-SKU".to_string()),
        ..Default::default()
    };
    assert_eq!(item_with_id.get_id(), Some(808950810));

    // Inventory item without ID (should not normally happen since items are auto-created)
    let item_without_id = InventoryItem {
        id: None,
        sku: Some("NEW-SKU".to_string()),
        ..Default::default()
    };
    assert_eq!(item_without_id.get_id(), None);

    // Verify trait constants
    assert_eq!(InventoryItem::NAME, "InventoryItem");
    assert_eq!(InventoryItem::PLURAL, "inventory_items");
}

#[test]
fn test_inventory_item_path_constants_are_correct() {
    let inventory_item_paths = InventoryItem::paths();
    // Test Find path (standalone only)
    let find_path = get_path(&inventory_item_paths, ResourceOperation::Find, &["id"]);
    assert!(find_path.is_some());
    assert_eq!(find_path.unwrap().template, "inventory_items/{id}");
    assert_eq!(find_path.unwrap().http_method, HttpMethod::Get);

    // Test All path (standalone)
    let all_path = get_path(&inventory_item_paths, ResourceOperation::All, &[]);
    assert!(all_path.is_some());
    assert_eq!(all_path.unwrap().template, "inventory_items");
    assert_eq!(all_path.unwrap().http_method, HttpMethod::Get);

    // Test Update path
    let update_path = get_path(&inventory_item_paths, ResourceOperation::Update, &["id"]);
    assert!(update_path.is_some());
    assert_eq!(update_path.unwrap().template, "inventory_items/{id}");
    assert_eq!(update_path.unwrap().http_method, HttpMethod::Put);

    // No Create path (inventory items are auto-created with variants)
    let create_path = get_path(&inventory_item_paths, ResourceOperation::Create, &[]);
    assert!(create_path.is_none());

    // No Delete path (inventory items are auto-deleted with variants)
    let delete_path = get_path(&inventory_item_paths, ResourceOperation::Delete, &["id"]);
    assert!(delete_path.is_none());

    // No Count path for inventory items
    let count_path = get_path(&inventory_item_paths, ResourceOperation::Count, &[]);
    assert!(count_path.is_none());
}
#[test]
fn test_inventory_level_has_no_id_field() {
    // InventoryLevel uses composite key (inventory_item_id + location_id)
    let level = InventoryLevel {
        inventory_item_id: Some(808950810),
        location_id: Some(655441491),
        available: Some(100),
        updated_at: None,
        admin_graphql_api_id: None,
    };

    // get_id should return None since there's no single ID field
    assert!(level.get_id().is_none());
}

#[test]
fn test_inventory_level_special_operations_path_construction() {
    // Verify the paths used by special operations
    // These are NOT in the PATHS constant but are used by the associated functions

    // adjust -> inventory_levels/adjust
    assert_eq!(format!("inventory_levels/adjust"), "inventory_levels/adjust");

    // connect -> inventory_levels/connect
    assert_eq!(
        format!("inventory_levels/connect"),
        "inventory_levels/connect"
    );

    // set -> inventory_levels/set
    assert_eq!(format!("inventory_levels/set"), "inventory_levels/set");

    // delete_at_location -> inventory_levels with query params
    assert_eq!(format!("inventory_levels"), "inventory_levels");

    // The requests of the operations use them.
    assert_eq!(InventoryLevel::adjust_request(1, 2, -3).path, "inventory_levels/adjust");
    assert_eq!(InventoryLevel::connect_request(1, 2, None).path, "inventory_levels/connect");
    assert_eq!(InventoryLevel::set_request(1, 2, 5, None).path, "inventory_levels/set");
    assert_eq!(InventoryLevel::delete_at_location_request(1, 2).path, "inventory_levels");
}

#[test]
fn test_inventory_level_paths() {
    let inventory_level_paths = InventoryLevel::paths();
    // Should only have All path
    let all_path = get_path(&inventory_level_paths, ResourceOperation::All, &[]);
    assert!(all_path.is_some());
    assert_eq!(all_path.unwrap().template, "inventory_levels");
    assert_eq!(all_path.unwrap().http_method, HttpMethod::Get);

    // Should NOT have Find, Create, Update, Delete, Count paths
    assert!(get_path(&inventory_level_paths, ResourceOperation::Find, &["id"]).is_none());
    assert!(get_path(&inventory_level_paths, ResourceOperation::Create, &[]).is_none());
    assert!(get_path(&inventory_level_paths, ResourceOperation::Update, &["id"]).is_none());
    assert!(get_path(&inventory_level_paths, ResourceOperation::Delete, &["id"]).is_none());
    assert!(get_path(&inventory_level_paths, ResourceOperation::Count, &[]).is_none());
}

#[test]
fn test_inventory_level_constants() {
    assert_eq!(InventoryLevel::NAME, "InventoryLevel");
    assert_eq!(InventoryLevel::PLURAL, "inventory_levels");
}
