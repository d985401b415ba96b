//! `CustomCollection` resource implementation.
use vstd::prelude::*;

use super::common::CollectionImage;
use crate::clients::HttpMethod;
use crate::rest::path::{names, views, PathView, ResourceOperation, ResourcePath};

verus! {

/// A manually curated collection of products.
///
/// Custom collections allow merchants to manually select which products to include
/// in the collection. Products are added to custom collections through "collects",
/// which are join records linking products to collections.
///
/// # Fields
///
/// ## Read-Only Fields
/// - `id` - The unique identifier
/// - `handle` - The URL-friendly name (auto-generated from title)
/// - `created_at` - When the collection was created
/// - `updated_at` - When the collection was last updated
/// - `admin_graphql_api_id` - The GraphQL API ID
///
/// ## Writable Fields
/// - `title` - The name of the collection
/// - `body_html` - The description in HTML format
/// - `published_at` - When the collection was/will be published
/// - `published_scope` - Where the collection is published ("web", "global")
/// - `sort_order` - How products are sorted in the collection
/// - `template_suffix` - The template suffix for the collection page
/// - `image` - The collection's featured image
#[derive(Debug, Clone, Default, PartialEq, Eq)]
pub struct CustomCollection {
    // --- Read-only fields ---
    /// The unique identifier of the custom collection.
    pub id: Option<u64>,

    /// The URL-friendly name of the collection.
    /// Automatically generated from the title if not specified.
    pub handle: Option<String>,

    /// When the collection was created.
    pub created_at: Option<String>,

    /// When the collection was last updated.
    pub updated_at: Option<String>,

    /// The admin GraphQL API ID for this collection.
    pub admin_graphql_api_id: Option<String>,

    // --- Writable fields ---
    /// The name of the collection.
    pub title: Option<String>,

    /// The description of the collection in HTML format.
    pub body_html: Option<String>,

    /// When the collection was or will be published.
    /// Set to null to unpublish.
    pub published_at: Option<String>,

    /// Where the collection is published.
    /// Valid values: "web", "global".
    pub published_scope: Option<String>,

    /// The order in which products appear in the collection.
    ///
    /// Valid values:
    /// - `alpha-asc` - Alphabetically, A-Z
    /// - `alpha-desc` - Alphabetically, Z-A
    /// - `best-selling` - By best-selling products
    /// - `created` - By date created, newest first
    /// - `created-desc` - By date created, oldest first
    /// - `manual` - Manual ordering
    /// - `price-asc` - By price, lowest to highest
    /// - `price-desc` - By price, highest to lowest
    pub sort_order: Option<String>,

    /// The suffix of the Liquid template used for the collection page.
    pub template_suffix: Option<String>,

    /// The collection's featured image.
    pub image: Option<CollectionImage>,

    /// Whether the collection is published.
    /// Convenience field returned by the API.
    pub published: Option<bool>,
}

impl CustomCollection {
    /// The singular name of the resource.
    pub const NAME: &'static str = "CustomCollection";

    /// The plural name used in URL paths.
    pub const PLURAL: &'static str = "custom_collections";

    /// The paths of this resource as plain values: method, operation,
    /// ID names and template.
    pub open spec fn path_views() -> Seq<PathView> {
        seq![
            (HttpMethod::Get, ResourceOperation::Find, seq!["id"@], "custom_collections/{id}"@),
            (HttpMethod::Get, ResourceOperation::All, Seq::<Seq<char>>::empty(), "custom_collections"@),
            (HttpMethod::Get, ResourceOperation::Count, Seq::<Seq<char>>::empty(), "custom_collections/count"@),
            (HttpMethod::Post, ResourceOperation::Create, Seq::<Seq<char>>::empty(), "custom_collections"@),
            (HttpMethod::Put, ResourceOperation::Update, seq!["id"@], "custom_collections/{id}"@),
            (HttpMethod::Delete, ResourceOperation::Delete, seq!["id"@], "custom_collections/{id}"@),
        ]
    }

    /// The paths of this resource, one per supported operation and ID set.
    pub fn paths() -> (p: Vec<ResourcePath>)
        ensures
            views(p@) == Self::path_views(),
    {
        let mut p = Vec::new();
        p.push(ResourcePath::new(HttpMethod::Get, ResourceOperation::Find, &["id"], "custom_collections/{id}"));
        p.push(ResourcePath::new(HttpMethod::Get, ResourceOperation::All, &[], "custom_collections"));
        p.push(ResourcePath::new(HttpMethod::Get, ResourceOperation::Count, &[], "custom_collections/count"));
        p.push(ResourcePath::new(HttpMethod::Post, ResourceOperation::Create, &[], "custom_collections"));
        p.push(ResourcePath::new(HttpMethod::Put, ResourceOperation::Update, &["id"], "custom_collections/{id}"));
        p.push(ResourcePath::new(HttpMethod::Delete, ResourceOperation::Delete, &["id"], "custom_collections/{id}"));
        assert(names(p@[0].ids@) =~= seq!["id"@]);
        assert(names(p@[1].ids@) =~= Seq::<Seq<char>>::empty());
        assert(names(p@[2].ids@) =~= Seq::<Seq<char>>::empty());
        assert(names(p@[3].ids@) =~= Seq::<Seq<char>>::empty());
        assert(names(p@[4].ids@) =~= seq!["id"@]);
        assert(names(p@[5].ids@) =~= seq!["id"@]);
        p
    }

    /// Returns the resource's ID, or `None` for a resource not saved yet.
    pub fn get_id(&self) -> (id: Option<u64>)
        ensures
            id == self.id,
    {
        self.id
    }
}

/// Parameters for finding a single custom collection.
#[derive(Debug, Clone, Default, PartialEq, Eq)]
pub struct CustomCollectionFindParams {
    /// Comma-separated list of fields to include in the response.
    pub fields: Option<String>,
}

/// Parameters for listing custom collections.
#[derive(Debug, Clone, Default, PartialEq, Eq)]
pub struct CustomCollectionListParams {
    /// Return only collections with the given IDs.
    pub ids: Option<Vec<u64>>,

    /// Maximum number of results to return (default: 50, max: 250).
    pub limit: Option<u32>,

    /// Return collections after this ID.
    pub since_id: Option<u64>,

    /// Filter by collection title.
    pub title: Option<String>,

    /// Filter by collection handle.
    pub handle: Option<String>,

    /// Filter to collections containing this product.
    pub product_id: Option<u64>,

    /// Show collections updated after this date.
    pub updated_at_min: Option<String>,

    /// Show collections updated before this date.
    pub updated_at_max: Option<String>,

    /// Filter by published status.
    /// Valid values: "published", "unpublished", "any".
    pub published_status: Option<String>,

    /// Comma-separated list of fields to include in the response.
    pub fields: Option<String>,

    /// Cursor for pagination.
    pub page_info: Option<String>,
}

/// Parameters for counting custom collections.
#[derive(Debug, Clone, Default, PartialEq, Eq)]
pub struct CustomCollectionCountParams {
    /// Filter by collection title.
    pub title: Option<String>,

    /// Filter to collections containing this product.
    pub product_id: Option<u64>,

    /// Show collections updated after this date.
    pub updated_at_min: Option<String>,

    /// Show collections updated before this date.
    pub updated_at_max: Option<String>,

    /// Filter by published status.
    /// Valid values: "published", "unpublished", "any".
    pub published_status: Option<String>,
}

} // verus!
