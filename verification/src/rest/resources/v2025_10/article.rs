//! Article resource implementation.
use vstd::prelude::*;

use crate::rest::resource::{parent_entries, parent_id_map};

use crate::clients::HttpMethod;
use crate::rest::path::{names, views, PathView, ResourceOperation, ResourcePath};
use crate::json::JsonValue;
use crate::rest::errors::ResourceError;
use crate::rest::params::insert_entry;
use crate::rest::path::operation_name;
use crate::rest::resource::{
    count_with_parent_request, optional_query, plan_request, planned, query_for, RestRequest,
};
use crate::rest::StringMap;

verus! {

/// An image associated with an article.
///
/// Similar to `CollectionImage`, this represents the featured image
/// for a blog article.
#[derive(Debug, Clone, Default, PartialEq, Eq)]
pub struct ArticleImage {
    /// The source URL of the article image.
    pub src: Option<String>,

    /// Alternative text for the image (for accessibility).
    pub alt: Option<String>,

    /// The width of the image in pixels.
    pub width: Option<i64>,

    /// The height of the image in pixels.
    pub height: Option<i64>,

    /// When the image was created.
    /// Read-only field.
    pub created_at: Option<String>,
}

/// A blog article in a Shopify store.
///
/// Articles are blog posts that belong to a specific blog. They are
/// nested resources that require a `blog_id` for all operations.
///
/// # Nested Resource
///
/// Articles follow the same nested path pattern as Variants:
/// - All operations require `blog_id` context
/// - Use `all_with_parent_request` with `blog_id` to list articles under a blog
/// - The `blog_id` field is required for creating new articles: pass
///   `parent_ids()` to `save_request`
///
/// # Fields
///
/// ## Read-Only Fields
/// - `id` - The unique identifier of the article
/// - `blog_id` - The ID of the blog this article belongs to (also required for creation)
/// - `user_id` - The ID of the user who authored the article
/// - `created_at` - When the article was created
/// - `updated_at` - When the article was last updated
/// - `admin_graphql_api_id` - The GraphQL API ID
///
/// ## Writable Fields
/// - `title` - The title of the article
/// - `handle` - The URL-friendly handle (auto-generated from title if not set)
/// - `body_html` - The HTML content of the article
/// - `author` - The author name displayed on the article
/// - `summary_html` - The summary/excerpt of the article
/// - `template_suffix` - The suffix of the Liquid template used for the article
/// - `tags` - Comma-separated tags for the article
/// - `image` - The featured image for the article
/// - `published_at` - When the article was published (can be set to future for scheduling)
#[derive(Debug, Clone, Default, PartialEq, Eq)]
pub struct Article {
    /// The unique identifier of the article.
    /// Read-only field.
    pub id: Option<u64>,

    /// The ID of the blog this article belongs to.
    /// Required for creating new articles.
    pub blog_id: Option<u64>,

    /// The title of the article.
    pub title: Option<String>,

    /// The URL-friendly handle of the article.
    /// Auto-generated from the title if not specified.
    pub handle: Option<String>,

    /// The HTML content of the article.
    pub body_html: Option<String>,

    /// The author name displayed on the article.
    pub author: Option<String>,

    /// The summary/excerpt of the article in HTML.
    pub summary_html: Option<String>,

    /// The suffix of the Liquid template used for the article.
    /// For example, if the value is "custom", the article uses the
    /// `article.custom.liquid` template.
    pub template_suffix: Option<String>,

    /// Comma-separated tags for the article.
    pub tags: Option<String>,

    /// The featured image for the article.
    pub image: Option<ArticleImage>,

    /// When the article was or will be published.
    /// Set to a future date to schedule publication.
    /// Set to `null` to unpublish.
    pub published_at: Option<String>,

    /// The ID of the user who authored the article.
    /// Read-only field.
    pub user_id: Option<u64>,

    /// When the article was created.
    /// Read-only field.
    pub created_at: Option<String>,

    /// When the article was last updated.
    /// Read-only field.
    pub updated_at: Option<String>,

    /// The admin GraphQL API ID for this article.
    /// Read-only field.
    pub admin_graphql_api_id: Option<String>,
}

impl Article {
    /// The singular name of the resource.
    pub const NAME: &'static str = "Article";

    /// The plural name used in URL paths.
    pub const PLURAL: &'static str = "articles";

    /// The paths of this resource as plain values: method, operation,
    /// ID names and template.
    pub open spec fn path_views() -> Seq<PathView> {
        seq![
            (HttpMethod::Get, ResourceOperation::Find, seq!["blog_id"@, "id"@], "blogs/{blog_id}/articles/{id}"@),
            (HttpMethod::Get, ResourceOperation::All, seq!["blog_id"@], "blogs/{blog_id}/articles"@),
            (HttpMethod::Get, ResourceOperation::Count, seq!["blog_id"@], "blogs/{blog_id}/articles/count"@),
            (HttpMethod::Post, ResourceOperation::Create, seq!["blog_id"@], "blogs/{blog_id}/articles"@),
            (HttpMethod::Put, ResourceOperation::Update, seq!["blog_id"@, "id"@], "blogs/{blog_id}/articles/{id}"@),
            (HttpMethod::Delete, ResourceOperation::Delete, seq!["blog_id"@, "id"@], "blogs/{blog_id}/articles/{id}"@),
        ]
    }

    /// The paths of this resource, one per supported operation and ID set.
    pub fn paths() -> (p: Vec<ResourcePath>)
        ensures
            views(p@) == Self::path_views(),
    {
        let mut p = Vec::new();
        p.push(ResourcePath::new(HttpMethod::Get, ResourceOperation::Find, &["blog_id", "id"], "blogs/{blog_id}/articles/{id}"));
        p.push(ResourcePath::new(HttpMethod::Get, ResourceOperation::All, &["blog_id"], "blogs/{blog_id}/articles"));
        p.push(ResourcePath::new(HttpMethod::Get, ResourceOperation::Count, &["blog_id"], "blogs/{blog_id}/articles/count"));
        p.push(ResourcePath::new(HttpMethod::Post, ResourceOperation::Create, &["blog_id"], "blogs/{blog_id}/articles"));
        p.push(ResourcePath::new(HttpMethod::Put, ResourceOperation::Update, &["blog_id", "id"], "blogs/{blog_id}/articles/{id}"));
        p.push(ResourcePath::new(HttpMethod::Delete, ResourceOperation::Delete, &["blog_id", "id"], "blogs/{blog_id}/articles/{id}"));
        assert(names(p@[0].ids@) =~= seq!["blog_id"@, "id"@]);
        assert(names(p@[1].ids@) =~= seq!["blog_id"@]);
        assert(names(p@[2].ids@) =~= seq!["blog_id"@]);
        assert(names(p@[3].ids@) =~= seq!["blog_id"@]);
        assert(names(p@[4].ids@) =~= seq!["blog_id"@, "id"@]);
        assert(names(p@[5].ids@) =~= seq!["blog_id"@, "id"@]);
        p
    }

    /// Plans counting the articles under a parent (such as `blog_id`): GET on
    /// the `Count` path for that parent ID, keeping the string, number and
    /// boolean params.
    pub fn count_with_parent_request(
        parent_id_name: &str,
        parent_id: &str,
        params: Option<&JsonValue>,
    ) -> (r: Result<RestRequest, ResourceError>)
        ensures
            planned(
                Self::path_views(),
                None,
                Self::NAME,
                ResourceOperation::Count,
                operation_name(ResourceOperation::Count),
                insert_entry(Seq::empty(), parent_id_name@, parent_id@),
                HttpMethod::Get,
                optional_query(params, true),
                r,
            ),
    {
        let paths = Self::paths();
        count_with_parent_request(paths.as_slice(), Self::NAME, parent_id_name, parent_id, params)
    }

    /// The IDs of the parent it is saved under: `blog_id` when set.
    pub fn parent_ids(&self) -> (m: StringMap)
        ensures
            m@ == parent_entries("blog_id"@, self.blog_id),
    {
        parent_id_map("blog_id", self.blog_id)
    }

    /// Returns the resource's ID, or `None` for a resource not saved yet.
    pub fn get_id(&self) -> (id: Option<u64>)
        ensures
            id == self.id,
    {
        self.id
    }
}

/// Parameters for finding a single article.
#[derive(Debug, Clone, Default, PartialEq, Eq)]
pub struct ArticleFindParams {
    /// Comma-separated list of fields to include in the response.
    pub fields: Option<String>,
}

/// Parameters for listing articles.
#[derive(Debug, Clone, Default, PartialEq, Eq)]
pub struct ArticleListParams {
    /// Filter by article author.
    pub author: Option<String>,

    /// Filter by article handle.
    pub handle: Option<String>,

    /// Filter by tag.
    pub tag: Option<String>,

    /// Filter by published status.
    /// Valid values: `published`, `unpublished`, `any`.
    pub published_status: Option<String>,

    /// Show articles created after this date.
    pub created_at_min: Option<String>,

    /// Show articles created before this date.
    pub created_at_max: Option<String>,

    /// Show articles updated after this date.
    pub updated_at_min: Option<String>,

    /// Show articles updated before this date.
    pub updated_at_max: Option<String>,

    /// Show articles published after this date.
    pub published_at_min: Option<String>,

    /// Show articles published before this date.
    pub published_at_max: Option<String>,

    /// Maximum number of results to return (default: 50, max: 250).
    pub limit: Option<u32>,

    /// Return articles after this ID.
    pub since_id: Option<u64>,

    /// Cursor for pagination.
    pub page_info: Option<String>,

    /// Comma-separated list of fields to include in the response.
    pub fields: Option<String>,
}

/// Parameters for counting articles.
#[derive(Debug, Clone, Default, PartialEq, Eq)]
pub struct ArticleCountParams {
    /// Filter by article author.
    pub author: Option<String>,

    /// Filter by tag.
    pub tag: Option<String>,

    /// Filter by published status.
    /// Valid values: `published`, `unpublished`, `any`.
    pub published_status: Option<String>,

    /// Show articles created after this date.
    pub created_at_min: Option<String>,

    /// Show articles created before this date.
    pub created_at_max: Option<String>,

    /// Show articles updated after this date.
    pub updated_at_min: Option<String>,

    /// Show articles updated before this date.
    pub updated_at_max: Option<String>,

    /// Show articles published after this date.
    pub published_at_min: Option<String>,

    /// Show articles published before this date.
    pub published_at_max: Option<String>,
}

} // verus!
