//! Blog resource implementation.
use vstd::prelude::*;

use super::common::BlogCommentable;
use crate::clients::HttpMethod;
use crate::rest::path::{names, views, PathView, ResourceOperation, ResourcePath};

verus! {

/// A blog in a Shopify store.
///
/// Blogs are containers for articles. A store can have multiple blogs,
/// each with its own set of articles. Blogs support comment settings
/// and can integrate with Feedburner.
///
/// # Fields
///
/// ## Read-Only Fields
/// - `id` - The unique identifier of the blog
/// - `created_at` - When the blog was created
/// - `updated_at` - When the blog was last updated
/// - `admin_graphql_api_id` - The GraphQL API ID
///
/// ## Writable Fields
/// - `title` - The title of the blog
/// - `handle` - The URL-friendly handle (auto-generated from title if not set)
/// - `commentable` - Comment settings (no, moderate, yes)
/// - `template_suffix` - The suffix of the Liquid template used for the blog
/// - `feedburner` - The Feedburner URL (optional)
/// - `feedburner_location` - The Feedburner location (optional)
/// - `tags` - Comma-separated tags for the blog
#[derive(Debug, Clone, Default, PartialEq, Eq)]
pub struct Blog {
    /// The unique identifier of the blog.
    /// Read-only field.
    pub id: Option<u64>,

    /// The title of the blog.
    pub title: Option<String>,

    /// The URL-friendly handle of the blog.
    /// Auto-generated from the title if not specified.
    pub handle: Option<String>,

    /// The comment moderation setting for the blog.
    pub commentable: Option<BlogCommentable>,

    /// The suffix of the Liquid template used for the blog.
    /// For example, if the value is "custom", the blog uses the
    /// `blog.custom.liquid` template.
    pub template_suffix: Option<String>,

    /// The Feedburner URL for the blog.
    /// Used to redirect RSS feeds through Feedburner.
    pub feedburner: Option<String>,

    /// The Feedburner location.
    pub feedburner_location: Option<String>,

    /// Comma-separated tags for the blog.
    pub tags: Option<String>,

    /// When the blog was created.
    /// Read-only field.
    pub created_at: Option<String>,

    /// When the blog was last updated.
    /// Read-only field.
    pub updated_at: Option<String>,

    /// The admin GraphQL API ID for this blog.
    /// Read-only field.
    pub admin_graphql_api_id: Option<String>,
}

impl Blog {
    /// The singular name of the resource.
    pub const NAME: &'static str = "Blog";

    /// The plural name used in URL paths.
    pub const PLURAL: &'static str = "blogs";

    /// The paths of this resource as plain values: method, operation,
    /// ID names and template.
    pub open spec fn path_views() -> Seq<PathView> {
        seq![
            (HttpMethod::Get, ResourceOperation::Find, seq!["id"@], "blogs/{id}"@),
            (HttpMethod::Get, ResourceOperation::All, Seq::<Seq<char>>::empty(), "blogs"@),
            (HttpMethod::Get, ResourceOperation::Count, Seq::<Seq<char>>::empty(), "blogs/count"@),
            (HttpMethod::Post, ResourceOperation::Create, Seq::<Seq<char>>::empty(), "blogs"@),
            (HttpMethod::Put, ResourceOperation::Update, seq!["id"@], "blogs/{id}"@),
            (HttpMethod::Delete, ResourceOperation::Delete, seq!["id"@], "blogs/{id}"@),
        ]
    }

    /// The paths of this resource, one per supported operation and ID set.
    pub fn paths() -> (p: Vec<ResourcePath>)
        ensures
            views(p@) == Self::path_views(),
    {
        let mut p = Vec::new();
        p.push(ResourcePath::new(HttpMethod::Get, ResourceOperation::Find, &["id"], "blogs/{id}"));
        p.push(ResourcePath::new(HttpMethod::Get, ResourceOperation::All, &[], "blogs"));
        p.push(ResourcePath::new(HttpMethod::Get, ResourceOperation::Count, &[], "blogs/count"));
        p.push(ResourcePath::new(HttpMethod::Post, ResourceOperation::Create, &[], "blogs"));
        p.push(ResourcePath::new(HttpMethod::Put, ResourceOperation::Update, &["id"], "blogs/{id}"));
        p.push(ResourcePath::new(HttpMethod::Delete, ResourceOperation::Delete, &["id"], "blogs/{id}"));
        assert(names(p@[0].ids@) =~= seq!["id"@]);
        assert(names(p@[1].ids@) =~= Seq::<Seq<char>>::empty());
        assert(names(p@[2].ids@) =~= Seq::<Seq<char>>::empty());
        assert(names(p@[3].ids@) =~= Seq::<Seq<char>>::empty());
        assert(names(p@[4].ids@) =~= seq!["id"@]);
        assert(names(p@[5].ids@) =~= seq!["id"@]);
        p
    }

    /// Returns the resource's ID, or `None` for a resource not saved yet.
    pub fn get_id(&self) -> (id: Option<u64>)
        ensures
            id == self.id,
    {
        self.id
    }
}

/// Parameters for finding a single blog.
#[derive(Debug, Clone, Default, PartialEq, Eq)]
pub struct BlogFindParams {
    /// Comma-separated list of fields to include in the response.
    pub fields: Option<String>,
}

/// Parameters for listing blogs.
#[derive(Debug, Clone, Default, PartialEq, Eq)]
pub struct BlogListParams {
    /// Filter by blog handle.
    pub handle: Option<String>,

    /// Show blogs created after this date.
    pub created_at_min: Option<String>,

    /// Show blogs created before this date.
    pub created_at_max: Option<String>,

    /// Show blogs updated after this date.
    pub updated_at_min: Option<String>,

    /// Show blogs updated before this date.
    pub updated_at_max: Option<String>,

    /// Maximum number of results to return (default: 50, max: 250).
    pub limit: Option<u32>,

    /// Return blogs after this ID.
    pub since_id: Option<u64>,

    /// Cursor for pagination.
    pub page_info: Option<String>,

    /// Comma-separated list of fields to include in the response.
    pub fields: Option<String>,
}

/// Parameters for counting blogs.
#[derive(Debug, Clone, Default, PartialEq, Eq)]
pub struct BlogCountParams {
    // No specific count params for blogs
}

} // verus!
