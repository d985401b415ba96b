//! Comment resource implementation.
use vstd::prelude::*;

use crate::clients::HttpMethod;
use crate::rest::path::{names, views, PathView, ResourceOperation, ResourcePath};
use crate::json::JsonValue;
use crate::rest::errors::ResourceError;
use crate::rest::params::insert_entry;
use crate::rest::path::operation_name;
use crate::rest::resource::{
    count_with_parent_request, id_path, is_empty_object, optional_query, planned, request, sends,
    unresolved, RestRequest,
};
use crate::rest::StringMap;
use crate::text::{decimal, u64_text};

verus! {

/// A comment on a blog article.
///
/// Comments can be moderated through various methods. The status
/// determines the visibility and state of the comment.
///
/// # Moderation Methods
///
/// - `approve_request()` - Change status to "published"
/// - `spam_request()` - Mark as spam
/// - `not_spam_request()` - Remove spam flag
/// - `remove_request()` - Change status to "removed"
/// - `restore_request()` - Change status from "removed" to previous state
///
/// # Fields
///
/// ## Read-Only Fields
/// - `id` - The unique identifier
/// - `article_id` - The article the comment belongs to
/// - `blog_id` - The blog the article belongs to
/// - `status` - The comment status (pending, published, spam, removed)
/// - `ip` - The IP address of the commenter
/// - `user_agent` - The browser user agent of the commenter
/// - `published_at` - When the comment was published
/// - `created_at` - When the comment was created
/// - `updated_at` - When the comment was last updated
///
/// ## Writable Fields
/// - `author` - The name of the comment author
/// - `email` - The email of the comment author
/// - `body` - The comment text
/// - `body_html` - The comment text in HTML
#[derive(Debug, Clone, Default, PartialEq, Eq)]
pub struct Comment {
    /// The unique identifier of the comment.
    /// Read-only field.
    pub id: Option<u64>,

    /// The ID of the article this comment belongs to.
    /// Read-only field.
    pub article_id: Option<u64>,

    /// The ID of the blog this comment belongs to.
    /// Read-only field.
    pub blog_id: Option<u64>,

    /// The name of the comment author.
    pub author: Option<String>,

    /// The email address of the comment author.
    pub email: Option<String>,

    /// The text of the comment.
    pub body: Option<String>,

    /// The text of the comment in HTML format.
    pub body_html: Option<String>,

    /// The status of the comment: pending, published, spam, removed.
    /// Read-only field - use moderation methods to change.
    pub status: Option<String>,

    /// The IP address of the commenter.
    /// Read-only field.
    pub ip: Option<String>,

    /// The browser user agent of the commenter.
    /// Read-only field.
    pub user_agent: Option<String>,

    /// When the comment was published.
    /// Read-only field.
    pub published_at: Option<String>,

    /// When the comment was created.
    /// Read-only field.
    pub created_at: Option<String>,

    /// When the comment was last updated.
    /// Read-only field.
    pub updated_at: Option<String>,
}

impl Comment {
    /// The singular name of the resource.
    pub const NAME: &'static str = "Comment";

    /// The plural name used in URL paths.
    pub const PLURAL: &'static str = "comments";

    /// The paths of this resource as plain values: method, operation,
    /// ID names and template.
    pub open spec fn path_views() -> Seq<PathView> {
        seq![
            (HttpMethod::Get, ResourceOperation::Find, seq!["id"@], "comments/{id}"@),
            (HttpMethod::Get, ResourceOperation::All, Seq::<Seq<char>>::empty(), "comments"@),
            (HttpMethod::Get, ResourceOperation::Count, Seq::<Seq<char>>::empty(), "comments/count"@),
            (HttpMethod::Post, ResourceOperation::Create, Seq::<Seq<char>>::empty(), "comments"@),
            (HttpMethod::Put, ResourceOperation::Update, seq!["id"@], "comments/{id}"@),
            (HttpMethod::Delete, ResourceOperation::Delete, seq!["id"@], "comments/{id}"@),
            (HttpMethod::Get, ResourceOperation::All, seq!["article_id"@], "articles/{article_id}/comments"@),
            (HttpMethod::Get, ResourceOperation::Count, seq!["article_id"@], "articles/{article_id}/comments/count"@),
        ]
    }

    /// The paths of this resource, one per supported operation and ID set.
    pub fn paths() -> (p: Vec<ResourcePath>)
        ensures
            views(p@) == Self::path_views(),
    {
        let mut p = Vec::new();
        p.push(ResourcePath::new(HttpMethod::Get, ResourceOperation::Find, &["id"], "comments/{id}"));
        p.push(ResourcePath::new(HttpMethod::Get, ResourceOperation::All, &[], "comments"));
        p.push(ResourcePath::new(HttpMethod::Get, ResourceOperation::Count, &[], "comments/count"));
        p.push(ResourcePath::new(HttpMethod::Post, ResourceOperation::Create, &[], "comments"));
        p.push(ResourcePath::new(HttpMethod::Put, ResourceOperation::Update, &["id"], "comments/{id}"));
        p.push(ResourcePath::new(HttpMethod::Delete, ResourceOperation::Delete, &["id"], "comments/{id}"));
        p.push(ResourcePath::new(HttpMethod::Get, ResourceOperation::All, &["article_id"], "articles/{article_id}/comments"));
        p.push(ResourcePath::new(HttpMethod::Get, ResourceOperation::Count, &["article_id"], "articles/{article_id}/comments/count"));
        assert(names(p@[0].ids@) =~= seq!["id"@]);
        assert(names(p@[1].ids@) =~= Seq::<Seq<char>>::empty());
        assert(names(p@[2].ids@) =~= Seq::<Seq<char>>::empty());
        assert(names(p@[3].ids@) =~= Seq::<Seq<char>>::empty());
        assert(names(p@[4].ids@) =~= seq!["id"@]);
        assert(names(p@[5].ids@) =~= seq!["id"@]);
        assert(names(p@[6].ids@) =~= seq!["article_id"@]);
        assert(names(p@[7].ids@) =~= seq!["article_id"@]);
        p
    }

    fn moderation_request(&self, suffix: &str, operation: &'static str) -> (r: Result<
        RestRequest,
        ResourceError,
    >)
        ensures
            match self.id {
                None => unresolved(r, Self::NAME@, operation@),
                Some(id) => sends(r, HttpMethod::Post, "comments/"@ + decimal(id as nat) + suffix@, None)
                    && is_empty_object(r->Ok_0.body),
            },
    {
        match self.id {
            None => Err(ResourceError::PathResolutionFailed { resource: Self::NAME, operation }),
            Some(id) => {
                let path = id_path("comments/", id, suffix);
                Ok(request(HttpMethod::Post, path, None, Some(JsonValue::empty_object())))
            },
        }
    }

    /// Plans approving the comment: POST to `comments/{id}/approve` with an
    /// empty body. A comment without an ID cannot be moderated.
    pub fn approve_request(&self) -> (r: Result<RestRequest, ResourceError>)
        ensures
            match self.id {
                None => unresolved(r, Self::NAME@, "approve"@),
                Some(id) => sends(r, HttpMethod::Post, "comments/"@ + decimal(id as nat) + "/approve"@, None)
                    && is_empty_object(r->Ok_0.body),
            },
    {
        self.moderation_request("/approve", "approve")
    }

    /// Plans marking the comment as spam: POST to `comments/{id}/spam` with an
    /// empty body. A comment without an ID cannot be moderated.
    pub fn spam_request(&self) -> (r: Result<RestRequest, ResourceError>)
        ensures
            match self.id {
                None => unresolved(r, Self::NAME@, "spam"@),
                Some(id) => sends(r, HttpMethod::Post, "comments/"@ + decimal(id as nat) + "/spam"@, None)
                    && is_empty_object(r->Ok_0.body),
            },
    {
        self.moderation_request("/spam", "spam")
    }

    /// Plans marking the comment as not spam: POST to `comments/{id}/not_spam` with an
    /// empty body. A comment without an ID cannot be moderated.
    pub fn not_spam_request(&self) -> (r: Result<RestRequest, ResourceError>)
        ensures
            match self.id {
                None => unresolved(r, Self::NAME@, "not_spam"@),
                Some(id) => sends(r, HttpMethod::Post, "comments/"@ + decimal(id as nat) + "/not_spam"@, None)
                    && is_empty_object(r->Ok_0.body),
            },
    {
        self.moderation_request("/not_spam", "not_spam")
    }

    /// Plans removing the comment: POST to `comments/{id}/remove` with an
    /// empty body. A comment without an ID cannot be moderated.
    pub fn remove_request(&self) -> (r: Result<RestRequest, ResourceError>)
        ensures
            match self.id {
                None => unresolved(r, Self::NAME@, "remove"@),
                Some(id) => sends(r, HttpMethod::Post, "comments/"@ + decimal(id as nat) + "/remove"@, None)
                    && is_empty_object(r->Ok_0.body),
            },
    {
        self.moderation_request("/remove", "remove")
    }

    /// Plans restoring a removed comment: POST to `comments/{id}/restore` with an
    /// empty body. A comment without an ID cannot be moderated.
    pub fn restore_request(&self) -> (r: Result<RestRequest, ResourceError>)
        ensures
            match self.id {
                None => unresolved(r, Self::NAME@, "restore"@),
                Some(id) => sends(r, HttpMethod::Post, "comments/"@ + decimal(id as nat) + "/restore"@, None)
                    && is_empty_object(r->Ok_0.body),
            },
    {
        self.moderation_request("/restore", "restore")
    }

    /// Plans counting the comments of an article: GET on the `Count` path
    /// for `article_id`, keeping the string, number and boolean params.
    pub fn count_for_article_request(article_id: u64, params: Option<&JsonValue>) -> (r: Result<
        RestRequest,
        ResourceError,
    >)
        ensures
            planned(
                Self::path_views(),
                None,
                Self::NAME,
                ResourceOperation::Count,
                operation_name(ResourceOperation::Count),
                insert_entry(Seq::empty(), "article_id"@, decimal(article_id as nat)),
                HttpMethod::Get,
                optional_query(params, true),
                r,
            ),
    {
        let paths = Self::paths();
        let id = u64_text(article_id);
        count_with_parent_request(paths.as_slice(), Self::NAME, "article_id", id.as_str(), params)
    }

    /// Returns the resource's ID, or `None` for a resource not saved yet.
    pub fn get_id(&self) -> (id: Option<u64>)
        ensures
            id == self.id,
    {
        self.id
    }
}

/// Parameters for finding a single comment.
#[derive(Debug, Clone, Default, PartialEq, Eq)]
pub struct CommentFindParams {
    /// Comma-separated list of fields to include in the response.
    pub fields: Option<String>,
}

/// Parameters for listing comments.
#[derive(Debug, Clone, Default, PartialEq, Eq)]
pub struct CommentListParams {
    /// Maximum number of results to return (default: 50, max: 250).
    pub limit: Option<u32>,

    /// Return comments after this ID.
    pub since_id: Option<u64>,

    /// Show comments created after this date.
    pub created_at_min: Option<String>,

    /// Show comments created before this date.
    pub created_at_max: Option<String>,

    /// Show comments updated after this date.
    pub updated_at_min: Option<String>,

    /// Show comments updated before this date.
    pub updated_at_max: Option<String>,

    /// Show comments published after this date.
    pub published_at_min: Option<String>,

    /// Show comments published before this date.
    pub published_at_max: Option<String>,

    /// Filter comments by status: pending, published, spam, removed.
    pub status: Option<String>,

    /// Comma-separated list of fields to include in the response.
    pub fields: Option<String>,
}

/// Parameters for counting comments.
#[derive(Debug, Clone, Default, PartialEq, Eq)]
pub struct CommentCountParams {
    /// Show comments created after this date.
    pub created_at_min: Option<String>,

    /// Show comments created before this date.
    pub created_at_max: Option<String>,

    /// Show comments updated after this date.
    pub updated_at_min: Option<String>,

    /// Show comments updated before this date.
    pub updated_at_max: Option<String>,

    /// Show comments published after this date.
    pub published_at_min: Option<String>,

    /// Show comments published before this date.
    pub published_at_max: Option<String>,

    /// Filter comments by status: pending, published, spam, removed.
    pub status: Option<String>,
}

} // verus!
