//! AccessScope resource implementation.
use vstd::prelude::*;

use crate::clients::HttpMethod;
use crate::rest::resource::{request, RestRequest};
use crate::rest::path::{names, views, PathView, ResourceOperation, ResourcePath};
use crate::rest::errors::opt_text;

verus! {

/// An OAuth access scope associated with an access token.
///
/// Access scopes define what permissions the current access token has.
/// They are read-only and determined during the OAuth authorization process.
///
/// # Read-Only Resource
///
/// This resource implements [`ReadOnlyResource`] - only GET operations are
/// available. Access scopes cannot be modified through the API.
///
/// # Special Endpoint
///
/// This resource uses `oauth/access_scopes` instead of the standard
/// API-versioned endpoint.
///
/// # Fields
///
/// - `handle` - The scope identifier (e.g., "read_products", "write_orders")
#[derive(Debug, Clone, Default, PartialEq, Eq)]
pub struct AccessScope {
    /// The scope identifier (e.g., "read_products", "write_orders").
    pub handle: Option<String>,
}

impl AccessScope {
    /// The singular name of the resource.
    pub const NAME: &'static str = "AccessScope";

    /// The plural name used in URL paths.
    pub const PLURAL: &'static str = "access_scopes";

    /// The paths of this resource as plain values: method, operation,
    /// ID names and template.
    pub open spec fn path_views() -> Seq<PathView> {
        seq![
            (HttpMethod::Get, ResourceOperation::All, Seq::<Seq<char>>::empty(), "oauth/access_scopes"@),
        ]
    }

    /// The paths of this resource, one per supported operation and ID set.
    pub fn paths() -> (p: Vec<ResourcePath>)
        ensures
            views(p@) == Self::path_views(),
    {
        let mut p = Vec::new();
        p.push(ResourcePath::new(HttpMethod::Get, ResourceOperation::All, &[], "oauth/access_scopes"));
        assert(names(p@[0].ids@) =~= Seq::<Seq<char>>::empty());
        p
    }

    /// Plans listing the granted access scopes: GET on the OAuth endpoint
    /// `oauth/access_scopes`, which sits outside the versioned API.
    pub fn all_request() -> (r: RestRequest)
        ensures
            r.method == HttpMethod::Get,
            r.path@ == "oauth/access_scopes"@,
            r.query is None,
            r.body is None,
    {
        request(HttpMethod::Get, "oauth/access_scopes".to_string(), None, None)
    }

    /// Returns the resource's ID, or `None` for a resource not saved yet.
    pub fn get_id(&self) -> (id: Option<String>)
        ensures
            opt_text(id) == opt_text(self.handle),
    {
        match &self.handle {
            Some(v) => Some(v.clone()),
            None => None,
        }
    }
}

} // verus!
