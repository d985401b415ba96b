//! Event resource implementation.
use vstd::prelude::*;

use crate::clients::HttpMethod;
use crate::rest::path::{names, views, PathView, ResourceOperation, ResourcePath};
use crate::json::JsonValue;
use crate::rest::errors::ResourceError;
use crate::rest::params::insert_entry;
use crate::rest::path::operation_name;
use crate::rest::resource::{
    count_with_parent_request, optional_query, plan_request, planned, query_for, RestRequest,
};
use crate::rest::StringMap;

verus! {

/// An event representing an action in the store.
///
/// Events are read-only records of actions that have occurred on resources.
/// They are automatically created by Shopify and cannot be modified.
///
/// # Read-Only Resource
///
/// This resource implements [`ReadOnlyResource`] - only GET operations are
/// available. Events are recorded automatically when actions occur.
///
/// # Fields
///
/// All fields are read-only:
/// - `id` - The unique identifier
/// - `subject_id` - The ID of the resource the event is for
/// - `subject_type` - The type of resource (e.g., "Product", "Order")
/// - `verb` - The action that occurred (e.g., "create", "update", "destroy")
/// - `arguments` - Any additional arguments for the event
/// - `message` - Human-readable description of the event
/// - `description` - Detailed description of the event
/// - `body` - The body of the event (for some event types)
/// - `path` - The relative path to the resource
/// - `created_at` - When the event occurred
#[derive(Debug, Clone, Default, PartialEq)]
pub struct Event {
    /// The unique identifier of the event.
    pub id: Option<u64>,

    /// The ID of the resource the event is for.
    pub subject_id: Option<u64>,

    /// The type of resource (e.g., "Product", "Order", "Article").
    pub subject_type: Option<String>,

    /// The action that occurred (e.g., "create", "update", "destroy").
    pub verb: Option<String>,

    /// Additional arguments for the event.
    pub arguments: Option<Vec<String>>,

    /// Human-readable description of the event.
    pub message: Option<String>,

    /// Detailed description of the event.
    pub description: Option<String>,

    /// The body of the event (for some event types).
    pub body: Option<String>,

    /// The relative path to the resource.
    pub path: Option<String>,

    /// When the event occurred.
    pub created_at: Option<String>,
}

impl Event {
    /// The singular name of the resource.
    pub const NAME: &'static str = "Event";

    /// The plural name used in URL paths.
    pub const PLURAL: &'static str = "events";

    /// The paths of this resource as plain values: method, operation,
    /// ID names and template.
    pub open spec fn path_views() -> Seq<PathView> {
        seq![
            (HttpMethod::Get, ResourceOperation::Find, seq!["id"@], "events/{id}"@),
            (HttpMethod::Get, ResourceOperation::All, Seq::<Seq<char>>::empty(), "events"@),
            (HttpMethod::Get, ResourceOperation::Count, Seq::<Seq<char>>::empty(), "events/count"@),
            (HttpMethod::Get, ResourceOperation::All, seq!["order_id"@], "orders/{order_id}/events"@),
            (HttpMethod::Get, ResourceOperation::Count, seq!["order_id"@], "orders/{order_id}/events/count"@),
            (HttpMethod::Get, ResourceOperation::All, seq!["product_id"@], "products/{product_id}/events"@),
            (HttpMethod::Get, ResourceOperation::Count, seq!["product_id"@], "products/{product_id}/events/count"@),
        ]
    }

    /// The paths of this resource, one per supported operation and ID set.
    pub fn paths() -> (p: Vec<ResourcePath>)
        ensures
            views(p@) == Self::path_views(),
    {
        let mut p = Vec::new();
        p.push(ResourcePath::new(HttpMethod::Get, ResourceOperation::Find, &["id"], "events/{id}"));
        p.push(ResourcePath::new(HttpMethod::Get, ResourceOperation::All, &[], "events"));
        p.push(ResourcePath::new(HttpMethod::Get, ResourceOperation::Count, &[], "events/count"));
        p.push(ResourcePath::new(HttpMethod::Get, ResourceOperation::All, &["order_id"], "orders/{order_id}/events"));
        p.push(ResourcePath::new(HttpMethod::Get, ResourceOperation::Count, &["order_id"], "orders/{order_id}/events/count"));
        p.push(ResourcePath::new(HttpMethod::Get, ResourceOperation::All, &["product_id"], "products/{product_id}/events"));
        p.push(ResourcePath::new(HttpMethod::Get, ResourceOperation::Count, &["product_id"], "products/{product_id}/events/count"));
        assert(names(p@[0].ids@) =~= seq!["id"@]);
        assert(names(p@[1].ids@) =~= Seq::<Seq<char>>::empty());
        assert(names(p@[2].ids@) =~= Seq::<Seq<char>>::empty());
        assert(names(p@[3].ids@) =~= seq!["order_id"@]);
        assert(names(p@[4].ids@) =~= seq!["order_id"@]);
        assert(names(p@[5].ids@) =~= seq!["product_id"@]);
        assert(names(p@[6].ids@) =~= seq!["product_id"@]);
        p
    }

    /// Plans listing the events of an owner (such as `order_id` or
    /// `product_id`): GET on the `All` path for that owner ID, keeping the
    /// string, number and boolean params.
    pub fn all_for_owner_request(
        owner_id_name: &str,
        owner_id: &str,
        params: Option<&JsonValue>,
    ) -> (r: Result<RestRequest, ResourceError>)
        ensures
            planned(
                Self::path_views(),
                None,
                Self::NAME,
                ResourceOperation::All,
                operation_name(ResourceOperation::All),
                insert_entry(Seq::empty(), owner_id_name@, owner_id@),
                HttpMethod::Get,
                optional_query(params, true),
                r,
            ),
            r matches Ok(req) ==> req.body is None,
    {
        let paths = Self::paths();
        let mut ids = StringMap::new();
        ids.insert(owner_id_name, owner_id);
        let op = ResourceOperation::All;
        plan_request(
            paths.as_slice(),
            None,
            Self::NAME,
            op,
            op.as_str(),
            &ids,
            HttpMethod::Get,
            query_for(params, true),
            None,
        )
    }

    /// Plans counting the events of an owner: GET on the `Count` path for
    /// that owner ID, keeping the string, number and boolean params.
    pub fn count_for_owner_request(
        owner_id_name: &str,
        owner_id: &str,
        params: Option<&JsonValue>,
    ) -> (r: Result<RestRequest, ResourceError>)
        ensures
            planned(
                Self::path_views(),
                None,
                Self::NAME,
                ResourceOperation::Count,
                operation_name(ResourceOperation::Count),
                insert_entry(Seq::empty(), owner_id_name@, owner_id@),
                HttpMethod::Get,
                optional_query(params, true),
                r,
            ),
    {
        let paths = Self::paths();
        count_with_parent_request(paths.as_slice(), Self::NAME, owner_id_name, owner_id, params)
    }

    /// Returns the resource's ID, or `None` for a resource not saved yet.
    pub fn get_id(&self) -> (id: Option<u64>)
        ensures
            id == self.id,
    {
        self.id
    }
}

/// Parameters for finding a single event.
#[derive(Debug, Clone, Default, PartialEq, Eq)]
pub struct EventFindParams {
    /// Comma-separated list of fields to include in the response.
    pub fields: Option<String>,
}

/// Parameters for listing events.
#[derive(Debug, Clone, Default, PartialEq, Eq)]
pub struct EventListParams {
    /// Maximum number of results to return (default: 50, max: 250).
    pub limit: Option<u32>,

    /// Return events after this ID.
    pub since_id: Option<u64>,

    /// Show events created after this date.
    pub created_at_min: Option<String>,

    /// Show events created before this date.
    pub created_at_max: Option<String>,

    /// Filter events by subject type (e.g., "Product", "Order").
    pub filter: Option<String>,

    /// Filter events by verb (e.g., "create", "update", "destroy").
    pub verb: Option<String>,

    /// Comma-separated list of fields to include in the response.
    pub fields: Option<String>,
}

/// Parameters for counting events.
#[derive(Debug, Clone, Default, PartialEq, Eq)]
pub struct EventCountParams {
    /// Show events created after this date.
    pub created_at_min: Option<String>,

    /// Show events created before this date.
    pub created_at_max: Option<String>,
}

} // verus!
