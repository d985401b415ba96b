//! FulfillmentService resource implementation.
use vstd::prelude::*;

use crate::clients::HttpMethod;
use crate::rest::path::{names, views, PathView, ResourceOperation, ResourcePath};

verus! {

/// A third-party fulfillment service.
///
/// Fulfillment services handle the picking, packing, and shipping of orders
/// on behalf of merchants. They can manage their own inventory and provide
/// tracking information.
///
/// # Fields
///
/// ## Read-Only Fields
/// - `id` - The unique identifier
/// - `location_id` - The location ID where this service operates
/// - `provider_id` - The provider ID (if applicable)
/// - `admin_graphql_api_id` - The GraphQL API ID
///
/// ## Writable Fields
/// - `name` - Display name of the service
/// - `handle` - URL-friendly identifier
/// - `callback_url` - URL for fulfillment callbacks
/// - `tracking_support` - Whether service provides tracking
/// - `inventory_management` - Whether service manages inventory
/// - `requires_shipping_method` - Whether shipping method is required
/// - `fulfillment_orders_opt_in` - Whether service uses fulfillment orders
/// - `permits_sku_sharing` - Whether SKUs can be shared
#[derive(Debug, Clone, Default, PartialEq, Eq)]
pub struct FulfillmentService {
    /// The unique identifier of the fulfillment service.
    /// Read-only field.
    pub id: Option<u64>,

    /// The name of the fulfillment service.
    pub name: Option<String>,

    /// The URL-friendly identifier for the service.
    pub handle: Option<String>,

    /// The callback URL for fulfillment requests.
    pub callback_url: Option<String>,

    /// The location ID associated with this service.
    /// Read-only field.
    pub location_id: Option<u64>,

    /// The provider ID (if using a standard provider).
    /// Read-only field.
    pub provider_id: Option<String>,

    /// Whether the service provides tracking information.
    pub tracking_support: Option<bool>,

    /// Whether the service manages inventory.
    pub inventory_management: Option<bool>,

    /// Whether a shipping method is required.
    pub requires_shipping_method: Option<bool>,

    /// Whether the service has opted into fulfillment orders.
    pub fulfillment_orders_opt_in: Option<bool>,

    /// Whether SKU sharing is permitted.
    pub permits_sku_sharing: Option<bool>,

    /// The admin GraphQL API ID for this service.
    /// Read-only field.
    pub admin_graphql_api_id: Option<String>,
}

impl FulfillmentService {
    /// The singular name of the resource.
    pub const NAME: &'static str = "FulfillmentService";

    /// The plural name used in URL paths.
    pub const PLURAL: &'static str = "fulfillment_services";

    /// The paths of this resource as plain values: method, operation,
    /// ID names and template.
    pub open spec fn path_views() -> Seq<PathView> {
        seq![
            (HttpMethod::Get, ResourceOperation::Find, seq!["id"@], "fulfillment_services/{id}"@),
            (HttpMethod::Get, ResourceOperation::All, Seq::<Seq<char>>::empty(), "fulfillment_services"@),
            (HttpMethod::Post, ResourceOperation::Create, Seq::<Seq<char>>::empty(), "fulfillment_services"@),
            (HttpMethod::Put, ResourceOperation::Update, seq!["id"@], "fulfillment_services/{id}"@),
            (HttpMethod::Delete, ResourceOperation::Delete, seq!["id"@], "fulfillment_services/{id}"@),
        ]
    }

    /// The paths of this resource, one per supported operation and ID set.
    pub fn paths() -> (p: Vec<ResourcePath>)
        ensures
            views(p@) == Self::path_views(),
    {
        let mut p = Vec::new();
        p.push(ResourcePath::new(HttpMethod::Get, ResourceOperation::Find, &["id"], "fulfillment_services/{id}"));
        p.push(ResourcePath::new(HttpMethod::Get, ResourceOperation::All, &[], "fulfillment_services"));
        p.push(ResourcePath::new(HttpMethod::Post, ResourceOperation::Create, &[], "fulfillment_services"));
        p.push(ResourcePath::new(HttpMethod::Put, ResourceOperation::Update, &["id"], "fulfillment_services/{id}"));
        p.push(ResourcePath::new(HttpMethod::Delete, ResourceOperation::Delete, &["id"], "fulfillment_services/{id}"));
        assert(names(p@[0].ids@) =~= seq!["id"@]);
        assert(names(p@[1].ids@) =~= Seq::<Seq<char>>::empty());
        assert(names(p@[2].ids@) =~= Seq::<Seq<char>>::empty());
        assert(names(p@[3].ids@) =~= seq!["id"@]);
        assert(names(p@[4].ids@) =~= seq!["id"@]);
        p
    }

    /// Returns the resource's ID, or `None` for a resource not saved yet.
    pub fn get_id(&self) -> (id: Option<u64>)
        ensures
            id == self.id,
    {
        self.id
    }
}

/// Parameters for finding a single fulfillment service.
#[derive(Debug, Clone, Default, PartialEq, Eq)]
pub struct FulfillmentServiceFindParams {
    /// Comma-separated list of fields to include in the response.
    pub fields: Option<String>,
}

/// Parameters for listing fulfillment services.
#[derive(Debug, Clone, Default, PartialEq, Eq)]
pub struct FulfillmentServiceListParams {
    /// Filter services by scope.
    /// Valid values: "all" (all services) or "current_client" (services by current app).
    pub scope: Option<String>,
}

} // verus!
