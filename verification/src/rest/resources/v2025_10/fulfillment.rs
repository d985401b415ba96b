//! Fulfillment resource implementation.
use vstd::prelude::*;

use crate::rest::params::StringMap;

use crate::rest::resource::{parent_entries, parent_id_map};

use crate::clients::HttpMethod;
use crate::rest::path::{names, views, PathView, ResourceOperation, ResourcePath};
use crate::json::JsonValue;
use crate::rest::resources::v2025_10::common::Address;
use crate::rest::errors::ResourceError;
use crate::rest::resource::{has_keys, id_path, member_value, key_if, request, sends, unresolved, RestRequest};
use crate::text::decimal;

verus! {

/// The status of a fulfillment.
///
/// Indicates the current state of the fulfillment process.
#[derive(Debug, Clone, Copy, PartialEq, Eq, Default)]
pub enum FulfillmentStatus {
    /// The fulfillment is pending.
    #[default]
    Pending,
    /// The fulfillment is open and in progress.
    Open,
    /// The fulfillment was successful.
    Success,
    /// The fulfillment was cancelled.
    Cancelled,
    /// There was an error with the fulfillment.
    Error,
    /// The fulfillment failed.
    Failure,
}

/// The shipment status of a fulfillment.
///
/// Indicates the shipping/delivery status of the fulfillment.
#[derive(Debug, Clone, Copy, PartialEq, Eq)]
pub enum ShipmentStatus {
    /// A label has been printed for the shipment.
    LabelPrinted,
    /// A label has been purchased for the shipment.
    LabelPurchased,
    /// Delivery was attempted but failed.
    AttemptedDelivery,
    /// The package is ready for pickup.
    ReadyForPickup,
    /// The shipment has been confirmed.
    Confirmed,
    /// The package is in transit.
    InTransit,
    /// The package is out for delivery.
    OutForDelivery,
    /// The package has been delivered.
    Delivered,
    /// The shipment failed.
    Failure,
}

/// A line item included in a fulfillment.
///
/// Contains information about the product/variant being fulfilled.
#[allow(clippy::derive_partial_eq_without_eq)]
#[derive(Debug, Default, PartialEq)]
pub struct FulfillmentLineItem {
    /// The unique identifier of the line item.
    pub id: Option<u64>,

    /// The ID of the product variant.
    pub variant_id: Option<u64>,

    /// The title of the product.
    pub title: Option<String>,

    /// The quantity being fulfilled.
    pub quantity: Option<i64>,

    /// The SKU of the variant.
    pub sku: Option<String>,

    /// The title of the variant.
    pub variant_title: Option<String>,

    /// The vendor of the product.
    pub vendor: Option<String>,

    /// The fulfillment service for this item.
    pub fulfillment_service: Option<String>,

    /// The ID of the product.
    pub product_id: Option<u64>,

    /// Whether the item requires shipping.
    pub requires_shipping: Option<bool>,

    /// Whether the item is taxable.
    pub taxable: Option<bool>,

    /// Whether the item is a gift card.
    pub gift_card: Option<bool>,

    /// The name of the product and variant.
    pub name: Option<String>,

    /// The inventory management service.
    pub variant_inventory_management: Option<String>,

    /// Custom properties on the line item.
    pub properties: Option<Vec<JsonValue>>,

    /// Whether the product still exists.
    pub product_exists: Option<bool>,

    /// The price per item as a string.
    pub price: Option<String>,

    /// The total discount on this line item.
    pub total_discount: Option<String>,

    /// The quantity that can still be fulfilled.
    pub fulfillable_quantity: Option<i64>,

    /// The fulfillment status of this line item.
    pub fulfillment_status: Option<String>,
}

/// Tracking information for updating a fulfillment.
///
/// Used with the [`Fulfillment::update_tracking_request`] operation to update
/// tracking details for a fulfillment.
#[allow(clippy::derive_partial_eq_without_eq)]
#[derive(Debug, Clone, Default, PartialEq)]
pub struct TrackingInfo {
    /// The tracking number for the shipment.
    pub tracking_number: Option<String>,

    /// The URL to track the shipment.
    pub tracking_url: Option<String>,

    /// The name of the tracking company.
    pub tracking_company: Option<String>,
}

/// `v` is the JSON of tracking details: the present members among
/// `tracking_company`, `tracking_number` and `tracking_url`, in that order.
pub open spec fn is_tracking_json(v: JsonValue, t: TrackingInfo) -> bool {
    let a = if t.tracking_company is Some { 1int } else { 0int };
    let b = if t.tracking_number is Some { 1int } else { 0int };
    &&& has_keys(
        v,
        key_if(t.tracking_company is Some, "tracking_company"@) + key_if(t.tracking_number is Some, "tracking_number"@)
            + key_if(t.tracking_url is Some, "tracking_url"@),
    )
    &&& (t.tracking_company matches Some(c) ==> member_value(v, 0) == JsonValue::String(c))
    &&& (t.tracking_number matches Some(n) ==> member_value(v, a) == JsonValue::String(n))
    &&& (t.tracking_url matches Some(u) ==> member_value(v, a + b) == JsonValue::String(u))
}

impl TrackingInfo {
    /// The JSON of the tracking details, absent members left out.
    pub fn to_json(&self) -> (v: JsonValue)
        ensures
            is_tracking_json(v, *self),
    {
        let mut v = JsonValue::empty_object();
        match &self.tracking_company {
            Some(c) => v.push_member("tracking_company", JsonValue::String(c.clone())),
            None => {},
        }
        match &self.tracking_number {
            Some(n) => v.push_member("tracking_number", JsonValue::String(n.clone())),
            None => {},
        }
        match &self.tracking_url {
            Some(u) => v.push_member("tracking_url", JsonValue::String(u.clone())),
            None => {},
        }
        v
    }
}

/// A fulfillment in Shopify.
///
/// Fulfillments represent the shipping of order line items to customers.
/// Each fulfillment contains information about which items were shipped,
/// tracking information, and the fulfillment status.
///
/// # Nested Resource
///
/// Fulfillments are accessed under orders:
/// - `/orders/{order_id}/fulfillments/{id}`
///
/// Most operations require an `order_id`.
///
/// # Read-Only Fields
///
/// The following fields are read-only and will not be sent in create/update requests:
/// - `id`, `order_id`, `name`
/// - `created_at`, `updated_at`
/// - `admin_graphql_api_id`
#[allow(clippy::derive_partial_eq_without_eq)]
#[derive(Debug, Default, PartialEq)]
pub struct Fulfillment {
    // --- Read-only fields (not serialized) ---
    /// The unique identifier of the fulfillment.
    pub id: Option<u64>,

    /// The ID of the order this fulfillment belongs to.
    pub order_id: Option<u64>,

    /// The name of the fulfillment (e.g., "#1001.1").
    pub name: Option<String>,

    /// When the fulfillment was created.
    pub created_at: Option<String>,

    /// When the fulfillment was last updated.
    pub updated_at: Option<String>,

    /// The admin GraphQL API ID.
    pub admin_graphql_api_id: Option<String>,

    // --- Core fields ---
    /// The status of the fulfillment.
    pub status: Option<FulfillmentStatus>,

    /// The fulfillment service.
    pub service: Option<String>,

    /// The ID of the location that fulfilled the order.
    pub location_id: Option<u64>,

    /// The shipment status.
    pub shipment_status: Option<ShipmentStatus>,

    /// The name of the tracking company.
    pub tracking_company: Option<String>,

    /// The tracking number for the shipment.
    pub tracking_number: Option<String>,

    /// Multiple tracking numbers (if any).
    pub tracking_numbers: Option<Vec<String>>,

    /// The URL to track the shipment.
    pub tracking_url: Option<String>,

    /// Multiple tracking URLs (if any).
    pub tracking_urls: Option<Vec<String>>,

    /// The origin address for the shipment.
    pub origin_address: Option<Address>,

    /// Line items included in this fulfillment.
    pub line_items: Option<Vec<FulfillmentLineItem>>,

    /// Whether to notify the customer about this fulfillment.
    pub notify_customer: Option<bool>,

    /// The variant inventory management service.
    pub variant_inventory_management: Option<String>,
}

impl Fulfillment {
    /// The singular name of the resource.
    pub const NAME: &'static str = "Fulfillment";

    /// The plural name used in URL paths.
    pub const PLURAL: &'static str = "fulfillments";

    /// The paths of this resource as plain values: method, operation,
    /// ID names and template.
    pub open spec fn path_views() -> Seq<PathView> {
        seq![
            (HttpMethod::Get, ResourceOperation::Find, seq!["order_id"@, "id"@], "orders/{order_id}/fulfillments/{id}"@),
            (HttpMethod::Get, ResourceOperation::All, seq!["order_id"@], "orders/{order_id}/fulfillments"@),
            (HttpMethod::Get, ResourceOperation::Count, seq!["order_id"@], "orders/{order_id}/fulfillments/count"@),
            (HttpMethod::Post, ResourceOperation::Create, seq!["order_id"@], "orders/{order_id}/fulfillments"@),
            (HttpMethod::Put, ResourceOperation::Update, seq!["order_id"@, "id"@], "orders/{order_id}/fulfillments/{id}"@),
        ]
    }

    /// The paths of this resource, one per supported operation and ID set.
    pub fn paths() -> (p: Vec<ResourcePath>)
        ensures
            views(p@) == Self::path_views(),
    {
        let mut p = Vec::new();
        p.push(ResourcePath::new(HttpMethod::Get, ResourceOperation::Find, &["order_id", "id"], "orders/{order_id}/fulfillments/{id}"));
        p.push(ResourcePath::new(HttpMethod::Get, ResourceOperation::All, &["order_id"], "orders/{order_id}/fulfillments"));
        p.push(ResourcePath::new(HttpMethod::Get, ResourceOperation::Count, &["order_id"], "orders/{order_id}/fulfillments/count"));
        p.push(ResourcePath::new(HttpMethod::Post, ResourceOperation::Create, &["order_id"], "orders/{order_id}/fulfillments"));
        p.push(ResourcePath::new(HttpMethod::Put, ResourceOperation::Update, &["order_id", "id"], "orders/{order_id}/fulfillments/{id}"));
        assert(names(p@[0].ids@) =~= seq!["order_id"@, "id"@]);
        assert(names(p@[1].ids@) =~= seq!["order_id"@]);
        assert(names(p@[2].ids@) =~= seq!["order_id"@]);
        assert(names(p@[3].ids@) =~= seq!["order_id"@]);
        assert(names(p@[4].ids@) =~= seq!["order_id"@, "id"@]);
        p
    }

    /// Plans cancelling the fulfillment: POST to
    /// `orders/{order_id}/fulfillments/{id}/cancel` with an empty body. Both
    /// IDs are needed; a missing one is a `PathResolutionFailed` error.
    pub fn cancel_request(&self) -> (r: Result<RestRequest, ResourceError>)
        ensures
            match (self.id, self.order_id) {
                (Some(id), Some(order_id)) => sends(
                    r,
                    HttpMethod::Post,
                    "orders/"@ + decimal(order_id as nat) + "/fulfillments/"@ + decimal(id as nat) + "/cancel"@,
                    None,
                ) && r->Ok_0.body is Some && has_keys(r->Ok_0.body->0, Seq::empty()),
                _ => unresolved(r, Self::NAME@, "cancel"@),
            },
    {
        match (self.id, self.order_id) {
            (Some(id), Some(order_id)) => {
                let mut path = id_path("orders/", order_id, "/fulfillments/");
                let tail = id_path("", id, "/cancel");
                path.append(tail.as_str());
                proof {
                    reveal_strlit("");
                    assert(path@ =~= "orders/"@ + decimal(order_id as nat) + "/fulfillments/"@ + decimal(id as nat) + "/cancel"@);
                }
                Ok(request(HttpMethod::Post, path, None, Some(JsonValue::empty_object())))
            },
            _ => Err(ResourceError::PathResolutionFailed { resource: Self::NAME, operation: "cancel" }),
        }
    }

    /// Plans updating the tracking details: POST to
    /// `fulfillments/{id}/update_tracking` with
    /// `{"fulfillment": {"tracking_info": info}}`; only the fulfillment's own
    /// ID is needed.
    pub fn update_tracking_request(&self, tracking_info: &TrackingInfo) -> (r: Result<RestRequest, ResourceError>)
        ensures
            match self.id {
                None => unresolved(r, Self::NAME@, "update_tracking"@),
                Some(id) => sends(r, HttpMethod::Post, "fulfillments/"@ + decimal(id as nat) + "/update_tracking"@, None)
                    && r->Ok_0.body is Some && has_keys(r->Ok_0.body->0, seq!["fulfillment"@])
                    && has_keys(member_value(r->Ok_0.body->0, 0), seq!["tracking_info"@])
                    && is_tracking_json(member_value(member_value(r->Ok_0.body->0, 0), 0), *tracking_info),
            },
    {
        match self.id {
            None => Err(ResourceError::PathResolutionFailed { resource: Self::NAME, operation: "update_tracking" }),
            Some(id) => {
                let mut inner = JsonValue::empty_object();
                inner.push_member("tracking_info", tracking_info.to_json());
                let mut body = JsonValue::empty_object();
                body.push_member("fulfillment", inner);
                let path = id_path("fulfillments/", id, "/update_tracking");
                Ok(request(HttpMethod::Post, path, None, Some(body)))
            },
        }
    }

    /// The IDs of the parent it is saved under: `order_id` when set.
    pub fn parent_ids(&self) -> (m: StringMap)
        ensures
            m@ == parent_entries("order_id"@, self.order_id),
    {
        parent_id_map("order_id", self.order_id)
    }

    /// Returns the resource's ID, or `None` for a resource not saved yet.
    pub fn get_id(&self) -> (id: Option<u64>)
        ensures
            id == self.id,
    {
        self.id
    }
}

/// Parameters for finding a single fulfillment.
#[allow(clippy::derive_partial_eq_without_eq)]
#[derive(Debug, Clone, Default, PartialEq)]
pub struct FulfillmentFindParams {
    /// Comma-separated list of fields to include in the response.
    pub fields: Option<String>,
}

/// Parameters for listing fulfillments.
///
/// All fields are optional. Unset fields will not be included in the request.
#[allow(clippy::derive_partial_eq_without_eq)]
#[derive(Debug, Clone, Default, PartialEq)]
pub struct FulfillmentListParams {
    /// Maximum number of results to return (default: 50, max: 250).
    pub limit: Option<u32>,

    /// Return only fulfillments after the specified ID.
    pub since_id: Option<u64>,

    /// Show fulfillments created at or after this date.
    pub created_at_min: Option<String>,

    /// Show fulfillments created at or before this date.
    pub created_at_max: Option<String>,

    /// Show fulfillments last updated at or after this date.
    pub updated_at_min: Option<String>,

    /// Show fulfillments last updated at or before this date.
    pub updated_at_max: Option<String>,

    /// Comma-separated list of fields to include in the response.
    pub fields: Option<String>,

    /// Page info for cursor-based pagination.
    pub page_info: Option<String>,
}

/// Parameters for counting fulfillments.
#[allow(clippy::derive_partial_eq_without_eq)]
#[derive(Debug, Clone, Default, PartialEq)]
pub struct FulfillmentCountParams {
    /// Show fulfillments created at or after this date.
    pub created_at_min: Option<String>,

    /// Show fulfillments created at or before this date.
    pub created_at_max: Option<String>,

    /// Show fulfillments last updated at or after this date.
    pub updated_at_min: Option<String>,

    /// Show fulfillments last updated at or before this date.
    pub updated_at_max: Option<String>,
}

} // verus!
