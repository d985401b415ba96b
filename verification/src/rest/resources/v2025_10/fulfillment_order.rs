//! FulfillmentOrder resource implementation.
use vstd::prelude::*;

use crate::clients::{HttpError, HttpMethod, HttpResponse, HttpResponseError};
use crate::json::json_get;
use crate::rest::errors::opt_text;
use crate::rest::resource::{missing_member_text, response_member};
use crate::rest::path::{names, views, PathView, ResourceOperation, ResourcePath};
use crate::json::{JsonNumber, JsonValue};
use crate::rest::errors::{opt_str, ResourceError};
use crate::rest::resource::{
    action_request, has_keys, is_message_body, key_if, member_value, message_body, request, sends,
    unresolved, RestRequest,
};
use crate::text::decimal;

verus! {

/// The status of a fulfillment order.
///
/// Indicates the current state of the fulfillment order.
#[derive(Debug, Clone, Copy, PartialEq, Eq, Default)]
pub enum FulfillmentOrderStatus {
    /// The fulfillment order is open and ready to be fulfilled.
    #[default]
    Open,
    /// The fulfillment order is in progress.
    InProgress,
    /// The fulfillment order was cancelled.
    Cancelled,
    /// The fulfillment order is incomplete.
    Incomplete,
    /// The fulfillment order is closed.
    Closed,
    /// The fulfillment order is scheduled for a future date.
    Scheduled,
    /// The fulfillment order is on hold.
    OnHold,
}

/// The request status of a fulfillment order.
///
/// Indicates the status of fulfillment requests for this order.
#[derive(Debug, Clone, Copy, PartialEq, Eq, Default)]
pub enum FulfillmentOrderRequestStatus {
    /// No fulfillment request has been submitted.
    #[default]
    Unsubmitted,
    /// A fulfillment request has been submitted.
    Submitted,
    /// The fulfillment request was accepted.
    Accepted,
    /// The fulfillment request was rejected.
    Rejected,
    /// A cancellation has been requested.
    CancellationRequested,
    /// The cancellation was accepted.
    CancellationAccepted,
    /// The cancellation was rejected.
    CancellationRejected,
    /// The fulfillment request is closed.
    Closed,
}

/// The reason for placing a fulfillment order on hold.
///
/// Used with the [`FulfillmentOrder::hold_request`] operation.
#[derive(Debug, Clone, Copy, PartialEq, Eq)]
pub enum HoldReason {
    /// Awaiting payment from the customer.
    AwaitingPayment,
    /// The order has a high risk of fraud.
    HighRiskOfFraud,
    /// The shipping address is incorrect.
    IncorrectAddress,
    /// The inventory is out of stock.
    InventoryOutOfStock,
    /// Other reason (specify in reason_notes).
    Other,
}

/// A line item in a fulfillment order.
#[derive(Debug, Clone, Default, PartialEq)]
pub struct FulfillmentOrderLineItem {
    /// The unique identifier of the line item.
    pub id: Option<u64>,

    /// The ID of the shop.
    pub shop_id: Option<u64>,

    /// The ID of the fulfillment order.
    pub fulfillment_order_id: Option<u64>,

    /// The ID of the order line item.
    pub line_item_id: Option<u64>,

    /// The ID of the inventory item.
    pub inventory_item_id: Option<u64>,

    /// The quantity to fulfill.
    pub quantity: Option<i64>,

    /// The fulfillable quantity remaining.
    pub fulfillable_quantity: Option<i64>,

    /// The ID of the product variant.
    pub variant_id: Option<u64>,
}

/// The destination for a fulfillment order.
#[derive(Debug, Clone, Default, PartialEq, Eq)]
pub struct FulfillmentOrderDestination {
    /// The unique identifier of the destination.
    pub id: Option<u64>,

    /// The first name of the recipient.
    pub first_name: Option<String>,

    /// The last name of the recipient.
    pub last_name: Option<String>,

    /// The company name.
    pub company: Option<String>,

    /// The first line of the address.
    pub address1: Option<String>,

    /// The second line of the address.
    pub address2: Option<String>,

    /// The city.
    pub city: Option<String>,

    /// The province or state.
    pub province: Option<String>,

    /// The country.
    pub country: Option<String>,

    /// The ZIP or postal code.
    pub zip: Option<String>,

    /// The phone number.
    pub phone: Option<String>,

    /// The email address.
    pub email: Option<String>,
}

/// A hold on a fulfillment order.
#[derive(Debug, Clone, Default, PartialEq, Eq)]
pub struct FulfillmentHold {
    /// The reason for the hold.
    pub reason: Option<String>,

    /// Additional notes about the hold reason.
    pub reason_notes: Option<String>,
}

/// The delivery method for a fulfillment order.
#[derive(Debug, Clone, Default, PartialEq, Eq)]
pub struct DeliveryMethod {
    /// The unique identifier of the delivery method.
    pub id: Option<u64>,

    /// The type of delivery method.
    pub method_type: Option<String>,

    /// The minimum delivery date.
    pub min_delivery_date_time: Option<String>,

    /// The maximum delivery date.
    pub max_delivery_date_time: Option<String>,
}

/// A fulfillment order in Shopify.
///
/// Fulfillment orders are automatically created when an order is placed.
/// They represent the work required to fulfill line items from a specific location.
///
/// # Read-Only Resource
///
/// This is primarily a read-only resource. You cannot create, update, or delete
/// fulfillment orders directly. Use the special operations to manage their state.
///
/// # Nested Resource
///
/// Fulfillment orders are accessed under orders for listing:
/// - List: `/orders/{order_id}/fulfillment_orders`
/// - Find: `/fulfillment_orders/{id}` (standalone)
#[derive(Debug, Default, PartialEq)]
pub struct FulfillmentOrder {
    /// The unique identifier of the fulfillment order.
    pub id: Option<u64>,

    /// The ID of the order this fulfillment order belongs to.
    pub order_id: Option<u64>,

    /// The ID of the shop.
    pub shop_id: Option<u64>,

    /// The ID of the assigned location.
    pub assigned_location_id: Option<u64>,

    /// The status of the fulfillment order.
    pub status: Option<FulfillmentOrderStatus>,

    /// The request status.
    pub request_status: Option<FulfillmentOrderRequestStatus>,

    /// Supported actions for this fulfillment order.
    pub supported_actions: Option<Vec<String>>,

    /// The destination for this fulfillment order.
    pub destination: Option<FulfillmentOrderDestination>,

    /// Line items in this fulfillment order.
    pub line_items: Option<Vec<FulfillmentOrderLineItem>>,

    /// The scheduled fulfillment date.
    pub fulfill_at: Option<String>,

    /// The deadline for fulfillment.
    pub fulfill_by: Option<String>,

    /// International duties information.
    pub international_duties: Option<JsonValue>,

    /// Holds placed on this fulfillment order.
    pub fulfillment_holds: Option<Vec<FulfillmentHold>>,

    /// The delivery method for this fulfillment order.
    pub delivery_method: Option<DeliveryMethod>,

    /// Assigned location information.
    pub assigned_location: Option<JsonValue>,

    /// Merchant requests for this fulfillment order.
    pub merchant_requests: Option<Vec<JsonValue>>,

    /// When the fulfillment order was created.
    pub created_at: Option<String>,

    /// When the fulfillment order was last updated.
    pub updated_at: Option<String>,

    /// The admin GraphQL API ID.
    pub admin_graphql_api_id: Option<String>,
}

impl FulfillmentOrder {
    /// The singular name of the resource.
    pub const NAME: &'static str = "FulfillmentOrder";

    /// The plural name used in URL paths.
    pub const PLURAL: &'static str = "fulfillment_orders";

    /// The paths of this resource as plain values: method, operation,
    /// ID names and template.
    pub open spec fn path_views() -> Seq<PathView> {
        seq![
            (HttpMethod::Get, ResourceOperation::Find, seq!["id"@], "fulfillment_orders/{id}"@),
            (HttpMethod::Get, ResourceOperation::All, seq!["order_id"@], "orders/{order_id}/fulfillment_orders"@),
        ]
    }

    /// The paths of this resource, one per supported operation and ID set.
    pub fn paths() -> (p: Vec<ResourcePath>)
        ensures
            views(p@) == Self::path_views(),
    {
        let mut p = Vec::new();
        p.push(ResourcePath::new(HttpMethod::Get, ResourceOperation::Find, &["id"], "fulfillment_orders/{id}"));
        p.push(ResourcePath::new(HttpMethod::Get, ResourceOperation::All, &["order_id"], "orders/{order_id}/fulfillment_orders"));
        assert(names(p@[0].ids@) =~= seq!["id"@]);
        assert(names(p@[1].ids@) =~= seq!["order_id"@]);
        p
    }

    /// Plans cancelling the fulfillment order: POST to `fulfillment_orders/{id}/cancel`
    /// with an empty body.
    pub fn cancel_request(&self) -> (r: Result<RestRequest, ResourceError>)
        ensures
            match self.id {
                None => unresolved(r, Self::NAME@, "cancel"@),
                Some(id) => sends(r, HttpMethod::Post, "fulfillment_orders/"@ + decimal(id as nat) + "/cancel"@, None)
                    && r->Ok_0.body is Some && has_keys(r->Ok_0.body->0, Seq::empty()),
            },
    {
        action_request(self.id, Self::NAME, "cancel", "fulfillment_orders/", "/cancel", JsonValue::empty_object())
    }

    /// Plans marking the fulfillment order as open: POST to `fulfillment_orders/{id}/open`
    /// with an empty body.
    pub fn open_request(&self) -> (r: Result<RestRequest, ResourceError>)
        ensures
            match self.id {
                None => unresolved(r, Self::NAME@, "open"@),
                Some(id) => sends(r, HttpMethod::Post, "fulfillment_orders/"@ + decimal(id as nat) + "/open"@, None)
                    && r->Ok_0.body is Some && has_keys(r->Ok_0.body->0, Seq::empty()),
            },
    {
        action_request(self.id, Self::NAME, "open", "fulfillment_orders/", "/open", JsonValue::empty_object())
    }

    /// Plans releasing the hold on the fulfillment order: POST to `fulfillment_orders/{id}/release_hold`
    /// with an empty body.
    pub fn release_hold_request(&self) -> (r: Result<RestRequest, ResourceError>)
        ensures
            match self.id {
                None => unresolved(r, Self::NAME@, "release_hold"@),
                Some(id) => sends(r, HttpMethod::Post, "fulfillment_orders/"@ + decimal(id as nat) + "/release_hold"@, None)
                    && r->Ok_0.body is Some && has_keys(r->Ok_0.body->0, Seq::empty()),
            },
    {
        action_request(self.id, Self::NAME, "release_hold", "fulfillment_orders/", "/release_hold", JsonValue::empty_object())
    }

    /// Plans closing the fulfillment order: POST to
    /// `fulfillment_orders/{id}/close` with `{"fulfillment_order": {"message": m}}`,
    /// or `{}` without a message.
    pub fn close_request(&self, message: Option<&str>) -> (r: Result<RestRequest, ResourceError>)
        ensures
            match self.id {
                None => unresolved(r, Self::NAME@, "close"@),
                Some(id) => sends(r, HttpMethod::Post, "fulfillment_orders/"@ + decimal(id as nat) + "/close"@, None)
                    && r->Ok_0.body is Some && is_message_body(r->Ok_0.body->0, "fulfillment_order"@, opt_str(message)),
            },
    {
        let body = message_body("fulfillment_order", message);
        action_request(self.id, Self::NAME, "close", "fulfillment_orders/", "/close", body)
    }

    /// Plans putting the fulfillment order on hold: POST to
    /// `fulfillment_orders/{id}/hold` with `{"fulfillment_hold": params}`.
    pub fn hold_request(&self, params: &FulfillmentOrderHoldParams) -> (r: Result<RestRequest, ResourceError>)
        ensures
            match self.id {
                None => unresolved(r, Self::NAME@, "hold"@),
                Some(id) => sends(r, HttpMethod::Post, "fulfillment_orders/"@ + decimal(id as nat) + "/hold"@, None)
                    && r->Ok_0.body is Some && has_keys(r->Ok_0.body->0, seq!["fulfillment_hold"@])
                    && is_hold_json(member_value(r->Ok_0.body->0, 0), *params),
            },
    {
        let mut body = JsonValue::empty_object();
        body.push_member("fulfillment_hold", params.to_json());
        action_request(self.id, Self::NAME, "hold", "fulfillment_orders/", "/hold", body)
    }

    /// Plans moving the fulfillment order to another location: POST to
    /// `fulfillment_orders/{id}/move` with `{"fulfillment_order": params}`.
    pub fn move_location_request(&self, params: &FulfillmentOrderMoveParams) -> (r: Result<
        RestRequest,
        ResourceError,
    >)
        ensures
            match self.id {
                None => unresolved(r, Self::NAME@, "move"@),
                Some(id) => sends(r, HttpMethod::Post, "fulfillment_orders/"@ + decimal(id as nat) + "/move"@, None)
                    && r->Ok_0.body is Some && has_keys(r->Ok_0.body->0, seq!["fulfillment_order"@])
                    && is_move_json(member_value(r->Ok_0.body->0, 0), *params),
            },
    {
        let mut body = JsonValue::empty_object();
        body.push_member("fulfillment_order", params.to_json());
        action_request(self.id, Self::NAME, "move", "fulfillment_orders/", "/move", body)
    }

    /// Plans rescheduling the fulfillment order: POST to
    /// `fulfillment_orders/{id}/reschedule` with `{"new_fulfill_at": time}`.
    pub fn reschedule_request(&self, params: &FulfillmentOrderRescheduleParams) -> (r: Result<
        RestRequest,
        ResourceError,
    >)
        ensures
            match self.id {
                None => unresolved(r, Self::NAME@, "reschedule"@),
                Some(id) => sends(r, HttpMethod::Post, "fulfillment_orders/"@ + decimal(id as nat) + "/reschedule"@, None)
                    && r->Ok_0.body is Some && has_keys(r->Ok_0.body->0, seq!["new_fulfill_at"@])
                    && member_value(r->Ok_0.body->0, 0) == JsonValue::String(params.new_fulfill_at),
            },
    {
        let mut body = JsonValue::empty_object();
        body.push_member("new_fulfill_at", JsonValue::String(params.new_fulfill_at.clone()));
        action_request(self.id, Self::NAME, "reschedule", "fulfillment_orders/", "/reschedule", body)
    }

    /// Returns the resource's ID, or `None` for a resource not saved yet.
    pub fn get_id(&self) -> (id: Option<u64>)
        ensures
            id == self.id,
    {
        self.id
    }
}

/// Parameters for placing a fulfillment order on hold.
#[derive(Debug, Clone, Default, PartialEq, Eq)]
pub struct FulfillmentOrderHoldParams {
    /// The reason for the hold.
    pub reason: HoldReason,

    /// Additional notes about the hold reason.
    pub reason_notes: Option<String>,

    /// Whether to notify the merchant about the hold.
    pub notify_merchant: Option<bool>,

    /// Specific line items to hold (for partial holds).
    pub fulfillment_order_line_items: Option<Vec<FulfillmentOrderLineItemInput>>,
}

/// Parameters for moving a fulfillment order to a different location.
#[derive(Debug, Clone, Default, PartialEq)]
pub struct FulfillmentOrderMoveParams {
    /// The ID of the new location.
    pub new_location_id: u64,

    /// Specific line items to move (for partial moves).
    pub fulfillment_order_line_items: Option<Vec<FulfillmentOrderLineItemInput>>,
}

/// Parameters for rescheduling a fulfillment order.
#[derive(Debug, Clone, Default, PartialEq, Eq)]
pub struct FulfillmentOrderRescheduleParams {
    /// The new scheduled fulfillment date.
    pub new_fulfill_at: String,
}

/// Input for specifying fulfillment order line items in operations.
#[derive(Debug, Clone, Default, PartialEq, Eq)]
pub struct FulfillmentOrderLineItemInput {
    /// The ID of the fulfillment order line item.
    pub id: u64,

    /// The quantity to include.
    pub quantity: i64,
}

/// The wire name of a hold reason.
pub open spec fn hold_reason_name(r: HoldReason) -> Seq<char> {
    match r {
        HoldReason::AwaitingPayment => "awaiting_payment"@,
        HoldReason::HighRiskOfFraud => "high_risk_of_fraud"@,
        HoldReason::IncorrectAddress => "incorrect_address"@,
        HoldReason::InventoryOutOfStock => "inventory_out_of_stock"@,
        HoldReason::Other => "other"@,
    }
}

impl HoldReason {
    /// The wire name of the reason (`awaiting_payment`, ..., `other`).
    pub fn as_str(&self) -> (s: &'static str)
        ensures
            s@ == hold_reason_name(*self),
    {
        match self {
            HoldReason::AwaitingPayment => "awaiting_payment",
            HoldReason::HighRiskOfFraud => "high_risk_of_fraud",
            HoldReason::IncorrectAddress => "incorrect_address",
            HoldReason::InventoryOutOfStock => "inventory_out_of_stock",
            HoldReason::Other => "other",
        }
    }
}

impl Default for HoldReason {
    fn default() -> (r: HoldReason)
        ensures
            r == HoldReason::Other,
    {
        HoldReason::Other
    }
}

/// `v` is `{"id": item.id, "quantity": item.quantity}`.
pub open spec fn is_line_item_json(v: JsonValue, item: FulfillmentOrderLineItemInput) -> bool {
    &&& has_keys(v, seq!["id"@, "quantity"@])
    &&& member_value(v, 0) == JsonValue::Number(JsonNumber::PosInt(item.id))
    &&& member_value(v, 1) == JsonValue::signed_spec(item.quantity)
}

/// `v` is the array of the line items' JSON.
pub open spec fn is_line_items_json(v: JsonValue, items: Seq<FulfillmentOrderLineItemInput>) -> bool {
    &&& v is Array
    &&& v->Array_0@.len() == items.len()
    &&& forall|j: int| 0 <= j < items.len() ==> is_line_item_json(#[trigger] v->Array_0@[j], items[j])
}

/// The JSON array of line item inputs.
pub fn line_items_json(items: &Vec<FulfillmentOrderLineItemInput>) -> (v: JsonValue)
    ensures
        is_line_items_json(v, items@),
{
    let mut out: Vec<JsonValue> = Vec::new();
    let mut i: usize = 0;
    while i < items.len()
        invariant
            i <= items@.len(),
            out@.len() == i,
            forall|j: int| 0 <= j < i ==> is_line_item_json(#[trigger] out@[j], items@[j]),
        decreases items.len() - i,
    {
        let mut entry = JsonValue::empty_object();
        entry.push_member("id", JsonValue::uint(items[i].id));
        entry.push_member("quantity", JsonValue::signed(items[i].quantity));
        out.push(entry);
        i = i + 1;
    }
    JsonValue::Array(out)
}

/// `v` is the JSON of hold params: its present members in name order —
/// `fulfillment_order_line_items`, `notify_merchant`, `reason`, `reason_notes`.
pub open spec fn is_hold_json(v: JsonValue, p: FulfillmentOrderHoldParams) -> bool {
    let a = if p.fulfillment_order_line_items is Some { 1int } else { 0int };
    let b = if p.notify_merchant is Some { 1int } else { 0int };
    &&& has_keys(
        v,
        key_if(p.fulfillment_order_line_items is Some, "fulfillment_order_line_items"@) + key_if(
            p.notify_merchant is Some,
            "notify_merchant"@,
        ) + seq!["reason"@] + key_if(p.reason_notes is Some, "reason_notes"@),
    )
    &&& (p.fulfillment_order_line_items matches Some(items) ==> is_line_items_json(member_value(v, 0), items@))
    &&& (p.notify_merchant matches Some(n) ==> member_value(v, a) == JsonValue::Bool(n))
    &&& member_value(v, a + b) matches JsonValue::String(t) && t@ == hold_reason_name(p.reason)
    &&& (p.reason_notes matches Some(n) ==> member_value(v, a + b + 1) == JsonValue::String(n))
}

impl FulfillmentOrderHoldParams {
    /// The JSON of the params, members without a value left out.
    pub fn to_json(&self) -> (v: JsonValue)
        ensures
            is_hold_json(v, *self),
    {
        let mut v = JsonValue::empty_object();
        match &self.fulfillment_order_line_items {
            Some(items) => v.push_member("fulfillment_order_line_items", line_items_json(items)),
            None => {},
        }
        match self.notify_merchant {
            Some(n) => v.push_member("notify_merchant", JsonValue::Bool(n)),
            None => {},
        }
        v.push_member("reason", JsonValue::text(self.reason.as_str()));
        match &self.reason_notes {
            Some(n) => v.push_member("reason_notes", JsonValue::String(n.clone())),
            None => {},
        }
        v
    }
}

/// `v` is the JSON of move params: the line items when given, then the new
/// location.
pub open spec fn is_move_json(v: JsonValue, p: FulfillmentOrderMoveParams) -> bool {
    let a = if p.fulfillment_order_line_items is Some { 1int } else { 0int };
    &&& has_keys(
        v,
        key_if(p.fulfillment_order_line_items is Some, "fulfillment_order_line_items"@) + seq![
            "new_location_id"@,
        ],
    )
    &&& (p.fulfillment_order_line_items matches Some(items) ==> is_line_items_json(member_value(v, 0), items@))
    &&& member_value(v, a) == JsonValue::Number(JsonNumber::PosInt(p.new_location_id))
}

impl FulfillmentOrderMoveParams {
    /// The JSON of the params, line items left out when not given.
    pub fn to_json(&self) -> (v: JsonValue)
        ensures
            is_move_json(v, *self),
    {
        let mut v = JsonValue::empty_object();
        match &self.fulfillment_order_line_items {
            Some(items) => v.push_member("fulfillment_order_line_items", line_items_json(items)),
            None => {},
        }
        v.push_member("new_location_id", JsonValue::uint(self.new_location_id));
        v
    }
}

/// Parameters for finding a single fulfillment order.
#[derive(Debug, Clone, Default, PartialEq, Eq)]
pub struct FulfillmentOrderFindParams {
    /// Comma-separated list of fields to include in the response.
    pub fields: Option<String>,
}

/// Parameters for listing fulfillment orders.
#[derive(Debug, Clone, Default, PartialEq, Eq)]
pub struct FulfillmentOrderListParams {
    /// Maximum number of results to return (default: 50, max: 250).
    pub limit: Option<u32>,

    /// Comma-separated list of fields to include in the response.
    pub fields: Option<String>,

    /// Page info for cursor-based pagination.
    pub page_info: Option<String>,
}

/// Parameters for counting fulfillment orders (not supported).
#[derive(Debug, Clone, Default, PartialEq, Eq)]
pub struct FulfillmentOrderCountParams {
    // Count is not supported for FulfillmentOrder
}

/// A fulfillment request for a fulfillment order.
///
/// Used to request fulfillment from a fulfillment service.
/// All operations are associated functions taking a `fulfillment_order_id`.
#[derive(Debug, Clone, Default)]
pub struct FulfillmentRequest;

/// The path of an action on a fulfillment order: `fulfillment_orders/{id}` then `tail`.
pub open spec fn fulfillment_order_path(id: u64, tail: Seq<char>) -> Seq<char> {
    "fulfillment_orders/"@ + decimal(id as nat) + tail
}

impl FulfillmentRequest {
    /// Plans requesting fulfillment: POST to
    /// `fulfillment_orders/{id}/fulfillment_request` with
    /// `{"fulfillment_request": {...}}` holding the line items and the
    /// message when given.
    pub fn create_request(
        fulfillment_order_id: u64,
        message: Option<&str>,
        line_items: Option<&Vec<FulfillmentOrderLineItemInput>>,
    ) -> (r: RestRequest)
        ensures
            sends(
                Ok::<RestRequest, ResourceError>(r),
                HttpMethod::Post,
                fulfillment_order_path(fulfillment_order_id, "/fulfillment_request"@),
                None,
            ),
            r.body is Some && has_keys(r.body->0, seq!["fulfillment_request"@]),
            has_keys(
                member_value(r.body->0, 0),
                key_if(line_items is Some, "fulfillment_order_line_items"@) + key_if(message is Some, "message"@),
            ),
            line_items matches Some(items) ==> is_line_items_json(member_value(member_value(r.body->0, 0), 0), items@),
            message matches Some(m) ==> member_value(
                member_value(r.body->0, 0),
                if line_items is Some { 1int } else { 0int },
            ) matches JsonValue::String(t) && t@ == m@,
    {
        let mut inner = JsonValue::empty_object();
        match line_items {
            Some(items) => inner.push_member("fulfillment_order_line_items", line_items_json(items)),
            None => {},
        }
        match message {
            Some(m) => inner.push_member("message", JsonValue::text(m)),
            None => {},
        }
        let mut body = JsonValue::empty_object();
        body.push_member("fulfillment_request", inner);
        let path = crate::rest::resource::id_path("fulfillment_orders/", fulfillment_order_id, "/fulfillment_request");
        request(HttpMethod::Post, path, None, Some(body))
    }

    /// Plans accepting a fulfillment request: POST to
    /// `fulfillment_orders/{id}/fulfillment_request/accept` with
    /// `{"fulfillment_request": {"message": m}}`, or `{}` without a message.
    pub fn accept_request(fulfillment_order_id: u64, message: Option<&str>) -> (r: RestRequest)
        ensures
            sends(
                Ok::<RestRequest, ResourceError>(r),
                HttpMethod::Post,
                fulfillment_order_path(fulfillment_order_id, "/fulfillment_request/accept"@),
                None,
            ),
            r.body is Some && is_message_body(r.body->0, "fulfillment_request"@, opt_str(message)),
    {
        let body = message_body("fulfillment_request", message);
        let path = crate::rest::resource::id_path("fulfillment_orders/", fulfillment_order_id, "/fulfillment_request/accept");
        request(HttpMethod::Post, path, None, Some(body))
    }

    /// Plans rejecting a fulfillment request: POST to
    /// `fulfillment_orders/{id}/fulfillment_request/reject` with
    /// `{"fulfillment_request": {...}}` holding the message and reason when
    /// given, or `{}` when neither is.
    pub fn reject_request(fulfillment_order_id: u64, message: Option<&str>, reason: Option<&str>) -> (r:
        RestRequest)
        ensures
            sends(
                Ok::<RestRequest, ResourceError>(r),
                HttpMethod::Post,
                fulfillment_order_path(fulfillment_order_id, "/fulfillment_request/reject"@),
                None,
            ),
            r.body is Some,
            message is None && reason is None ==> has_keys(r.body->0, Seq::empty()),
            message is Some || reason is Some ==> has_keys(r.body->0, seq!["fulfillment_request"@])
                && has_keys(
                member_value(r.body->0, 0),
                key_if(message is Some, "message"@) + key_if(reason is Some, "reason"@),
            ),
            message matches Some(m) ==> member_value(member_value(r.body->0, 0), 0) matches JsonValue::String(t)
                && t@ == m@,
            reason matches Some(x) ==> member_value(
                member_value(r.body->0, 0),
                if message is Some { 1int } else { 0int },
            ) matches JsonValue::String(t) && t@ == x@,
    {
        let mut body = JsonValue::empty_object();
        if message.is_some() || reason.is_some() {
            let mut inner = JsonValue::empty_object();
            match message {
                Some(m) => inner.push_member("message", JsonValue::text(m)),
                None => {},
            }
            match reason {
                Some(x) => inner.push_member("reason", JsonValue::text(x)),
                None => {},
            }
            body.push_member("fulfillment_request", inner);
        }
        let path = crate::rest::resource::id_path("fulfillment_orders/", fulfillment_order_id, "/fulfillment_request/reject");
        request(HttpMethod::Post, path, None, Some(body))
    }
}

/// A cancellation request for a fulfillment order.
///
/// Used to request cancellation of a fulfillment request.
/// All operations are associated functions taking a `fulfillment_order_id`.
#[derive(Debug, Clone, Default)]
pub struct CancellationRequest;

impl CancellationRequest {
    /// Plans requesting cancellation: POST to `fulfillment_orders/{id}/cancellation_request` with
    /// `{"cancellation_request": {"message": m}}`, or `{}` without a message.
    pub fn create_request(fulfillment_order_id: u64, message: Option<&str>) -> (r: RestRequest)
        ensures
            sends(
                Ok::<RestRequest, ResourceError>(r),
                HttpMethod::Post,
                fulfillment_order_path(fulfillment_order_id, "/cancellation_request"@),
                None,
            ),
            r.body is Some && is_message_body(r.body->0, "cancellation_request"@, opt_str(message)),
    {
        let body = message_body("cancellation_request", message);
        let path = crate::rest::resource::id_path("fulfillment_orders/", fulfillment_order_id, "/cancellation_request");
        request(HttpMethod::Post, path, None, Some(body))
    }

    /// Plans accepting a cancellation request: POST to `fulfillment_orders/{id}/cancellation_request/accept` with
    /// `{"cancellation_request": {"message": m}}`, or `{}` without a message.
    pub fn accept_request(fulfillment_order_id: u64, message: Option<&str>) -> (r: RestRequest)
        ensures
            sends(
                Ok::<RestRequest, ResourceError>(r),
                HttpMethod::Post,
                fulfillment_order_path(fulfillment_order_id, "/cancellation_request/accept"@),
                None,
            ),
            r.body is Some && is_message_body(r.body->0, "cancellation_request"@, opt_str(message)),
    {
        let body = message_body("cancellation_request", message);
        let path = crate::rest::resource::id_path("fulfillment_orders/", fulfillment_order_id, "/cancellation_request/accept");
        request(HttpMethod::Post, path, None, Some(body))
    }

    /// Plans rejecting a cancellation request: POST to `fulfillment_orders/{id}/cancellation_request/reject` with
    /// `{"cancellation_request": {"message": m}}`, or `{}` without a message.
    pub fn reject_request(fulfillment_order_id: u64, message: Option<&str>) -> (r: RestRequest)
        ensures
            sends(
                Ok::<RestRequest, ResourceError>(r),
                HttpMethod::Post,
                fulfillment_order_path(fulfillment_order_id, "/cancellation_request/reject"@),
                None,
            ),
            r.body is Some && is_message_body(r.body->0, "cancellation_request"@, opt_str(message)),
    {
        let body = message_body("cancellation_request", message);
        let path = crate::rest::resource::id_path("fulfillment_orders/", fulfillment_order_id, "/cancellation_request/reject");
        request(HttpMethod::Post, path, None, Some(body))
    }
}


/// The text of the error for a fulfillment request reply that holds no
/// fulfillment order.
pub open spec fn no_fulfillment_order_text() -> Seq<char> {
    "Missing fulfillment_order in response"@
}

/// `r` is the `Http` error with this message, the response's status and its
/// request ID.
pub open spec fn reply_error(r: Result<&JsonValue, ResourceError>, response: HttpResponse, message: Seq<char>) -> bool {
    r matches Err(ResourceError::Http(HttpError::Response(e))) && e.code == response.code && e.message@ == message
        && opt_text(e.error_reference) == opt_text(response.request_id)
}

/// `r` is `Ok` with the value `v`.
pub open spec fn gives(r: Result<&JsonValue, ResourceError>, v: JsonValue) -> bool {
    r is Ok && *r->Ok_0 == v
}

impl FulfillmentOrder {
    /// The fulfillment order in a successful reply to an operation:
    /// its `fulfillment_order` member, or an `Http` error when it is missing.
    pub fn reply_order(response: &HttpResponse) -> (r: Result<&JsonValue, ResourceError>)
        ensures
            match json_get(response.body, "fulfillment_order"@) {
                Some(v) => gives(r, v),
                None => reply_error(r, *response, missing_member_text("fulfillment_order"@)),
            },
    {
        response_member(response, "fulfillment_order")
    }

    /// The fulfillment order in a successful reply to a move: the
    /// `moved_fulfillment_order` member, else `original_fulfillment_order`,
    /// else `fulfillment_order`, or an `Http` error when none is there.
    pub fn moved_order(response: &HttpResponse) -> (r: Result<&JsonValue, ResourceError>)
        ensures
            match json_get(response.body, "moved_fulfillment_order"@) {
                Some(v) => gives(r, v),
                None => match json_get(response.body, "original_fulfillment_order"@) {
                    Some(v) => gives(r, v),
                    None => match json_get(response.body, "fulfillment_order"@) {
                        Some(v) => gives(r, v),
                        None => reply_error(r, *response, missing_member_text("fulfillment_order"@)),
                    },
                },
            },
    {
        match response.body.get("moved_fulfillment_order") {
            Some(v) => Ok(v),
            None => match response.body.get("original_fulfillment_order") {
                Some(v) => Ok(v),
                None => Self::reply_order(response),
            },
        }
    }
}

impl FulfillmentRequest {
    /// The fulfillment order in a successful reply to a fulfillment request:
    /// the `original_fulfillment_order` member, else `fulfillment_order`, or
    /// an `Http` error when neither is there.
    pub fn created_order(response: &HttpResponse) -> (r: Result<&JsonValue, ResourceError>)
        ensures
            match json_get(response.body, "original_fulfillment_order"@) {
                Some(v) => gives(r, v),
                None => match json_get(response.body, "fulfillment_order"@) {
                    Some(v) => gives(r, v),
                    None => reply_error(r, *response, no_fulfillment_order_text()),
                },
            },
    {
        match response.body.get("original_fulfillment_order") {
            Some(v) => Ok(v),
            None => match response.body.get("fulfillment_order") {
                Some(v) => Ok(v),
                None => {
                    let message = "Missing fulfillment_order in response".to_string();
                    let error_reference = match &response.request_id {
                        Some(s) => Some(s.clone()),
                        None => None,
                    };
                    Err(
                        ResourceError::Http(
                            HttpError::Response(HttpResponseError { code: response.code, message, error_reference }),
                        ),
                    )
                },
            },
        }
    }
}

} // verus!
