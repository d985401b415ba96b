//! DraftOrder resource implementation.
use vstd::prelude::*;

use crate::clients::HttpMethod;
use crate::rest::path::{names, views, PathView, ResourceOperation, ResourcePath};
use crate::json::{bool_text, JsonValue};
use crate::rest::resources::v2025_10::common::{Address, NoteAttribute, ShippingLine, TaxLine};
use crate::rest::errors::ResourceError;
use crate::rest::resource::{has_keys, id_path, key_if, member_value, request, sends, unresolved, RestRequest};
use crate::text::decimal;

verus! {

/// The status of a draft order.
///
/// Indicates the current state of the draft order.
#[derive(Debug, Clone, Copy, PartialEq, Eq, Default)]
pub enum DraftOrderStatus {
    /// The draft order is open and can be edited.
    #[default]
    Open,
    /// An invoice has been sent to the customer.
    InvoiceSent,
    /// The draft order has been completed and converted to an order.
    Completed,
}

/// A discount applied to a draft order or line item.
///
/// Used for applying custom discounts to draft orders.
#[derive(Debug, Clone, Default, PartialEq)]
pub struct AppliedDiscount {
    /// The title of the discount.
    pub title: Option<String>,

    /// A description of the discount.
    pub description: Option<String>,

    /// The discount value (numeric).
    pub value: Option<String>,

    /// The type of value: "percentage" or "fixed_amount".
    pub value_type: Option<String>,

    /// The calculated discount amount.
    pub amount: Option<String>,
}

/// A line item in a draft order.
///
/// Represents a product or custom item to be included in the draft order.
#[derive(Debug, Default, PartialEq)]
pub struct DraftOrderLineItem {
    /// The unique identifier of the line item.
    pub id: Option<u64>,

    /// The ID of the product variant.
    pub variant_id: Option<u64>,

    /// The ID of the product.
    pub product_id: Option<u64>,

    /// The title of the product.
    pub title: Option<String>,

    /// The title of the variant.
    pub variant_title: Option<String>,

    /// The SKU of the variant.
    pub sku: Option<String>,

    /// The vendor of the product.
    pub vendor: Option<String>,

    /// The quantity of items.
    pub quantity: Option<i64>,

    /// Whether the item requires shipping.
    pub requires_shipping: Option<bool>,

    /// Whether the item is taxable.
    pub taxable: Option<bool>,

    /// Whether the item is a gift card.
    pub gift_card: Option<bool>,

    /// The fulfillment service for the item.
    pub fulfillment_service: Option<String>,

    /// The weight in grams.
    pub grams: Option<i64>,

    /// Tax lines applied to this line item.
    pub tax_lines: Option<Vec<TaxLine>>,

    /// The name of the line item.
    pub name: Option<String>,

    /// Custom properties on the line item.
    pub properties: Option<Vec<JsonValue>>,

    /// Whether the custom line item (not a product variant).
    pub custom: Option<bool>,

    /// The price per item as a string.
    pub price: Option<String>,

    /// A discount applied to this specific line item.
    pub applied_discount: Option<AppliedDiscount>,

    /// The admin GraphQL API ID.
    pub admin_graphql_api_id: Option<String>,
}

/// Invoice details for sending to a customer.
///
/// Used with the [`DraftOrder::send_invoice_request`] operation.
#[derive(Debug, Clone, Default, PartialEq, Eq)]
pub struct DraftOrderInvoice {
    /// The email address to send the invoice to.
    pub to: Option<String>,

    /// The email address the invoice is sent from.
    pub from: Option<String>,

    /// The subject line of the email.
    pub subject: Option<String>,

    /// A custom message included in the invoice email.
    pub custom_message: Option<String>,

    /// Email addresses to BCC on the invoice.
    pub bcc: Option<Vec<String>>,
}

/// The `payment_pending` flag of optional complete params.
pub open spec fn pending(params: Option<&DraftOrderCompleteParams>) -> Option<bool> {
    match params {
        Some(p) => p.payment_pending,
        None => None,
    }
}

/// The path that completes draft order `id`, with the payment flag as a
/// query string when there is one.
pub open spec fn complete_path(id: u64, flag: Option<bool>) -> Seq<char> {
    "draft_orders/"@ + decimal(id as nat) + "/complete"@ + match flag {
        Some(b) => "?payment_pending="@ + bool_text(b),
        None => Seq::empty(),
    }
}

/// The path that completes a draft order carries the payment flag as given:
/// `?payment_pending=true` for `true`, `?payment_pending=false` for `false`
/// (the order is then marked as paid), and no query when it is absent.
pub proof fn lemma_complete_path_flag(id: u64)
    ensures
        complete_path(id, Some(true)) == "draft_orders/"@ + decimal(id as nat) + "/complete?payment_pending=true"@,
        complete_path(id, Some(false)) == "draft_orders/"@ + decimal(id as nat) + "/complete?payment_pending=false"@,
        complete_path(id, None) == "draft_orders/"@ + decimal(id as nat) + "/complete"@,
{
    reveal_strlit("draft_orders/");
    reveal_strlit("/complete");
    reveal_strlit("?payment_pending=");
    reveal_strlit("/complete?payment_pending=true");
    reveal_strlit("/complete?payment_pending=false");
    assert(complete_path(id, Some(true)) =~= "draft_orders/"@ + decimal(id as nat) + "/complete?payment_pending=true"@);
    assert(complete_path(id, Some(false)) =~= "draft_orders/"@ + decimal(id as nat)
        + "/complete?payment_pending=false"@);
    assert(complete_path(id, None) =~= "draft_orders/"@ + decimal(id as nat) + "/complete"@);
}

/// `v` is the JSON array of the strings `items`.
pub open spec fn is_strings_json(v: JsonValue, items: Seq<String>) -> bool {
    &&& v is Array
    &&& v->Array_0@.len() == items.len()
    &&& forall|j: int| 0 <= j < items.len() ==> #[trigger] v->Array_0@[j] == JsonValue::String(items[j])
}

/// The JSON array of the strings `items`.
pub fn strings_json(items: &Vec<String>) -> (v: JsonValue)
    ensures
        is_strings_json(v, items@),
{
    let mut out: Vec<JsonValue> = Vec::new();
    let mut i: usize = 0;
    while i < items.len()
        invariant
            i <= items@.len(),
            out@.len() == i,
            forall|j: int| 0 <= j < i ==> #[trigger] out@[j] == JsonValue::String(items@[j]),
        decreases items.len() - i,
    {
        out.push(JsonValue::String(items[i].clone()));
        i = i + 1;
    }
    JsonValue::Array(out)
}

/// `v` is the JSON of an invoice: the present members among `bcc`,
/// `custom_message`, `from`, `subject` and `to`, in that order.
pub open spec fn is_invoice_json(v: JsonValue, inv: DraftOrderInvoice) -> bool {
    let a = if inv.bcc is Some { 1int } else { 0int };
    let b = a + if inv.custom_message is Some { 1int } else { 0int };
    let c = b + if inv.from is Some { 1int } else { 0int };
    let d = c + if inv.subject is Some { 1int } else { 0int };
    &&& has_keys(
        v,
        key_if(inv.bcc is Some, "bcc"@) + key_if(inv.custom_message is Some, "custom_message"@) + key_if(
            inv.from is Some,
            "from"@,
        ) + key_if(inv.subject is Some, "subject"@) + key_if(inv.to is Some, "to"@),
    )
    &&& (inv.bcc matches Some(items) ==> is_strings_json(member_value(v, 0), items@))
    &&& (inv.custom_message matches Some(m) ==> member_value(v, a) == JsonValue::String(m))
    &&& (inv.from matches Some(f) ==> member_value(v, b) == JsonValue::String(f))
    &&& (inv.subject matches Some(t) ==> member_value(v, c) == JsonValue::String(t))
    &&& (inv.to matches Some(t) ==> member_value(v, d) == JsonValue::String(t))
}

impl DraftOrderInvoice {
    /// The JSON of the invoice, absent members left out.
    pub fn to_json(&self) -> (v: JsonValue)
        ensures
            is_invoice_json(v, *self),
    {
        let mut v = JsonValue::empty_object();
        match &self.bcc {
            Some(items) => v.push_member("bcc", strings_json(items)),
            None => {},
        }
        match &self.custom_message {
            Some(m) => v.push_member("custom_message", JsonValue::String(m.clone())),
            None => {},
        }
        match &self.from {
            Some(f) => v.push_member("from", JsonValue::String(f.clone())),
            None => {},
        }
        match &self.subject {
            Some(t) => v.push_member("subject", JsonValue::String(t.clone())),
            None => {},
        }
        match &self.to {
            Some(t) => v.push_member("to", JsonValue::String(t.clone())),
            None => {},
        }
        v
    }
}

/// Parameters for completing a draft order.
///
/// Used with the [`DraftOrder::complete_request`] operation.
#[derive(Debug, Clone, Default, PartialEq, Eq)]
pub struct DraftOrderCompleteParams {
    /// Whether to mark the payment as pending.
    /// If true, the order is created with payment pending status.
    /// If false or omitted, the order is marked as paid.
    pub payment_pending: Option<bool>,
}

/// A draft order in Shopify.
///
/// Draft orders are used for B2B/wholesale workflows where merchants create
/// orders on behalf of customers. They support custom pricing, discounts,
/// and can be completed to become actual orders.
///
/// # Status Lifecycle
///
/// - `Open` - Initial state, can be edited
/// - `InvoiceSent` - Invoice sent to customer via `send_invoice_request()`
/// - `Completed` - Converted to actual order via `complete_request()`
///
/// # Read-Only Fields
///
/// The following fields are read-only and will not be sent in create/update requests:
/// - `id`, `order_id`, `name`
/// - `invoice_sent_at`, `invoice_url`
/// - `completed_at`, `created_at`, `updated_at`
/// - `admin_graphql_api_id`
#[derive(Debug, Default, PartialEq)]
pub struct DraftOrder {
    // --- Read-only fields (not serialized) ---
    /// The unique identifier of the draft order.
    pub id: Option<u64>,

    /// The ID of the order created when this draft was completed.
    pub order_id: Option<u64>,

    /// The name of the draft order (e.g., "#D1").
    pub name: Option<String>,

    /// When an invoice was last sent for this draft order.
    pub invoice_sent_at: Option<String>,

    /// The URL to the invoice for this draft order.
    pub invoice_url: Option<String>,

    /// When the draft order was completed.
    pub completed_at: Option<String>,

    /// When the draft order was created.
    pub created_at: Option<String>,

    /// When the draft order was last updated.
    pub updated_at: Option<String>,

    /// The admin GraphQL API ID.
    pub admin_graphql_api_id: Option<String>,

    // --- Core fields ---
    /// The status of the draft order.
    pub status: Option<DraftOrderStatus>,

    /// The customer's email address.
    pub email: Option<String>,

    /// The currency code for the draft order (e.g., "USD").
    pub currency: Option<String>,

    /// Whether the customer is tax exempt.
    pub tax_exempt: Option<bool>,

    /// Tax exemptions applied to the customer.
    pub tax_exemptions: Option<Vec<String>>,

    /// Whether taxes are included in the prices.
    pub taxes_included: Option<bool>,

    /// The total tax amount.
    pub total_tax: Option<String>,

    /// The subtotal price before taxes and shipping.
    pub subtotal_price: Option<String>,

    /// The total price including taxes and shipping.
    pub total_price: Option<String>,

    /// An optional note attached to the draft order.
    pub note: Option<String>,

    /// Custom note attributes (key-value pairs).
    pub note_attributes: Option<Vec<NoteAttribute>>,

    /// Comma-separated tags.
    pub tags: Option<String>,

    /// The ID of the customer associated with this draft order.
    pub customer_id: Option<u64>,

    /// Whether to use the customer's default address.
    pub use_customer_default_address: Option<bool>,

    // --- Nested structures ---
    /// Line items in the draft order.
    pub line_items: Option<Vec<DraftOrderLineItem>>,

    /// The shipping address.
    pub shipping_address: Option<Address>,

    /// The billing address.
    pub billing_address: Option<Address>,

    /// The customer associated with this draft order.
    pub customer: Option<JsonValue>,

    /// The shipping line for the draft order.
    pub shipping_line: Option<ShippingLine>,

    /// Tax lines for the draft order.
    pub tax_lines: Option<Vec<TaxLine>>,

    /// A discount applied to the entire draft order.
    pub applied_discount: Option<AppliedDiscount>,
}

impl DraftOrder {
    /// The singular name of the resource.
    pub const NAME: &'static str = "DraftOrder";

    /// The plural name used in URL paths.
    pub const PLURAL: &'static str = "draft_orders";

    /// The paths of this resource as plain values: method, operation,
    /// ID names and template.
    pub open spec fn path_views() -> Seq<PathView> {
        seq![
            (HttpMethod::Get, ResourceOperation::Find, seq!["id"@], "draft_orders/{id}"@),
            (HttpMethod::Get, ResourceOperation::All, Seq::<Seq<char>>::empty(), "draft_orders"@),
            (HttpMethod::Get, ResourceOperation::Count, Seq::<Seq<char>>::empty(), "draft_orders/count"@),
            (HttpMethod::Post, ResourceOperation::Create, Seq::<Seq<char>>::empty(), "draft_orders"@),
            (HttpMethod::Put, ResourceOperation::Update, seq!["id"@], "draft_orders/{id}"@),
            (HttpMethod::Delete, ResourceOperation::Delete, seq!["id"@], "draft_orders/{id}"@),
        ]
    }

    /// The paths of this resource, one per supported operation and ID set.
    pub fn paths() -> (p: Vec<ResourcePath>)
        ensures
            views(p@) == Self::path_views(),
    {
        let mut p = Vec::new();
        p.push(ResourcePath::new(HttpMethod::Get, ResourceOperation::Find, &["id"], "draft_orders/{id}"));
        p.push(ResourcePath::new(HttpMethod::Get, ResourceOperation::All, &[], "draft_orders"));
        p.push(ResourcePath::new(HttpMethod::Get, ResourceOperation::Count, &[], "draft_orders/count"));
        p.push(ResourcePath::new(HttpMethod::Post, ResourceOperation::Create, &[], "draft_orders"));
        p.push(ResourcePath::new(HttpMethod::Put, ResourceOperation::Update, &["id"], "draft_orders/{id}"));
        p.push(ResourcePath::new(HttpMethod::Delete, ResourceOperation::Delete, &["id"], "draft_orders/{id}"));
        assert(names(p@[0].ids@) =~= seq!["id"@]);
        assert(names(p@[1].ids@) =~= Seq::<Seq<char>>::empty());
        assert(names(p@[2].ids@) =~= Seq::<Seq<char>>::empty());
        assert(names(p@[3].ids@) =~= Seq::<Seq<char>>::empty());
        assert(names(p@[4].ids@) =~= seq!["id"@]);
        assert(names(p@[5].ids@) =~= seq!["id"@]);
        p
    }

    /// Plans completing the draft order into an order: PUT to
    /// `draft_orders/{id}/complete`, followed by `?payment_pending=true` or
    /// `?payment_pending=false` when the params say so, with an empty body.
    pub fn complete_request(&self, params: Option<&DraftOrderCompleteParams>) -> (r: Result<
        RestRequest,
        ResourceError,
    >)
        ensures
            match self.id {
                None => unresolved(r, Self::NAME@, "complete"@),
                Some(id) => sends(r, HttpMethod::Put, complete_path(id, pending(params)), None)
                    && r->Ok_0.body is Some && has_keys(r->Ok_0.body->0, Seq::empty()),
            },
    {
        match self.id {
            None => Err(ResourceError::PathResolutionFailed { resource: Self::NAME, operation: "complete" }),
            Some(id) => {
                let mut path = id_path("draft_orders/", id, "/complete");
                let ghost head = path@;
                let flag = match params {
                    Some(p) => p.payment_pending,
                    None => None,
                };
                match flag {
                    Some(b) => {
                        path.append("?payment_pending=");
                        path.append(if b { "true" } else { "false" });
                        proof {
                            reveal_strlit("?payment_pending=");
                            reveal_strlit("true");
                            reveal_strlit("false");
                            assert(path@ =~= head + ("?payment_pending="@ + bool_text(b)));
                        }
                    },
                    None => {
                        assert(path@ =~= head + Seq::<char>::empty());
                    },
                }
                Ok(request(HttpMethod::Put, path, None, Some(JsonValue::empty_object())))
            },
        }
    }

    /// Plans sending the invoice: POST to `draft_orders/{id}/send_invoice`
    /// with `{"draft_order_invoice": invoice}`.
    pub fn send_invoice_request(&self, invoice: &DraftOrderInvoice) -> (r: Result<RestRequest, ResourceError>)
        ensures
            match self.id {
                None => unresolved(r, Self::NAME@, "send_invoice"@),
                Some(id) => sends(r, HttpMethod::Post, "draft_orders/"@ + decimal(id as nat) + "/send_invoice"@, None)
                    && r->Ok_0.body is Some && has_keys(r->Ok_0.body->0, seq!["draft_order_invoice"@])
                    && is_invoice_json(member_value(r->Ok_0.body->0, 0), *invoice),
            },
    {
        match self.id {
            None => Err(ResourceError::PathResolutionFailed { resource: Self::NAME, operation: "send_invoice" }),
            Some(id) => {
                let mut body = JsonValue::empty_object();
                body.push_member("draft_order_invoice", invoice.to_json());
                let path = id_path("draft_orders/", id, "/send_invoice");
                Ok(request(HttpMethod::Post, path, None, Some(body)))
            },
        }
    }

    /// Returns the resource's ID, or `None` for a resource not saved yet.
    pub fn get_id(&self) -> (id: Option<u64>)
        ensures
            id == self.id,
    {
        self.id
    }
}

/// Parameters for finding a single draft order.
#[derive(Debug, Clone, Default, PartialEq, Eq)]
pub struct DraftOrderFindParams {
    /// Comma-separated list of fields to include in the response.
    pub fields: Option<String>,
}

/// Parameters for listing draft orders.
///
/// All fields are optional. Unset fields will not be included in the request.
#[derive(Debug, Clone, Default, PartialEq, Eq)]
pub struct DraftOrderListParams {
    /// Maximum number of results to return (default: 50, max: 250).
    pub limit: Option<u32>,

    /// Return only draft orders after the specified ID.
    pub since_id: Option<u64>,

    /// Show draft orders created at or after this date.
    pub created_at_min: Option<String>,

    /// Show draft orders created at or before this date.
    pub created_at_max: Option<String>,

    /// Show draft orders last updated at or after this date.
    pub updated_at_min: Option<String>,

    /// Show draft orders last updated at or before this date.
    pub updated_at_max: Option<String>,

    /// Comma-separated list of draft order IDs to retrieve.
    pub ids: Option<Vec<u64>>,

    /// Filter by draft order status (open, invoice_sent, completed).
    pub status: Option<DraftOrderStatus>,

    /// Comma-separated list of fields to include in the response.
    pub fields: Option<String>,

    /// Page info for cursor-based pagination.
    pub page_info: Option<String>,
}

/// Parameters for counting draft orders.
#[derive(Debug, Clone, Default, PartialEq, Eq)]
pub struct DraftOrderCountParams {
    /// Return only draft orders after the specified ID.
    pub since_id: Option<u64>,

    /// Filter by draft order status.
    pub status: Option<DraftOrderStatus>,

    /// Show draft orders created at or after this date.
    pub created_at_min: Option<String>,

    /// Show draft orders created at or before this date.
    pub created_at_max: Option<String>,

    /// Show draft orders last updated at or after this date.
    pub updated_at_min: Option<String>,

    /// Show draft orders last updated at or before this date.
    pub updated_at_max: Option<String>,
}

} // verus!
