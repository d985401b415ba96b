//! Line item and related types for orders.
use vstd::prelude::*;

use crate::json::JsonValue;

verus! {

/// A tax applied to an order or line item.
///
/// Contains information about a specific tax charge including the title,
/// price, and rate.
#[derive(Debug, Default, PartialEq)]
pub struct TaxLine {
    /// The name of the tax (e.g., "State Tax", "VAT").
    pub title: Option<String>,

    /// The tax amount as a string to preserve decimal precision.
    pub price: Option<String>,

    /// The tax rate as decimal text (e.g., "0.08" for 8%).
    pub rate: Option<String>,

    /// The price in multiple currencies.
    /// Uses `JsonValue` for flexibility as this is a complex nested structure.
    pub price_set: Option<JsonValue>,
}

/// A discount applied to an order.
///
/// Represents how a discount was applied, including the type, value,
/// and targeting information.
#[derive(Debug, Clone, Default, PartialEq, Eq)]
pub struct DiscountApplication {
    /// The type of discount (e.g., `discount_code`, `manual`, `script`).
    pub discount_type: Option<String>,

    /// The value of the discount.
    pub value: Option<String>,

    /// The type of value (e.g., `percentage`, `fixed_amount`).
    pub value_type: Option<String>,

    /// How the discount is allocated (e.g., "across", "each", "one").
    pub allocation_method: Option<String>,

    /// How line items are selected for the discount (e.g., "all", "entitled", "explicit").
    pub target_selection: Option<String>,

    /// The type of line the discount applies to (e.g., `line_item`, `shipping_line`).
    pub target_type: Option<String>,

    /// The discount code used (if applicable).
    pub code: Option<String>,

    /// The title of the discount.
    pub title: Option<String>,

    /// A description of the discount.
    pub description: Option<String>,
}

/// An allocated discount amount on a line item.
///
/// Links a discount application to the specific amount allocated
/// to a line item.
#[derive(Debug, Default, PartialEq, Eq)]
pub struct DiscountAllocation {
    /// The allocated discount amount as a string.
    pub amount: Option<String>,

    /// The index of the discount application in the order's `discount_applications` array.
    pub discount_application_index: Option<i64>,

    /// The allocated amount in multiple currencies.
    pub amount_set: Option<JsonValue>,
}

/// A custom property on a line item.
///
/// Used for customization options like engraving, gift messages, etc.
#[derive(Debug, Clone, Default, PartialEq, Eq)]
pub struct LineItemProperty {
    /// The name of the property.
    pub name: String,

    /// The value of the property.
    pub value: String,
}

/// A line item in an order.
///
/// Represents a single product or variant being purchased, including
/// quantity, price, and applied discounts/taxes.
#[derive(Debug, Default, PartialEq)]
pub struct LineItem {
    /// The unique identifier of the line item.
    pub id: Option<u64>,

    /// The ID of the product variant.
    pub variant_id: Option<u64>,

    /// The ID of the product.
    pub product_id: Option<u64>,

    /// The title of the product.
    pub title: Option<String>,

    /// The quantity of items.
    pub quantity: Option<i64>,

    /// The price per item as a string.
    pub price: Option<String>,

    /// The SKU of the variant.
    pub sku: Option<String>,

    /// The title of the variant.
    pub variant_title: Option<String>,

    /// The vendor of the product.
    pub vendor: Option<String>,

    /// The weight of the item in grams.
    pub grams: Option<i64>,

    /// Whether the item is taxable.
    pub taxable: Option<bool>,

    /// Whether the item is a gift card.
    pub gift_card: Option<bool>,

    /// Whether the item requires shipping.
    pub requires_shipping: Option<bool>,

    /// The name of the product and variant.
    pub name: Option<String>,

    /// Custom properties on the line item.
    pub properties: Option<Vec<LineItemProperty>>,

    /// Tax lines applied to this line item.
    pub tax_lines: Option<Vec<TaxLine>>,

    /// Discount allocations for this line item.
    pub discount_allocations: Option<Vec<DiscountAllocation>>,

    /// The total discount amount on this line item.
    pub total_discount: Option<String>,

    /// The fulfillment service for the item.
    pub fulfillment_service: Option<String>,

    /// The fulfillment status of the item.
    pub fulfillment_status: Option<String>,

    /// Whether the product still exists.
    pub product_exists: Option<bool>,

    /// The quantity that can still be fulfilled.
    pub fulfillable_quantity: Option<i64>,

    /// The total duties on the line item.
    pub duties: Option<Vec<JsonValue>>,

    /// The price in multiple currencies.
    pub price_set: Option<JsonValue>,

    /// The total discount in multiple currencies.
    pub total_discount_set: Option<JsonValue>,

    /// The admin GraphQL API ID.
    pub admin_graphql_api_id: Option<String>,
}

/// A shipping line on an order.
///
/// Represents a shipping method applied to the order, including
/// the price and carrier information.
#[derive(Debug, Default, PartialEq)]
pub struct ShippingLine {
    /// The unique identifier of the shipping line.
    pub id: Option<u64>,

    /// The title of the shipping method.
    pub title: Option<String>,

    /// The price of shipping as a string.
    pub price: Option<String>,

    /// The code for the shipping method.
    pub code: Option<String>,

    /// The source of the shipping rate.
    pub source: Option<String>,

    /// The phone number for the shipping.
    pub phone: Option<String>,

    /// The carrier identifier.
    pub carrier_identifier: Option<String>,

    /// Tax lines for the shipping.
    pub tax_lines: Option<Vec<TaxLine>>,

    /// The shipping price in multiple currencies.
    pub price_set: Option<JsonValue>,

    /// Discount allocations for shipping.
    pub discount_allocations: Option<Vec<DiscountAllocation>>,

    /// The discounted price of shipping.
    pub discounted_price: Option<String>,

    /// The discounted price in multiple currencies.
    pub discounted_price_set: Option<JsonValue>,
}

/// A custom note attribute on an order.
///
/// Used for storing additional order metadata as key-value pairs.
#[derive(Debug, Clone, Default, PartialEq, Eq)]
pub struct NoteAttribute {
    /// The attribute name.
    pub name: String,

    /// The attribute value.
    pub value: String,
}

} // verus!
