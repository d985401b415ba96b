//! `InventoryItem` resource implementation.
use vstd::prelude::*;

use crate::clients::HttpMethod;
use crate::rest::path::{names, views, PathView, ResourceOperation, ResourcePath};

verus! {

/// Country-specific harmonized system code for customs.
///
/// Used for international shipping and customs declarations.
/// Each country may have its own harmonized system code for a product.
#[derive(Debug, Clone, Default, PartialEq, Eq)]
pub struct CountryHarmonizedSystemCode {
    /// The harmonized system code for this country.
    pub harmonized_system_code: Option<String>,

    /// The ISO 3166-1 alpha-2 country code.
    pub country_code: Option<String>,
}

/// An inventory item in a Shopify store.
///
/// Inventory items are associated with product variants and contain
/// information about tracking, cost, and customs declarations.
///
/// # Relationship to Variants
///
/// Each variant has an `inventory_item_id` field that links to its
/// corresponding inventory item. The inventory item tracks:
/// - Cost of goods
/// - Whether inventory is tracked
/// - Customs/HS codes for international shipping
///
/// # Fields
///
/// ## Writable Fields
/// - `cost` - The cost of the item (for profit calculations)
/// - `sku` - Stock keeping unit identifier
/// - `country_code_of_origin` - ISO country code where item originated
/// - `province_code_of_origin` - Province/state code where item originated
/// - `harmonized_system_code` - HS code for customs
/// - `tracked` - Whether inventory levels are tracked
///
/// ## Read-Only Fields
/// - `id` - The unique identifier
/// - `requires_shipping` - Whether the item requires shipping
/// - `created_at` - When the inventory item was created
/// - `updated_at` - When the inventory item was last updated
/// - `admin_graphql_api_id` - The GraphQL API ID
#[derive(Debug, Clone, Default, PartialEq, Eq)]
pub struct InventoryItem {
    /// The unique identifier of the inventory item.
    /// Read-only field.
    pub id: Option<u64>,

    /// The stock keeping unit (SKU) of the inventory item.
    pub sku: Option<String>,

    /// The unit cost of the inventory item.
    /// Stored as a string to preserve decimal precision.
    pub cost: Option<String>,

    /// When the inventory item was created.
    /// Read-only field.
    pub created_at: Option<String>,

    /// When the inventory item was last updated.
    /// Read-only field.
    pub updated_at: Option<String>,

    /// Whether the inventory item requires shipping.
    /// Read-only field.
    pub requires_shipping: Option<bool>,

    /// Whether inventory levels are tracked for this item.
    pub inventory_tracked: Option<bool>,

    /// The ISO 3166-1 alpha-2 country code of origin.
    pub country_code_of_origin: Option<String>,

    /// The province/state code of origin.
    pub province_code_of_origin: Option<String>,

    /// The harmonized system code for customs.
    pub harmonized_system_code: Option<String>,

    /// Country-specific harmonized system codes.
    pub country_harmonized_system_codes: Option<Vec<CountryHarmonizedSystemCode>>,

    /// The admin GraphQL API ID for this inventory item.
    /// Read-only field.
    pub admin_graphql_api_id: Option<String>,
}

impl InventoryItem {
    /// The singular name of the resource.
    pub const NAME: &'static str = "InventoryItem";

    /// The plural name used in URL paths.
    pub const PLURAL: &'static str = "inventory_items";

    /// The paths of this resource as plain values: method, operation,
    /// ID names and template.
    pub open spec fn path_views() -> Seq<PathView> {
        seq![
            (HttpMethod::Get, ResourceOperation::Find, seq!["id"@], "inventory_items/{id}"@),
            (HttpMethod::Get, ResourceOperation::All, Seq::<Seq<char>>::empty(), "inventory_items"@),
            (HttpMethod::Put, ResourceOperation::Update, seq!["id"@], "inventory_items/{id}"@),
        ]
    }

    /// The paths of this resource, one per supported operation and ID set.
    pub fn paths() -> (p: Vec<ResourcePath>)
        ensures
            views(p@) == Self::path_views(),
    {
        let mut p = Vec::new();
        p.push(ResourcePath::new(HttpMethod::Get, ResourceOperation::Find, &["id"], "inventory_items/{id}"));
        p.push(ResourcePath::new(HttpMethod::Get, ResourceOperation::All, &[], "inventory_items"));
        p.push(ResourcePath::new(HttpMethod::Put, ResourceOperation::Update, &["id"], "inventory_items/{id}"));
        assert(names(p@[0].ids@) =~= seq!["id"@]);
        assert(names(p@[1].ids@) =~= Seq::<Seq<char>>::empty());
        assert(names(p@[2].ids@) =~= seq!["id"@]);
        p
    }

    /// Returns the resource's ID, or `None` for a resource not saved yet.
    pub fn get_id(&self) -> (id: Option<u64>)
        ensures
            id == self.id,
    {
        self.id
    }
}

/// Parameters for finding a single inventory item.
#[derive(Debug, Clone, Default, PartialEq, Eq)]
pub struct InventoryItemFindParams {
    // No specific find params for inventory items
}

/// Parameters for listing inventory items.
///
/// # Important
///
/// The `ids` parameter is required when listing inventory items.
/// The API will return an error if `ids` is not provided.
#[derive(Debug, Clone, Default, PartialEq, Eq)]
pub struct InventoryItemListParams {
    /// Comma-separated list of inventory item IDs to retrieve.
    /// **Required** - the API requires this parameter.
    pub ids: Option<Vec<u64>>,

    /// Maximum number of results to return (default: 50, max: 250).
    pub limit: Option<u32>,

    /// Cursor for pagination.
    pub page_info: Option<String>,
}

} // verus!
