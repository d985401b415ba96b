//! `InventoryLevel` resource implementation.
use vstd::prelude::*;

use crate::json::{JsonNumber, JsonValue};
use crate::rest::errors::ResourceError;
use crate::rest::params::insert_entry;
use crate::rest::resource::{id_path, is_empty_object, request, sends, unresolved, RestRequest};
use crate::rest::StringMap;
use crate::text::decimal;
use crate::clients::HttpMethod;
use crate::rest::path::{names, views, PathView, ResourceOperation, ResourcePath};
use crate::rest::errors::opt_text;

verus! {

/// An inventory level in a Shopify store.
///
/// Inventory levels represent the quantity of an inventory item available at
/// a specific location. This is a special resource that uses a composite key
/// (`inventory_item_id` + `location_id`) instead of a single `id` field.
///
/// # Composite Key
///
/// This resource does NOT have an `id` field. It is uniquely identified by:
/// - `inventory_item_id` - The ID of the inventory item
/// - `location_id` - The ID of the location
///
/// # Fields
///
/// - `inventory_item_id` - The ID of the inventory item
/// - `location_id` - The ID of the location
/// - `available` - The quantity available for sale
/// - `updated_at` - When the level was last updated
/// - `admin_graphql_api_id` - GraphQL API ID
#[derive(Debug, Clone, Default, PartialEq, Eq)]
pub struct InventoryLevel {
    /// The ID of the inventory item.
    /// Part of the composite key.
    pub inventory_item_id: Option<u64>,

    /// The ID of the location.
    /// Part of the composite key.
    pub location_id: Option<u64>,

    /// The quantity available for sale.
    pub available: Option<i64>,

    /// When the inventory level was last updated.
    pub updated_at: Option<String>,

    /// The admin GraphQL API ID for this inventory level.
    pub admin_graphql_api_id: Option<String>,
}

impl InventoryLevel {
    /// The singular name of the resource.
    pub const NAME: &'static str = "InventoryLevel";

    /// The plural name used in URL paths.
    pub const PLURAL: &'static str = "inventory_levels";

    /// The paths of this resource as plain values: method, operation,
    /// ID names and template.
    pub open spec fn path_views() -> Seq<PathView> {
        seq![
            (HttpMethod::Get, ResourceOperation::All, Seq::<Seq<char>>::empty(), "inventory_levels"@),
        ]
    }

    /// The paths of this resource, one per supported operation and ID set.
    pub fn paths() -> (p: Vec<ResourcePath>)
        ensures
            views(p@) == Self::path_views(),
    {
        let mut p = Vec::new();
        p.push(ResourcePath::new(HttpMethod::Get, ResourceOperation::All, &[], "inventory_levels"));
        assert(names(p@[0].ids@) =~= Seq::<Seq<char>>::empty());
        p
    }

    /// Plans adjusting the available quantity at a location by a delta: POST
    /// to `inventory_levels/adjust` with the item, location and adjustment.
    pub fn adjust_request(inventory_item_id: u64, location_id: u64, available_adjustment: i64) -> (r:
        RestRequest)
        ensures
            sends(Ok::<RestRequest, ResourceError>(r), HttpMethod::Post, "inventory_levels/adjust"@, None),
            r.body matches Some(JsonValue::Object(ms)) && ms@.len() == 3
                && ms@[0].key@ == "available_adjustment"@ && ms@[0].value == JsonValue::signed_spec(available_adjustment)
                && ms@[1].key@ == "inventory_item_id"@ && ms@[1].value == JsonValue::Number(JsonNumber::PosInt(inventory_item_id))
                && ms@[2].key@ == "location_id"@ && ms@[2].value == JsonValue::Number(JsonNumber::PosInt(location_id)),
    {
        let mut body = JsonValue::empty_object();
        body.push_member("available_adjustment", JsonValue::signed(available_adjustment));
        body.push_member("inventory_item_id", JsonValue::uint(inventory_item_id));
        body.push_member("location_id", JsonValue::uint(location_id));
        request(HttpMethod::Post, "inventory_levels/adjust".to_string(), None, Some(body))
    }

    /// Plans connecting an item to a location: POST to
    /// `inventory_levels/connect` with the item and location, and
    /// `relocate_if_necessary` when given.
    pub fn connect_request(
        inventory_item_id: u64,
        location_id: u64,
        relocate_if_necessary: Option<bool>,
    ) -> (r: RestRequest)
        ensures
            sends(Ok::<RestRequest, ResourceError>(r), HttpMethod::Post, "inventory_levels/connect"@, None),
            r.body matches Some(JsonValue::Object(ms)) && ms@.len() == (if relocate_if_necessary is Some { 3int } else { 2int })
                && ms@[0].key@ == "inventory_item_id"@ && ms@[0].value == JsonValue::Number(JsonNumber::PosInt(inventory_item_id))
                && ms@[1].key@ == "location_id"@ && ms@[1].value == JsonValue::Number(JsonNumber::PosInt(location_id))
                && (relocate_if_necessary matches Some(b) ==> ms@[2].key@ == "relocate_if_necessary"@
                    && ms@[2].value == JsonValue::Bool(b)),
    {
        let mut body = JsonValue::empty_object();
        body.push_member("inventory_item_id", JsonValue::uint(inventory_item_id));
        body.push_member("location_id", JsonValue::uint(location_id));
        match relocate_if_necessary {
            Some(b) => body.push_member("relocate_if_necessary", JsonValue::Bool(b)),
            None => {},
        }
        request(HttpMethod::Post, "inventory_levels/connect".to_string(), None, Some(body))
    }

    /// Plans setting the available quantity at a location: POST to
    /// `inventory_levels/set` with the quantity, item and location, and
    /// `disconnect_if_necessary` when given.
    pub fn set_request(
        inventory_item_id: u64,
        location_id: u64,
        available: i64,
        disconnect_if_necessary: Option<bool>,
    ) -> (r: RestRequest)
        ensures
            sends(Ok::<RestRequest, ResourceError>(r), HttpMethod::Post, "inventory_levels/set"@, None),
            r.body matches Some(JsonValue::Object(ms)) && ms@.len() == (if disconnect_if_necessary is Some { 4int } else { 3int })
                && ms@[0].key@ == "available"@ && ms@[0].value == JsonValue::signed_spec(available)
                && (disconnect_if_necessary matches Some(b) ==> ms@[1].key@ == "disconnect_if_necessary"@
                    && ms@[1].value == JsonValue::Bool(b))
                && ms@[ms@.len() - 2].key@ == "inventory_item_id"@ && ms@[ms@.len() - 2].value == JsonValue::Number(JsonNumber::PosInt(inventory_item_id))
                && ms@[ms@.len() - 1].key@ == "location_id"@ && ms@[ms@.len() - 1].value == JsonValue::Number(JsonNumber::PosInt(location_id)),
    {
        let mut body = JsonValue::empty_object();
        body.push_member("available", JsonValue::signed(available));
        match disconnect_if_necessary {
            Some(b) => body.push_member("disconnect_if_necessary", JsonValue::Bool(b)),
            None => {},
        }
        body.push_member("inventory_item_id", JsonValue::uint(inventory_item_id));
        body.push_member("location_id", JsonValue::uint(location_id));
        request(HttpMethod::Post, "inventory_levels/set".to_string(), None, Some(body))
    }

    /// Plans removing an item from a location: DELETE on `inventory_levels`
    /// with the item and location as query parameters.
    pub fn delete_at_location_request(inventory_item_id: u64, location_id: u64) -> (r: RestRequest)
        ensures
            sends(
                Ok::<RestRequest, ResourceError>(r),
                HttpMethod::Delete,
                "inventory_levels"@,
                Some(
                    insert_entry(
                        insert_entry(Seq::empty(), "inventory_item_id"@, decimal(inventory_item_id as nat)),
                        "location_id"@,
                        decimal(location_id as nat),
                    ),
                ),
            ),
            r.body is None,
    {
        let mut q = StringMap::new();
        q.insert_u64("inventory_item_id", inventory_item_id);
        q.insert_u64("location_id", location_id);
        request(HttpMethod::Delete, "inventory_levels".to_string(), Some(q), None)
    }

    /// Always `None`: the resource has no single ID.
    pub fn get_id(&self) -> (id: Option<u64>)
        ensures
            id is None,
    {
        None
    }
}

/// Parameters for listing inventory levels.
///
/// At least one of `inventory_item_ids` or `location_ids` must be provided.
#[derive(Debug, Clone, Default, PartialEq, Eq)]
pub struct InventoryLevelListParams {
    /// Comma-separated list of inventory item IDs to retrieve levels for.
    pub inventory_item_ids: Option<String>,

    /// Comma-separated list of location IDs to retrieve levels for.
    pub location_ids: Option<String>,

    /// Maximum number of results to return (default: 50, max: 250).
    pub limit: Option<u32>,

    /// Show inventory levels updated at or after this date.
    pub updated_at_min: Option<String>,
}

} // verus!
