//! Collect resource implementation.
use vstd::prelude::*;

use crate::clients::HttpMethod;
use crate::rest::path::{names, views, PathView, ResourceOperation, ResourcePath};

verus! {

/// A connection between a product and a custom collection.
///
/// Collects represent the many-to-many relationship between products
/// and custom collections. Smart collections manage their own products
/// automatically based on conditions.
///
/// # Limited Operations
///
/// - **Create**: Yes - add product to collection
/// - **Find**: Yes - get specific collect
/// - **List**: Yes - filterable by product_id or collection_id
/// - **Count**: Yes - filterable by product_id or collection_id
/// - **Update**: No - delete and recreate instead
/// - **Delete**: Yes - remove product from collection
///
/// # Fields
///
/// ## Read-Only Fields
/// - `id` - The unique identifier
/// - `created_at` - When the collect was created
/// - `updated_at` - When the collect was last updated
///
/// ## Writable Fields
/// - `product_id` - The ID of the product
/// - `collection_id` - The ID of the custom collection
/// - `position` - The position of the product in the collection
/// - `sort_value` - The sort value for the product
#[derive(Debug, Clone, Default, PartialEq)]
pub struct Collect {
    /// The unique identifier of the collect.
    pub id: Option<u64>,

    /// The ID of the product in this collect.
    pub product_id: Option<u64>,

    /// The ID of the custom collection containing the product.
    pub collection_id: Option<u64>,

    /// The position of the product in the collection.
    /// Products are sorted by position in ascending order.
    pub position: Option<i32>,

    /// A string used for sorting when the collection is sorted manually.
    pub sort_value: Option<String>,

    /// When the collect was created.
    pub created_at: Option<String>,

    /// When the collect was last updated.
    pub updated_at: Option<String>,
}

impl Collect {
    /// The singular name of the resource.
    pub const NAME: &'static str = "Collect";

    /// The plural name used in URL paths.
    pub const PLURAL: &'static str = "collects";

    /// The paths of this resource as plain values: method, operation,
    /// ID names and template.
    pub open spec fn path_views() -> Seq<PathView> {
        seq![
            (HttpMethod::Get, ResourceOperation::Find, seq!["id"@], "collects/{id}"@),
            (HttpMethod::Get, ResourceOperation::All, Seq::<Seq<char>>::empty(), "collects"@),
            (HttpMethod::Get, ResourceOperation::Count, Seq::<Seq<char>>::empty(), "collects/count"@),
            (HttpMethod::Post, ResourceOperation::Create, Seq::<Seq<char>>::empty(), "collects"@),
            (HttpMethod::Delete, ResourceOperation::Delete, seq!["id"@], "collects/{id}"@),
        ]
    }

    /// The paths of this resource, one per supported operation and ID set.
    pub fn paths() -> (p: Vec<ResourcePath>)
        ensures
            views(p@) == Self::path_views(),
    {
        let mut p = Vec::new();
        p.push(ResourcePath::new(HttpMethod::Get, ResourceOperation::Find, &["id"], "collects/{id}"));
        p.push(ResourcePath::new(HttpMethod::Get, ResourceOperation::All, &[], "collects"));
        p.push(ResourcePath::new(HttpMethod::Get, ResourceOperation::Count, &[], "collects/count"));
        p.push(ResourcePath::new(HttpMethod::Post, ResourceOperation::Create, &[], "collects"));
        p.push(ResourcePath::new(HttpMethod::Delete, ResourceOperation::Delete, &["id"], "collects/{id}"));
        assert(names(p@[0].ids@) =~= seq!["id"@]);
        assert(names(p@[1].ids@) =~= Seq::<Seq<char>>::empty());
        assert(names(p@[2].ids@) =~= Seq::<Seq<char>>::empty());
        assert(names(p@[3].ids@) =~= Seq::<Seq<char>>::empty());
        assert(names(p@[4].ids@) =~= seq!["id"@]);
        p
    }

    /// Returns the resource's ID, or `None` for a resource not saved yet.
    pub fn get_id(&self) -> (id: Option<u64>)
        ensures
            id == self.id,
    {
        self.id
    }
}

/// Parameters for finding a single collect.
#[derive(Debug, Clone, Default, PartialEq, Eq)]
pub struct CollectFindParams {
    /// Comma-separated list of fields to include in the response.
    pub fields: Option<String>,
}

/// Parameters for listing collects.
#[derive(Debug, Clone, Default, PartialEq, Eq)]
pub struct CollectListParams {
    /// Maximum number of results to return.
    pub limit: Option<u32>,

    /// Return collects after this ID.
    pub since_id: Option<u64>,

    /// Filter by product ID.
    pub product_id: Option<u64>,

    /// Filter by collection ID.
    pub collection_id: Option<u64>,

    /// Comma-separated list of fields to include in the response.
    pub fields: Option<String>,
}

/// Parameters for counting collects.
#[derive(Debug, Clone, Default, PartialEq, Eq)]
pub struct CollectCountParams {
    /// Filter by product ID.
    pub product_id: Option<u64>,

    /// Filter by collection ID.
    pub collection_id: Option<u64>,
}

} // verus!
