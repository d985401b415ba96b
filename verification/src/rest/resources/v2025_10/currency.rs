//! Currency resource implementation.
use vstd::prelude::*;

use crate::clients::HttpMethod;
use crate::rest::path::{names, views, PathView, ResourceOperation, ResourcePath};
use crate::rest::errors::opt_text;

verus! {

/// A currency enabled on a Shopify store.
///
/// Currencies represent the different currencies a store can accept.
/// They are read-only through the API.
///
/// # Read-Only Resource
///
/// This resource implements [`ReadOnlyResource`] - only GET operations are
/// available. Currency settings are managed through the Shopify admin.
///
/// # No ID Field
///
/// This resource does not have a numeric `id` field. Currencies are
/// identified by their currency code.
///
/// # Fields
///
/// All fields are read-only:
/// - `currency` - The three-letter ISO 4217 currency code
/// - `rate_updated_at` - When the exchange rate was last updated
/// - `enabled` - Whether the currency is enabled
#[derive(Debug, Clone, Default, PartialEq, Eq)]
pub struct Currency {
    /// The three-letter ISO 4217 currency code (e.g., "USD", "CAD", "EUR").
    pub currency: Option<String>,

    /// When the exchange rate was last updated.
    pub rate_updated_at: Option<String>,

    /// Whether this currency is enabled on the shop.
    pub enabled: Option<bool>,
}

impl Currency {
    /// The singular name of the resource.
    pub const NAME: &'static str = "Currency";

    /// The plural name used in URL paths.
    pub const PLURAL: &'static str = "currencies";

    /// The paths of this resource as plain values: method, operation,
    /// ID names and template.
    pub open spec fn path_views() -> Seq<PathView> {
        seq![
            (HttpMethod::Get, ResourceOperation::All, Seq::<Seq<char>>::empty(), "currencies"@),
        ]
    }

    /// The paths of this resource, one per supported operation and ID set.
    pub fn paths() -> (p: Vec<ResourcePath>)
        ensures
            views(p@) == Self::path_views(),
    {
        let mut p = Vec::new();
        p.push(ResourcePath::new(HttpMethod::Get, ResourceOperation::All, &[], "currencies"));
        assert(names(p@[0].ids@) =~= Seq::<Seq<char>>::empty());
        p
    }

    /// Returns the resource's ID, or `None` for a resource not saved yet.
    pub fn get_id(&self) -> (id: Option<String>)
        ensures
            opt_text(id) == opt_text(self.currency),
    {
        match &self.currency {
            Some(v) => Some(v.clone()),
            None => None,
        }
    }
}

} // verus!
