//! Country resource implementation.
use vstd::prelude::*;

use crate::clients::HttpMethod;
use crate::rest::path::{names, views, PathView, ResourceOperation, ResourcePath};

verus! {

/// A country that a store ships to.
///
/// Countries define shipping destinations with tax rates. Each country
/// can contain multiple provinces/states with their own tax rates.
///
/// # Fields
///
/// ## Read-Only Fields
/// - `id` - The unique identifier
/// - `name` - The full country name (derived from code)
/// - `provinces` - Embedded array of provinces
///
/// ## Writable Fields
/// - `code` - The two-letter ISO 3166-1 alpha-2 country code
/// - `tax` - The national tax rate as a decimal
#[derive(Debug, Clone, Default, PartialEq)]
pub struct Country {
    /// The unique identifier of the country.
    /// Read-only field.
    pub id: Option<u64>,

    /// The full name of the country.
    /// Read-only field - derived from the country code.
    pub name: Option<String>,

    /// The two-letter ISO 3166-1 alpha-2 country code (e.g., "US", "CA").
    pub code: Option<String>,

    /// The national tax rate as a decimal string (e.g., "0.13" for 13%).
    pub tax: Option<String>,

    /// The provinces/states within this country.
    /// Read-only field - use Province resource for modifications.
    pub provinces: Option<Vec<Province>>,
}

impl Country {
    /// The singular name of the resource.
    pub const NAME: &'static str = "Country";

    /// The plural name used in URL paths.
    pub const PLURAL: &'static str = "countries";

    /// The paths of this resource as plain values: method, operation,
    /// ID names and template.
    pub open spec fn path_views() -> Seq<PathView> {
        seq![
            (HttpMethod::Get, ResourceOperation::Find, seq!["id"@], "countries/{id}"@),
            (HttpMethod::Get, ResourceOperation::All, Seq::<Seq<char>>::empty(), "countries"@),
            (HttpMethod::Get, ResourceOperation::Count, Seq::<Seq<char>>::empty(), "countries/count"@),
            (HttpMethod::Post, ResourceOperation::Create, Seq::<Seq<char>>::empty(), "countries"@),
            (HttpMethod::Put, ResourceOperation::Update, seq!["id"@], "countries/{id}"@),
            (HttpMethod::Delete, ResourceOperation::Delete, seq!["id"@], "countries/{id}"@),
        ]
    }

    /// The paths of this resource, one per supported operation and ID set.
    pub fn paths() -> (p: Vec<ResourcePath>)
        ensures
            views(p@) == Self::path_views(),
    {
        let mut p = Vec::new();
        p.push(ResourcePath::new(HttpMethod::Get, ResourceOperation::Find, &["id"], "countries/{id}"));
        p.push(ResourcePath::new(HttpMethod::Get, ResourceOperation::All, &[], "countries"));
        p.push(ResourcePath::new(HttpMethod::Get, ResourceOperation::Count, &[], "countries/count"));
        p.push(ResourcePath::new(HttpMethod::Post, ResourceOperation::Create, &[], "countries"));
        p.push(ResourcePath::new(HttpMethod::Put, ResourceOperation::Update, &["id"], "countries/{id}"));
        p.push(ResourcePath::new(HttpMethod::Delete, ResourceOperation::Delete, &["id"], "countries/{id}"));
        assert(names(p@[0].ids@) =~= seq!["id"@]);
        assert(names(p@[1].ids@) =~= Seq::<Seq<char>>::empty());
        assert(names(p@[2].ids@) =~= Seq::<Seq<char>>::empty());
        assert(names(p@[3].ids@) =~= Seq::<Seq<char>>::empty());
        assert(names(p@[4].ids@) =~= seq!["id"@]);
        assert(names(p@[5].ids@) =~= seq!["id"@]);
        p
    }

    /// Returns the resource's ID, or `None` for a resource not saved yet.
    pub fn get_id(&self) -> (id: Option<u64>)
        ensures
            id == self.id,
    {
        self.id
    }
}

/// A province or state of a country, as embedded in a [`Country`].
#[derive(Debug, Clone, Default, PartialEq, Eq)]
pub struct Province {
    /// The unique identifier of the province.
    pub id: Option<u64>,

    /// The ID of the country the province belongs to.
    pub country_id: Option<u64>,

    /// The full name of the province.
    pub name: Option<String>,

    /// The province code (e.g., "ON").
    pub code: Option<String>,

    /// The tax rate, as decimal text.
    pub tax: Option<String>,

    /// The name of the tax (e.g., "HST").
    pub tax_name: Option<String>,

    /// How the tax is applied (e.g., "compounded").
    pub tax_type: Option<String>,

    /// The tax rate as a percentage, as decimal text.
    pub tax_percentage: Option<String>,
}

/// Parameters for finding a single country.
#[derive(Debug, Clone, Default, PartialEq, Eq)]
pub struct CountryFindParams {
    /// Comma-separated list of fields to include in the response.
    pub fields: Option<String>,
}

/// Parameters for listing countries.
#[derive(Debug, Clone, Default, PartialEq, Eq)]
pub struct CountryListParams {
    /// Return countries after this ID.
    pub since_id: Option<u64>,

    /// Comma-separated list of fields to include in the response.
    pub fields: Option<String>,
}

/// Parameters for counting countries.
#[derive(Debug, Clone, Default, PartialEq, Eq)]
pub struct CountryCountParams {
}

} // verus!
