//! `SmartCollection`: a collection whose products are chosen by rules.
use vstd::prelude::*;

use super::common::{CollectionImage, SmartCollectionRule};

verus! {

/// A collection whose products are selected automatically by rules.
///
/// The fields are those that collections share with
/// [`super::CustomCollection`], plus the selection rules.
#[derive(Debug, Clone, Default, PartialEq, Eq)]
pub struct SmartCollection {
    /// The unique identifier of the smart collection.
    pub id: Option<u64>,

    /// The URL-friendly name of the collection.
    pub handle: Option<String>,

    /// When the collection was last updated.
    pub updated_at: Option<String>,

    /// The admin GraphQL API ID for this collection.
    pub admin_graphql_api_id: Option<String>,

    /// The name of the collection.
    pub title: Option<String>,

    /// The description of the collection in HTML format.
    pub body_html: Option<String>,

    /// When the collection was or will be published.
    pub published_at: Option<String>,

    /// Where the collection is published ("web", "global").
    pub published_scope: Option<String>,

    /// The rules that select the collection's products.
    pub rules: Option<Vec<SmartCollectionRule>>,

    /// Whether a product needs to meet any rule (`true`) or all of them.
    pub disjunctive: Option<bool>,

    /// The order in which products appear in the collection.
    pub sort_order: Option<String>,

    /// The suffix of the Liquid template used for the collection page.
    pub template_suffix: Option<String>,

    /// The collection's featured image.
    pub image: Option<CollectionImage>,
}

impl SmartCollection {
    /// The singular name of the resource.
    pub const NAME: &'static str = "SmartCollection";

    /// The plural name used in URL paths.
    pub const PLURAL: &'static str = "smart_collections";

    /// Returns the resource's ID, or `None` for a resource not saved yet.
    pub fn get_id(&self) -> (id: Option<u64>)
        ensures
            id == self.id,
    {
        self.id
    }
}

} // verus!
