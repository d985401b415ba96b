//! Collection-related types used by `CustomCollection` and `SmartCollection`.
use vstd::prelude::*;


verus! {

/// An image associated with a collection.
///
/// This struct is used by both `CustomCollection` and `SmartCollection`
/// to represent the collection's featured image.
#[derive(Debug, Clone, Default, PartialEq, Eq)]
pub struct CollectionImage {
    /// The source URL of the collection image.
    pub src: Option<String>,

    /// Alternative text for the image (for accessibility).
    pub alt: Option<String>,

    /// The width of the image in pixels.
    pub width: Option<i64>,

    /// The height of the image in pixels.
    pub height: Option<i64>,

    /// When the image was created.
    /// Read-only field.
    pub created_at: Option<String>,
}

/// A rule for automatic product inclusion in a `SmartCollection`.
///
/// Smart collections use rules to automatically include products
/// that match specified criteria.
#[derive(Debug, Clone, Default, PartialEq, Eq)]
pub struct SmartCollectionRule {
    /// The property to match against.
    ///
    /// Common values: "title", "type", "vendor", "variant\_price",
    /// "tag", "variant\_compare\_at\_price", "variant\_weight",
    /// "variant\_inventory", "variant\_title"
    pub column: String,

    /// The relationship between the column and condition.
    ///
    /// Common values: "equals", "not\_equals", "greater\_than",
    /// "less\_than", "starts\_with", "ends\_with", "contains",
    /// "not\_contains"
    pub relation: String,

    /// The value to match against the column.
    pub condition: String,
}

} // verus!
