//! Product-related embedded types.
use vstd::prelude::*;


verus! {

/// An image associated with a product.
///
/// Product images can be associated with specific variants or with the
/// product as a whole.
#[derive(Debug, Clone, Default, PartialEq, Eq)]
pub struct ProductImage {
    /// The unique identifier of the image.
    /// Read-only field.
    pub id: Option<u64>,

    /// The ID of the product this image belongs to.
    pub product_id: Option<u64>,

    /// The position of the image in the product's image list.
    pub position: Option<i64>,

    /// The source URL of the image.
    pub src: Option<String>,

    /// The width of the image in pixels.
    pub width: Option<i64>,

    /// The height of the image in pixels.
    pub height: Option<i64>,

    /// Alternative text for the image (for accessibility).
    pub alt: Option<String>,

    /// IDs of variants that use this image.
    pub variant_ids: Option<Vec<u64>>,

    /// When the image was created.
    /// Read-only field.
    pub created_at: Option<String>,

    /// When the image was last updated.
    /// Read-only field.
    pub updated_at: Option<String>,

    /// The admin GraphQL API ID.
    /// Read-only field.
    pub admin_graphql_api_id: Option<String>,
}

/// A product option (e.g., Size, Color).
///
/// Product options define the customizable attributes of a product
/// that create variants.
#[derive(Debug, Clone, Default, PartialEq, Eq)]
pub struct ProductOption {
    /// The unique identifier of the option.
    pub id: Option<u64>,

    /// The ID of the product this option belongs to.
    pub product_id: Option<u64>,

    /// The name of the option (e.g., "Size", "Color").
    pub name: Option<String>,

    /// The position of the option in the product's option list.
    pub position: Option<i64>,

    /// The possible values for this option.
    pub values: Option<Vec<String>>,
}

} // verus!
