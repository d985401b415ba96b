//! REST resources, by API version.
pub mod v2025_10;

pub use v2025_10::{
    AccessScope, ApplicationCharge, Article, Asset, Blog, CancellationRequest, Collect, Collection, Comment,
    Country, Currency, CustomCollection, DiscountCode, DraftOrder, Event, Fulfillment, FulfillmentOrder,
    FulfillmentRequest, FulfillmentService, GiftCard, InventoryItem, InventoryLevel, SmartCollection,
};
