//! Common types embedded in several REST resources: addresses, line items,
//! money amounts, billing and metafield types.
pub mod address;
pub mod billing;
pub mod blog;
pub mod collection;
pub mod line_item;
pub mod metafield;
pub mod money;
pub mod product;
pub mod theme;
pub mod webhook;

pub use address::{Address, CustomerAddress};
pub use billing::{ChargeCurrency, ChargeStatus};
pub use blog::BlogCommentable;
pub use collection::{CollectionImage, SmartCollectionRule};
pub use line_item::{
    DiscountAllocation, DiscountApplication, LineItem, LineItemProperty, NoteAttribute, ShippingLine,
    TaxLine,
};
pub use metafield::MetafieldOwner;
pub use money::{Money, MoneySet};
pub use product::{ProductImage, ProductOption};
pub use theme::ThemeRole;
pub use webhook::{WebhookFormat, WebhookTopic};
