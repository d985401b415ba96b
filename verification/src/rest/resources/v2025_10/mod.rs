//! REST resources of API version 2025-10.
pub mod access_scope;
pub mod application_charge;
pub mod article;
pub mod asset;
pub mod blog;
pub mod collect;
pub mod collection_trait;
pub mod comment;
pub mod common;
pub mod country;
pub mod currency;
pub mod custom_collection;
pub mod discount_code;
pub mod draft_order;
pub mod event;
pub mod fulfillment;
pub mod fulfillment_order;
pub mod fulfillment_service;
pub mod gift_card;
pub mod inventory_item;
pub mod inventory_level;
pub mod path_laws;
pub mod smart_collection;

pub use access_scope::AccessScope;
pub use application_charge::{ApplicationCharge, ApplicationChargeFindParams, ApplicationChargeListParams};
pub use article::{Article, ArticleCountParams, ArticleFindParams, ArticleImage, ArticleListParams};
pub use asset::{Asset, AssetListParams};
pub use blog::{Blog, BlogCountParams, BlogFindParams, BlogListParams};
pub use collect::{Collect, CollectCountParams, CollectFindParams, CollectListParams};
pub use collection_trait::Collection;
pub use comment::{Comment, CommentCountParams, CommentFindParams, CommentListParams};
pub use common::{
    Address, BlogCommentable, ChargeCurrency, ChargeStatus, CollectionImage, CustomerAddress,
    DiscountAllocation, DiscountApplication, LineItem, LineItemProperty, MetafieldOwner, Money, MoneySet,
    NoteAttribute, ProductImage, ProductOption, ShippingLine, SmartCollectionRule, TaxLine, ThemeRole,
    WebhookFormat, WebhookTopic,
};
pub use country::{Country, CountryCountParams, CountryFindParams, CountryListParams, Province};
pub use currency::Currency;
pub use custom_collection::{
    CustomCollection, CustomCollectionCountParams, CustomCollectionFindParams, CustomCollectionListParams,
};
pub use discount_code::{
    DiscountCode, DiscountCodeBatchResult, DiscountCodeCountParams, DiscountCodeError, DiscountCodeFindParams,
    DiscountCodeListParams,
};
pub use draft_order::{
    AppliedDiscount, DraftOrder, DraftOrderCompleteParams, DraftOrderCountParams, DraftOrderFindParams,
    DraftOrderInvoice, DraftOrderLineItem, DraftOrderListParams, DraftOrderStatus,
};
pub use event::{Event, EventCountParams, EventFindParams, EventListParams};
pub use fulfillment::{
    Fulfillment, FulfillmentCountParams, FulfillmentFindParams, FulfillmentLineItem, FulfillmentListParams,
    FulfillmentStatus, ShipmentStatus, TrackingInfo,
};
pub use fulfillment_order::{
    CancellationRequest, DeliveryMethod, FulfillmentHold, FulfillmentOrder, FulfillmentOrderCountParams,
    FulfillmentOrderDestination, FulfillmentOrderFindParams, FulfillmentOrderHoldParams,
    FulfillmentOrderLineItem, FulfillmentOrderLineItemInput, FulfillmentOrderListParams,
    FulfillmentOrderMoveParams, FulfillmentOrderRequestStatus, FulfillmentOrderRescheduleParams,
    FulfillmentOrderStatus, FulfillmentRequest, HoldReason,
};
pub use fulfillment_service::{FulfillmentService, FulfillmentServiceFindParams, FulfillmentServiceListParams};
pub use gift_card::{GiftCard, GiftCardCountParams, GiftCardFindParams, GiftCardListParams};
pub use inventory_item::{
    CountryHarmonizedSystemCode, InventoryItem, InventoryItemFindParams, InventoryItemListParams,
};
pub use inventory_level::{InventoryLevel, InventoryLevelListParams};
pub use smart_collection::SmartCollection;
