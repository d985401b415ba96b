//! Webhook-related types for webhook configuration.
use vstd::prelude::*;


verus! {

/// Represents a webhook topic that triggers webhook notifications.
///
/// Shopify sends webhook notifications when events occur that match
/// the topic you've subscribed to.
#[derive(Debug, Clone, Copy, PartialEq, Eq, Hash)]
pub enum WebhookTopic {
    // Order topics
    /// Triggered when an order is created.
    OrdersCreate,
    /// Triggered when an order is updated.
    OrdersUpdated,
    /// Triggered when an order is paid.
    OrdersPaid,
    /// Triggered when an order is cancelled.
    OrdersCancelled,
    /// Triggered when an order is fulfilled.
    OrdersFulfilled,
    /// Triggered when an order is partially fulfilled.
    OrdersPartiallyFulfilled,
    /// Triggered when an order is deleted.
    OrdersDelete,

    // Product topics
    /// Triggered when a product is created.
    ProductsCreate,
    /// Triggered when a product is updated.
    ProductsUpdate,
    /// Triggered when a product is deleted.
    ProductsDelete,

    // Customer topics
    /// Triggered when a customer is created.
    CustomersCreate,
    /// Triggered when a customer is updated.
    CustomersUpdate,
    /// Triggered when a customer is deleted.
    CustomersDelete,
    /// Triggered when a customer is enabled.
    CustomersEnable,
    /// Triggered when a customer is disabled.
    CustomersDisable,

    // Collection topics
    /// Triggered when a collection is created.
    CollectionsCreate,
    /// Triggered when a collection is updated.
    CollectionsUpdate,
    /// Triggered when a collection is deleted.
    CollectionsDelete,

    // Checkout topics
    /// Triggered when a checkout is created.
    CheckoutsCreate,
    /// Triggered when a checkout is updated.
    CheckoutsUpdate,
    /// Triggered when a checkout is deleted.
    CheckoutsDelete,

    // Cart topics
    /// Triggered when a cart is created.
    CartsCreate,
    /// Triggered when a cart is updated.
    CartsUpdate,

    // Fulfillment topics
    /// Triggered when a fulfillment is created.
    FulfillmentsCreate,
    /// Triggered when a fulfillment is updated.
    FulfillmentsUpdate,

    // Refund topics
    /// Triggered when a refund is created.
    RefundsCreate,

    // App topics
    /// Triggered when the app is uninstalled.
    AppUninstalled,

    // Shop topics
    /// Triggered when the shop is updated.
    ShopUpdate,

    // Theme topics
    /// Triggered when a theme is created.
    ThemesCreate,
    /// Triggered when a theme is updated.
    ThemesUpdate,
    /// Triggered when a theme is published.
    ThemesPublish,
    /// Triggered when a theme is deleted.
    ThemesDelete,

    // Inventory topics
    /// Triggered when inventory levels are updated.
    InventoryLevelsUpdate,
    /// Triggered when inventory levels are connected.
    InventoryLevelsConnect,
    /// Triggered when inventory levels are disconnected.
    InventoryLevelsDisconnect,

    // Inventory item topics
    /// Triggered when an inventory item is created.
    InventoryItemsCreate,
    /// Triggered when an inventory item is updated.
    InventoryItemsUpdate,
    /// Triggered when an inventory item is deleted.
    InventoryItemsDelete,
}

/// The format for webhook payloads.
#[derive(Debug, Clone, Copy, PartialEq, Eq, Hash, Default)]
pub enum WebhookFormat {
    /// JSON format (default).
    #[default]
    Json,
    /// XML format.
    Xml,
}

} // verus!
