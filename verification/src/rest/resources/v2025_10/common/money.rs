//! Money-related types for currency and pricing.
use vstd::prelude::*;


verus! {

/// A money amount with currency information.
///
/// Used within `MoneySet` to represent amounts in specific currencies.
#[derive(Debug, Clone, Default, PartialEq, Eq)]
pub struct Money {
    /// The monetary amount as a string to preserve decimal precision.
    pub amount: Option<String>,

    /// The three-letter ISO 4217 currency code.
    pub currency_code: Option<String>,
}

/// A set of money amounts in shop and presentment currencies.
///
/// Shopify returns `price_set` fields with both the shop's base currency
/// and the customer's presentment currency.
#[derive(Debug, Clone, Default, PartialEq, Eq)]
pub struct MoneySet {
    /// The amount in the shop's base currency.
    pub shop_money: Option<Money>,

    /// The amount in the customer's presentment currency.
    pub presentment_money: Option<Money>,
}

} // verus!
