//! Billing-related types for charge resources.
use vstd::prelude::*;


verus! {

/// The status of a billing charge.
///
/// Represents the lifecycle state of an application charge or recurring charge.
#[derive(Debug, Clone, Copy, PartialEq, Eq, Hash, Default, Structural)]
pub enum ChargeStatus {
    /// The charge is awaiting merchant approval.
    #[default]
    Pending,

    /// The merchant has accepted the charge (for recurring charges).
    Accepted,

    /// The charge is active and billing.
    Active,

    /// The merchant declined the charge.
    Declined,

    /// The charge has expired without action.
    Expired,

    /// The charge was cancelled.
    Cancelled,

    /// The charge has been frozen (for recurring charges).
    Frozen,
}

/// Currency information for a charge.
///
/// Shopify returns currency as a nested object with a `currency` field
/// containing the ISO 4217 currency code.
#[derive(Debug, Clone, Default, PartialEq, Eq)]
pub struct ChargeCurrency {
    /// The three-letter ISO 4217 currency code (e.g., "USD", "EUR").
    pub currency: Option<String>,
}

impl ChargeStatus {
    /// Whether the charge is waiting for the merchant.
    pub fn is_pending(&self) -> (r: bool)
        ensures
            r == (*self == ChargeStatus::Pending),
    {
        *self == ChargeStatus::Pending
    }

    /// Whether the charge is active and billing.
    pub fn is_active(&self) -> (r: bool)
        ensures
            r == (*self == ChargeStatus::Active),
    {
        *self == ChargeStatus::Active
    }

    /// Whether the charge was cancelled.
    pub fn is_cancelled(&self) -> (r: bool)
        ensures
            r == (*self == ChargeStatus::Cancelled),
    {
        *self == ChargeStatus::Cancelled
    }

    /// Whether the merchant declined the charge.
    pub fn is_declined(&self) -> (r: bool)
        ensures
            r == (*self == ChargeStatus::Declined),
    {
        *self == ChargeStatus::Declined
    }

    /// Whether the charge expired without action.
    pub fn is_expired(&self) -> (r: bool)
        ensures
            r == (*self == ChargeStatus::Expired),
    {
        *self == ChargeStatus::Expired
    }
}

impl ChargeCurrency {
    /// A currency with the given ISO 4217 code.
    pub fn new(currency: &str) -> (c: ChargeCurrency)
        ensures
            c.currency is Some && c.currency->0@ == currency@,
    {
        ChargeCurrency { currency: Some(currency.to_string()) }
    }

    /// The ISO 4217 code, if set.
    pub fn code(&self) -> (r: Option<&str>)
        ensures
            r is Some <==> self.currency is Some,
            r is Some ==> r->0@ == self.currency->0@,
    {
        match &self.currency {
            Some(c) => Some(c.as_str()),
            None => None,
        }
    }
}

} // verus!
