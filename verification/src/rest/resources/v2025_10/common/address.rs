//! Address types for orders and customers.
use vstd::prelude::*;


verus! {

/// A physical address used for billing or shipping.
///
/// This struct is used for `billing_address` and `shipping_address` fields
/// in orders. All fields are optional to support partial address data.
#[derive(Debug, Clone, Default, PartialEq)]
pub struct Address {
    /// The first name of the person at the address.
    pub first_name: Option<String>,

    /// The last name of the person at the address.
    pub last_name: Option<String>,

    /// The company name at the address.
    pub company: Option<String>,

    /// The first line of the address (street address).
    pub address1: Option<String>,

    /// The second line of the address (apartment, suite, etc.).
    pub address2: Option<String>,

    /// The city, town, or village.
    pub city: Option<String>,

    /// The province, state, or region.
    pub province: Option<String>,

    /// The two-letter province or state code.
    pub province_code: Option<String>,

    /// The country name.
    pub country: Option<String>,

    /// The two-letter country code (ISO 3166-1 alpha-2).
    pub country_code: Option<String>,

    /// The postal or ZIP code.
    pub zip: Option<String>,

    /// The phone number at the address.
    pub phone: Option<String>,

    /// The full name of the person at the address.
    pub name: Option<String>,

    /// The latitude of the address, as decimal text.
    pub latitude: Option<String>,

    /// The longitude of the address, as decimal text.
    pub longitude: Option<String>,
}

/// An address associated with a customer.
///
/// Extends the base `Address` with customer-specific fields like `id`,
/// `customer_id`, and `default` flag.
#[derive(Debug, Clone, Default, PartialEq)]
pub struct CustomerAddress {
    /// The unique identifier of the address.
    pub id: Option<u64>,

    /// The ID of the customer this address belongs to.
    pub customer_id: Option<u64>,

    /// Whether this is the customer's default address.
    pub default: Option<bool>,

    /// The first name of the person at the address.
    pub first_name: Option<String>,

    /// The last name of the person at the address.
    pub last_name: Option<String>,

    /// The company name at the address.
    pub company: Option<String>,

    /// The first line of the address (street address).
    pub address1: Option<String>,

    /// The second line of the address (apartment, suite, etc.).
    pub address2: Option<String>,

    /// The city, town, or village.
    pub city: Option<String>,

    /// The province, state, or region.
    pub province: Option<String>,

    /// The two-letter province or state code.
    pub province_code: Option<String>,

    /// The country name.
    pub country: Option<String>,

    /// The two-letter country code (ISO 3166-1 alpha-2).
    pub country_code: Option<String>,

    /// The postal or ZIP code.
    pub zip: Option<String>,

    /// The phone number at the address.
    pub phone: Option<String>,

    /// The full name of the person at the address.
    pub name: Option<String>,

    /// The latitude of the address, as decimal text.
    pub latitude: Option<String>,

    /// The longitude of the address, as decimal text.
    pub longitude: Option<String>,
}

} // verus!
