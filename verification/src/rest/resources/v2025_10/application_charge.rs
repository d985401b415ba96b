//! ApplicationCharge resource implementation.
use vstd::prelude::*;

use super::common::{ChargeCurrency, ChargeStatus};
use crate::clients::HttpMethod;
use crate::rest::path::{names, views, PathView, ResourceOperation, ResourcePath};

verus! {

/// A one-time application charge.
///
/// Application charges allow apps to bill merchants for one-time purchases.
/// After creating a charge, redirect the merchant to the `confirmation_url`
/// for them to approve the charge.
///
/// # Charge Lifecycle
///
/// 1. App creates a charge via POST
/// 2. App redirects merchant to `confirmation_url`
/// 3. Merchant approves or declines the charge
/// 4. Merchant is redirected back to the app's `return_url`
/// 5. App checks the charge status
///
/// # Test Charges
///
/// Set `test: true` to create test charges that don't actually bill.
/// Test charges are automatically approved when created on development stores.
///
/// # Fields
///
/// ## Read-Only Fields
/// - `id` - The unique identifier of the charge
/// - `confirmation_url` - The URL to redirect merchant for approval
/// - `status` - The current status of the charge
/// - `currency` - The currency object with the currency code
/// - `created_at` - When the charge was created
/// - `updated_at` - When the charge was last updated
///
/// ## Writable Fields
/// - `name` - The name of the charge (displayed to merchant)
/// - `price` - The price of the charge
/// - `return_url` - The URL to redirect after merchant action
/// - `test` - Whether this is a test charge
#[derive(Debug, Clone, Default, PartialEq)]
pub struct ApplicationCharge {
    /// The unique identifier of the application charge.
    /// Read-only field.
    pub id: Option<u64>,

    /// The name of the application charge.
    pub name: Option<String>,

    /// The price of the application charge.
    /// Must be a string representing the monetary amount (e.g., "9.99").
    pub price: Option<String>,

    /// The current status of the charge.
    /// Read-only field.
    pub status: Option<ChargeStatus>,

    /// Whether this is a test charge.
    /// Test charges don't actually bill the merchant.
    pub test: Option<bool>,

    /// The URL to redirect the merchant after they approve/decline the charge.
    pub return_url: Option<String>,

    /// The URL where the merchant can approve/decline the charge.
    /// Read-only field, populated after creating the charge.
    pub confirmation_url: Option<String>,

    /// The currency information for the charge.
    /// Read-only field containing the currency code.
    pub currency: Option<ChargeCurrency>,

    /// When the charge was created.
    /// Read-only field.
    pub created_at: Option<String>,

    /// When the charge was last updated.
    /// Read-only field.
    pub updated_at: Option<String>,
}

impl ApplicationCharge {
    /// The singular name of the resource.
    pub const NAME: &'static str = "ApplicationCharge";

    /// The plural name used in URL paths.
    pub const PLURAL: &'static str = "application_charges";

    /// The paths of this resource as plain values: method, operation,
    /// ID names and template.
    pub open spec fn path_views() -> Seq<PathView> {
        seq![
            (HttpMethod::Get, ResourceOperation::Find, seq!["id"@], "application_charges/{id}"@),
            (HttpMethod::Get, ResourceOperation::All, Seq::<Seq<char>>::empty(), "application_charges"@),
            (HttpMethod::Post, ResourceOperation::Create, Seq::<Seq<char>>::empty(), "application_charges"@),
        ]
    }

    /// The paths of this resource, one per supported operation and ID set.
    pub fn paths() -> (p: Vec<ResourcePath>)
        ensures
            views(p@) == Self::path_views(),
    {
        let mut p = Vec::new();
        p.push(ResourcePath::new(HttpMethod::Get, ResourceOperation::Find, &["id"], "application_charges/{id}"));
        p.push(ResourcePath::new(HttpMethod::Get, ResourceOperation::All, &[], "application_charges"));
        p.push(ResourcePath::new(HttpMethod::Post, ResourceOperation::Create, &[], "application_charges"));
        assert(names(p@[0].ids@) =~= seq!["id"@]);
        assert(names(p@[1].ids@) =~= Seq::<Seq<char>>::empty());
        assert(names(p@[2].ids@) =~= Seq::<Seq<char>>::empty());
        p
    }

    /// Whether the charge has status `Active`.
    pub fn is_active(&self) -> (r: bool)
        ensures
            r == (self.status == Some(ChargeStatus::Active)),
    {
        match &self.status {
            Some(s) => s.is_active(),
            None => false,
        }
    }

    /// Whether the charge has status `Pending`.
    pub fn is_pending(&self) -> (r: bool)
        ensures
            r == (self.status == Some(ChargeStatus::Pending)),
    {
        match &self.status {
            Some(s) => s.is_pending(),
            None => false,
        }
    }

    /// Whether this is a test charge; unset counts as not a test.
    pub fn is_test(&self) -> (r: bool)
        ensures
            r == (self.test == Some(true)),
    {
        match self.test {
            Some(t) => t,
            None => false,
        }
    }

    /// Returns the resource's ID, or `None` for a resource not saved yet.
    pub fn get_id(&self) -> (id: Option<u64>)
        ensures
            id == self.id,
    {
        self.id
    }
}

/// Parameters for finding a single application charge.
#[derive(Debug, Clone, Default, PartialEq, Eq)]
pub struct ApplicationChargeFindParams {
    /// Comma-separated list of fields to include in the response.
    pub fields: Option<String>,
}

/// Parameters for listing application charges.
#[derive(Debug, Clone, Default, PartialEq, Eq)]
pub struct ApplicationChargeListParams {
    /// Maximum number of results to return (default: 50, max: 250).
    pub limit: Option<u32>,

    /// Return charges after this ID.
    pub since_id: Option<u64>,

    /// Comma-separated list of fields to include in the response.
    pub fields: Option<String>,
}

} // verus!
