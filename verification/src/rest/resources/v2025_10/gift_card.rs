//! GiftCard resource implementation.
use vstd::prelude::*;

use crate::json::{JsonNumber, JsonValue};
use crate::rest::errors::ResourceError;
use crate::rest::params::insert_entry;
use crate::rest::resource::{id_path, is_empty_object, request, sends, unresolved, RestRequest};
use crate::rest::StringMap;
use crate::text::decimal;
use crate::clients::HttpMethod;
use crate::rest::path::{names, views, PathView, ResourceOperation, ResourcePath};

verus! {

/// A gift card in Shopify.
///
/// Gift cards are a Shopify Plus feature that allow merchants to sell
/// or give away store credit. Gift card codes can be redeemed at checkout.
///
/// # Scope Requirements
///
/// The `read_gift_cards` and `write_gift_cards` scopes require approval
/// from Shopify Support. Contact support to request access for your app.
///
/// # Read-Only Fields
///
/// The following fields are read-only and will not be sent in create/update requests:
/// - `id`, `balance`
/// - `disabled_at`, `line_item_id`, `api_client_id`, `user_id`
/// - `last_characters`, `order_id`
/// - `created_at`, `updated_at`
/// - `admin_graphql_api_id`
///
/// # Write-Only Fields
///
/// The following fields are write-only (only for creation):
/// - `code` - The gift card code (auto-generated if not provided)
///
/// # Updatable Fields
///
/// After creation, only these fields can be updated:
/// - `expires_on` - Expiration date
/// - `note` - Internal note
/// - `template_suffix` - Template suffix for rendering
/// - `customer_id` - Only if currently null
#[derive(Debug, Clone, Default, PartialEq)]
pub struct GiftCard {
    // --- Read-only fields (not serialized) ---
    /// The unique identifier of the gift card.
    pub id: Option<u64>,

    /// The current balance of the gift card.
    pub balance: Option<String>,

    /// When the gift card was disabled (null if still enabled).
    /// A gift card is disabled if this field is set.
    pub disabled_at: Option<String>,

    /// The ID of the line item that created this gift card.
    pub line_item_id: Option<u64>,

    /// The ID of the API client that created this gift card.
    pub api_client_id: Option<u64>,

    /// The ID of the user who created this gift card.
    pub user_id: Option<u64>,

    /// The last four characters of the gift card code.
    /// This is the only way to identify the code after creation.
    pub last_characters: Option<String>,

    /// The ID of the order that created this gift card (if any).
    pub order_id: Option<u64>,

    /// When the gift card was created.
    pub created_at: Option<String>,

    /// When the gift card was last updated.
    pub updated_at: Option<String>,

    /// The admin GraphQL API ID.
    pub admin_graphql_api_id: Option<String>,

    // --- Write-only fields (only deserialized, not serialized back) ---
    // Note: We use a custom approach here - code is included in serialization
    // for create, but won't be returned in responses

    /// The gift card code.
    ///
    /// **Write-only**: This field is only used when creating a gift card.
    /// After creation, only `last_characters` is available.
    ///
    /// If not provided, Shopify auto-generates a code.
    /// If provided, must be 8-20 alphanumeric characters.
    pub code: Option<String>,

    // --- Writable fields ---
    /// The initial value of the gift card.
    ///
    /// **Required for creation.**
    pub initial_value: Option<String>,

    /// The currency code for the gift card (e.g., "USD").
    pub currency: Option<String>,

    /// The ID of the customer this gift card is associated with.
    ///
    /// Can only be set if currently null.
    pub customer_id: Option<u64>,

    /// An optional note attached to the gift card.
    ///
    /// Updatable after creation.
    pub note: Option<String>,

    /// When the gift card expires.
    ///
    /// Updatable after creation.
    pub expires_on: Option<String>,

    /// The template suffix for rendering the gift card.
    ///
    /// Updatable after creation.
    pub template_suffix: Option<String>,
}

impl GiftCard {
    /// The singular name of the resource.
    pub const NAME: &'static str = "GiftCard";

    /// The plural name used in URL paths.
    pub const PLURAL: &'static str = "gift_cards";

    /// The paths of this resource as plain values: method, operation,
    /// ID names and template.
    pub open spec fn path_views() -> Seq<PathView> {
        seq![
            (HttpMethod::Get, ResourceOperation::Find, seq!["id"@], "gift_cards/{id}"@),
            (HttpMethod::Get, ResourceOperation::All, Seq::<Seq<char>>::empty(), "gift_cards"@),
            (HttpMethod::Get, ResourceOperation::Count, Seq::<Seq<char>>::empty(), "gift_cards/count"@),
            (HttpMethod::Post, ResourceOperation::Create, Seq::<Seq<char>>::empty(), "gift_cards"@),
            (HttpMethod::Put, ResourceOperation::Update, seq!["id"@], "gift_cards/{id}"@),
        ]
    }

    /// The paths of this resource, one per supported operation and ID set.
    pub fn paths() -> (p: Vec<ResourcePath>)
        ensures
            views(p@) == Self::path_views(),
    {
        let mut p = Vec::new();
        p.push(ResourcePath::new(HttpMethod::Get, ResourceOperation::Find, &["id"], "gift_cards/{id}"));
        p.push(ResourcePath::new(HttpMethod::Get, ResourceOperation::All, &[], "gift_cards"));
        p.push(ResourcePath::new(HttpMethod::Get, ResourceOperation::Count, &[], "gift_cards/count"));
        p.push(ResourcePath::new(HttpMethod::Post, ResourceOperation::Create, &[], "gift_cards"));
        p.push(ResourcePath::new(HttpMethod::Put, ResourceOperation::Update, &["id"], "gift_cards/{id}"));
        assert(names(p@[0].ids@) =~= seq!["id"@]);
        assert(names(p@[1].ids@) =~= Seq::<Seq<char>>::empty());
        assert(names(p@[2].ids@) =~= Seq::<Seq<char>>::empty());
        assert(names(p@[3].ids@) =~= Seq::<Seq<char>>::empty());
        assert(names(p@[4].ids@) =~= seq!["id"@]);
        p
    }

    /// Whether the gift card is enabled: it has no `disabled_at` time.
    pub fn is_enabled(&self) -> (r: bool)
        ensures
            r == (self.disabled_at is None),
    {
        self.disabled_at.is_none()
    }

    /// Whether the gift card is disabled: it has a `disabled_at` time.
    pub fn is_disabled(&self) -> (r: bool)
        ensures
            r == (self.disabled_at is Some),
    {
        self.disabled_at.is_some()
    }

    /// Plans disabling the gift card: POST to `gift_cards/{id}/disable` with
    /// an empty body. A gift card without an ID cannot be disabled.
    pub fn disable_request(&self) -> (r: Result<RestRequest, ResourceError>)
        ensures
            match self.id {
                None => unresolved(r, Self::NAME@, "disable"@),
                Some(id) => sends(r, HttpMethod::Post, "gift_cards/"@ + decimal(id as nat) + "/disable"@, None)
                    && is_empty_object(r->Ok_0.body),
            },
    {
        match self.id {
            None => Err(ResourceError::PathResolutionFailed { resource: Self::NAME, operation: "disable" }),
            Some(id) => {
                let path = id_path("gift_cards/", id, "/disable");
                Ok(request(HttpMethod::Post, path, None, Some(JsonValue::empty_object())))
            },
        }
    }

    /// Plans searching gift cards: GET on `gift_cards/search` with the query
    /// `query`.
    pub fn search_request(query: &str) -> (r: RestRequest)
        ensures
            sends(
                Ok::<RestRequest, ResourceError>(r),
                HttpMethod::Get,
                "gift_cards/search"@,
                Some(insert_entry(Seq::empty(), "query"@, query@)),
            ),
            r.body is None,
    {
        let mut q = StringMap::new();
        q.insert("query", query);
        request(HttpMethod::Get, "gift_cards/search".to_string(), Some(q), None)
    }

    /// Returns the resource's ID, or `None` for a resource not saved yet.
    pub fn get_id(&self) -> (id: Option<u64>)
        ensures
            id == self.id,
    {
        self.id
    }
}

/// Parameters for finding a single gift card.
#[derive(Debug, Clone, Default, PartialEq, Eq)]
pub struct GiftCardFindParams {
    /// Comma-separated list of fields to include in the response.
    pub fields: Option<String>,
}

/// Parameters for listing gift cards.
///
/// All fields are optional. Unset fields will not be included in the request.
#[derive(Debug, Clone, Default, PartialEq, Eq)]
pub struct GiftCardListParams {
    /// Maximum number of results to return (default: 50, max: 250).
    pub limit: Option<u32>,

    /// Return only gift cards after the specified ID.
    pub since_id: Option<u64>,

    /// Filter by status: "enabled" or "disabled".
    pub status: Option<String>,

    /// Comma-separated list of fields to include in the response.
    pub fields: Option<String>,

    /// Page info for cursor-based pagination.
    pub page_info: Option<String>,
}

/// Parameters for counting gift cards.
#[derive(Debug, Clone, Default, PartialEq, Eq)]
pub struct GiftCardCountParams {
    /// Filter by status: "enabled" or "disabled".
    pub status: Option<String>,
}

} // verus!
