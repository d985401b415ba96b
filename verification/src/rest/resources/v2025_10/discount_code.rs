//! DiscountCode resource implementation.
use vstd::prelude::*;

use crate::rest::resource::{parent_entries, parent_id_map};

use crate::clients::HttpMethod;
use crate::rest::path::{names, views, PathView, ResourceOperation, ResourcePath};
use crate::json::{JsonMember, JsonValue};
use crate::rest::errors::ResourceError;
use crate::rest::params::insert_entry;
use crate::rest::path::operation_name;
use crate::rest::resource::{
    count_with_parent_request, id_path, optional_query, plan_request, planned, request, sends,
    RestRequest,
};
use crate::rest::StringMap;
use crate::text::{decimal, u64_text};

verus! {

/// A discount code associated with a price rule.
///
/// Discount codes are the customer-facing codes that shoppers enter at checkout.
/// Each discount code belongs to a price rule that defines the discount logic.
///
/// # Nested Resource
///
/// This is a nested resource under `PriceRule`. Most operations require the
/// parent `price_rule_id`.
///
/// Use `all_with_parent_request` with `price_rule_id` to list codes under a specific price rule.
///
/// # Fields
///
/// ## Read-Only Fields
/// - `id` - The unique identifier
/// - `usage_count` - Number of times the code has been used
/// - `errors` - Any errors associated with the code
/// - `created_at` - When the code was created
/// - `updated_at` - When the code was last updated
///
/// ## Writable Fields
/// - `price_rule_id` - The parent price rule ID (required)
/// - `code` - The discount code string customers enter
#[derive(Debug, Clone, Default, PartialEq, Eq)]
pub struct DiscountCode {
    /// The unique identifier of the discount code.
    /// Read-only field.
    pub id: Option<u64>,

    /// The ID of the parent price rule.
    /// Required for creating new discount codes.
    pub price_rule_id: Option<u64>,

    /// The discount code that customers enter at checkout.
    pub code: Option<String>,

    /// The number of times this discount code has been used.
    /// Read-only field.
    pub usage_count: Option<i32>,

    /// Any errors associated with this discount code.
    /// Read-only field populated after batch creation.
    pub errors: Option<Vec<DiscountCodeError>>,

    /// When the discount code was created.
    /// Read-only field.
    pub created_at: Option<String>,

    /// When the discount code was last updated.
    /// Read-only field.
    pub updated_at: Option<String>,
}

impl DiscountCode {
    /// The singular name of the resource.
    pub const NAME: &'static str = "DiscountCode";

    /// The plural name used in URL paths.
    pub const PLURAL: &'static str = "discount_codes";

    /// The paths of this resource as plain values: method, operation,
    /// ID names and template.
    pub open spec fn path_views() -> Seq<PathView> {
        seq![
            (HttpMethod::Get, ResourceOperation::Find, seq!["price_rule_id"@, "id"@], "price_rules/{price_rule_id}/discount_codes/{id}"@),
            (HttpMethod::Get, ResourceOperation::All, seq!["price_rule_id"@], "price_rules/{price_rule_id}/discount_codes"@),
            (HttpMethod::Get, ResourceOperation::Count, seq!["price_rule_id"@], "price_rules/{price_rule_id}/discount_codes/count"@),
            (HttpMethod::Post, ResourceOperation::Create, seq!["price_rule_id"@], "price_rules/{price_rule_id}/discount_codes"@),
            (HttpMethod::Put, ResourceOperation::Update, seq!["price_rule_id"@, "id"@], "price_rules/{price_rule_id}/discount_codes/{id}"@),
            (HttpMethod::Delete, ResourceOperation::Delete, seq!["price_rule_id"@, "id"@], "price_rules/{price_rule_id}/discount_codes/{id}"@),
        ]
    }

    /// The paths of this resource, one per supported operation and ID set.
    pub fn paths() -> (p: Vec<ResourcePath>)
        ensures
            views(p@) == Self::path_views(),
    {
        let mut p = Vec::new();
        p.push(ResourcePath::new(HttpMethod::Get, ResourceOperation::Find, &["price_rule_id", "id"], "price_rules/{price_rule_id}/discount_codes/{id}"));
        p.push(ResourcePath::new(HttpMethod::Get, ResourceOperation::All, &["price_rule_id"], "price_rules/{price_rule_id}/discount_codes"));
        p.push(ResourcePath::new(HttpMethod::Get, ResourceOperation::Count, &["price_rule_id"], "price_rules/{price_rule_id}/discount_codes/count"));
        p.push(ResourcePath::new(HttpMethod::Post, ResourceOperation::Create, &["price_rule_id"], "price_rules/{price_rule_id}/discount_codes"));
        p.push(ResourcePath::new(HttpMethod::Put, ResourceOperation::Update, &["price_rule_id", "id"], "price_rules/{price_rule_id}/discount_codes/{id}"));
        p.push(ResourcePath::new(HttpMethod::Delete, ResourceOperation::Delete, &["price_rule_id", "id"], "price_rules/{price_rule_id}/discount_codes/{id}"));
        assert(names(p@[0].ids@) =~= seq!["price_rule_id"@, "id"@]);
        assert(names(p@[1].ids@) =~= seq!["price_rule_id"@]);
        assert(names(p@[2].ids@) =~= seq!["price_rule_id"@]);
        assert(names(p@[3].ids@) =~= seq!["price_rule_id"@]);
        assert(names(p@[4].ids@) =~= seq!["price_rule_id"@, "id"@]);
        assert(names(p@[5].ids@) =~= seq!["price_rule_id"@, "id"@]);
        p
    }

    /// Plans counting the codes of a price rule: GET on the `Count` path for
    /// `price_rule_id`, keeping the string, number and boolean params.
    pub fn count_with_parent_request(price_rule_id: u64, params: Option<&JsonValue>) -> (r: Result<
        RestRequest,
        ResourceError,
    >)
        ensures
            planned(
                Self::path_views(),
                None,
                Self::NAME,
                ResourceOperation::Count,
                operation_name(ResourceOperation::Count),
                insert_entry(Seq::empty(), "price_rule_id"@, decimal(price_rule_id as nat)),
                HttpMethod::Get,
                optional_query(params, true),
                r,
            ),
    {
        let paths = Self::paths();
        let id = u64_text(price_rule_id);
        count_with_parent_request(paths.as_slice(), Self::NAME, "price_rule_id", id.as_str(), params)
    }

    /// Plans finding one code of a price rule: GET on the `Find` path for
    /// `price_rule_id` and `id`, without query parameters.
    pub fn find_with_parent_request(price_rule_id: u64, id: u64) -> (r: Result<
        RestRequest,
        ResourceError,
    >)
        ensures
            planned(
                Self::path_views(),
                None,
                Self::NAME,
                ResourceOperation::Find,
                operation_name(ResourceOperation::Find),
                insert_entry(
                    insert_entry(Seq::empty(), "price_rule_id"@, decimal(price_rule_id as nat)),
                    "id"@,
                    decimal(id as nat),
                ),
                HttpMethod::Get,
                None,
                r,
            ),
            r matches Ok(req) ==> req.body is None,
    {
        let paths = Self::paths();
        let mut ids = StringMap::new();
        ids.insert_u64("price_rule_id", price_rule_id);
        ids.insert_u64("id", id);
        let op = ResourceOperation::Find;
        plan_request(paths.as_slice(), None, Self::NAME, op, op.as_str(), &ids, HttpMethod::Get, None, None)
    }

    /// Plans looking a code up by its text: GET on `discount_codes/lookup`
    /// with the query `code`.
    pub fn lookup_request(code: &str) -> (r: RestRequest)
        ensures
            sends(
                Ok::<RestRequest, ResourceError>(r),
                HttpMethod::Get,
                "discount_codes/lookup"@,
                Some(insert_entry(Seq::empty(), "code"@, code@)),
            ),
            r.body is None,
    {
        let mut query = StringMap::new();
        query.insert("code", code);
        request(HttpMethod::Get, "discount_codes/lookup".to_string(), Some(query), None)
    }

    /// Plans creating codes in a batch: POST to `price_rules/{id}/batch`
    /// with the body `{"discount_codes": [{"code": c}, ...]}`.
    pub fn batch_request(price_rule_id: u64, codes: Vec<String>) -> (r: RestRequest)
        ensures
            sends(
                Ok::<RestRequest, ResourceError>(r),
                HttpMethod::Post,
                "price_rules/"@ + decimal(price_rule_id as nat) + "/batch"@,
                None,
            ),
            r.body is Some && is_batch_body(r.body->0, codes@.map_values(|c: String| c@)),
    {
        let ghost texts = codes@.map_values(|c: String| c@);
        let mut items: Vec<JsonValue> = Vec::new();
        let mut i: usize = 0;
        while i < codes.len()
            invariant
                texts == codes@.map_values(|c: String| c@),
                i <= codes@.len(),
                items@.len() == i,
                forall|j: int| 0 <= j < i ==> is_code_entry(#[trigger] items@[j], texts[j]),
            decreases codes.len() - i,
        {
            let mut entry = JsonValue::empty_object();
            entry.push_member("code", JsonValue::String(codes[i].clone()));
            items.push(entry);
            i = i + 1;
        }
        let mut body = JsonValue::empty_object();
        body.push_member("discount_codes", JsonValue::Array(items));
        let path = id_path("price_rules/", price_rule_id, "/batch");
        request(HttpMethod::Post, path, None, Some(body))
    }

    /// Plans reading the state of a batch: GET on
    /// `price_rules/{price_rule_id}/batch/{batch_id}`.
    pub fn batch_status_request(price_rule_id: u64, batch_id: u64) -> (r: RestRequest)
        ensures
            sends(
                Ok::<RestRequest, ResourceError>(r),
                HttpMethod::Get,
                "price_rules/"@ + decimal(price_rule_id as nat) + "/batch/"@ + decimal(batch_id as nat),
                None,
            ),
            r.body is None,
    {
        let mut path = id_path("price_rules/", price_rule_id, "/batch/");
        crate::text::push_decimal(&mut path, batch_id);
        request(HttpMethod::Get, path, None, None)
    }

    /// Plans listing the codes a batch created: GET on
    /// `price_rules/{price_rule_id}/batch/{batch_id}/discount_codes`.
    pub fn batch_codes_request(price_rule_id: u64, batch_id: u64) -> (r: RestRequest)
        ensures
            sends(
                Ok::<RestRequest, ResourceError>(r),
                HttpMethod::Get,
                "price_rules/"@ + decimal(price_rule_id as nat) + "/batch/"@ + decimal(batch_id as nat)
                    + "/discount_codes"@,
                None,
            ),
            r.body is None,
    {
        let mut path = id_path("price_rules/", price_rule_id, "/batch/");
        crate::text::push_decimal(&mut path, batch_id);
        path.append("/discount_codes");
        request(HttpMethod::Get, path, None, None)
    }

    /// The IDs of the parent it is saved under: `price_rule_id` when set.
    pub fn parent_ids(&self) -> (m: StringMap)
        ensures
            m@ == parent_entries("price_rule_id"@, self.price_rule_id),
    {
        parent_id_map("price_rule_id", self.price_rule_id)
    }

    /// Returns the resource's ID, or `None` for a resource not saved yet.
    pub fn get_id(&self) -> (id: Option<u64>)
        ensures
            id == self.id,
    {
        self.id
    }
}

/// An error associated with a discount code.
#[derive(Debug, Clone, Default, PartialEq, Eq)]
pub struct DiscountCodeError {
    /// The error code.
    pub code: Option<String>,

    /// The error message.
    pub message: Option<String>,
}

/// The result of a batch discount code creation.
#[derive(Debug, Clone, Default, PartialEq, Eq)]
pub struct DiscountCodeBatchResult {
    /// The ID of the batch job.
    pub id: Option<u64>,

    /// The price rule ID the batch is associated with.
    pub price_rule_id: Option<u64>,

    /// When the batch job started.
    pub started_at: Option<String>,

    /// When the batch job completed.
    pub completed_at: Option<String>,

    /// When the batch job was created.
    pub created_at: Option<String>,

    /// When the batch job was last updated.
    pub updated_at: Option<String>,

    /// The status of the batch job: "queued", "running", "completed".
    pub status: Option<String>,

    /// The number of codes processed.
    pub codes_count: Option<i32>,

    /// The number of codes imported successfully.
    pub imported_count: Option<i32>,

    /// The number of codes that failed to import.
    pub failed_count: Option<i32>,

    /// The log entries for the batch job.
    pub logs: Option<Vec<String>>,
}

/// `v` is `{"code": code}`.
pub open spec fn is_code_entry(v: JsonValue, code: Seq<char>) -> bool {
    &&& v is Object
    &&& v->Object_0@.len() == 1
    &&& v->Object_0@[0].key@ == "code"@
    &&& v->Object_0@[0].value matches JsonValue::String(c) && c@ == code
}

/// `body` is `{"discount_codes": [{"code": c}, ...]}` for the given codes.
pub open spec fn is_batch_body(body: JsonValue, codes: Seq<Seq<char>>) -> bool {
    &&& body is Object
    &&& body->Object_0@.len() == 1
    &&& body->Object_0@[0].key@ == "discount_codes"@
    &&& body->Object_0@[0].value matches JsonValue::Array(items) && items@.len() == codes.len()
        && forall|j: int| 0 <= j < codes.len() ==> is_code_entry(#[trigger] items@[j], codes[j])
}

/// Parameters for finding a single discount code.
#[derive(Debug, Clone, Default, PartialEq, Eq)]
pub struct DiscountCodeFindParams {
    /// Comma-separated list of fields to include in the response.
    pub fields: Option<String>,
}

/// Parameters for listing discount codes.
#[derive(Debug, Clone, Default, PartialEq, Eq)]
pub struct DiscountCodeListParams {
    /// Maximum number of results to return (default: 50, max: 250).
    pub limit: Option<u32>,

    /// Return codes after this ID.
    pub since_id: Option<u64>,

    /// Cursor for pagination.
    pub page_info: Option<String>,

    /// Comma-separated list of fields to include in the response.
    pub fields: Option<String>,
}

/// Parameters for counting discount codes.
#[derive(Debug, Clone, Default, PartialEq, Eq)]
pub struct DiscountCodeCountParams {
    /// Filter by times used.
    pub times_used: Option<i32>,

    /// Filter by minimum times used.
    pub times_used_min: Option<i32>,

    /// Filter by maximum times used.
    pub times_used_max: Option<i32>,
}

} // verus!
