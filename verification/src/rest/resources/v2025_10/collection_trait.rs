//! What custom and smart collections share: their products.
//!
//! A collection's products are listed at `collections/{id}/products` and
//! counted at `collections/{id}/products/count`, whatever kind of
//! collection it is.
use vstd::prelude::*;

use super::custom_collection::CustomCollection;
use super::smart_collection::SmartCollection;
use crate::clients::{HttpError, HttpMethod, HttpResponse};
use crate::json::JsonValue;
use crate::rest::errors::{opt_text, ResourceError};
use crate::rest::resource::{
    check_response, checked_response, count_from_response, id_path, missing_count_text, optional_query,
    query_for,
    reported_count, request, sends, unresolved, RestRequest,
};
use crate::text::{decimal, u64_text};

verus! {

/// A collection of products.
pub trait Collection {
    /// The collection's ID, or `None` when it has not been saved yet.
    fn get_collection_id(&self) -> Option<u64>;
}

impl Collection for CustomCollection {
    fn get_collection_id(&self) -> (r: Option<u64>)
        ensures
            r == self.id,
    {
        self.id
    }
}

impl Collection for SmartCollection {
    fn get_collection_id(&self) -> (r: Option<u64>)
        ensures
            r == self.id,
    {
        self.id
    }
}

/// The path of a collection's products.
pub open spec fn products_path(collection_id: u64) -> Seq<char> {
    "collections/"@ + decimal(collection_id as nat) + "/products"@
}

/// The path of a collection's product count.
pub open spec fn product_count_path(collection_id: u64) -> Seq<char> {
    "collections/"@ + decimal(collection_id as nat) + "/products/count"@
}

/// Plans listing a collection's products: GET on
/// `collections/{id}/products` with the query of the optional params (left
/// out when empty). A collection without an ID is a `PathResolutionFailed`
/// error for `resource` and `products`.
pub fn products_request(resource: &'static str, collection_id: Option<u64>, params: Option<&JsonValue>) -> (r:
    Result<RestRequest, ResourceError>)
    ensures
        match collection_id {
            None => unresolved(r, resource@, "products"@),
            Some(id) => sends(r, HttpMethod::Get, products_path(id), optional_query(params, false))
                && r->Ok_0.body is None,
        },
{
    match collection_id {
        None => Err(ResourceError::PathResolutionFailed { resource, operation: "products" }),
        Some(id) => {
            let path = id_path("collections/", id, "/products");
            Ok(request(HttpMethod::Get, path, query_for(params, false), None))
        },
    }
}

/// Plans counting a collection's products: GET on
/// `collections/{id}/products/count`. A collection without an ID is a
/// `PathResolutionFailed` error for `resource` and `product_count`.
pub fn product_count_request(resource: &'static str, collection_id: Option<u64>) -> (r: Result<
    RestRequest,
    ResourceError,
>)
    ensures
        match collection_id {
            None => unresolved(r, resource@, "product_count"@),
            Some(id) => sends(r, HttpMethod::Get, product_count_path(id), None) && r->Ok_0.body is None,
        },
{
    match collection_id {
        None => Err(ResourceError::PathResolutionFailed { resource, operation: "product_count" }),
        Some(id) => {
            let path = id_path("collections/", id, "/products/count");
            Ok(request(HttpMethod::Get, path, None, None))
        },
    }
}

/// The product count that a response to a product count request gives:
/// the error of a non-2xx status (for the `Collection` with this ID),
/// otherwise the reported `count`, or an `Http` error when there is none.
pub fn product_count_from_response(collection_id: u64, response: &HttpResponse) -> (r: Result<u64, ResourceError>)
    ensures
        !(200 <= response.code <= 299) ==> r is Err && checked_response(
            *response,
            "Collection",
            Some(decimal(collection_id as nat)),
            Err::<(), ResourceError>(r->Err_0),
        ),
        200 <= response.code <= 299 ==> (reported_count(response.body) matches Some(n) ==> r == Ok::<
            u64,
            ResourceError,
        >(n)),
        200 <= response.code <= 299 && reported_count(response.body) is None ==> (r matches Err(
            ResourceError::Http(HttpError::Response(e)),
        ) && e.code == response.code && e.message@ == missing_count_text() && opt_text(e.error_reference)
            == opt_text(response.request_id)),
{
    let id = u64_text(collection_id);
    match check_response(response, "Collection", Some(id.as_str())) {
        Err(e) => Err(e),
        Ok(()) => count_from_response(response),
    }
}

impl CustomCollection {
    /// Plans listing the collection's products (see [`products_request`]).
    pub fn products_request(&self, params: Option<&JsonValue>) -> (r: Result<RestRequest, ResourceError>)
        ensures
            match self.id {
                None => unresolved(r, "CustomCollection"@, "products"@),
                Some(id) => sends(r, HttpMethod::Get, products_path(id), optional_query(params, false))
                    && r->Ok_0.body is None,
            },
    {
        products_request("CustomCollection", self.get_collection_id(), params)
    }

    /// Plans counting the collection's products (see [`product_count_request`]).
    pub fn product_count_request(&self) -> (r: Result<RestRequest, ResourceError>)
        ensures
            match self.id {
                None => unresolved(r, "CustomCollection"@, "product_count"@),
                Some(id) => sends(r, HttpMethod::Get, product_count_path(id), None) && r->Ok_0.body is None,
            },
    {
        product_count_request("CustomCollection", self.get_collection_id())
    }
}

impl SmartCollection {
    /// Plans listing the collection's products (see [`products_request`]).
    pub fn products_request(&self, params: Option<&JsonValue>) -> (r: Result<RestRequest, ResourceError>)
        ensures
            match self.id {
                None => unresolved(r, "SmartCollection"@, "products"@),
                Some(id) => sends(r, HttpMethod::Get, products_path(id), optional_query(params, false))
                    && r->Ok_0.body is None,
            },
    {
        products_request("SmartCollection", self.get_collection_id(), params)
    }

    /// Plans counting the collection's products (see [`product_count_request`]).
    pub fn product_count_request(&self) -> (r: Result<RestRequest, ResourceError>)
        ensures
            match self.id {
                None => unresolved(r, "SmartCollection"@, "product_count"@),
                Some(id) => sends(r, HttpMethod::Get, product_count_path(id), None) && r->Ok_0.body is None,
            },
    {
        product_count_request("SmartCollection", self.get_collection_id())
    }
}

} // verus!
