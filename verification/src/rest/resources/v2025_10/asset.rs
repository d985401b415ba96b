//! Asset resource implementation.
use vstd::prelude::*;

use vstd::utf8::encode_utf8;

use crate::clients::{HttpError, HttpMethod, HttpResponseError};
use crate::encoding::{base64_decoded, base64_encoded, base64_error_text, decode_standard, decodes_to, encode_standard};
use crate::json::{JsonMember, JsonValue};
use crate::rest::errors::ResourceError;
use crate::rest::params::{insert_entry, StringMap};
use crate::rest::path::{names, views, PathView, ResourceOperation, ResourcePath};
use crate::rest::resource::{has_keys, key_if, member_value, plan_request, planned, unresolved, RestRequest};
use crate::text::decimal;

verus! {

/// A theme asset in a Shopify store.
///
/// Assets are files that make up a theme, including Liquid templates,
/// CSS stylesheets, JavaScript files, and images.
///
/// # Key-Based Identification
///
/// Assets use a string `key` instead of a numeric ID. The key is the
/// path to the asset within the theme (e.g., `templates/index.liquid`).
///
/// # Content Types
///
/// - **Text assets**: Use the `value` field (templates, CSS, JS)
/// - **Binary assets**: Use the `attachment` field (base64-encoded)
///
/// # Fields
///
/// ## Key Field (Required)
/// - `key` - The path to the asset (e.g., `templates/index.liquid`)
///
/// ## Content Fields (Mutually Exclusive)
/// - `value` - Text content for text-based assets
/// - `attachment` - Base64-encoded content for binary assets
///
/// ## Metadata (Read-Only)
/// - `public_url` - The public CDN URL for the asset
/// - `content_type` - The MIME type of the asset
/// - `size` - The size of the asset in bytes
/// - `checksum` - The MD5 checksum of the asset
/// - `created_at` - When the asset was created
/// - `updated_at` - When the asset was last updated
#[derive(Debug, Clone, Default, PartialEq, Eq)]
pub struct Asset {
    /// The path to the asset within the theme.
    /// This serves as the asset's identifier.
    /// Examples: `templates/index.liquid`, `assets/style.css`, `config/settings_data.json`
    pub key: String,

    /// The public CDN URL for the asset.
    /// Read-only field.
    pub public_url: Option<String>,

    /// The text content of the asset.
    /// Used for text-based assets like Liquid templates, CSS, and JavaScript.
    /// Mutually exclusive with `attachment`.
    pub value: Option<String>,

    /// The base64-encoded binary content of the asset.
    /// Used for binary assets like images and fonts.
    /// Mutually exclusive with `value`.
    pub attachment: Option<String>,

    /// The MIME type of the asset.
    /// Read-only field.
    pub content_type: Option<String>,

    /// The size of the asset in bytes.
    /// Read-only field.
    pub size: Option<i64>,

    /// The MD5 checksum of the asset content.
    /// Read-only field.
    pub checksum: Option<String>,

    /// The ID of the theme this asset belongs to.
    /// Set when retrieved via the API.
    /// Read-only field.
    pub theme_id: Option<u64>,

    /// When the asset was created (RFC 3339).
    /// Read-only field.
    pub created_at: Option<String>,

    /// When the asset was last updated (RFC 3339).
    /// Read-only field.
    pub updated_at: Option<String>,
}


/// The IDs of a theme's assets: `theme_id` only.
pub open spec fn theme_ids(theme_id: u64) -> Seq<(Seq<char>, Seq<char>)> {
    insert_entry(Seq::empty(), "theme_id"@, decimal(theme_id as nat))
}

/// The query that names one asset: `asset[key]`.
pub open spec fn key_query(key: Seq<char>) -> Option<Seq<(Seq<char>, Seq<char>)>> {
    Some(insert_entry(Seq::empty(), "asset[key]"@, key))
}

/// The query of optional list params: `fields` when it is set, otherwise none.
pub open spec fn list_query(params: Option<&AssetListParams>) -> Option<Seq<(Seq<char>, Seq<char>)>> {
    match params {
        Some(p) => match p.fields {
            Some(f) => Some(insert_entry(Seq::empty(), "fields"@, f@)),
            None => None,
        },
        None => None,
    }
}

/// `a` is the asset that uploads `bytes` under `key`: the key, the padded
/// base64 text of the bytes as attachment (which decodes to them), and
/// nothing else.
pub open spec fn is_upload(key: Seq<char>, bytes: Seq<u8>, a: Asset) -> bool {
    &&& a.key@ == key
    &&& a.attachment matches Some(t) && t@ == base64_encoded(bytes) && decodes_to(t@, bytes)
    &&& a.value is None
    &&& a.public_url is None
    &&& a.content_type is None
    &&& a.size is None
    &&& a.checksum is None
    &&& a.theme_id is None
    &&& a.created_at is None
    &&& a.updated_at is None
}

/// The text of the error for an attachment that is not base64.
pub open spec fn bad_attachment_text(e: crate::encoding::Base64Error) -> Seq<char> {
    "Failed to decode base64 attachment: "@ + base64_error_text(e)
}

/// `r` is what downloading `a` gives: the UTF-8 bytes of the text value
/// when there is one; otherwise the decoded attachment, or a 400 `Http`
/// error saying why it does not decode; and with neither, a
/// `PathResolutionFailed` error.
pub open spec fn is_download(a: Asset, r: Result<Vec<u8>, ResourceError>) -> bool {
    match a.value {
        Some(v) => r is Ok && r->Ok_0@ == encode_utf8(v@),
        None => match a.attachment {
            Some(t) => match base64_decoded(t@) {
                Ok(b) => r is Ok && r->Ok_0@ == b,
                Err(e) => r matches Err(ResourceError::Http(HttpError::Response(he))) && he.code == 400
                    && he.message@ == bad_attachment_text(e) && he.error_reference is None,
            },
            None => unresolved(r, "Asset"@, "download_content (no value or attachment)"@),
        },
    }
}

/// `v` is the JSON of an asset as it is sent: `attachment` when present,
/// `key`, and `value` when present, in that order.
pub open spec fn is_asset_json(v: JsonValue, a: Asset) -> bool {
    let k = if a.attachment is Some { 1int } else { 0int };
    &&& has_keys(v, key_if(a.attachment is Some, "attachment"@) + seq!["key"@] + key_if(a.value is Some, "value"@))
    &&& (a.attachment matches Some(t) ==> member_value(v, 0) == JsonValue::String(t))
    &&& member_value(v, k) == JsonValue::String(a.key)
    &&& (a.value matches Some(x) ==> member_value(v, k + 1) == JsonValue::String(x))
}

impl Asset {
    /// The paths of assets as plain values: all of them sit under a theme;
    /// a single asset is named by the `asset[key]` query.
    pub open spec fn path_views() -> Seq<PathView> {
        seq![
            (HttpMethod::Get, ResourceOperation::All, seq!["theme_id"@], "themes/{theme_id}/assets"@),
            (HttpMethod::Put, ResourceOperation::Create, seq!["theme_id"@], "themes/{theme_id}/assets"@),
            (HttpMethod::Put, ResourceOperation::Update, seq!["theme_id"@], "themes/{theme_id}/assets"@),
            (HttpMethod::Get, ResourceOperation::Find, seq!["theme_id"@], "themes/{theme_id}/assets"@),
            (HttpMethod::Delete, ResourceOperation::Delete, seq!["theme_id"@], "themes/{theme_id}/assets"@),
        ]
    }

    /// The paths of assets.
    pub fn paths() -> (p: Vec<ResourcePath>)
        ensures
            views(p@) == Self::path_views(),
    {
        let mut p = Vec::new();
        p.push(ResourcePath::new(HttpMethod::Get, ResourceOperation::All, &["theme_id"], "themes/{theme_id}/assets"));
        p.push(ResourcePath::new(HttpMethod::Put, ResourceOperation::Create, &["theme_id"], "themes/{theme_id}/assets"));
        p.push(ResourcePath::new(HttpMethod::Put, ResourceOperation::Update, &["theme_id"], "themes/{theme_id}/assets"));
        p.push(ResourcePath::new(HttpMethod::Get, ResourceOperation::Find, &["theme_id"], "themes/{theme_id}/assets"));
        p.push(ResourcePath::new(HttpMethod::Delete, ResourceOperation::Delete, &["theme_id"], "themes/{theme_id}/assets"));
        assert(names(p@[0].ids@) =~= seq!["theme_id"@]);
        assert(names(p@[1].ids@) =~= seq!["theme_id"@]);
        assert(names(p@[2].ids@) =~= seq!["theme_id"@]);
        assert(names(p@[3].ids@) =~= seq!["theme_id"@]);
        assert(names(p@[4].ids@) =~= seq!["theme_id"@]);
        p
    }

    /// An asset that uploads `bytes` under `key`, base64-encoded as its
    /// attachment. Downloading it gives the bytes back.
    pub fn upload_from_bytes(key: &str, bytes: &[u8]) -> (a: Asset)
        requires
            (bytes@.len() / 3 + 1) * 4 <= usize::MAX,
        ensures
            is_upload(key@, bytes@, a),
    {
        Asset {
            key: key.to_string(),
            public_url: None,
            value: None,
            attachment: Some(encode_standard(bytes)),
            content_type: None,
            size: None,
            checksum: None,
            theme_id: None,
            created_at: None,
            updated_at: None,
        }
    }

    /// The asset's content as bytes: the UTF-8 bytes of the text value, or
    /// the decoded base64 attachment; an attachment that does not decode is
    /// a 400 `Http` error, and an asset with neither is a
    /// `PathResolutionFailed` error.
    pub fn download_content(&self) -> (r: Result<Vec<u8>, ResourceError>)
        ensures
            is_download(*self, r),
    {
        match &self.value {
            Some(v) => {
                return Ok(vstd::slice::slice_to_vec(v.as_str().as_bytes()));
            },
            None => {},
        }
        match &self.attachment {
            Some(t) => match decode_standard(t.as_str()) {
                Ok(b) => Ok(b),
                Err(e) => {
                    let mut message = String::new();
                    message.append("Failed to decode base64 attachment: ");
                    let text = e.message();
                    message.append(text.as_str());
                    Err(
                        ResourceError::Http(
                            HttpError::Response(HttpResponseError { code: 400, message, error_reference: None }),
                        ),
                    )
                },
            },
            None => Err(
                ResourceError::PathResolutionFailed {
                    resource: "Asset",
                    operation: "download_content (no value or attachment)",
                },
            ),
        }
    }

    /// Whether the asset is binary: it has an attachment.
    pub fn is_binary(&self) -> (b: bool)
        ensures
            b == self.attachment is Some,
    {
        self.attachment.is_some()
    }

    /// The JSON of the asset as it is sent: the key, and the value and
    /// attachment when present; the read-only fields are left out.
    pub fn to_json(&self) -> (v: JsonValue)
        ensures
            is_asset_json(v, *self),
    {
        let mut v = JsonValue::empty_object();
        match &self.attachment {
            Some(t) => v.push_member("attachment", JsonValue::String(t.clone())),
            None => {},
        }
        v.push_member("key", JsonValue::String(self.key.clone()));
        match &self.value {
            Some(x) => v.push_member("value", JsonValue::String(x.clone())),
            None => {},
        }
        v
    }

    /// Plans listing a theme's assets: GET on the theme's assets path, with
    /// `fields` as query when the params set it.
    pub fn all_for_theme_request(theme_id: u64, params: Option<&AssetListParams>) -> (r: Result<
        RestRequest,
        ResourceError,
    >)
        ensures
            planned(Self::path_views(), None, "Asset", ResourceOperation::All, "all"@, theme_ids(theme_id), HttpMethod::Get, list_query(params), r),
            r matches Ok(req) ==> req.body is None,
    {
        let paths = Self::paths();
        let mut ids = StringMap::new();
        ids.insert_u64("theme_id", theme_id);
        let query = match params {
            Some(p) => match &p.fields {
                Some(f) => {
                    let mut q = StringMap::new();
                    q.insert("fields", f.as_str());
                    Some(q)
                },
                None => None,
            },
            None => None,
        };
        plan_request(paths.as_slice(), None, "Asset", ResourceOperation::All, "all", &ids, HttpMethod::Get, query, None)
    }

    /// Plans finding one asset of a theme by key: GET on the theme's assets
    /// path with the `asset[key]` query.
    pub fn find_by_key_request(theme_id: u64, key: &str) -> (r: Result<RestRequest, ResourceError>)
        ensures
            planned(Self::path_views(), None, "Asset", ResourceOperation::Find, "find"@, theme_ids(theme_id), HttpMethod::Get, key_query(key@), r),
            r matches Ok(req) ==> req.body is None,
    {
        let paths = Self::paths();
        let mut ids = StringMap::new();
        ids.insert_u64("theme_id", theme_id);
        let mut q = StringMap::new();
        q.insert("asset[key]", key);
        plan_request(paths.as_slice(), None, "Asset", ResourceOperation::Find, "find", &ids, HttpMethod::Get, Some(q), None)
    }

    /// Plans saving an asset to a theme (create or update): PUT on the
    /// theme's assets path with `{"asset": asset}`.
    pub fn save_to_theme_request(theme_id: u64, asset: &Asset) -> (r: Result<RestRequest, ResourceError>)
        ensures
            planned(Self::path_views(), None, "Asset", ResourceOperation::Update, "save"@, theme_ids(theme_id), HttpMethod::Put, None, r),
            r matches Ok(req) ==> req.body matches Some(b) && has_keys(b, seq!["asset"@]) && is_asset_json(member_value(b, 0), *asset),
    {
        let paths = Self::paths();
        let mut ids = StringMap::new();
        ids.insert_u64("theme_id", theme_id);
        let mut body = JsonValue::empty_object();
        body.push_member("asset", asset.to_json());
        plan_request(paths.as_slice(), None, "Asset", ResourceOperation::Update, "save", &ids, HttpMethod::Put, None, Some(body))
    }

    /// Plans deleting one asset of a theme by key: DELETE on the theme's
    /// assets path with the `asset[key]` query.
    pub fn delete_from_theme_request(theme_id: u64, key: &str) -> (r: Result<RestRequest, ResourceError>)
        ensures
            planned(Self::path_views(), None, "Asset", ResourceOperation::Delete, "delete"@, theme_ids(theme_id), HttpMethod::Delete, key_query(key@), r),
            r matches Ok(req) ==> req.body is None,
    {
        let paths = Self::paths();
        let mut ids = StringMap::new();
        ids.insert_u64("theme_id", theme_id);
        let mut q = StringMap::new();
        q.insert("asset[key]", key);
        plan_request(paths.as_slice(), None, "Asset", ResourceOperation::Delete, "delete", &ids, HttpMethod::Delete, Some(q), None)
    }
}

/// Downloading an uploaded asset gives back the uploaded bytes.
pub proof fn lemma_upload_then_download(key: Seq<char>, bytes: Seq<u8>, a: Asset, r: Result<Vec<u8>, ResourceError>)
    requires
        is_upload(key, bytes, a),
        is_download(a, r),
    ensures
        r is Ok && r->Ok_0@ == bytes,
{
}

/// Parameters for listing assets.
#[derive(Debug, Clone, Default, PartialEq, Eq)]
pub struct AssetListParams {
    /// Comma-separated list of fields to include in the response.
    pub fields: Option<String>,
}

} // verus!
