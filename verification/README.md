# shopify_sdk (REST resources, verified)

The REST Admin API layer of a Shopify SDK, written in Verus: every request
that the resources send is planned by verified code, and every error
response is interpreted by verified code.

- `src/` — the verified library.
  - `json.rs`: JSON values and their compact text (what `serde_json` writes).
  - `text.rs`: characters, decimal digits and replacement on strings.
  - `encoding.rs`: padded standard base64 (through the `base64` crate).
  - `clients.rs`: HTTP method, response and error types.
  - `rest/path.rs`: path selection (`get_path`) and template filling (`build_path`).
  - `rest/template.rs`: what filling a template does, placeholder by placeholder.
  - `rest/params.rs`: insertion-ordered string maps for IDs, queries and field errors.
  - `rest/errors.rs`: `ResourceError` and how error responses map to it.
  - `rest/resource.rs`: query serialization and the request planners of the
    find/all/save/delete/count operations.
  - `rest/resources/v2025_10/`: the resources of API version 2025-10, their
    paths and their special operations.
- `tests/` — the library's tests.
- `app/` — what is not verified: the transport, serde forms of the resource
  types, conversions to and from `serde_json`, timestamps.

Asynchronous operations of the resources are split in two: the library
plans the request (`*_request` functions) and interprets the response
(`check_response`, `response_member`, `count_from_response`, and the
fulfillment-order reply pickers `reply_order`, `moved_order`,
`created_order`); `app/` sends it.
