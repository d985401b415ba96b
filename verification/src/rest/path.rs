//! Path selection and interpolation for REST resources.
//!
//! A resource may be reachable through several paths, for example
//! `products/{product_id}/variants/{id}` and `variants/{id}`. Among the paths
//! for an operation whose IDs are all available, [`get_path`] selects the one
//! that needs the most IDs; [`build_path`] then fills the `{name}` placeholders
//! of its template.
use vstd::prelude::*;

use crate::clients::HttpMethod;
use crate::rest::params::StringMap;
use crate::text::{push_char, replace_all, replace_text, occurs_in, lemma_replace_absent, str_eq};

verus! {

/// Operations that can be performed on a REST resource.
#[derive(Debug, Clone, Copy, PartialEq, Eq, Hash, Structural)]
pub enum ResourceOperation {
    /// Find a single resource by ID (GET /resources/{id}).
    Find,
    /// List all resources (GET /resources).
    All,
    /// Create a new resource (POST /resources).
    Create,
    /// Update an existing resource (PUT /resources/{id}).
    Update,
    /// Delete a resource (DELETE /resources/{id}).
    Delete,
    /// Count resources (GET /resources/count).
    Count,
}

/// The HTTP method that an operation uses unless a path says otherwise.
pub open spec fn operation_method(op: ResourceOperation) -> HttpMethod {
    match op {
        ResourceOperation::Find | ResourceOperation::All | ResourceOperation::Count => HttpMethod::Get,
        ResourceOperation::Create => HttpMethod::Post,
        ResourceOperation::Update => HttpMethod::Put,
        ResourceOperation::Delete => HttpMethod::Delete,
    }
}

/// The lowercase name of an operation.
pub open spec fn operation_name(op: ResourceOperation) -> Seq<char> {
    match op {
        ResourceOperation::Find => seq!['f', 'i', 'n', 'd'],
        ResourceOperation::All => seq!['a', 'l', 'l'],
        ResourceOperation::Create => seq!['c', 'r', 'e', 'a', 't', 'e'],
        ResourceOperation::Update => seq!['u', 'p', 'd', 'a', 't', 'e'],
        ResourceOperation::Delete => seq!['d', 'e', 'l', 'e', 't', 'e'],
        ResourceOperation::Count => seq!['c', 'o', 'u', 'n', 't'],
    }
}

impl ResourceOperation {
    /// Returns the default HTTP method for this operation.
    pub fn default_http_method(&self) -> (m: HttpMethod)
        ensures
            m == operation_method(*self),
    {
        match self {
            ResourceOperation::Find | ResourceOperation::All | ResourceOperation::Count => HttpMethod::Get,
            ResourceOperation::Create => HttpMethod::Post,
            ResourceOperation::Update => HttpMethod::Put,
            ResourceOperation::Delete => HttpMethod::Delete,
        }
    }

    /// Returns the operation name as a string.
    pub fn as_str(&self) -> (s: &'static str)
        ensures
            s@ == operation_name(*self),
    {
        match self {
            ResourceOperation::Find => {
                proof {
                    reveal_strlit("find");
                }
                "find"
            },
            ResourceOperation::All => {
                proof {
                    reveal_strlit("all");
                }
                "all"
            },
            ResourceOperation::Create => {
                proof {
                    reveal_strlit("create");
                }
                "create"
            },
            ResourceOperation::Update => {
                proof {
                    reveal_strlit("update");
                }
                "update"
            },
            ResourceOperation::Delete => {
                proof {
                    reveal_strlit("delete");
                }
                "delete"
            },
            ResourceOperation::Count => {
                proof {
                    reveal_strlit("count");
                }
                "count"
            },
        }
    }
}

/// A path configuration for a REST resource operation: its HTTP method, the
/// IDs it needs, and a URL template with `{id_name}` placeholders.
#[derive(Debug, Clone, Copy, PartialEq, Eq)]
pub struct ResourcePath {
    /// The HTTP method for this path.
    pub http_method: HttpMethod,
    /// The operation this path is used for.
    pub operation: ResourceOperation,
    /// Required ID parameters in order (e.g., `["product_id", "id"]`).
    pub ids: &'static [&'static str],
    /// The URL template with `{id}` placeholders.
    pub template: &'static str,
}

/// The texts of a list of names.
pub open spec fn names(available: Seq<&str>) -> Seq<Seq<char>> {
    available.map_values(|s: &str| s@)
}

/// `name` is one of `available`.
pub open spec fn is_available(available: Seq<Seq<char>>, name: Seq<char>) -> bool {
    exists|j: int| 0 <= j < available.len() && #[trigger] available[j] == name
}

/// Every one of `ids` is available.
pub open spec fn all_available(ids: Seq<Seq<char>>, available: Seq<Seq<char>>) -> bool {
    forall|i: int| 0 <= i < ids.len() ==> is_available(available, #[trigger] ids[i])
}

/// The parts of a path as plain values: method, operation, ID names and template.
pub open spec fn path_view(p: ResourcePath) -> PathView {
    (p.http_method, p.operation, names(p.ids@), p.template@)
}

/// The views of a list of paths.
pub open spec fn views(paths: Seq<ResourcePath>) -> Seq<PathView> {
    paths.map_values(|p: ResourcePath| path_view(p))
}

/// A path as plain values: method, operation, ID names and template.
pub type PathView = (HttpMethod, ResourceOperation, Seq<Seq<char>>, Seq<char>);

/// `p` serves `op` and all of its IDs are available.
pub open spec fn is_candidate(p: PathView, op: ResourceOperation, available: Seq<Seq<char>>) -> bool {
    p.1 == op && all_available(p.2, available)
}

/// Index `k` is the path that `get_path` selects among the first `n` paths:
/// a candidate that needs the most IDs, the last one among equals.
pub open spec fn is_selected(
    paths: Seq<PathView>,
    op: ResourceOperation,
    available: Seq<Seq<char>>,
    k: int,
    n: int,
) -> bool {
    &&& 0 <= k < n <= paths.len()
    &&& is_candidate(paths[k], op, available)
    &&& forall|j: int|
        0 <= j < n && is_candidate(#[trigger] paths[j], op, available) ==> paths[j].2.len()
            <= paths[k].2.len() && (k < j ==> paths[j].2.len() < paths[k].2.len())
}

/// Some path among the first `n` is a candidate.
pub open spec fn has_candidate(
    paths: Seq<PathView>,
    op: ResourceOperation,
    available: Seq<Seq<char>>,
    n: int,
) -> bool {
    exists|j: int| 0 <= j < n && is_candidate(#[trigger] paths[j], op, available)
}

impl ResourcePath {
    /// Creates a new `ResourcePath`.
    pub fn new(
        http_method: HttpMethod,
        operation: ResourceOperation,
        ids: &'static [&'static str],
        template: &'static str,
    ) -> (p: ResourcePath)
        ensures
            p == (ResourcePath { http_method, operation, ids, template }),
    {
        ResourcePath { http_method, operation, ids, template }
    }

    /// Returns the number of required IDs for this path.
    pub fn id_count(&self) -> (n: usize)
        ensures
            n == self.ids@.len(),
    {
        self.ids.len()
    }

    /// Checks if all required IDs are available.
    pub fn matches_ids(&self, available_ids: &[&str]) -> (r: bool)
        ensures
            r == all_available(names(self.ids@), names(available_ids@)),
    {
        let mut i: usize = 0;
        while i < self.ids.len()
            invariant
                i <= self.ids@.len(),
                forall|k: int| 0 <= k < i ==> is_available(names(available_ids@), #[trigger] names(self.ids@)[k]),
            decreases self.ids.len() - i,
        {
            let id = self.ids[i];
            let mut j: usize = 0;
            let mut found = false;
            while j < available_ids.len()
                invariant
                    id == self.ids@[i as int],
                    j <= available_ids@.len(),
                    found ==> is_available(names(available_ids@), id@),
                    !found ==> forall|m: int| 0 <= m < j ==> #[trigger] names(available_ids@)[m] != id@,
                decreases available_ids.len() - j,
            {
                if !found && str_eq(available_ids[j], id) {
                    found = true;
                    assert(names(available_ids@)[j as int] == id@);
                }
                j = j + 1;
            }
            if !found {
                assert(!is_available(names(available_ids@), names(self.ids@)[i as int]));
                return false;
            }
            i = i + 1;
        }
        true
    }
}

/// Selects the best matching path for an operation: among the paths for
/// `operation` whose IDs are all in `available_ids`, the one with the most
/// IDs (the last such one where several need equally many).
pub fn get_path<'a>(
    paths: &'a [ResourcePath],
    operation: ResourceOperation,
    available_ids: &[&str],
) -> (r: Option<&'a ResourcePath>)
    ensures
        r is None <==> !has_candidate(views(paths@), operation, names(available_ids@), paths@.len() as int),
        r matches Some(p) ==> exists|k: int|
            is_selected(views(paths@), operation, names(available_ids@), k, paths@.len() as int) && *p
                == paths@[k],
{
    let mut best: Option<usize> = None;
    let mut i: usize = 0;
    while i < paths.len()
        invariant
            i <= paths@.len(),
            best is None <==> !has_candidate(views(paths@), operation, names(available_ids@), i as int),
            best matches Some(b) ==> is_selected(views(paths@), operation, names(available_ids@), b as int, i as int),
        decreases paths.len() - i,
    {
        let p = &paths[i];
        if p.operation == operation && p.matches_ids(available_ids) {
            assert(is_candidate(views(paths@)[i as int], operation, names(available_ids@)));
            match best {
                None => {
                    best = Some(i);
                },
                Some(b) => {
                    if p.ids.len() >= paths[b].ids.len() {
                        best = Some(i);
                    }
                },
            }
        }
        i = i + 1;
    }
    match best {
        Some(b) => Some(&paths[b]),
        None => None,
    }
}

/// Any two indexes that are both selected are the same index: the selection
/// is unambiguous.
pub proof fn lemma_selection_unique(
    paths: Seq<PathView>,
    op: ResourceOperation,
    available: Seq<Seq<char>>,
    k1: int,
    k2: int,
    n: int,
)
    requires
        is_selected(paths, op, available, k1, n),
        is_selected(paths, op, available, k2, n),
    ensures
        k1 == k2,
{
    assert(is_candidate(paths[k1], op, available));
    assert(is_candidate(paths[k2], op, available));
}

/// The selected path serves the operation, needs only available IDs, and no
/// candidate path needs more IDs than it does.
pub proof fn lemma_selected_is_most_specific(
    paths: Seq<PathView>,
    op: ResourceOperation,
    available: Seq<Seq<char>>,
    k: int,
    j: int,
)
    requires
        is_selected(paths, op, available, k, paths.len() as int),
        0 <= j < paths.len(),
        is_candidate(paths[j], op, available),
    ensures
        paths[k].1 == op,
        all_available(paths[k].2, available),
        paths[j].2.len() <= paths[k].2.len(),
{
}

/// The placeholder for an ID named `key`: `{key}`.
pub open spec fn placeholder(key: Seq<char>) -> Seq<char> {
    seq!['{'] + key + seq!['}']
}

/// The template after replacing, entry by entry, each entry's placeholder
/// with its value.
pub open spec fn interpolate(template: Seq<char>, entries: Seq<(Seq<char>, Seq<char>)>) -> Seq<
    char,
>
    decreases entries.len(),
{
    if entries.len() == 0 {
        template
    } else {
        interpolate(
            replace_all(template, placeholder(entries[0].0), entries[0].1),
            entries.drop_first(),
        )
    }
}

fn placeholder_text(key: &str) -> (s: String)
    ensures
        s@ == placeholder(key@),
{
    let mut s = String::new();
    push_char(&mut s, '{');
    s.append(key);
    push_char(&mut s, '}');
    s
}

/// Builds a URL from a template by interpolating IDs: every `{name}`
/// placeholder whose name is a key of `ids` is replaced with its value;
/// other placeholders remain.
pub fn build_path(template: &str, ids: &StringMap) -> (url: String)
    ensures
        url@ == interpolate(template@, ids@),
{
    let mut result = template.to_string();
    let mut i: usize = 0;
    let n = ids.len();
    assert(ids@.skip(0) == ids@);
    while i < n
        invariant
            n == ids@.len(),
            i <= n,
            interpolate(result@, ids@.skip(i as int)) == interpolate(template@, ids@),
        decreases n - i,
    {
        let (key, value) = ids.entry(i);
        let pattern = placeholder_text(key);
        let next = replace_text(result.as_str(), pattern.as_str(), value);
        assert(ids@.skip(i as int).drop_first() == ids@.skip(i + 1));
        result = next;
        i = i + 1;
    }
    assert(ids@.skip(n as int).len() == 0);
    result
}

/// Builds a URL from a `ResourcePath` by interpolating IDs.
pub fn build_path_from_resource_path(path: &ResourcePath, ids: &StringMap) -> (url: String)
    ensures
        url@ == interpolate(path.template@, ids@),
{
    build_path(path.template, ids)
}

/// A template without `{` is returned unchanged, whatever the IDs.
pub proof fn lemma_interpolate_plain(template: Seq<char>, entries: Seq<(Seq<char>, Seq<char>)>)
    requires
        forall|i: int| 0 <= i < template.len() ==> template[i] != '{',
    ensures
        interpolate(template, entries) == template,
    decreases entries.len(),
{
    if entries.len() > 0 {
        let pat = placeholder(entries[0].0);
        assert forall|i: int| !crate::text::occurs_at(template, pat, i) by {
            if crate::text::occurs_at(template, pat, i) {
                assert(template.subrange(i, i + pat.len())[0] == pat[0]);
                assert(template[i] == '{');
            }
        }
        lemma_replace_absent(template, pat, entries[0].1);
        lemma_interpolate_plain(template, entries.drop_first());
    }
}

/// With no IDs, the template is returned unchanged, placeholders and all.
pub proof fn lemma_interpolate_empty(template: Seq<char>)
    ensures
        interpolate(template, Seq::empty()) == template,
{
}

/// Interpolating an entry whose placeholder does not occur in the template
/// is the same as leaving that entry out.
pub proof fn lemma_interpolate_skip_absent(
    template: Seq<char>,
    key: Seq<char>,
    value: Seq<char>,
    rest: Seq<(Seq<char>, Seq<char>)>,
)
    requires
        !occurs_in(template, placeholder(key)),
    ensures
        interpolate(template, seq![(key, value)] + rest) == interpolate(template, rest),
{
    lemma_replace_absent(template, placeholder(key), value);
    let e = seq![(key, value)] + rest;
    assert(e.drop_first() == rest);
}

} // verus!
