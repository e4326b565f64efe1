//! Endpoints of exporters: the path that a protocol appends to a base URL.

use crate::text::{concat, ends_with, trim_end, trim_end_matches};
use vstd::prelude::*;
use vstd::string::StringExecFns;

verus! {

/// The endpoint qualified by `path`: the endpoint itself where it already
/// ends in `path`; else the endpoint without the slashes at its end,
/// followed by `path`.
pub open spec fn qualified(endpoint: Seq<char>, path: Seq<char>) -> Seq<char> {
    if path.is_suffix_of(endpoint) {
        endpoint
    } else {
        trim_end(endpoint, '/') + path
    }
}

/// A qualified endpoint ends in the path.
pub proof fn lemma_qualified_ends_in_path(endpoint: Seq<char>, path: Seq<char>)
    ensures
        path.is_suffix_of(qualified(endpoint, path)),
{
    if !path.is_suffix_of(endpoint) {
        let base = trim_end(endpoint, '/');
        let q = base + path;
        assert(q.subrange(q.len() - path.len(), q.len() as int) =~= path);
    }
}

/// Qualifying is idempotent: an endpoint that was qualified stays as it is
/// when it is qualified again.
pub proof fn lemma_qualified_idempotent(endpoint: Seq<char>, path: Seq<char>)
    ensures
        qualified(qualified(endpoint, path), path) == qualified(endpoint, path),
{
    lemma_qualified_ends_in_path(endpoint, path);
}

/// Qualifies `endpoint` by `path`.
pub fn qualify(endpoint: &str, path: &str) -> (q: String)
    ensures
        q@ == qualified(endpoint@, path@),
{
    if ends_with(endpoint, path) {
        String::from_str(endpoint)
    } else {
        concat(trim_end_matches(endpoint, '/'), path)
    }
}

} // verus!
