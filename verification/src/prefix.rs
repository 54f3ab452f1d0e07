//! Path-prefix computation.
//!
//! The prefix is the portion of the request path that the host router has
//! already consumed before this layer was invoked: the full path with the
//! router's unconsumed tail removed.  A consumed portion of `""` or `"/"` is
//! normalized to "no prefix", because the protocol handler's default-prefix
//! behavior differs from an explicitly configured empty prefix.

use vstd::prelude::*;

verus! {

/// `tail` is the final segment of `path`.
pub open spec fn is_suffix_of(tail: Seq<u8>, path: Seq<u8>) -> bool {
    tail.len() <= path.len() && path.skip(path.len() - tail.len()) == tail
}

/// The bytes of `path` that the router consumed before the tail.
pub open spec fn spec_consumed(path: Seq<u8>, tail: Seq<u8>) -> Seq<u8> {
    path.take(path.len() - tail.len())
}

/// The canonical prefix: the consumed portion, with `""` and `"/"` both
/// collapsed to "no prefix".
pub open spec fn spec_prefix(path: Seq<u8>, tail: Seq<u8>) -> Option<Seq<u8>> {
    let c = spec_consumed(path, tail);
    if c.len() == 0 || (c.len() == 1 && c[0] == 47) {
        None
    } else {
        Some(c)
    }
}

/// Compute the path prefix from the full request path and the tail the host
/// router left for the protocol handler.
pub fn compute_prefix(path: &[u8], tail: &[u8]) -> (r: Option<Vec<u8>>)
    requires
        is_suffix_of(tail@, path@),
    ensures
        match r {
            Some(p) => spec_prefix(path@, tail@) == Some(p@),
            None => spec_prefix(path@, tail@) is None,
        },
{
    let n = path.len() - tail.len();
    let mut consumed: Vec<u8> = Vec::new();
    let mut i: usize = 0;
    while i < n
        invariant
            n <= path@.len(),
            0 <= i <= n,
            consumed@ == path@.take(i as int),
        decreases n - i,
    {
        consumed.push(path[i]);
        assert(consumed@ =~= path@.take(i + 1));
        i = i + 1;
    }
    if consumed.len() == 0 {
        None
    } else if consumed.len() == 1 && consumed[0] == 47 {
        None
    } else {
        Some(consumed)
    }
}

/// For any path and any tail that is a suffix of it: when a prefix is
/// reported, prefix concatenated with the tail is the whole path again; and
/// when the tail is the whole path, no prefix is reported.
pub proof fn lemma_prefix_concat(path: Seq<u8>, tail: Seq<u8>)
    requires
        is_suffix_of(tail, path),
    ensures
        spec_prefix(path, tail) matches Some(p) ==> p + tail =~= path,
        tail == path ==> spec_prefix(path, tail) is None,
    decreases path.len(),
{
    let n = path.len() - tail.len();
    assert(path.take(n as int) + path.skip(n as int) =~= path);
}

} // verus!
