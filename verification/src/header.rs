//! The canonical header list: an ordered multimap of (name, value) pairs.
//!
//! Names are case-insensitive and repeatable; translation into the canonical
//! model preserves count, order and values exactly, so the list is a plain
//! vector of fields and case only matters when a field is looked up.

use vstd::prelude::*;
use vstd::slice::slice_to_vec;
use vstd::string::StringSliceAdditionalSpecFns;

verus! {

/// The bytes of a string, as an owned vector; handy for building header
/// names and values from literals.
pub fn bytes_of(s: &str) -> (r: Vec<u8>)
    ensures
        r@ == s.spec_bytes(),
{
    slice_to_vec(s.as_bytes())
}

/// One header field, name and value as raw bytes.
#[derive(Clone, Debug, PartialEq, Eq)]
pub struct HeaderField {
    pub name: Vec<u8>,
    pub value: Vec<u8>,
}

/// The ASCII-lowercase image of one byte.
pub open spec fn spec_lower_byte(b: u8) -> u8 {
    if 65 <= b <= 90 {
        (b + 32) as u8
    } else {
        b
    }
}

/// The ASCII-lowercase image of a byte sequence.
pub open spec fn spec_lower(s: Seq<u8>) -> Seq<u8> {
    s.map_values(|b: u8| spec_lower_byte(b))
}

/// Two header names match when they are equal up to ASCII case.
pub open spec fn spec_name_matches(a: Seq<u8>, b: Seq<u8>) -> bool {
    spec_lower(a) == spec_lower(b)
}

/// The index of the first field whose name matches `name` up to ASCII case.
pub open spec fn spec_find_header(fields: Seq<HeaderField>, name: Seq<u8>) -> Option<int>
    decreases fields.len(),
{
    if fields.len() == 0 {
        None
    } else if spec_name_matches(fields[0].name@, name) {
        Some(0int)
    } else {
        match spec_find_header(fields.skip(1), name) {
            Some(i) => Some(i + 1),
            None => None,
        }
    }
}

/// Compare two byte strings up to ASCII case.
pub fn eq_ignore_ascii_case(a: &[u8], b: &[u8]) -> (r: bool)
    ensures
        r == spec_name_matches(a@, b@),
{
    if a.len() != b.len() {
        assert(spec_lower(a@).len() != spec_lower(b@).len());
        return false;
    }
    let n = a.len();
    let mut i: usize = 0;
    while i < n
        invariant
            n == a@.len() == b@.len(),
            0 <= i <= n,
            forall|j: int| 0 <= j < i ==> spec_lower(a@)[j] == spec_lower(b@)[j],
        decreases n - i,
    {
        let x = a[i];
        let y = b[i];
        let xl = if 65 <= x && x <= 90 { x + 32 } else { x };
        let yl = if 65 <= y && y <= 90 { y + 32 } else { y };
        if xl != yl {
            assert(spec_lower(a@)[i as int] != spec_lower(b@)[i as int]);
            return false;
        }
        i = i + 1;
    }
    assert(spec_lower(a@) =~= spec_lower(b@));
    true
}

/// Find the first field whose name matches `name` up to ASCII case.
pub fn find_header(fields: &Vec<HeaderField>, name: &[u8]) -> (r: Option<usize>)
    ensures
        match r {
            Some(i) => spec_find_header(fields@, name@) == Some(i as int) && i < fields@.len(),
            None => spec_find_header(fields@, name@) is None,
        },
{
    let n = fields.len();
    let mut i: usize = 0;
    while i < n
        invariant
            n == fields@.len(),
            0 <= i <= n,
            forall|j: int| 0 <= j < i ==> !spec_name_matches(fields@[j].name@, name@),
        decreases n - i,
    {
        if eq_ignore_ascii_case(fields[i].name.as_slice(), name) {
            proof {
                lemma_find_header_at(fields@, name@, i as int);
            }
            return Some(i);
        }
        i = i + 1;
    }
    proof {
        lemma_find_header_none(fields@, name@);
    }
    None
}

/// If every field before `i` fails to match and field `i` matches, the first
/// match is at `i`.
proof fn lemma_find_header_at(fields: Seq<HeaderField>, name: Seq<u8>, i: int)
    requires
        0 <= i < fields.len(),
        forall|j: int| 0 <= j < i ==> !spec_name_matches(fields[j].name@, name),
        spec_name_matches(fields[i].name@, name),
    ensures
        spec_find_header(fields, name) == Some(i),
    decreases i,
{
    if i == 0 {
    } else {
        lemma_find_header_at(fields.skip(1), name, i - 1);
    }
}

/// If no field at all matches, there is no first match.
proof fn lemma_find_header_none(fields: Seq<HeaderField>, name: Seq<u8>)
    requires
        forall|j: int| 0 <= j < fields.len() ==> !spec_name_matches(fields[j].name@, name),
    ensures
        spec_find_header(fields, name) is None,
    decreases fields.len(),
{
    if fields.len() > 0 {
        assert(forall|j: int| 0 <= j < fields.skip(1).len() ==> !spec_name_matches(
            fields.skip(1)[j].name@,
            name,
        ));
        lemma_find_header_none(fields.skip(1), name);
    }
}

} // verus!
