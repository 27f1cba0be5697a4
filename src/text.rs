//! Character-level helpers on request paths.
use vstd::prelude::*;
use vstd::std_specs::iter::IteratorSpec;

verus! {

/// The characters of `s`, in order.
pub fn chars_of(s: &str) -> (r: Vec<char>)
    ensures
        r@ == s@,
{
    let mut r: Vec<char> = Vec::new();
    for c in it: s.chars()
        invariant
            r@ == it.seq().take(it.index() as int),
    {
        r.push(c);
    }
    r
}

/// Whether `path` holds a segment `..`: two dots bounded on each side by
/// a `/` or by an end of the path.
pub open spec fn has_parent_segment(path: Seq<char>) -> bool {
    exists|i: int| #[trigger] is_parent_segment_at(path, i)
}

/// Whether a segment `..` starts at position `i` of `path`.
pub open spec fn is_parent_segment_at(path: Seq<char>, i: int) -> bool {
    &&& 0 <= i
    &&& i + 1 < path.len()
    &&& path[i] == '.'
    &&& path[i + 1] == '.'
    &&& (i == 0 || path[i - 1] == '/')
    &&& (i + 2 == path.len() || path[i + 2] == '/')
}

/// Whether the two character sequences are equal.
pub fn same_chars(a: &Vec<char>, b: &Vec<char>) -> (r: bool)
    ensures
        r == (a@ == b@),
{
    if a.len() != b.len() {
        return false;
    }
    let mut i: usize = 0;
    while i < a.len()
        invariant
            a.len() == b.len(),
            i <= a.len(),
            forall|j: int| 0 <= j < i ==> a@[j] == b@[j],
        decreases a.len() - i,
    {
        if a[i] != b[i] {
            return false;
        }
        i = i + 1;
    }
    assert(a@ =~= b@);
    true
}

/// Whether `path` holds a segment `..`.
pub fn contains_parent_segment(path: &Vec<char>) -> (r: bool)
    ensures
        r == has_parent_segment(path@),
{
    let n = path.len();
    let mut i: usize = 0;
    while n > 0 && i < n - 1
        invariant
            n == path@.len(),
            i <= n,
            forall|j: int| 0 <= j < i ==> !is_parent_segment_at(path@, j),
        decreases n - i,
    {
        if path[i] == '.' && path[i + 1] == '.' && (i == 0 || path[i - 1] == '/') && (i + 2 == n
            || path[i + 2] == '/') {
            assert(is_parent_segment_at(path@, i as int));
            return true;
        }
        i = i + 1;
    }
    assert forall|j: int| !is_parent_segment_at(path@, j) by {
        if 0 <= j && j >= i as int {
            assert(!(j + 1 < n as int));
        }
    }
    false
}

} // verus!
