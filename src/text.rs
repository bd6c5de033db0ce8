use vstd::prelude::*;
use vstd::string::StrSliceExecFns;

verus! {

/// Whether `chunk` is ready to be passed on: it is neither empty nor a
/// single space, and it ends with one of `splitters`.
pub open spec fn ends_with_splitter_spec(splitters: Seq<char>, chunk: Seq<char>) -> bool {
    &&& chunk.len() > 0
    &&& chunk != seq![' ']
    &&& splitters.contains(chunk.last())
}

/// `s` without `prefix` where it starts with it, else `s` itself.
pub open spec fn remove_prefix_spec(s: Seq<char>, prefix: Seq<char>) -> Seq<char> {
    if prefix.is_prefix_of(s) {
        s.subrange(prefix.len() as int, s.len() as int)
    } else {
        s
    }
}

pub fn ends_with_splitter(splitters: &[char], chunk: &str) -> (r: bool)
    ensures
        r == ends_with_splitter_spec(splitters@, chunk@),
{
    let n = chunk.unicode_len();
    if n == 0 {
        return false;
    }
    let last = chunk.get_char(n - 1);
    if n == 1 && last == ' ' {
        assert(chunk@ =~= seq![' ']);
        return false;
    }
    assert(chunk@ != seq![' ']) by {
        if n == 1 {
            assert(chunk@[0] != seq![' '][0]);
        }
    }
    let mut i: usize = 0;
    while i < splitters.len()
        invariant
            i <= splitters@.len(),
            n == chunk@.len(),
            n > 0,
            chunk@ != seq![' '],
            last == chunk@.last(),
            forall|j: int| 0 <= j < i ==> splitters@[j] != last,
        decreases splitters@.len() - i,
    {
        if splitters[i] == last {
            assert(splitters@[i as int] == chunk@.last());
            return true;
        }
        i = i + 1;
    }
    false
}

/// Whether `prefix` is a prefix of `s`.
fn starts_with(s: &str, prefix: &str) -> (r: bool)
    ensures
        r == prefix@.is_prefix_of(s@),
{
    let n = s.unicode_len();
    let m = prefix.unicode_len();
    if m > n {
        return false;
    }
    let mut i: usize = 0;
    while i < m
        invariant
            m <= n,
            n == s@.len(),
            m == prefix@.len(),
            i <= m,
            forall|j: int| 0 <= j < i ==> prefix@[j] == s@[j],
        decreases m - i,
    {
        if prefix.get_char(i) != s.get_char(i) {
            return false;
        }
        i = i + 1;
    }
    true
}

pub fn remove_prefix(s: &str, prefix: &str) -> (r: String)
    ensures
        r@ == remove_prefix_spec(s@, prefix@),
{
    if starts_with(s, prefix) {
        let rest = s.substring_char(prefix.unicode_len(), s.unicode_len());
        rest.to_owned()
    } else {
        s.to_owned()
    }
}

/// Whether `s` ends with `suffix`.
pub fn ends_with(s: &str, suffix: &str) -> (r: bool)
    ensures
        r == (suffix@.len() <= s@.len() && s@.subrange(s@.len() - suffix@.len(), s@.len() as int)
            == suffix@),
{
    let n = s.unicode_len();
    let m = suffix.unicode_len();
    if m > n {
        return false;
    }
    let mut i: usize = 0;
    while i < m
        invariant
            m <= n,
            n == s@.len(),
            m == suffix@.len(),
            i <= m,
            forall|j: int| 0 <= j < i ==> suffix@[j] == s@[n - m + j],
        decreases m - i,
    {
        if suffix.get_char(i) != s.get_char(n - m + i) {
            assert(s@.subrange(n - m, n as int)[i as int] != suffix@[i as int]);
            return false;
        }
        i = i + 1;
    }
    assert(s@.subrange(n - m, n as int) =~= suffix@);
    true
}

/// Whether `a` and `b` hold the same characters.
pub fn str_equal(a: &str, b: &str) -> (r: bool)
    ensures
        r == (a@ == b@),
{
    let n = a.unicode_len();
    if n != b.unicode_len() {
        return false;
    }
    let mut i: usize = 0;
    while i < n
        invariant
            n == a@.len(),
            n == b@.len(),
            i <= n,
            forall|j: int| 0 <= j < i ==> a@[j] == b@[j],
        decreases n - i,
    {
        if a.get_char(i) != b.get_char(i) {
            return false;
        }
        i = i + 1;
    }
    assert(a@ =~= b@);
    true
}

} // verus!
