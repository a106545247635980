//! Small verified string helpers.
use vstd::prelude::*;

verus! {

/// Whether two strings hold the same characters.
pub fn str_eq(a: &str, b: &str) -> (r: bool)
    ensures
        r == (a@ == b@),
{
    let n = a.unicode_len();
    if n != b.unicode_len() {
        return false;
    }
    let mut i: usize = 0;
    while i < n
        invariant
            n == a@.len() == b@.len(),
            i <= n,
            forall|j: int| 0 <= j < i ==> a@[j] == b@[j],
        decreases n - i,
    {
        if a.get_char(i) != b.get_char(i) {
            return false;
        }
        i = i + 1;
    }
    assert(a@ =~= b@);
    true
}

/// `s` with every trailing underscore removed.
pub open spec fn trim_trailing_underscores(s: Seq<char>) -> Seq<char>
    decreases s.len(),
{
    if s.len() > 0 && s.last() == '_' {
        trim_trailing_underscores(s.drop_last())
    } else {
        s
    }
}

/// The concatenation of `a` and `b`.
pub fn concat(a: &str, b: &str) -> (r: String)
    ensures
        r@ == a@ + b@,
{
    let mut s = a.to_owned();
    s.append(b);
    s
}

/// `s` with every trailing underscore removed.
pub fn trim_end_underscores(s: &str) -> (r: String)
    ensures
        r@ == trim_trailing_underscores(s@),
{
    let n = s.unicode_len();
    let mut end: usize = n;
    assert(s@.subrange(0, n as int) =~= s@);
    while end > 0 && s.get_char(end - 1) == '_'
        invariant
            n == s@.len(),
            end <= n,
            trim_trailing_underscores(s@.subrange(0, end as int)) == trim_trailing_underscores(s@),
        decreases end,
    {
        assert(s@.subrange(0, end as int).drop_last() =~= s@.subrange(0, end as int - 1));
        end = end - 1;
    }
    let r = s.substring_char(0, end);
    r.to_owned()
}

} // verus!
