//! Character-level text utilities.
//!
//! The command set reasons about all text as sequences of characters.  This
//! module supplies the executable building blocks for that: reading a string
//! into a character vector, appending text to buffers, trimming whitespace,
//! and prefix tests, each with an exact specification.

use vstd::prelude::*;

verus! {

/// Whether `c` is one of the whitespace characters that trimming removes.
pub open spec fn is_ws(c: char) -> bool {
    c == ' ' || c == '\t' || c == '\n' || c == '\r'
}

/// `s` with leading whitespace removed.
pub open spec fn trim_front(s: Seq<char>) -> Seq<char>
    decreases s.len(),
{
    if s.len() > 0 && is_ws(s[0]) {
        trim_front(s.drop_first())
    } else {
        s
    }
}

/// `s` with trailing whitespace removed.
pub open spec fn trim_back(s: Seq<char>) -> Seq<char>
    decreases s.len(),
{
    if s.len() > 0 && is_ws(s[s.len() - 1]) {
        trim_back(s.drop_last())
    } else {
        s
    }
}

/// `s` with leading and trailing whitespace removed.
pub open spec fn trim_spec(s: Seq<char>) -> Seq<char> {
    trim_back(trim_front(s))
}

/// Whether `s` begins with `p`.
pub open spec fn starts_with_spec(s: Seq<char>, p: Seq<char>) -> bool {
    s.len() >= p.len() && s.subrange(0, p.len() as int) == p
}

/// The characters of `s`, one by one.
pub fn string_chars(s: &str) -> (r: Vec<char>)
    ensures
        r@ == s@,
{
    let n = s.unicode_len();
    let mut r: Vec<char> = Vec::new();
    let mut i: usize = 0;
    while i < n
        invariant
            n == s@.len(),
            i <= n,
            r@ == s@.subrange(0, i as int),
        decreases n - i,
    {
        r.push(s.get_char(i));
        assert(r@ =~= s@.subrange(0, i + 1 as int));
        i = i + 1;
    }
    assert(r@ =~= s@);
    r
}

/// Builds the `String` holding exactly the characters of `v`.
///
/// Relies on `Iterator::collect` for `String`: the collected string consists
/// of the iterated characters in order.
#[verifier::external_body]
pub fn chars_to_string(v: &Vec<char>) -> (r: String)
    ensures
        r@ == v@,
{
    v.iter().collect()
}

/// Appends every character of `lit` to `out`.
pub fn push_str_chars(out: &mut Vec<char>, lit: &str)
    ensures
        final(out)@ == old(out)@ + lit@,
{
    let n = lit.unicode_len();
    let mut i: usize = 0;
    while i < n
        invariant
            n == lit@.len(),
            i <= n,
            out@ == old(out)@ + lit@.subrange(0, i as int),
        decreases n - i,
    {
        out.push(lit.get_char(i));
        assert(out@ =~= old(out)@ + lit@.subrange(0, i + 1 as int));
        i = i + 1;
    }
    assert(out@ =~= old(out)@ + lit@);
}

/// Appends every character of `v` to `out`.
pub fn push_all(out: &mut Vec<char>, v: &Vec<char>)
    ensures
        final(out)@ == old(out)@ + v@,
{
    let n = v.len();
    let mut i: usize = 0;
    while i < n
        invariant
            n == v@.len(),
            i <= n,
            out@ == old(out)@ + v@.subrange(0, i as int),
        decreases n - i,
    {
        out.push(v[i]);
        assert(out@ =~= old(out)@ + v@.subrange(0, i + 1 as int));
        i = i + 1;
    }
    assert(out@ =~= old(out)@ + v@);
}

/// Whether the characters of `a` and `b` are equal.
pub fn chars_eq(a: &Vec<char>, b: &Vec<char>) -> (r: bool)
    ensures
        r == (a@ == b@),
{
    if a.len() != b.len() {
        assert(a@ != b@);
        return false;
    }
    let n = a.len();
    let mut i: usize = 0;
    while i < n
        invariant
            n == a@.len() == b@.len(),
            i <= n,
            a@.subrange(0, i as int) == b@.subrange(0, i as int),
        decreases n - i,
    {
        if a[i] != b[i] {
            assert(a@[i as int] != b@[i as int]);
            return false;
        }
        assert(a@.subrange(0, i + 1 as int) =~= a@.subrange(0, i as int).push(a@[i as int]));
        assert(b@.subrange(0, i + 1 as int) =~= b@.subrange(0, i as int).push(b@[i as int]));
        i = i + 1;
    }
    assert(a@.subrange(0, n as int) =~= a@);
    assert(b@.subrange(0, n as int) =~= b@);
    true
}

/// Whether `c` is trimmed whitespace, decided executably.
pub fn is_ws_exec(c: char) -> (r: bool)
    ensures
        r == is_ws(c),
{
    c == ' ' || c == '\t' || c == '\n' || c == '\r'
}

/// `trim_front` keeps a suffix: dropping `k` all-whitespace leading
/// characters, with a non-whitespace (or nothing) at position `k`,
/// leaves `s.skip(k)`.
proof fn lemma_trim_front_skip(s: Seq<char>, k: int)
    requires
        0 <= k <= s.len(),
        forall|i: int| 0 <= i < k ==> is_ws(s[i]),
        k == s.len() || !is_ws(s[k]),
    ensures
        trim_front(s) == s.skip(k),
    decreases k,
{
    if k == 0 {
        assert(s.skip(0) =~= s);
    } else {
        assert(is_ws(s[0]));
        assert(trim_front(s) == trim_front(s.drop_first()));
        let t = s.drop_first();
        assert(forall|i: int| 0 <= i < k - 1 ==> is_ws(#[trigger] t[i]));
        lemma_trim_front_skip(t, k - 1);
        assert(t.skip(k - 1) =~= s.skip(k));
    }
}

/// `trim_back` keeps a prefix: dropping all-whitespace trailing characters
/// past position `k`, with a non-whitespace (or nothing) at `k - 1`,
/// leaves `s.take(k)`.
proof fn lemma_trim_back_take(s: Seq<char>, k: int)
    requires
        0 <= k <= s.len(),
        forall|i: int| k <= i < s.len() ==> is_ws(s[i]),
        k == 0 || !is_ws(s[k - 1]),
    ensures
        trim_back(s) == s.take(k),
    decreases s.len() - k,
{
    if k == s.len() {
        assert(s.take(k) =~= s);
    } else {
        assert(is_ws(s[s.len() - 1]));
        assert(trim_back(s) == trim_back(s.drop_last()));
        let t = s.drop_last();
        lemma_trim_back_take(t, k);
        assert(t.take(k) =~= s.take(k));
    }
}

/// A string that neither begins nor ends with whitespace trims to itself.
pub proof fn lemma_trim_noop(s: Seq<char>)
    requires
        s.len() == 0 || (!is_ws(s[0]) && !is_ws(s[s.len() - 1])),
    ensures
        trim_spec(s) == s,
{
    lemma_trim_front_skip(s, 0);
    assert(s.skip(0) =~= s);
    lemma_trim_back_take(s, s.len() as int);
    assert(s.take(s.len() as int) =~= s);
}

/// The characters of `s` with leading and trailing whitespace removed.
pub fn trim_chars(s: &Vec<char>) -> (r: Vec<char>)
    ensures
        r@ == trim_spec(s@),
{
    let n = s.len();
    let mut lo: usize = 0;
    while lo < n && is_ws_exec(s[lo])
        invariant
            n == s@.len(),
            lo <= n,
            forall|i: int| 0 <= i < lo ==> is_ws(s@[i]),
        decreases n - lo,
    {
        lo = lo + 1;
    }
    proof {
        lemma_trim_front_skip(s@, lo as int);
    }
    let mut hi: usize = n;
    while hi > lo && is_ws_exec(s[hi - 1])
        invariant
            n == s@.len(),
            lo <= hi <= n,
            forall|i: int| hi <= i < n ==> is_ws(s@[i]),
        decreases hi,
    {
        hi = hi - 1;
    }
    let ghost f = s@.skip(lo as int);
    proof {
        assert(forall|i: int| hi - lo <= i < f.len() ==> is_ws(#[trigger] f[i]));
        assert(hi > lo ==> !is_ws(f[hi - lo - 1]));
        lemma_trim_back_take(f, hi - lo);
    }
    let mut r: Vec<char> = Vec::new();
    let mut i: usize = lo;
    while i < hi
        invariant
            lo <= i <= hi <= n,
            n == s@.len(),
            r@ == s@.subrange(lo as int, i as int),
        decreases hi - i,
    {
        r.push(s[i]);
        assert(r@ =~= s@.subrange(lo as int, i + 1 as int));
        i = i + 1;
    }
    assert(r@ =~= f.take(hi - lo));
    r
}

/// Whether `s` begins with `p`, character for character.
pub fn chars_start_with(s: &Vec<char>, p: &Vec<char>) -> (r: bool)
    ensures
        r == starts_with_spec(s@, p@),
{
    if s.len() < p.len() {
        return false;
    }
    let n = p.len();
    let mut i: usize = 0;
    while i < n
        invariant
            n == p@.len() <= s@.len(),
            i <= n,
            s@.subrange(0, i as int) == p@.subrange(0, i as int),
        decreases n - i,
    {
        if s[i] != p[i] {
            assert(s@.subrange(0, n as int)[i as int] == s@[i as int]);
            assert(s@.subrange(0, n as int) != p@);
            return false;
        }
        assert(s@.subrange(0, i + 1 as int) =~= s@.subrange(0, i as int).push(s@[i as int]));
        assert(p@.subrange(0, i + 1 as int) =~= p@.subrange(0, i as int).push(p@[i as int]));
        i = i + 1;
    }
    assert(p@.subrange(0, n as int) =~= p@);
    true
}

} // verus!
