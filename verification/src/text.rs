//! Character-level helpers: reading a string's characters, comparing them, and
//! splitting on `.` the way `str::split('.')` does.

use vstd::prelude::*;

verus! {

/// The segments of `s` between `.` separators, as `str::split('.')` yields them:
/// there is always at least one segment, and empty segments are kept.
pub open spec fn split_dot(s: Seq<char>) -> Seq<Seq<char>>
    decreases s.len(),
{
    if s.len() == 0 {
        seq![Seq::<char>::empty()]
    } else {
        let init = split_dot(s.drop_last());
        if s.last() == '.' {
            init.push(Seq::<char>::empty())
        } else {
            init.update(init.len() - 1, init.last().push(s.last()))
        }
    }
}

/// Views of a vector of character vectors.
pub open spec fn views(v: Seq<Vec<char>>) -> Seq<Seq<char>> {
    Seq::new(v.len(), |i: int| v[i]@)
}

/// Splitting always yields at least one segment.
pub proof fn lemma_split_nonempty(s: Seq<char>)
    ensures
        split_dot(s).len() >= 1,
    decreases s.len(),
{
    if s.len() > 0 {
        lemma_split_nonempty(s.drop_last());
    }
}

/// No segment produced by splitting contains a `.`.
pub proof fn lemma_split_no_dot(s: Seq<char>)
    ensures
        forall|i: int, j: int|
            0 <= i < split_dot(s).len() && 0 <= j < split_dot(s)[i].len() ==> split_dot(s)[i][j]
                != '.',
    decreases s.len(),
{
    lemma_split_nonempty(s);
    if s.len() > 0 {
        lemma_split_no_dot(s.drop_last());
        lemma_split_nonempty(s.drop_last());
        let init = split_dot(s.drop_last());
        if s.last() != '.' {
            let t = split_dot(s);
            assert forall|i: int, j: int| 0 <= i < t.len() && 0 <= j < t[i].len() implies t[i][j]
                != '.' by {
                if i == init.len() - 1 {
                    if j < init.last().len() {
                        assert(t[i][j] == init[i][j]);
                    }
                }
            }
        }
    }
}

/// The characters of `s`.
pub fn chars_of(s: &str) -> (v: Vec<char>)
    ensures
        v@ == s@,
{
    let n = s.unicode_len();
    let mut v: Vec<char> = Vec::new();
    let mut i: usize = 0;
    while i < n
        invariant
            n == s@.len(),
            i <= n,
            v@ == s@.take(i as int),
        decreases n - i,
    {
        let c = s.get_char(i);
        v.push(c);
        i = i + 1;
        assert(v@ =~= s@.take(i as int));
    }
    assert(v@ =~= s@);
    v
}

/// Whether two character sequences are equal.
pub fn chars_eq(a: &[char], b: &[char]) -> (r: bool)
    ensures
        r == (a@ == b@),
{
    if a.len() != b.len() {
        return false;
    }
    let mut i: usize = 0;
    while i < a.len()
        invariant
            a@.len() == b@.len(),
            i <= a@.len(),
            forall|j: int| 0 <= j < i ==> a@[j] == b@[j],
        decreases a@.len() - i,
    {
        if a[i] != b[i] {
            return false;
        }
        i = i + 1;
    }
    assert(a@ =~= b@);
    true
}

/// Whether the characters `a` spell exactly the string `lit`.
pub fn chars_eq_str(a: &[char], lit: &str) -> (r: bool)
    ensures
        r == (a@ == lit@),
{
    let b = chars_of(lit);
    chars_eq(a, b.as_slice())
}

/// Whether two strings hold the same characters.
pub fn str_eq(a: &str, b: &str) -> (r: bool)
    ensures
        r == (a@ == b@),
{
    let x = chars_of(a);
    let y = chars_of(b);
    chars_eq(x.as_slice(), y.as_slice())
}

/// Whether the string `s` is one of `list`.
pub fn str_in_list(s: &str, list: &Vec<String>) -> (r: bool)
    ensures
        r == (exists|i: int| 0 <= i < list@.len() && #[trigger] list@[i]@ == s@),
{
    let mut i: usize = 0;
    while i < list.len()
        invariant
            i <= list@.len(),
            forall|j: int| 0 <= j < i ==> #[trigger] list@[j]@ != s@,
        decreases list@.len() - i,
    {
        if str_eq(list[i].as_str(), s) {
            return true;
        }
        i = i + 1;
    }
    false
}

/// Splits `s` at every `.`, as `str::split('.')` does.
pub fn split_on_dot(s: &[char]) -> (segs: Vec<Vec<char>>)
    ensures
        views(segs@) == split_dot(s@),
{
    let mut segs: Vec<Vec<char>> = Vec::new();
    let mut cur: Vec<char> = Vec::new();
    let mut i: usize = 0;
    assert(s@.take(0) =~= Seq::<char>::empty());
    assert(views(segs@).push(cur@) =~= split_dot(s@.take(0)));
    while i < s.len()
        invariant
            i <= s@.len(),
            views(segs@).push(cur@) == split_dot(s@.take(i as int)),
        decreases s@.len() - i,
    {
        let c = s[i];
        let ghost before = s@.take(i as int);
        assert(s@.take(i as int + 1).drop_last() =~= before);
        assert(s@.take(i as int + 1).last() == c);
        let ghost old_segs = views(segs@);
        let ghost old_cur = cur@;
        if c == '.' {
            let done = cur;
            segs.push(done);
            cur = Vec::new();
            assert(views(segs@) =~= old_segs.push(old_cur));
            assert(views(segs@).push(cur@) =~= old_segs.push(old_cur).push(Seq::<char>::empty()));
        } else {
            cur.push(c);
            assert(views(segs@) =~= old_segs);
            assert(views(segs@).push(cur@) =~= old_segs.push(old_cur).update(
                old_segs.len() as int,
                old_cur.push(c),
            ));
        }
        i = i + 1;
    }
    assert(s@.take(s@.len() as int) =~= s@);
    let ghost pre = views(segs@);
    let ghost last = cur@;
    segs.push(cur);
    assert(views(segs@) =~= pre.push(last));
    segs
}

/// Appends the characters of `s` to `out`.
pub fn push_str_chars(out: &mut Vec<char>, s: &str)
    ensures
        final(out)@ == old(out)@ + s@,
{
    let v = chars_of(s);
    let mut i: usize = 0;
    let ghost start = out@;
    while i < v.len()
        invariant
            i <= v@.len(),
            v@ == s@,
            out@ == start + v@.take(i as int),
        decreases v@.len() - i,
    {
        out.push(v[i]);
        i = i + 1;
        assert(out@ =~= start + v@.take(i as int));
    }
    assert(v@.take(v@.len() as int) =~= v@);
}

/// Whether `p` occurs in `s` as a contiguous run of characters.
pub open spec fn contains_sub(s: Seq<char>, p: Seq<char>) -> bool {
    exists|i: int| 0 <= i && i + p.len() <= s.len() && #[trigger] s.subrange(i, i + p.len()) == p
}

fn occurs_at(s: &[char], p: &[char], i: usize) -> (r: bool)
    requires
        i + p@.len() <= s@.len(),
    ensures
        r == (s@.subrange(i as int, i + p@.len()) == p@),
{
    let n = s.len();
    let mut j: usize = 0;
    while j < p.len()
        invariant
            i + p@.len() <= s@.len(),
            n == s@.len(),
            j <= p@.len(),
            forall|k: int| 0 <= k < j ==> s@[i + k] == p@[k],
        decreases p@.len() - j,
    {
        if s[i + j] != p[j] {
            assert(s@.subrange(i as int, i + p@.len())[j as int] != p@[j as int]);
            return false;
        }
        j = j + 1;
    }
    assert(s@.subrange(i as int, i + p@.len()) =~= p@);
    true
}

/// Whether `needle` occurs in `haystack` (as `str::contains` with a string pattern).
pub fn str_contains(haystack: &str, needle: &str) -> (r: bool)
    ensures
        r == contains_sub(haystack@, needle@),
{
    let s = chars_of(haystack);
    let p = chars_of(needle);
    if p.len() > s.len() {
        return false;
    }
    let last = s.len() - p.len();
    let mut i: usize = 0;
    while i <= last
        invariant_except_break
            i <= last,
        invariant
            last == s@.len() - p@.len(),
            s@ == haystack@,
            p@ == needle@,
            forall|k: int| 0 <= k < i ==> #[trigger] s@.subrange(k, k + p@.len()) != p@,
        ensures
            forall|k: int| 0 <= k <= last ==> #[trigger] s@.subrange(k, k + p@.len()) != p@,
        decreases last + 1 - i,
    {
        if occurs_at(s.as_slice(), p.as_slice(), i) {
            return true;
        }
        if i == last {
            break;
        }
        i = i + 1;
    }
    assert forall|k: int| 0 <= k && k + p@.len() <= s@.len() implies #[trigger] s@.subrange(
        k,
        k + p@.len(),
    ) != p@ by {
        assert(k <= last);
    }
    false
}

/// The uppercase form of `s` under Unicode's case mapping (a character may map to
/// several, so the length can change).
pub uninterp spec fn upper_case(s: Seq<char>) -> Seq<char>;

/// The uppercase form of `s`.
///
/// Trusted: calls `str::to_uppercase`, whose result depends on its argument alone; its
/// contract names that result and claims nothing more.
#[verifier::external_body]
pub(crate) fn to_upper(s: &str) -> (r: String)
    ensures
        r@ == upper_case(s@),
{
    s.to_uppercase()
}

} // verus!
