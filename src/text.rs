//! Character-level helpers over `str`, with the spec functions that describe them.
use vstd::prelude::*;

verus! {

/// The index of the first `c` in `s`, or the length of `s` when `c` does not occur.
pub open spec fn first_index_of(s: Seq<char>, c: char) -> nat
    decreases s.len(),
{
    if s.len() == 0 {
        0
    } else if s[0] == c {
        0
    } else {
        1 + first_index_of(s.drop_first(), c)
    }
}

/// `p` is a prefix of `s`.
pub open spec fn has_prefix(s: Seq<char>, p: Seq<char>) -> bool {
    p.len() <= s.len() && s.subrange(0, p.len() as int) == p
}

/// `p` is a suffix of `s`.
pub open spec fn has_suffix(s: Seq<char>, p: Seq<char>) -> bool {
    p.len() <= s.len() && s.subrange(s.len() - p.len(), s.len() as int) == p
}

/// `s` with every leading repetition of `p` removed.
pub open spec fn trim_prefix_all(s: Seq<char>, p: Seq<char>) -> Seq<char>
    decreases s.len(),
{
    if p.len() > 0 && has_prefix(s, p) {
        trim_prefix_all(s.subrange(p.len() as int, s.len() as int), p)
    } else {
        s
    }
}

/// `s` with every trailing repetition of `p` removed.
pub open spec fn trim_suffix_all(s: Seq<char>, p: Seq<char>) -> Seq<char>
    decreases s.len(),
{
    if p.len() > 0 && has_suffix(s, p) {
        trim_suffix_all(s.subrange(0, s.len() - p.len()), p)
    } else {
        s
    }
}

pub proof fn lemma_first_index_of(s: Seq<char>, c: char, i: int)
    requires
        0 <= i <= s.len(),
        forall|j: int| 0 <= j < i ==> s[j] != c,
        i == s.len() || s[i] == c,
    ensures
        first_index_of(s, c) == i,
    decreases i,
{
    if i > 0 {
        assert(s[0] != c);
        let t = s.drop_first();
        assert forall|j: int| 0 <= j < i - 1 implies t[j] != c by {
            assert(t[j] == s[j + 1]);
        }
        lemma_first_index_of(t, c, i - 1);
    }
}

pub proof fn lemma_first_index_of_bound(s: Seq<char>, c: char)
    ensures
        first_index_of(s, c) <= s.len(),
        first_index_of(s, c) < s.len() ==> s[first_index_of(s, c) as int] == c,
    decreases s.len(),
{
    if s.len() > 0 && s[0] != c {
        lemma_first_index_of_bound(s.drop_first(), c);
    }
}

/// The characters of `s`, one by one.
pub fn chars_of(s: &str) -> (r: Vec<char>)
    ensures
        r@ == s@,
{
    let n = s.unicode_len();
    let mut r: Vec<char> = Vec::new();
    let mut i: usize = 0;
    while i < n
        invariant
            n == s@.len(),
            i <= n,
            r@ == s@.subrange(0, i as int),
        decreases n - i,
    {
        r.push(s.get_char(i));
        i = i + 1;
        assert(r@ =~= s@.subrange(0, i as int));
    }
    assert(r@ =~= s@);
    r
}

/// The position of the first `c` in `s[from..to]`, counted from the start of `s`;
/// `to` when there is none.
pub fn find_in(s: &Vec<char>, c: char, from: usize, to: usize) -> (r: usize)
    requires
        from <= to <= s@.len(),
    ensures
        r == from + first_index_of(s@.subrange(from as int, to as int), c),
        from <= r <= to,
{
    let ghost seg = s@.subrange(from as int, to as int);
    let mut i: usize = from;
    while i < to
        invariant
            from <= i <= to <= s@.len(),
            seg == s@.subrange(from as int, to as int),
            forall|j: int| from <= j < i ==> s@[j] != c,
        decreases to - i,
    {
        if s[i] == c {
            proof {
                lemma_first_index_of(seg, c, i - from);
            }
            return i;
        }
        i = i + 1;
    }
    proof {
        lemma_first_index_of(seg, c, to - from);
    }
    to
}

/// Whether `p` occurs in `s` at position `at`.
pub fn occurs_at(s: &Vec<char>, p: &Vec<char>, at: usize) -> (r: bool)
    ensures
        r == (at + p@.len() <= s@.len() && s@.subrange(at as int, at + p@.len()) == p@),
{
    if p.len() > s.len() || at > s.len() - p.len() {
        return false;
    }
    let sl = s.len();
    let mut i: usize = 0;
    while i < p.len()
        invariant
            sl == s@.len(),
            at + p@.len() <= s@.len(),
            i <= p@.len(),
            forall|j: int| 0 <= j < i ==> s@[at + j] == p@[j],
        decreases p@.len() - i,
    {
        if s[at + i] != p[i] {
            assert(s@.subrange(at as int, at + p@.len())[i as int] != p@[i as int]);
            return false;
        }
        i = i + 1;
    }
    assert(s@.subrange(at as int, at + p@.len()) =~= p@);
    true
}

/// Whether `s` begins with `p`.
pub fn starts_with(s: &str, p: &str) -> (r: bool)
    ensures
        r == has_prefix(s@, p@),
{
    occurs_at(&chars_of(s), &chars_of(p), 0)
}

/// Whether `s` ends with `p`.
pub fn ends_with(s: &str, p: &str) -> (r: bool)
    ensures
        r == has_suffix(s@, p@),
{
    let sc = chars_of(s);
    let pc = chars_of(p);
    if pc.len() > sc.len() {
        return false;
    }
    occurs_at(&sc, &pc, sc.len() - pc.len())
}

/// `s[from..to]` as a `String`.
pub fn substring(s: &str, from: usize, to: usize) -> (r: String)
    requires
        from <= to <= s@.len(),
    ensures
        r@ == s@.subrange(from as int, to as int),
{
    s.substring_char(from, to).to_owned()
}

/// Whether two strings hold the same characters.
pub fn same_text(a: &str, b: &str) -> (r: bool)
    ensures
        r == (a@ == b@),
{
    a.to_owned() == b.to_owned()
}

/// `s` with every leading repetition of `p` removed.
pub fn trim_start_matches(s: &str, p: &str) -> (r: String)
    ensures
        r@ == trim_prefix_all(s@, p@),
{
    let sc = chars_of(s);
    let pc = chars_of(p);
    let n = sc.len();
    let mut start: usize = 0;
    assert(s@.subrange(0, n as int) =~= s@);
    if pc.len() > 0 {
        while occurs_at(&sc, &pc, start)
            invariant
                n == sc@.len(),
                start <= n,
                pc@.len() > 0,
                sc@ == s@,
                pc@ == p@,
                trim_prefix_all(s@, p@) == trim_prefix_all(s@.subrange(start as int, n as int), p@),
            decreases n - start,
        {
            let ghost rest = s@.subrange(start as int, n as int);
            assert(rest.subrange(0, p@.len() as int) =~= s@.subrange(start as int, start + p@.len()));
            assert(rest.subrange(p@.len() as int, rest.len() as int) =~= s@.subrange(
                start + p@.len(),
                n as int,
            ));
            start = start + pc.len();
        }
        proof {
            let rest = s@.subrange(start as int, n as int);
            if has_prefix(rest, p@) {
                assert(rest.subrange(0, p@.len() as int) =~= s@.subrange(
                    start as int,
                    start + p@.len(),
                ));
            }
        }
    } else {
        assert(s@.subrange(0, n as int) =~= s@);
    }
    substring(s, start, n)
}

/// `s` with every trailing repetition of `p` removed.
pub fn trim_end_matches(s: &str, p: &str) -> (r: String)
    ensures
        r@ == trim_suffix_all(s@, p@),
{
    let sc = chars_of(s);
    let pc = chars_of(p);
    let n = sc.len();
    let mut end: usize = n;
    assert(s@.subrange(0, n as int) =~= s@);
    if pc.len() > 0 {
        while pc.len() <= end && occurs_at(&sc, &pc, end - pc.len())
            invariant
                n == sc@.len(),
                end <= n,
                pc@.len() > 0,
                sc@ == s@,
                pc@ == p@,
                trim_suffix_all(s@, p@) == trim_suffix_all(s@.subrange(0, end as int), p@),
            decreases end,
        {
            let ghost rest = s@.subrange(0, end as int);
            assert(rest.subrange(rest.len() - p@.len(), rest.len() as int) =~= s@.subrange(
                end - p@.len(),
                end as int,
            ));
            assert(rest.subrange(0, rest.len() - p@.len()) =~= s@.subrange(
                0,
                end - p@.len(),
            ));
            end = end - pc.len();
        }
        proof {
            let rest = s@.subrange(0, end as int);
            if has_suffix(rest, p@) {
                assert(rest.subrange(rest.len() - p@.len(), rest.len() as int) =~= s@.subrange(
                    end - p@.len(),
                    end as int,
                ));
            }
        }
    }
    substring(s, 0, end)
}

} // verus!
