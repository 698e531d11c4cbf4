//! Byte-level text helpers: trimming, splitting, joining, substring search
//! and whitespace tokenization. The hosts-file rewriting and the
//! public-address parsing are specified and proved over these.

use vstd::prelude::*;
use vstd::slice::{slice_subrange, slice_to_vec};

verus! {

/// ASCII whitespace: the separator characters of plain-ASCII text.
pub open spec fn is_space(b: u8) -> bool {
    b == 32 || b == 9 || b == 10 || b == 13 || b == 11 || b == 12
}

fn byte_is_space(b: u8) -> (r: bool)
    ensures
        r == is_space(b),
{
    b == 32 || b == 9 || b == 10 || b == 13 || b == 11 || b == 12
}

/// `s` with leading ASCII whitespace removed.
pub open spec fn trim_start_spec(s: Seq<u8>) -> Seq<u8>
    decreases s.len(),
{
    if s.len() > 0 && is_space(s[0]) {
        trim_start_spec(s.drop_first())
    } else {
        s
    }
}

/// `s` with trailing ASCII whitespace removed.
pub open spec fn trim_end_spec(s: Seq<u8>) -> Seq<u8>
    decreases s.len(),
{
    if s.len() > 0 && is_space(s.last()) {
        trim_end_spec(s.drop_last())
    } else {
        s
    }
}

/// `s` with ASCII whitespace removed from both ends.
pub open spec fn trim_spec(s: Seq<u8>) -> Seq<u8> {
    trim_end_spec(trim_start_spec(s))
}

proof fn lemma_trim_start_at(s: Seq<u8>, i: int)
    requires
        0 <= i <= s.len(),
        forall|k: int| 0 <= k < i ==> is_space(s[k]),
        i < s.len() ==> !is_space(s[i]),
    ensures
        trim_start_spec(s) == s.subrange(i, s.len() as int),
    decreases i,
{
    if i == 0 {
        assert(s.subrange(0, s.len() as int) =~= s);
    } else {
        let t = s.drop_first();
        lemma_trim_start_at(t, i - 1);
        assert(t.subrange(i - 1, t.len() as int) =~= s.subrange(i, s.len() as int));
    }
}

proof fn lemma_trim_end_at(s: Seq<u8>, j: int)
    requires
        0 <= j <= s.len(),
        forall|k: int| j <= k < s.len() ==> is_space(s[k]),
        j > 0 ==> !is_space(s[j - 1]),
    ensures
        trim_end_spec(s) == s.subrange(0, j),
    decreases s.len() - j,
{
    if j == s.len() {
        assert(s.subrange(0, j) =~= s);
        if s.len() > 0 {
            assert(!is_space(s.last()));
        }
    } else {
        let t = s.drop_last();
        lemma_trim_end_at(t, j);
        assert(t.subrange(0, j) =~= s.subrange(0, j));
    }
}

/// Removes ASCII whitespace from both ends of a byte slice.
pub fn trim_bytes<'a>(s: &'a [u8]) -> (r: &'a [u8])
    ensures
        r@ == trim_spec(s@),
{
    let mut start: usize = 0;
    while start < s.len() && byte_is_space(s[start])
        invariant
            start <= s@.len(),
            forall|k: int| 0 <= k < start ==> is_space(s@[k]),
        decreases s@.len() - start,
    {
        start = start + 1;
    }
    let mut end: usize = s.len();
    while end > start && byte_is_space(s[end - 1])
        invariant
            start <= end <= s@.len(),
            forall|k: int| end <= k < s@.len() ==> is_space(s@[k]),
        decreases end,
    {
        end = end - 1;
    }
    proof {
        lemma_trim_start_at(s@, start as int);
        let t = s@.subrange(start as int, s@.len() as int);
        assert(forall|k: int|
            end - start <= k < t.len() ==> is_space(#[trigger] t[k]));
        lemma_trim_end_at(t, end - start);
        assert(t.subrange(0, end - start) =~= s@.subrange(start as int, end as int));
    }
    slice_subrange(s, start, end)
}

/// The segments of `s` between occurrences of the separator `sep`.
/// There is always at least one segment; a separator at the end yields a
/// final empty segment.
pub open spec fn split_on(s: Seq<u8>, sep: u8) -> Seq<Seq<u8>>
    decreases s.len(),
{
    if s.len() == 0 {
        seq![Seq::<u8>::empty()]
    } else if s.last() == sep {
        split_on(s.drop_last(), sep).push(Seq::<u8>::empty())
    } else {
        let prev = split_on(s.drop_last(), sep);
        prev.update(prev.len() - 1, prev.last().push(s.last()))
    }
}

pub proof fn lemma_split_on_len(s: Seq<u8>, sep: u8)
    ensures
        split_on(s, sep).len() >= 1,
    decreases s.len(),
{
    if s.len() > 0 {
        lemma_split_on_len(s.drop_last(), sep);
    }
}

/// Splits a byte slice at every occurrence of `sep`.
pub fn split_bytes(s: &[u8], sep: u8) -> (r: Vec<Vec<u8>>)
    ensures
        r.deep_view() == split_on(s@, sep),
{
    let mut parts: Vec<Vec<u8>> = Vec::new();
    let mut cur: Vec<u8> = Vec::new();
    let mut i: usize = 0;
    while i < s.len()
        invariant
            i <= s@.len(),
            parts.deep_view().push(cur@) == split_on(s@.take(i as int), sep),
        decreases s@.len() - i,
    {
        let ghost pre = s@.take(i as int);
        let ghost prev = split_on(pre, sep);
        proof {
            assert(s@.take(i + 1).drop_last() =~= pre);
            assert(s@.take(i + 1).last() == s@[i as int]);
            lemma_split_on_len(pre, sep);
        }
        if s[i] == sep {
            parts.push(cur);
            cur = Vec::new();
            proof {
                assert(parts.deep_view() =~~= prev);
                assert(parts.deep_view().push(cur@) =~~= split_on(s@.take(i + 1), sep));
            }
        } else {
            let b = s[i];
            cur.push(b);
            proof {
                let updated = prev.update(prev.len() - 1, prev.last().push(b));
                assert(split_on(s@.take(i + 1), sep) == updated);
                assert(parts.deep_view().push(cur@) =~~= updated);
            }
        }
        i = i + 1;
    }
    proof {
        assert(s@.take(s@.len() as int) =~= s@);
    }
    parts.push(cur);
    proof {
        assert(parts.deep_view() =~~= split_on(s@, sep));
    }
    parts
}

/// The segments joined back together with `sep` between consecutive
/// segments.
pub open spec fn join_with(ls: Seq<Seq<u8>>, sep: u8) -> Seq<u8>
    decreases ls.len(),
{
    if ls.len() == 0 {
        Seq::<u8>::empty()
    } else if ls.len() == 1 {
        ls[0]
    } else {
        join_with(ls.drop_last(), sep) + seq![sep] + ls.last()
    }
}

/// Joins byte segments with `sep` between consecutive segments.
pub fn join_bytes(parts: &Vec<Vec<u8>>, sep: u8) -> (r: Vec<u8>)
    ensures
        r@ == join_with(parts.deep_view(), sep),
{
    let mut out: Vec<u8> = Vec::new();
    let mut j: usize = 0;
    while j < parts.len()
        invariant
            j <= parts@.len(),
            out@ == join_with(parts.deep_view().take(j as int), sep),
        decreases parts@.len() - j,
    {
        if j > 0 {
            out.push(sep);
        }
        let ghost base = out@;
        let p: &Vec<u8> = &parts[j];
        let mut k: usize = 0;
        while k < p.len()
            invariant
                k <= p@.len(),
                out@ == base + p@.take(k as int),
            decreases p@.len() - k,
        {
            let b = p[k];
            out.push(b);
            proof {
                assert(base + p@.take(k + 1) =~= (base + p@.take(k as int)).push(b));
            }
            k = k + 1;
        }
        proof {
            let dv = parts.deep_view();
            assert(p@.take(p@.len() as int) =~= p@);
            assert(dv[j as int] == p@);
            assert(dv.take(j + 1).drop_last() =~= dv.take(j as int));
            assert(dv.take(j + 1).last() == p@);
            assert(out@ =~= join_with(dv.take(j + 1), sep));
        }
        j = j + 1;
    }
    proof {
        assert(parts.deep_view().take(parts@.len() as int) =~= parts.deep_view());
    }
    out
}

/// The needle `n` occurs in `h` starting at position `i`.
pub open spec fn contains_at(h: Seq<u8>, n: Seq<u8>, i: int) -> bool {
    0 <= i && i + n.len() <= h.len() && h.subrange(i, i + n.len()) == n
}

/// The needle `n` occurs somewhere in `h`.
pub open spec fn contains_seq(h: Seq<u8>, n: Seq<u8>) -> bool {
    exists|i: int| contains_at(h, n, i)
}

fn match_at(h: &[u8], n: &[u8], i: usize) -> (r: bool)
    requires
        i + n@.len() <= h@.len(),
    ensures
        r == contains_at(h@, n@, i as int),
{
    let hlen: usize = h.len();
    let nlen: usize = n.len();
    let mut k: usize = 0;
    while k < nlen
        invariant
            k <= n@.len(),
            nlen == n@.len(),
            hlen == h@.len(),
            i + n@.len() <= h@.len(),
            forall|m: int| 0 <= m < k ==> h@[i + m] == n@[m],
        decreases n@.len() - k,
    {
        if h[i + k] != n[k] {
            proof {
                let sub = h@.subrange(i as int, i + n@.len());
                assert(sub[k as int] == h@[i + k]);
                assert(sub != n@);
            }
            return false;
        }
        k = k + 1;
    }
    proof {
        assert(h@.subrange(i as int, i + n@.len()) =~= n@);
    }
    true
}

/// Reports whether the byte sequence `n` occurs anywhere in `h`.
pub fn contains_bytes(h: &[u8], n: &[u8]) -> (r: bool)
    ensures
        r == contains_seq(h@, n@),
{
    if n.len() > h.len() {
        proof {
            assert(forall|i: int| !contains_at(h@, n@, i));
        }
        return false;
    }
    let bound: usize = h.len() - n.len();
    let mut i: usize = 0;
    while i <= bound
        invariant
            n@.len() <= h@.len(),
            bound == h@.len() - n@.len(),
            i <= bound + 1,
            forall|m: int| 0 <= m < i ==> !contains_at(h@, n@, m),
        decreases bound + 1 - i,
    {
        if match_at(h, n, i) {
            return true;
        }
        if i == bound {
            proof {
                assert(forall|m: int| !contains_at(h@, n@, m));
            }
            return false;
        }
        i = i + 1;
    }
    proof {
        assert(forall|m: int| !contains_at(h@, n@, m));
    }
    false
}

/// Reports whether two byte slices hold the same bytes.
pub fn bytes_eq(a: &[u8], b: &[u8]) -> (r: bool)
    ensures
        r == (a@ == b@),
{
    if a.len() != b.len() {
        return false;
    }
    let mut i: usize = 0;
    while i < a.len()
        invariant
            a@.len() == b@.len(),
            i <= a@.len(),
            forall|k: int| 0 <= k < i ==> a@[k] == b@[k],
        decreases a@.len() - i,
    {
        if a[i] != b[i] {
            return false;
        }
        i = i + 1;
    }
    proof {
        assert(a@ =~= b@);
    }
    true
}

/// The position of the first occurrence of `b` in `s`, if any.
pub open spec fn find_first(s: Seq<u8>, b: u8) -> Option<int>
    decreases s.len(),
{
    if s.len() == 0 {
        None
    } else if s[0] == b {
        Some(0int)
    } else {
        match find_first(s.drop_first(), b) {
            Some(i) => Some(i + 1),
            None => None,
        }
    }
}

proof fn lemma_find_first_at(s: Seq<u8>, b: u8, i: int)
    requires
        0 <= i <= s.len(),
        forall|k: int| 0 <= k < i ==> s[k] != b,
        i < s.len() ==> s[i] == b,
    ensures
        find_first(s, b) == if i < s.len() {
            Some(i)
        } else {
            None::<int>
        },
    decreases i,
{
    if i == 0 {
    } else {
        let t = s.drop_first();
        lemma_find_first_at(t, b, i - 1);
    }
}

/// Finds the first occurrence of `b` in `s`.
pub fn find_byte(s: &[u8], b: u8) -> (r: Option<usize>)
    ensures
        match r {
            Some(i) => i < s@.len() && find_first(s@, b) == Some(i as int),
            None => find_first(s@, b) == None::<int>,
        },
{
    let mut i: usize = 0;
    while i < s.len()
        invariant
            i <= s@.len(),
            forall|k: int| 0 <= k < i ==> s@[k] != b,
        decreases s@.len() - i,
    {
        if s[i] == b {
            proof {
                lemma_find_first_at(s@, b, i as int);
            }
            return Some(i);
        }
        i = i + 1;
    }
    proof {
        lemma_find_first_at(s@, b, s@.len() as int);
    }
    None
}

/// Copies a sub-slice out as a fresh vector.
pub fn subrange_to_vec(s: &[u8], from: usize, to: usize) -> (r: Vec<u8>)
    requires
        from <= to <= s@.len(),
    ensures
        r@ == s@.subrange(from as int, to as int),
{
    slice_to_vec(slice_subrange(s, from, to))
}

/// The segments of `s` between runs of ASCII whitespace, with empty
/// segments kept (one per separator character).
pub open spec fn split_spaces(s: Seq<u8>) -> Seq<Seq<u8>>
    decreases s.len(),
{
    if s.len() == 0 {
        seq![Seq::<u8>::empty()]
    } else if is_space(s.last()) {
        split_spaces(s.drop_last()).push(Seq::<u8>::empty())
    } else {
        let prev = split_spaces(s.drop_last());
        prev.update(prev.len() - 1, prev.last().push(s.last()))
    }
}

pub proof fn lemma_split_spaces_len(s: Seq<u8>)
    ensures
        split_spaces(s).len() >= 1,
    decreases s.len(),
{
    if s.len() > 0 {
        lemma_split_spaces_len(s.drop_last());
    }
}

/// The whitespace-separated tokens of `s`, in order.
pub open spec fn tokens_of(s: Seq<u8>) -> Seq<Seq<u8>> {
    split_spaces(s).filter(|t: Seq<u8>| t.len() > 0)
}

pub proof fn lemma_filter_one(ls: Seq<Seq<u8>>, pred: spec_fn(Seq<u8>) -> bool)
    requires
        ls.len() >= 1,
    ensures
        ls.filter(pred) == if pred(ls.last()) {
            ls.drop_last().filter(pred).push(ls.last())
        } else {
            ls.drop_last().filter(pred)
        },
{
    reveal(Seq::filter);
}

/// Splits a byte slice into its whitespace-separated tokens.
pub fn tokens_bytes(s: &[u8]) -> (r: Vec<Vec<u8>>)
    ensures
        r.deep_view() == tokens_of(s@),
{
    let ghost pred = |t: Seq<u8>| t.len() > 0;
    let mut parts: Vec<Vec<u8>> = Vec::new();
    let mut cur: Vec<u8> = Vec::new();
    let mut i: usize = 0;
    while i < s.len()
        invariant
            i <= s@.len(),
            pred == (|t: Seq<u8>| t.len() > 0),
            parts.deep_view() == split_spaces(s@.take(i as int)).drop_last().filter(pred),
            cur@ == split_spaces(s@.take(i as int)).last(),
        decreases s@.len() - i,
    {
        let ghost pre = s@.take(i as int);
        let ghost prev = split_spaces(pre);
        proof {
            assert(s@.take(i + 1).drop_last() =~= pre);
            assert(s@.take(i + 1).last() == s@[i as int]);
            lemma_split_spaces_len(pre);
            assert(prev =~~= prev.drop_last().push(prev.last()));
        }
        if byte_is_space(s[i]) {
            proof {
                lemma_filter_one(prev, pred);
                assert(split_spaces(s@.take(i + 1)).drop_last() =~~= prev);
            }
            if cur.len() > 0 {
                parts.push(cur);
                cur = Vec::new();
                proof {
                    assert(parts.deep_view() =~~= prev.filter(pred));
                }
            } else {
                proof {
                    assert(parts.deep_view() =~~= prev.filter(pred));
                }
            }
        } else {
            let b = s[i];
            cur.push(b);
            proof {
                let updated = prev.update(prev.len() - 1, prev.last().push(b));
                assert(split_spaces(s@.take(i + 1)) == updated);
                assert(updated.drop_last() =~~= prev.drop_last());
                assert(updated.last() == cur@);
            }
        }
        i = i + 1;
    }
    let ghost whole = split_spaces(s@);
    proof {
        assert(s@.take(s@.len() as int) =~= s@);
        lemma_split_spaces_len(s@);
        assert(whole =~~= whole.drop_last().push(whole.last()));
        lemma_filter_one(whole, pred);
    }
    if cur.len() > 0 {
        parts.push(cur);
        proof {
            assert(parts.deep_view() =~~= tokens_of(s@));
        }
    } else {
        proof {
            assert(parts.deep_view() =~~= tokens_of(s@));
        }
    }
    parts
}

} // verus!
