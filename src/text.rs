use vstd::prelude::*;

verus! {

/// The first position at or after `k` where `sep` occurs in `s`.
pub open spec fn find_from(s: Seq<char>, sep: Seq<char>, k: int) -> Option<int>
    decreases s.len() - k,
{
    if k < 0 || sep.len() == 0 || k + sep.len() > s.len() {
        None
    } else if s.subrange(k, k + sep.len()) == sep {
        Some(k)
    } else {
        find_from(s, sep, k + 1)
    }
}

pub proof fn lemma_find_from_bounds(s: Seq<char>, sep: Seq<char>, k: int)
    ensures
        match find_from(s, sep, k) {
            Some(i) => k <= i && i + sep.len() <= s.len() && sep.len() > 0
                && s.subrange(i, i + sep.len()) == sep,
            None => true,
        },
    decreases s.len() - k,
{
    if !(k < 0 || sep.len() == 0 || k + sep.len() > s.len()) && s.subrange(k, k + sep.len()) != sep {
        lemma_find_from_bounds(s, sep, k + 1);
    }
}

/// The pieces of `s` from `start` on between the occurrences of `sep`,
/// taken from left to right without overlap, as `str::split` yields them.
pub open spec fn split_from(s: Seq<char>, sep: Seq<char>, start: int) -> Seq<Seq<char>>
    decreases s.len() - start,
    via split_from_decreases
{
    if start < 0 || start > s.len() {
        Seq::empty()
    } else {
        match find_from(s, sep, start) {
            None => seq![s.subrange(start, s.len() as int)],
            Some(i) => seq![s.subrange(start, i)] + split_from(s, sep, i + sep.len()),
        }
    }
}

#[via_fn]
proof fn split_from_decreases(s: Seq<char>, sep: Seq<char>, start: int) {
    lemma_find_from_bounds(s, sep, start);
}

/// The pieces of `s` between the occurrences of `sep`.
pub open spec fn split_on(s: Seq<char>, sep: Seq<char>) -> Seq<Seq<char>> {
    split_from(s, sep, 0)
}

/// The characters of `s`.
pub fn chars_of(s: &str) -> (r: Vec<char>)
    ensures
        r@ == s@,
{
    let n = s.unicode_len();
    let mut r: Vec<char> = Vec::new();
    let mut i: usize = 0;
    while i < n
        invariant
            n == s@.len(),
            i <= n,
            r@ == s@.subrange(0, i as int),
        decreases n - i,
    {
        r.push(s.get_char(i));
        i = i + 1;
        assert(r@ =~= s@.subrange(0, i as int));
    }
    assert(r@ =~= s@);
    r
}

/// Whether `sep` occurs in `s` at `k`.
pub fn matches_at(s: &Vec<char>, sep: &Vec<char>, k: usize) -> (r: bool)
    requires
        k + sep.len() <= s.len(),
    ensures
        r == (s@.subrange(k as int, k + sep.len()) == sep@),
{
    let mut j: usize = 0;
    while j < sep.len()
        invariant
            k + sep.len() <= s.len(),
            j <= sep.len(),
            forall|m: int| 0 <= m < j ==> s@[k + m] == sep@[m],
        decreases sep.len() - j,
    {
        if s[k + j] != sep[j] {
            assert(s@.subrange(k as int, k + sep.len())[j as int] != sep@[j as int]);
            return false;
        }
        j = j + 1;
    }
    assert(s@.subrange(k as int, k + sep.len()) =~= sep@);
    true
}

/// Whether `a` and `b` hold the same characters.
pub fn same_text(a: &str, b: &str) -> (r: bool)
    ensures
        r == (a@ == b@),
{
    let ca = chars_of(a);
    let cb = chars_of(b);
    if ca.len() != cb.len() {
        return false;
    }
    let r = matches_at(&ca, &cb, 0);
    assert(ca@.subrange(0, cb@.len() as int) =~= ca@);
    r
}

/// The pieces of `s` between the occurrences of a non-empty `sep`, as
/// character ranges of `s`.
pub fn split_ranges(s: &Vec<char>, sep: &Vec<char>) -> (r: Vec<(usize, usize)>)
    requires
        sep.len() > 0,
    ensures
        r@.len() == split_on(s@, sep@).len(),
        forall|k: int| 0 <= k < r@.len() ==> (#[trigger] r@[k]).0 <= r@[k].1 && r@[k].1 <= s.len(),
        forall|k: int| 0 <= k < r@.len() ==> s@.subrange(r@[k].0 as int, r@[k].1 as int) == #[trigger] split_on(s@, sep@)[k],
{
    let n = s.len();
    let m = sep.len();
    let mut r: Vec<(usize, usize)> = Vec::new();
    let mut start: usize = 0;
    let mut i: usize = 0;
    loop
        invariant_except_break
            split_on(s@, sep@) =~= r@.map_values(|p: (usize, usize)| s@.subrange(p.0 as int, p.1 as int))
                + split_from(s@, sep@, start as int),
        invariant
            n == s.len(),
            m == sep.len(),
            m > 0,
            start <= i <= n,
            find_from(s@, sep@, start as int) == find_from(s@, sep@, i as int),
            forall|k: int| 0 <= k < r@.len() ==> (#[trigger] r@[k]).0 <= r@[k].1 <= s.len(),
        ensures
            forall|k: int| 0 <= k < r@.len() ==> (#[trigger] r@[k]).0 <= r@[k].1 <= s.len(),
            split_on(s@, sep@) =~= r@.map_values(|p: (usize, usize)| s@.subrange(p.0 as int, p.1 as int)),
        decreases n - i, n - start,
    {
        let ghost before = r@.map_values(|p: (usize, usize)| s@.subrange(p.0 as int, p.1 as int));
        if m > n - i {
            r.push((start, n));
            proof {
                assert(find_from(s@, sep@, i as int) == None::<int>);
                assert(split_from(s@, sep@, start as int) == seq![s@.subrange(start as int, n as int)]);
                assert(r@.map_values(|p: (usize, usize)| s@.subrange(p.0 as int, p.1 as int))
                    =~= before.push(s@.subrange(start as int, n as int)));
                assert(before.push(s@.subrange(start as int, n as int))
                    =~= before + seq![s@.subrange(start as int, n as int)]);
                assert(split_on(s@, sep@) =~= r@.map_values(|p: (usize, usize)| s@.subrange(p.0 as int, p.1 as int)));
            }
            break;
        }
        if matches_at(s, sep, i) {
            r.push((start, i));
            proof {
                assert(find_from(s@, sep@, i as int) == Some(i as int));
                assert(split_from(s@, sep@, start as int) == seq![s@.subrange(start as int, i as int)]
                    + split_from(s@, sep@, (i + m) as int));
                assert(r@.map_values(|p: (usize, usize)| s@.subrange(p.0 as int, p.1 as int))
                    =~= before.push(s@.subrange(start as int, i as int)));
                assert(before.push(s@.subrange(start as int, i as int)) + split_from(s@, sep@, (i + m) as int)
                    =~= before + (seq![s@.subrange(start as int, i as int)] + split_from(s@, sep@, (i + m) as int)));
            }
            start = i + m;
            i = start;
        } else {
            i = i + 1;
        }
    }
    proof {
        assert forall|k: int| 0 <= k < r@.len() implies s@.subrange(r@[k].0 as int, r@[k].1 as int) == #[trigger] split_on(s@, sep@)[k] by {
            assert(split_on(s@, sep@)[k] == r@.map_values(|p: (usize, usize)| s@.subrange(p.0 as int, p.1 as int))[k]);
        }
    }
    r
}

} // verus!
