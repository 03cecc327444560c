//! Stable sorting of chapter lists.
use vstd::prelude::*;
use crate::models::{ChapterDto, ChapterView};

verus! {

/// Lexicographic order of character sequences by code point (the order of
/// `str::cmp`, since UTF-8 preserves it).
pub open spec fn seq_le(x: Seq<char>, y: Seq<char>) -> bool
    decreases x.len(),
{
    if x.len() == 0 {
        true
    } else if y.len() == 0 {
        false
    } else if x[0] != y[0] {
        x[0] < y[0]
    } else {
        seq_le(x.subrange(1, x.len() as int), y.subrange(1, y.len() as int))
    }
}

/// Order of optional texts: `None` first (the order of `Option::cmp`).
pub open spec fn opt_le(x: Option<Seq<char>>, y: Option<Seq<char>>) -> bool {
    match (x, y) {
        (None, _) => true,
        (Some(_), None) => false,
        (Some(a), Some(b)) => seq_le(a, b),
    }
}

/// Which key chapters are sorted by.
#[derive(Clone, Copy)]
pub enum SortKey {
    /// By index.
    Index,
    /// By index, then by scanlation group.
    IndexThenScanlation,
}

/// `a` comes no later than `b` in the order of key `k`.
pub open spec fn key_le(k: SortKey, a: ChapterView, b: ChapterView) -> bool {
    match k {
        SortKey::Index => a.index <= b.index,
        SortKey::IndexThenScanlation => a.index < b.index || (a.index == b.index && opt_le(
            a.scanlation,
            b.scanlation,
        )),
    }
}

/// `a` and `b` are equal for key `k`.
pub open spec fn key_eq(k: SortKey, a: ChapterView, b: ChapterView) -> bool {
    key_le(k, a, b) && key_le(k, b, a)
}

/// The chapters equal to `x` for key `k`.
pub open spec fn same_key(k: SortKey, x: ChapterView) -> spec_fn(ChapterView) -> bool {
    |y: ChapterView| key_eq(k, x, y)
}

/// `s` is in ascending order of key `k`.
pub open spec fn sorted_by(k: SortKey, s: Seq<ChapterView>) -> bool {
    forall|i: int, j: int| 0 <= i < j < s.len() ==> key_le(k, s[i], s[j])
}

/// `out` is `input` sorted stably by key `k`: in ascending order, and the
/// chapters of each key keep their relative order.
pub open spec fn stable_sorted(k: SortKey, input: Seq<ChapterView>, out: Seq<ChapterView>) -> bool {
    sorted_by(k, out) && forall|x: ChapterView|
        #[trigger] out.filter(same_key(k, x)) == input.filter(same_key(k, x))
}

pub proof fn lemma_seq_le_total(x: Seq<char>, y: Seq<char>)
    ensures
        seq_le(x, y) || seq_le(y, x),
        seq_le(x, y) && seq_le(y, x) ==> x == y,
    decreases x.len(),
{
    if x.len() > 0 && y.len() > 0 && x[0] == y[0] {
        lemma_seq_le_total(x.subrange(1, x.len() as int), y.subrange(1, y.len() as int));
        if seq_le(x, y) && seq_le(y, x) {
            assert(x =~= seq![x[0]] + x.subrange(1, x.len() as int));
            assert(y =~= seq![y[0]] + y.subrange(1, y.len() as int));
        }
    }
}

pub proof fn lemma_seq_le_trans(x: Seq<char>, y: Seq<char>, z: Seq<char>)
    requires
        seq_le(x, y),
        seq_le(y, z),
    ensures
        seq_le(x, z),
    decreases x.len(),
{
    if x.len() > 0 && y.len() > 0 && z.len() > 0 && x[0] == y[0] && y[0] == z[0] {
        lemma_seq_le_trans(
            x.subrange(1, x.len() as int),
            y.subrange(1, y.len() as int),
            z.subrange(1, z.len() as int),
        );
    }
}

pub proof fn lemma_key_total(k: SortKey, a: ChapterView, b: ChapterView)
    ensures
        key_le(k, a, b) || key_le(k, b, a),
{
    match (a.scanlation, b.scanlation) {
        (Some(x), Some(y)) => lemma_seq_le_total(x, y),
        _ => {},
    }
}

pub proof fn lemma_key_trans(k: SortKey, a: ChapterView, b: ChapterView, c: ChapterView)
    requires
        key_le(k, a, b),
        key_le(k, b, c),
    ensures
        key_le(k, a, c),
{
    match (a.scanlation, b.scanlation, c.scanlation) {
        (Some(x), Some(y), Some(z)) => {
            if k is IndexThenScanlation && a.index == b.index && b.index == c.index {
                lemma_seq_le_trans(x, y, z);
            }
        },
        _ => {},
    }
}

/// A filter that no element passes is empty.
proof fn lemma_filter_none(s: Seq<ChapterView>, p: spec_fn(ChapterView) -> bool)
    requires
        forall|i: int| 0 <= i < s.len() ==> !p(s[i]),
    ensures
        s.filter(p) == Seq::<ChapterView>::empty(),
    decreases s.len(),
{
    reveal(Seq::filter);
    if s.len() > 0 {
        lemma_filter_none(s.drop_last(), p);
    }
}

/// Inserting `v` after every element not above it keeps the order and the
/// relative order within each key.
proof fn lemma_insert(k: SortKey, r: Seq<ChapterView>, v: ChapterView, p: int, input: Seq<ChapterView>)
    requires
        0 <= p <= r.len(),
        sorted_by(k, r),
        forall|j: int| 0 <= j < p ==> key_le(k, r[j], v),
        p < r.len() ==> !key_le(k, r[p], v),
        forall|x: ChapterView| #[trigger] r.filter(same_key(k, x)) == input.filter(same_key(k, x)),
    ensures
        stable_sorted(k, input.push(v), r.insert(p, v)),
{
    let out = r.insert(p, v);
    assert forall|j: int| p <= j < r.len() implies !key_le(k, r[j], v) by {
        if key_le(k, r[j], v) {
            assert(key_le(k, r[p], r[j]));
            lemma_key_trans(k, r[p], r[j], v);
        }
    }
    assert forall|i: int, j: int| 0 <= i < j < out.len() implies key_le(k, out[i], out[j]) by {
        if i < p && j < p {
        } else if i < p && j == p {
        } else if i < p {
            assert(out[j] == r[j - 1]);
            assert(key_le(k, r[i], r[j - 1]));
        } else if i == p {
            assert(out[j] == r[j - 1]);
            lemma_key_total(k, r[j - 1], v);
        } else {
            assert(out[i] == r[i - 1]);
            assert(out[j] == r[j - 1]);
        }
    }
    assert forall|x: ChapterView| #[trigger] out.filter(same_key(k, x)) == input.push(v).filter(
        same_key(k, x),
    ) by {
        let f = same_key(k, x);
        let a = r.subrange(0, p);
        let b = r.subrange(p, r.len() as int);
        let sv = seq![v];
        assert(r =~= a + b);
        assert(out =~= (a + sv) + b);
        assert(input.push(v) =~= input + sv);
        Seq::filter_distributes_over_add(a, b, f);
        Seq::filter_distributes_over_add(a + sv, b, f);
        Seq::filter_distributes_over_add(a, sv, f);
        Seq::filter_distributes_over_add(input, sv, f);
        assert(sv.filter(f) == if f(v) {
            sv
        } else {
            Seq::<ChapterView>::empty()
        }) by {
            reveal(Seq::filter);
            assert(sv.drop_last() =~= Seq::<ChapterView>::empty());
            assert(Seq::<ChapterView>::empty().filter(f) =~= Seq::<ChapterView>::empty());
            assert(Seq::<ChapterView>::empty().push(v) =~= sv);
        }
        assert(r.filter(f) == input.filter(f));
        if key_eq(k, x, v) {
            assert forall|j: int| 0 <= j < b.len() implies !f(b[j]) by {
                assert(b[j] == r[p + j]);
                if key_eq(k, x, b[j]) {
                    lemma_key_trans(k, b[j], x, v);
                }
            }
            lemma_filter_none(b, f);
            assert(a.filter(f) + b.filter(f) =~= a.filter(f));
            assert(out.filter(f) =~= input.filter(f) + sv);
        } else {
            assert(a.filter(f) + sv.filter(f) =~= a.filter(f));
            assert(input.filter(f) + sv.filter(f) =~= input.filter(f));
        }
    }
}

/// Sorts `v` stably by key `k` (`sort_by_key` / `sort_by`).
pub fn stable_sort(k: SortKey, v: Vec<ChapterDto>) -> (r: Vec<ChapterDto>)
    ensures
        stable_sorted(k, v.deep_view(), r.deep_view()),
{
    let ghost input = v.deep_view();
    let mut src = v;
    let mut r: Vec<ChapterDto> = Vec::new();
    let mut i: usize = 0;
    let n = src.len();
    proof {
        reveal(Seq::filter);
        assert forall|x: ChapterView| #[trigger] r.deep_view().filter(same_key(k, x))
            == input.take(0).filter(same_key(k, x)) by {
            assert(r.deep_view() =~= Seq::<ChapterView>::empty());
            assert(input.take(0) =~= Seq::<ChapterView>::empty());
        }
    }
    // Elements are taken from the back of `src` after reversing it.
    let mut rev: Vec<ChapterDto> = Vec::new();
    while src.len() > 0
        invariant
            src.deep_view() == input.take(src.len() as int),
            input.len() == n,
            rev.len() + src.len() == n,
            forall|j: int| 0 <= j < rev.len() ==> #[trigger] rev@[j].deep_view() == input[n - 1 - j],
        decreases src.len(),
    {
        let ghost before = src@;
        let ghost len = src.len();
        assert(before[len - 1].deep_view() == src.deep_view()[len - 1]);
        let c = src.pop().unwrap();
        assert(c == before[len - 1]);
        assert forall|j: int| 0 <= j < src.len() implies src.deep_view()[j] == input.take(
            src.len() as int,
        )[j] by {
            assert(src@[j] == before[j]);
        }
        assert(src.deep_view() =~= input.take(src.len() as int));
        let ghost rb = rev@;
        rev.push(c);
        assert forall|j: int| 0 <= j < rev.len() implies #[trigger] rev@[j].deep_view() == input[n
            - 1 - j] by {
            if j < rev.len() - 1 {
                assert(rev@[j] == rb[j]);
                assert(rb[j].deep_view() == input[n - 1 - j]);
            }
        }
    }
    while rev.len() > 0
        invariant
            i + rev.len() == n,
            input.len() == n,
            forall|j: int| 0 <= j < rev.len() ==> #[trigger] rev@[j].deep_view() == input[n - 1 - j],
            sorted_by(k, r.deep_view()),
            forall|x: ChapterView| #[trigger] r.deep_view().filter(same_key(k, x))
                == input.take(i as int).filter(same_key(k, x)),
        decreases rev.len(),
    {
        let ghost before = rev@;
        let ghost len = rev.len();
        let c = rev.pop().unwrap();
        assert(c == before[len - 1]);
        assert(c.deep_view() == input[i as int]);
        assert forall|j: int| 0 <= j < rev.len() implies #[trigger] rev@[j].deep_view() == input[n
            - 1 - j] by {
            assert(rev@[j] == before[j]);
            assert(before[j].deep_view() == input[n - 1 - j]);
        }
        let mut p: usize = 0;
        while p < r.len() && le_exec(k, &r[p], &c)
            invariant
                p <= r.len(),
                forall|j: int| 0 <= j < p ==> key_le(k, r.deep_view()[j], c.deep_view()),
            decreases r.len() - p,
        {
            p += 1;
        }
        let ghost rv = r.deep_view();
        proof {
            lemma_insert(k, rv, c.deep_view(), p as int, input.take(i as int));
            assert(input.take(i as int).push(c.deep_view()) =~= input.take(i + 1));
        }
        r.insert(p, c);
        assert(r.deep_view() =~= rv.insert(p as int, c.deep_view()));
        i += 1;
    }
    assert(input.take(n as int) =~= input);
    r
}

fn seq_le_exec(x: &String, y: &String) -> (b: bool)
    ensures
        b == seq_le(x@, y@),
{
    let xs = crate::text::chars_of(x.as_str());
    let ys = crate::text::chars_of(y.as_str());
    let mut i: usize = 0;
    assert(xs@.subrange(0, xs.len() as int) =~= xs@);
    assert(ys@.subrange(0, ys.len() as int) =~= ys@);
    while i < xs.len() && i < ys.len() && xs[i] == ys[i]
        invariant
            i <= xs.len(),
            i <= ys.len(),
            seq_le(xs@, ys@) == seq_le(
                xs@.subrange(i as int, xs.len() as int),
                ys@.subrange(i as int, ys.len() as int),
            ),
        decreases xs.len() - i,
    {
        proof {
            let a = xs@.subrange(i as int, xs.len() as int);
            let b = ys@.subrange(i as int, ys.len() as int);
            assert(a.subrange(1, a.len() as int) =~= xs@.subrange(i + 1, xs.len() as int));
            assert(b.subrange(1, b.len() as int) =~= ys@.subrange(i + 1, ys.len() as int));
        }
        i += 1;
    }
    if i == xs.len() {
        true
    } else if i == ys.len() {
        false
    } else {
        xs[i] < ys[i]
    }
}

/// `a` comes no later than `b` in the order of key `k`.
fn le_exec(k: SortKey, a: &ChapterDto, b: &ChapterDto) -> (r: bool)
    ensures
        r == key_le(k, a.deep_view(), b.deep_view()),
{
    match k {
        SortKey::Index => a.index <= b.index,
        SortKey::IndexThenScanlation => {
            if a.index < b.index {
                true
            } else if a.index > b.index {
                false
            } else {
                match (&a.scanlation, &b.scanlation) {
                    (None, _) => true,
                    (Some(_), None) => false,
                    (Some(x), Some(y)) => seq_le_exec(x, y),
                }
            }
        },
    }
}

/// Occurrences of `x` are the same in `s` and in its part that satisfies a
/// predicate holding of `x`.
proof fn lemma_count_filter(s: Seq<ChapterView>, p: spec_fn(ChapterView) -> bool, x: ChapterView)
    requires
        p(x),
    ensures
        s.to_multiset().count(x) == s.filter(p).to_multiset().count(x),
    decreases s.len(),
{
    if s.len() > 0 {
        let t = s.drop_last();
        lemma_count_filter(t, p, x);
        assert(s =~= t.push(s.last()));
        t.to_multiset_ensures();
        t.lemma_filter_push(s.last(), p);
        t.filter(p).to_multiset_ensures();
    } else {
        reveal(Seq::filter);
        assert(s.filter(p) =~= s);
    }
}

/// A stable sort is a permutation: the sorted chapters are those of the
/// input, each as often.
pub proof fn law_stable_sorted_permutation(k: SortKey, input: Seq<ChapterView>, out: Seq<ChapterView>)
    requires
        stable_sorted(k, input, out),
    ensures
        out.to_multiset() == input.to_multiset(),
        out.len() == input.len(),
{
    assert forall|x: ChapterView| out.to_multiset().count(x) == input.to_multiset().count(x) by {
        lemma_seq_le_total(
            match x.scanlation {
                Some(s) => s,
                None => Seq::empty(),
            },
            match x.scanlation {
                Some(s) => s,
                None => Seq::empty(),
            },
        );
        assert(key_eq(k, x, x));
        assert(same_key(k, x)(x));
        lemma_count_filter(out, same_key(k, x), x);
        lemma_count_filter(input, same_key(k, x), x);
        assert(out.filter(same_key(k, x)) == input.filter(same_key(k, x)));
    }
    assert(out.to_multiset() =~= input.to_multiset());
    out.to_multiset_ensures();
    input.to_multiset_ensures();
}

} // verus!
