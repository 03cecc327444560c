//! Character-sequence primitives used by every scraper of the library.
//!
//! Text is handled as `Vec<char>` inside the library; its view is the
//! `Seq<char>` that `String::view` also gives, so the specifications below
//! apply to both.
use vstd::prelude::*;

verus! {

/// Unicode `White_Space` property, the set that `char::is_whitespace` tests.
pub open spec fn is_ws(c: char) -> bool {
    ||| ('\u{9}' <= c && c <= '\u{d}')
    ||| c == ' '
    ||| c == '\u{85}'
    ||| c == '\u{a0}'
    ||| c == '\u{1680}'
    ||| ('\u{2000}' <= c && c <= '\u{200a}')
    ||| c == '\u{2028}'
    ||| c == '\u{2029}'
    ||| c == '\u{202f}'
    ||| c == '\u{205f}'
    ||| c == '\u{3000}'
}

/// ASCII decimal digit.
pub open spec fn is_digit(c: char) -> bool {
    '0' <= c && c <= '9'
}

pub fn char_is_ws(c: char) -> (b: bool)
    ensures
        b == is_ws(c),
{
    ('\u{9}' <= c && c <= '\u{d}') || c == ' ' || c == '\u{85}' || c == '\u{a0}' || c
        == '\u{1680}' || ('\u{2000}' <= c && c <= '\u{200a}') || c == '\u{2028}' || c
        == '\u{2029}' || c == '\u{202f}' || c == '\u{205f}' || c == '\u{3000}'
}

pub fn char_is_digit(c: char) -> (b: bool)
    ensures
        b == is_digit(c),
{
    '0' <= c && c <= '9'
}

// ---------------------------------------------------------------------------
// Conversions between `str`/`String` and `Vec<char>`
// ---------------------------------------------------------------------------
/// The characters of a string slice, in order.
pub fn chars_of(s: &str) -> (v: Vec<char>)
    ensures
        v@ == s@,
{
    let mut v: Vec<char> = Vec::new();
    for c in it: s.chars()
        invariant
            it.seq() == s@,
            v@ == it.seq().take(it.index() as int),
    {
        v.push(c);
        assert(it.seq().take(it.index() + 1 as int) == it.seq().take(it.index() as int).push(c));
    }
    v
}

/// Builds a `String` from its characters (`FromIterator<&char>` for `String`,
/// which the standard library documents as appending each character in turn).
#[verifier::external_body]
pub(crate) fn string_of(v: &Vec<char>) -> (s: String)
    ensures
        s@ == v@,
{
    v.iter().collect::<String>()
}


// ---------------------------------------------------------------------------
// Prefixes, suffixes and searching
// ---------------------------------------------------------------------------
pub open spec fn starts_with<A>(s: Seq<A>, p: Seq<A>) -> bool {
    p.len() <= s.len() && s.subrange(0, p.len() as int) == p
}

pub open spec fn ends_with<A>(s: Seq<A>, p: Seq<A>) -> bool {
    p.len() <= s.len() && s.subrange(s.len() - p.len(), s.len() as int) == p
}

/// `p` occurs in `s` starting at position `i`.
pub open spec fn matches_at<A>(s: Seq<A>, p: Seq<A>, i: int) -> bool {
    0 <= i && i + p.len() <= s.len() && s.subrange(i, i + p.len()) == p
}

/// First position at or after `i` where `p` occurs in `s`.
pub open spec fn find_from<A>(s: Seq<A>, p: Seq<A>, i: int) -> Option<int>
    decreases s.len() + 1 - i,
{
    if i < 0 || i + p.len() > s.len() {
        None
    } else if matches_at(s, p, i) {
        Some(i)
    } else {
        find_from(s, p, i + 1)
    }
}

/// First position where `p` occurs in `s` (`str::find`, counted in characters).
pub open spec fn find<A>(s: Seq<A>, p: Seq<A>) -> Option<int> {
    find_from(s, p, 0)
}

/// `s` contains `p` (`str::contains`).
pub open spec fn contains<A>(s: Seq<A>, p: Seq<A>) -> bool {
    find(s, p) is Some
}

/// `find_from` returns the first match at or after `i`.
pub proof fn lemma_find_from<A>(s: Seq<A>, p: Seq<A>, i: int)
    requires
        0 <= i,
    ensures
        match find_from(s, p, i) {
            Some(j) => i <= j && matches_at(s, p, j) && forall|k: int|
                i <= k < j ==> !matches_at(s, p, k),
            None => forall|k: int| i <= k ==> !matches_at(s, p, k),
        },
    decreases s.len() + 1 - i,
{
    if i + p.len() > s.len() {
    } else if matches_at(s, p, i) {
    } else {
        lemma_find_from(s, p, i + 1);
    }
}

/// Characterisation of `find` by its two defining properties.
pub proof fn lemma_find<A>(s: Seq<A>, p: Seq<A>)
    ensures
        match find(s, p) {
            Some(j) => 0 <= j && matches_at(s, p, j) && forall|k: int|
                0 <= k < j ==> !matches_at(s, p, k),
            None => forall|k: int| !matches_at(s, p, k),
        },
{
    lemma_find_from(s, p, 0);
}

/// If the first `i` positions hold no match, searching from `i` is searching from `0`.
pub proof fn lemma_find_skip<A>(s: Seq<A>, p: Seq<A>, i: int)
    requires
        0 <= i,
        forall|k: int| 0 <= k < i ==> !matches_at(s, p, k),
    ensures
        find(s, p) == find_from(s, p, i),
    decreases i,
{
    if i > 0 {
        lemma_find_skip(s, p, i - 1);
        assert(!matches_at(s, p, i - 1));
        if (i - 1) + p.len() > s.len() {
            lemma_find_from(s, p, i);
            assert(find_from(s, p, i) is None);
        }
    }
}

/// Whether `p` occurs in `s` at position `i` (`i + p.len() <= s.len()`).
pub fn matches_at_exec(s: &Vec<char>, p: &Vec<char>, i: usize) -> (b: bool)
    requires
        i + p.len() <= s.len(),
    ensures
        b == matches_at(s@, p@, i as int),
{
    let mut k: usize = 0;
    while k < p.len()
        invariant
            i + p.len() <= s.len(),
            k <= p.len(),
            forall|j: int| 0 <= j < k ==> s@[i + j] == p@[j],
        decreases p.len() - k,
    {
        if s[i + k] != p[k] {
            assert(s@.subrange(i as int, i + p.len())[k as int] != p@[k as int]);
            return false;
        }
        k += 1;
    }
    assert(s@.subrange(i as int, i + p.len()) =~= p@);
    true
}

/// First position at or after `from` where `p` occurs in `s`.
pub fn find_from_exec(s: &Vec<char>, p: &Vec<char>, from: usize) -> (r: Option<usize>)
    ensures
        match r {
            Some(j) => find_from(s@, p@, from as int) == Some(j as int),
            None => find_from(s@, p@, from as int) is None,
        },
{
    if p.len() > s.len() || from > s.len() - p.len() {
        return None;
    }
    let last = s.len() - p.len();
    let mut i = from;
    while i <= last
        invariant
            last == s.len() - p.len(),
            from <= i,
            p.len() <= s.len(),
            find_from(s@, p@, from as int) == find_from(s@, p@, i as int),
        decreases last + 1 - i,
    {
        if matches_at_exec(s, p, i) {
            return Some(i);
        }
        if i == last {
            assert(find_from(s@, p@, i as int) == find_from(s@, p@, i + 1));
            assert(find_from(s@, p@, i + 1) is None);
            return None;
        }
        i += 1;
    }
    None
}

/// First position where `p` occurs in `s` (`str::find`).
pub fn find_exec(s: &Vec<char>, p: &Vec<char>) -> (r: Option<usize>)
    ensures
        match r {
            Some(j) => find(s@, p@) == Some(j as int),
            None => find(s@, p@) is None,
        },
{
    find_from_exec(s, p, 0)
}

/// `str::starts_with`.
pub fn starts_with_exec(s: &Vec<char>, p: &Vec<char>) -> (b: bool)
    ensures
        b == starts_with(s@, p@),
{
    if p.len() > s.len() {
        return false;
    }
    let b = matches_at_exec(s, p, 0);
    assert(matches_at(s@, p@, 0) == starts_with(s@, p@));
    b
}

/// `str::ends_with`.
pub fn ends_with_exec(s: &Vec<char>, p: &Vec<char>) -> (b: bool)
    ensures
        b == ends_with(s@, p@),
{
    if p.len() > s.len() {
        return false;
    }
    matches_at_exec(s, p, s.len() - p.len())
}

/// `str::contains`.
pub fn contains_exec(s: &Vec<char>, p: &Vec<char>) -> (b: bool)
    ensures
        b == contains(s@, p@),
{
    find_exec(s, p).is_some()
}

/// Characters `from..to` of `s`.
pub fn slice_exec(s: &Vec<char>, from: usize, to: usize) -> (r: Vec<char>)
    requires
        from <= to <= s.len(),
    ensures
        r@ == s@.subrange(from as int, to as int),
{
    let mut r: Vec<char> = Vec::new();
    let mut i = from;
    while i < to
        invariant
            from <= i <= to <= s.len(),
            r@ == s@.subrange(from as int, i as int),
        decreases to - i,
    {
        r.push(s[i]);
        i += 1;
        assert(r@ =~= s@.subrange(from as int, i as int));
    }
    r
}

/// Concatenation of two character vectors.
pub fn concat2(a: &Vec<char>, b: &Vec<char>) -> (r: Vec<char>)
    ensures
        r@ == a@ + b@,
{
    let mut r = a.clone();
    assert(r@ =~= a@);
    let mut i: usize = 0;
    while i < b.len()
        invariant
            i <= b.len(),
            r@ == a@ + b@.take(i as int),
        decreases b.len() - i,
    {
        r.push(b[i]);
        i += 1;
        assert(r@ =~= a@ + b@.take(i as int));
    }
    assert(b@.take(b.len() as int) =~= b@);
    r
}

/// Appends `b` to `r`.
pub fn push_all(r: &mut Vec<char>, b: &Vec<char>)
    ensures
        final(r)@ == old(r)@ + b@,
{
    let ghost start = r@;
    let mut i: usize = 0;
    while i < b.len()
        invariant
            i <= b.len(),
            r@ == start + b@.take(i as int),
        decreases b.len() - i,
    {
        r.push(b[i]);
        i += 1;
        assert(r@ =~= start + b@.take(i as int));
    }
    assert(b@.take(b.len() as int) =~= b@);
}


// ---------------------------------------------------------------------------
// Leading and trailing runs, trimming
// ---------------------------------------------------------------------------
/// Length of the longest prefix of `s` whose characters all satisfy `f`.
pub open spec fn lead_count(s: Seq<char>, f: spec_fn(char) -> bool) -> nat
    decreases s.len(),
{
    if s.len() > 0 && f(s[0]) {
        1 + lead_count(s.subrange(1, s.len() as int), f)
    } else {
        0
    }
}

/// Length of the longest suffix of `s` whose characters all satisfy `f`.
pub open spec fn trail_count(s: Seq<char>, f: spec_fn(char) -> bool) -> nat
    decreases s.len(),
{
    if s.len() > 0 && f(s[s.len() - 1]) {
        1 + trail_count(s.subrange(0, s.len() - 1), f)
    } else {
        0
    }
}

pub proof fn lemma_lead_count(s: Seq<char>, f: spec_fn(char) -> bool, i: int)
    requires
        0 <= i <= s.len(),
        forall|j: int| 0 <= j < i ==> f(s[j]),
        i == s.len() || !f(s[i]),
    ensures
        lead_count(s, f) == i,
    decreases i,
{
    if i > 0 {
        let t = s.subrange(1, s.len() as int);
        assert forall|j: int| 0 <= j < i - 1 implies f(t[j]) by {
            assert(t[j] == s[j + 1]);
        }
        if i - 1 < t.len() {
            assert(t[i - 1] == s[i]);
        }
        lemma_lead_count(t, f, i - 1);
    }
}

pub proof fn lemma_trail_count(s: Seq<char>, f: spec_fn(char) -> bool, i: int)
    requires
        0 <= i <= s.len(),
        forall|j: int| s.len() - i <= j < s.len() ==> f(s[j]),
        i == s.len() || !f(s[s.len() - 1 - i]),
    ensures
        trail_count(s, f) == i,
    decreases i,
{
    if i > 0 {
        let t = s.subrange(0, s.len() - 1);
        assert forall|j: int| t.len() - (i - 1) <= j < t.len() implies f(t[j]) by {
            assert(t[j] == s[j]);
        }
        if i - 1 < t.len() {
            assert(t[t.len() - 1 - (i - 1)] == s[s.len() - 1 - i]);
        }
        lemma_trail_count(t, f, i - 1);
    }
}

pub open spec fn ws_pred() -> spec_fn(char) -> bool {
    |c: char| is_ws(c)
}

pub open spec fn digit_pred() -> spec_fn(char) -> bool {
    |c: char| is_digit(c)
}

pub open spec fn eq_pred(c: char) -> spec_fn(char) -> bool {
    |x: char| x == c
}

/// `str::trim_start`.
pub open spec fn trim_start(s: Seq<char>) -> Seq<char> {
    s.subrange(lead_count(s, ws_pred()) as int, s.len() as int)
}

/// `str::trim_end`.
pub open spec fn trim_end(s: Seq<char>) -> Seq<char> {
    s.subrange(0, s.len() - trail_count(s, ws_pred()))
}

/// `str::trim`.
pub open spec fn trim(s: Seq<char>) -> Seq<char> {
    trim_end(trim_start(s))
}

/// Trimming a trimmed text changes nothing.
pub proof fn lemma_trim_idempotent(s: Seq<char>)
    ensures
        trim(trim(s)) == trim(s),
{
    let a = trim_start(s);
    lemma_lead_le(s, ws_pred());
    let b = trim_end(a);
    lemma_trail_le(a, ws_pred());
    if b.len() > 0 {
        assert(b[0] == a[0]);
        assert(b[b.len() - 1] == a[a.len() - 1 - trail_count(a, ws_pred())]);
    }
    lemma_lead_count(b, ws_pred(), 0);
    assert(trim_start(b) =~= b);
    lemma_trail_count(b, ws_pred(), 0);
    assert(trim_end(b) =~= b);
}

/// `str::trim_start_matches` with a single character.
pub open spec fn trim_start_char(s: Seq<char>, c: char) -> Seq<char> {
    s.subrange(lead_count(s, eq_pred(c)) as int, s.len() as int)
}

/// `str::trim_end_matches` with a single character.
pub open spec fn trim_end_char(s: Seq<char>, c: char) -> Seq<char> {
    s.subrange(0, s.len() - trail_count(s, eq_pred(c)))
}

/// The longest prefix of `s` made of ASCII digits.
pub open spec fn digit_prefix(s: Seq<char>) -> Seq<char> {
    s.subrange(0, lead_count(s, digit_pred()) as int)
}

pub proof fn lemma_lead_le(s: Seq<char>, f: spec_fn(char) -> bool)
    ensures
        lead_count(s, f) <= s.len(),
        forall|j: int| 0 <= j < lead_count(s, f) ==> f(s[j]),
        lead_count(s, f) < s.len() ==> !f(s[lead_count(s, f) as int]),
    decreases s.len(),
{
    if s.len() > 0 && f(s[0]) {
        let t = s.subrange(1, s.len() as int);
        lemma_lead_le(t, f);
        assert forall|j: int| 0 <= j < lead_count(s, f) implies f(s[j]) by {
            if j > 0 {
                assert(s[j] == t[j - 1]);
            }
        }
    }
}

pub proof fn lemma_trail_le(s: Seq<char>, f: spec_fn(char) -> bool)
    ensures
        trail_count(s, f) <= s.len(),
        forall|j: int| s.len() - trail_count(s, f) <= j < s.len() ==> f(s[j]),
        trail_count(s, f) < s.len() ==> !f(s[s.len() - 1 - trail_count(s, f)]),
    decreases s.len(),
{
    if s.len() > 0 && f(s[s.len() - 1]) {
        let t = s.subrange(0, s.len() - 1);
        lemma_trail_le(t, f);
        assert forall|j: int| s.len() - trail_count(s, f) <= j < s.len() implies f(s[j]) by {
            if j < s.len() - 1 {
                assert(s[j] == t[j]);
            }
        }
    }
}

/// Number of leading whitespace characters.
fn lead_ws_exec(s: &Vec<char>) -> (n: usize)
    ensures
        n == lead_count(s@, ws_pred()),
{
    let mut i: usize = 0;
    while i < s.len() && char_is_ws(s[i])
        invariant
            i <= s.len(),
            forall|j: int| 0 <= j < i ==> is_ws(s@[j]),
        decreases s.len() - i,
    {
        i += 1;
    }
    proof {
        lemma_lead_count(s@, ws_pred(), i as int);
    }
    i
}

/// Number of trailing whitespace characters.
fn trail_ws_exec(s: &Vec<char>) -> (n: usize)
    ensures
        n == trail_count(s@, ws_pred()),
{
    let mut i: usize = 0;
    while i < s.len() && char_is_ws(s[s.len() - 1 - i])
        invariant
            i <= s.len(),
            forall|j: int| s.len() - i <= j < s.len() ==> is_ws(s@[j]),
        decreases s.len() - i,
    {
        i += 1;
    }
    proof {
        lemma_trail_count(s@, ws_pred(), i as int);
    }
    i
}

/// `str::trim`.
pub fn trim_exec(s: &Vec<char>) -> (r: Vec<char>)
    ensures
        r@ == trim(s@),
{
    let a = lead_ws_exec(s);
    proof {
        lemma_lead_le(s@, ws_pred());
    }
    let t = slice_exec(s, a, s.len());
    let b = trail_ws_exec(&t);
    proof {
        lemma_trail_le(t@, ws_pred());
    }
    slice_exec(&t, 0, t.len() - b)
}

/// `str::trim_start`.
pub fn trim_start_exec(s: &Vec<char>) -> (r: Vec<char>)
    ensures
        r@ == trim_start(s@),
{
    let a = lead_ws_exec(s);
    proof {
        lemma_lead_le(s@, ws_pred());
    }
    slice_exec(s, a, s.len())
}

/// `str::trim_start_matches(c)`.
pub fn trim_start_char_exec(s: &Vec<char>, c: char) -> (r: Vec<char>)
    ensures
        r@ == trim_start_char(s@, c),
{
    let mut i: usize = 0;
    while i < s.len() && s[i] == c
        invariant
            i <= s.len(),
            forall|j: int| 0 <= j < i ==> s@[j] == c,
        decreases s.len() - i,
    {
        i += 1;
    }
    proof {
        lemma_lead_count(s@, eq_pred(c), i as int);
    }
    slice_exec(s, i, s.len())
}

/// `str::trim_end_matches(c)`.
pub fn trim_end_char_exec(s: &Vec<char>, c: char) -> (r: Vec<char>)
    ensures
        r@ == trim_end_char(s@, c),
{
    let mut i: usize = 0;
    while i < s.len() && s[s.len() - 1 - i] == c
        invariant
            i <= s.len(),
            forall|j: int| s.len() - i <= j < s.len() ==> s@[j] == c,
        decreases s.len() - i,
    {
        i += 1;
    }
    proof {
        lemma_trail_count(s@, eq_pred(c), i as int);
    }
    slice_exec(s, 0, s.len() - i)
}

/// The longest prefix of `s` made of ASCII digits.
pub fn digit_prefix_exec(s: &Vec<char>) -> (r: Vec<char>)
    ensures
        r@ == digit_prefix(s@),
{
    let mut i: usize = 0;
    while i < s.len() && char_is_digit(s[i])
        invariant
            i <= s.len(),
            forall|j: int| 0 <= j < i ==> is_digit(s@[j]),
        decreases s.len() - i,
    {
        i += 1;
    }
    proof {
        lemma_lead_count(s@, digit_pred(), i as int);
    }
    slice_exec(s, 0, i)
}


// ---------------------------------------------------------------------------
// Replacing, joining
// ---------------------------------------------------------------------------
/// `str::replace(from, to)` applied to `s` from position `i` on (`from` nonempty):
/// non-overlapping occurrences, leftmost first.
pub open spec fn replace_from(s: Seq<char>, from: Seq<char>, to: Seq<char>, i: int) -> Seq<char>
    decreases s.len() + 1 - i,
{
    if from.len() == 0 || i < 0 || i > s.len() {
        s.subrange(i, s.len() as int)
    } else {
        match find_from(s, from, i) {
            Some(j) => {
                proof {
                    lemma_find_from(s, from, i);
                }
                s.subrange(i, j) + to + replace_from(s, from, to, j + from.len())
            },
            None => s.subrange(i, s.len() as int),
        }
    }
}

/// `str::replace(from, to)` with a nonempty pattern.
pub open spec fn replace(s: Seq<char>, from: Seq<char>, to: Seq<char>) -> Seq<char> {
    replace_from(s, from, to, 0)
}

/// `str::replace(from, to)` (`from` nonempty).
pub fn replace_exec(s: &Vec<char>, from: &Vec<char>, to: &Vec<char>) -> (r: Vec<char>)
    requires
        from.len() > 0,
    ensures
        r@ == replace(s@, from@, to@),
{
    let mut r: Vec<char> = Vec::new();
    let mut i: usize = 0;
    loop
        invariant
            from.len() > 0,
            i <= s.len(),
            r@ + replace_from(s@, from@, to@, i as int) == replace(s@, from@, to@),
        decreases s.len() - i,
    {
        match find_from_exec(s, from, i) {
            Some(j) => {
                proof {
                    lemma_find_from(s@, from@, i as int);
                }
                let piece = slice_exec(s, i, j);
                push_all(&mut r, &piece);
                push_all(&mut r, to);
                proof {
                    assert(r@ + replace_from(s@, from@, to@, j + from.len()) =~= (r@.subrange(
                        0,
                        r@.len() - piece@.len() - to@.len(),
                    )) + replace_from(s@, from@, to@, i as int));
                }
                i = j + from.len();
            },
            None => {
                let rest = slice_exec(s, i, s.len());
                push_all(&mut r, &rest);
                return r;
            },
        }
    }
}

/// `parts.join(sep)`.
pub open spec fn join(parts: Seq<Seq<char>>, sep: Seq<char>) -> Seq<char>
    decreases parts.len(),
{
    if parts.len() == 0 {
        Seq::empty()
    } else if parts.len() == 1 {
        parts[0]
    } else {
        join(parts.subrange(0, parts.len() - 1), sep) + sep + parts[parts.len() - 1]
    }
}

/// Views of a sequence of character vectors.
pub open spec fn vviews(v: Seq<Vec<char>>) -> Seq<Seq<char>> {
    v.map_values(|x: Vec<char>| x@)
}

/// Views of a sequence of strings.
pub open spec fn sviews(v: Seq<String>) -> Seq<Seq<char>> {
    v.map_values(|x: String| x@)
}

/// `parts.join(sep)`.
pub fn join_exec(parts: &Vec<Vec<char>>, sep: &Vec<char>) -> (r: Vec<char>)
    ensures
        r@ == join(vviews(parts@), sep@),
{
    let mut r: Vec<char> = Vec::new();
    let mut i: usize = 0;
    while i < parts.len()
        invariant
            i <= parts.len(),
            r@ == join(vviews(parts@).take(i as int), sep@),
        decreases parts.len() - i,
    {
        if i > 0 {
            push_all(&mut r, sep);
        }
        push_all(&mut r, &parts[i]);
        proof {
            let t = vviews(parts@).take(i + 1);
            assert(t.subrange(0, t.len() - 1) =~= vviews(parts@).take(i as int));
            assert(t[t.len() - 1] == parts[i as int]@);
        }
        i += 1;
    }
    assert(vviews(parts@).take(parts.len() as int) =~= vviews(parts@));
    r
}

/// The concatenation of `parts` (`join("")`).
pub open spec fn concat_all(parts: Seq<Seq<char>>) -> Seq<char> {
    join(parts, Seq::empty())
}

// ---------------------------------------------------------------------------
// Integer parsing
// ---------------------------------------------------------------------------
pub open spec fn all_digits(s: Seq<char>) -> bool {
    forall|i: int| 0 <= i < s.len() ==> is_digit(s[i])
}

/// Decimal value of a digit string.
pub open spec fn digits_value(s: Seq<char>) -> int
    decreases s.len(),
{
    if s.len() == 0 {
        0
    } else {
        digits_value(s.subrange(0, s.len() - 1)) * 10 + (s[s.len() - 1] as int - '0' as int)
    }
}

/// What `str::parse::<i64>` reads, before the range check: an optional `+` or `-`
/// followed by one or more ASCII digits.
pub open spec fn parse_int(s: Seq<char>) -> Option<int> {
    if s.len() > 0 && (s[0] == '+' || s[0] == '-') {
        let d = s.subrange(1, s.len() as int);
        if d.len() > 0 && all_digits(d) {
            Some(if s[0] == '-' { -digits_value(d) } else { digits_value(d) })
        } else {
            None
        }
    } else if s.len() > 0 && all_digits(s) {
        Some(digits_value(s))
    } else {
        None
    }
}

/// `str::parse::<i32>().ok()`.
pub open spec fn parse_i32(s: Seq<char>) -> Option<i32> {
    match parse_int(s) {
        Some(v) => if i32::MIN <= v <= i32::MAX {
            Some(v as i32)
        } else {
            None
        },
        None => None,
    }
}

/// `str::parse::<i64>().ok()`.
pub open spec fn parse_i64(s: Seq<char>) -> Option<i64> {
    match parse_int(s) {
        Some(v) => if i64::MIN <= v <= i64::MAX {
            Some(v as i64)
        } else {
            None
        },
        None => None,
    }
}

pub proof fn lemma_digits_value_nonneg(s: Seq<char>)
    requires
        all_digits(s),
    ensures
        digits_value(s) >= 0,
    decreases s.len(),
{
    if s.len() > 0 {
        lemma_digits_value_nonneg(s.subrange(0, s.len() - 1));
    }
}

pub proof fn lemma_digits_value_mono(s: Seq<char>, i: int)
    requires
        all_digits(s),
        0 <= i <= s.len(),
    ensures
        digits_value(s.subrange(0, i)) <= digits_value(s),
    decreases s.len() - i,
{
    if i < s.len() {
        lemma_digits_value_mono(s, i + 1);
        let t = s.subrange(0, i + 1);
        assert(t.subrange(0, i) =~= s.subrange(0, i));
        lemma_digits_value_nonneg(s.subrange(0, i));
    } else {
        assert(s.subrange(0, i) =~= s);
    }
}

/// Value of an all-digit string, or `None` when it exceeds `bound`.
fn digits_value_bounded(s: &Vec<char>, start: usize, bound: i64) -> (r: Option<i64>)
    requires
        start <= s.len(),
        all_digits(s@.subrange(start as int, s.len() as int)),
        0 <= bound <= 0x1_0000_0000,
    ensures
        match r {
            Some(v) => v == digits_value(s@.subrange(start as int, s.len() as int)) && 0 <= v
                <= bound,
            None => digits_value(s@.subrange(start as int, s.len() as int)) > bound,
        },
{
    let ghost d = s@.subrange(start as int, s.len() as int);
    let mut acc: i64 = 0;
    let mut i = start;
    while i < s.len()
        invariant
            start <= i <= s.len(),
            d == s@.subrange(start as int, s.len() as int),
            all_digits(d),
            0 <= bound <= 0x1_0000_0000,
            acc == digits_value(d.subrange(0, i - start)),
            0 <= acc <= bound,
        decreases s.len() - i,
    {
        let c = s[i];
        assert(c == d[i - start]);
        let dv = (c as u32 - '0' as u32) as i64;
        assert(0 <= acc * 10 <= 0x1_0000_0000 * 10) by (nonlinear_arith)
            requires
                0 <= acc <= 0x1_0000_0000,
        ;
        assert(dv <= 9) by {
            assert(is_digit(c));
        }
        let next = acc * 10 + dv;
        proof {
            let t = d.subrange(0, i - start + 1);
            assert(t.subrange(0, t.len() - 1) =~= d.subrange(0, i - start));
            assert(t[t.len() - 1] == c);
        }
        if next > bound {
            proof {
                lemma_digits_value_mono(d, i - start + 1);
            }
            return None;
        }
        acc = next;
        i += 1;
    }
    assert(d.subrange(0, i - start) =~= d);
    Some(acc)
}

fn all_digits_from(s: &Vec<char>, start: usize) -> (b: bool)
    requires
        start <= s.len(),
    ensures
        b == all_digits(s@.subrange(start as int, s.len() as int)),
{
    let mut i = start;
    while i < s.len()
        invariant
            start <= i <= s.len(),
            forall|j: int| start <= j < i ==> is_digit(s@[j]),
        decreases s.len() - i,
    {
        if !char_is_digit(s[i]) {
            assert(!is_digit(s@.subrange(start as int, s.len() as int)[i - start]));
            return false;
        }
        i += 1;
    }
    assert forall|j: int| 0 <= j < s.len() - start implies is_digit(
        s@.subrange(start as int, s.len() as int)[j],
    ) by {
        assert(s@.subrange(start as int, s.len() as int)[j] == s@[start + j]);
    }
    true
}

/// `str::parse::<i32>().ok()`.
pub fn parse_i32_exec(s: &Vec<char>) -> (r: Option<i32>)
    ensures
        r == parse_i32(s@),
{
    if s.len() == 0 {
        return None;
    }
    let signed = s[0] == '+' || s[0] == '-';
    let start: usize = if signed { 1 } else { 0 };
    assert(s@.subrange(0, s.len() as int) =~= s@);
    if start == s.len() || !all_digits_from(s, start) {
        return None;
    }
    let neg = s[0] == '-';
    let bound: i64 = if neg { 0x8000_0000 } else { 0x7fff_ffff };
    match digits_value_bounded(s, start, bound) {
        Some(v) => {
            if neg { Some((-v) as i32) } else { Some(v as i32) }
        },
        None => None,
    }
}

// ---------------------------------------------------------------------------
// Equality
// ---------------------------------------------------------------------------
/// Equality of two character vectors.
pub fn eq_exec(a: &Vec<char>, b: &Vec<char>) -> (r: bool)
    ensures
        r == (a@ == b@),
{
    if a.len() != b.len() {
        return false;
    }
    let mut i: usize = 0;
    while i < a.len()
        invariant
            a.len() == b.len(),
            i <= a.len(),
            forall|j: int| 0 <= j < i ==> a@[j] == b@[j],
        decreases a.len() - i,
    {
        if a[i] != b[i] {
            return false;
        }
        i += 1;
    }
    assert(a@ =~= b@);
    true
}

/// Equality of a string with a character vector.
pub fn str_eq(a: &str, b: &Vec<char>) -> (r: bool)
    ensures
        r == (a@ == b@),
{
    let v = chars_of(a);
    eq_exec(&v, b)
}


// ---------------------------------------------------------------------------
// Decimal formatting
// ---------------------------------------------------------------------------
pub open spec fn digit_char(d: int) -> char {
    ((d + '0' as int) as u32) as char
}

/// Decimal digits of a natural number (`Display` of an unsigned integer).
pub open spec fn udec(n: nat) -> Seq<char>
    decreases n,
{
    if n < 10 {
        seq![digit_char(n as int)]
    } else {
        udec(n / 10) + seq![digit_char((n % 10) as int)]
    }
}

/// Decimal text of an integer (`Display` of a signed integer).
pub open spec fn dec(n: int) -> Seq<char> {
    if n < 0 {
        seq!['-'] + udec((-n) as nat)
    } else {
        udec(n as nat)
    }
}

fn digit_to_char(d: u64) -> (c: char)
    requires
        d < 10,
    ensures
        c == digit_char(d as int),
{
    if d == 0 { '0' } else if d == 1 { '1' } else if d == 2 { '2' } else if d == 3 { '3' }
    else if d == 4 { '4' } else if d == 5 { '5' } else if d == 6 { '6' } else if d == 7 { '7' }
    else if d == 8 { '8' } else { '9' }
}

/// Decimal digits of `n`.
pub fn udec_exec(n: u64) -> (r: Vec<char>)
    ensures
        r@ == udec(n as nat),
    decreases n,
{
    if n < 10 {
        let mut r: Vec<char> = Vec::new();
        r.push(digit_to_char(n));
        r
    } else {
        let mut r = udec_exec(n / 10);
        r.push(digit_to_char(n % 10));
        r
    }
}

/// Decimal text of `n` (as `format!("{}", n)` writes it).
pub fn dec_exec(n: i64) -> (r: Vec<char>)
    ensures
        r@ == dec(n as int),
{
    if n < 0 {
        let m: u64 = if n == i64::MIN { 0x8000_0000_0000_0000u64 } else { (-n) as u64 };
        let mut r: Vec<char> = Vec::new();
        r.push('-');
        let d = udec_exec(m);
        concat2(&r, &d)
    } else {
        udec_exec(n as u64)
    }
}

/// Characters of an optional character vector.
pub open spec fn ov(o: Option<Vec<char>>) -> Option<Seq<char>> {
    match o {
        Some(v) => Some(v@),
        None => None,
    }
}

/// Characters of an optional string.
pub open spec fn os(o: Option<String>) -> Option<Seq<char>> {
    match o {
        Some(v) => Some(v@),
        None => None,
    }
}

/// The text, or the empty text for `None` (`unwrap_or("")`).
pub open spec fn or_empty(o: Option<Seq<char>>) -> Seq<char> {
    match o {
        Some(s) => s,
        None => Seq::empty(),
    }
}

/// The vector, or an empty one for `None`.
pub fn or_empty_exec(o: Option<Vec<char>>) -> (r: Vec<char>)
    ensures
        r@ == or_empty(ov(o)),
{
    match o {
        Some(v) => v,
        None => Vec::new(),
    }
}

/// Converts an optional character vector to an optional string.
pub fn opt_string(o: Option<Vec<char>>) -> (r: Option<String>)
    ensures
        os(r) == ov(o),
{
    match o {
        Some(v) => Some(string_of(&v)),
        None => None,
    }
}


// ---------------------------------------------------------------------------
// Sequences of optional values, case mapping
// ---------------------------------------------------------------------------
/// The values present in `s`, in order (`filter_map` with the identity).
pub open spec fn filter_some<T>(s: Seq<Option<T>>) -> Seq<T>
    decreases s.len(),
{
    if s.len() == 0 {
        Seq::empty()
    } else {
        let p = filter_some(s.subrange(0, s.len() - 1));
        match s[s.len() - 1] {
            Some(x) => p.push(x),
            None => p,
        }
    }
}

/// What holds of every present value holds of every kept value.
pub proof fn lemma_filter_some_all<T>(s: Seq<Option<T>>, p: spec_fn(T) -> bool)
    requires
        forall|k: int| 0 <= k < s.len() ==> (#[trigger] s[k] matches Some(x) ==> p(x)),
    ensures
        forall|k: int| 0 <= k < filter_some(s).len() ==> p(#[trigger] filter_some(s)[k]),
    decreases s.len(),
{
    if s.len() > 0 {
        let t = s.subrange(0, s.len() - 1);
        assert forall|k: int| 0 <= k < t.len() implies (#[trigger] t[k] matches Some(x) ==> p(x)) by {
            assert(t[k] == s[k]);
        }
        lemma_filter_some_all(t, p);
        let q = filter_some(t);
        let cur = filter_some(s);
        assert forall|k: int| 0 <= k < cur.len() implies p(#[trigger] cur[k]) by {
            if k < q.len() {
                assert(cur[k] == q[k]);
            }
        }
    }
}

pub proof fn lemma_filter_some_step<T>(s: Seq<Option<T>>, i: int)
    requires
        0 <= i < s.len(),
    ensures
        filter_some(s.take(i + 1)) == match s[i] {
            Some(x) => filter_some(s.take(i)).push(x),
            None => filter_some(s.take(i)),
        },
{
    let t = s.take(i + 1);
    assert(t.subrange(0, t.len() - 1) =~= s.take(i));
}

/// What `str::to_lowercase` returns for a text (Unicode lowercase mapping).
pub uninterp spec fn lowercase(s: Seq<char>) -> Seq<char>;

/// Calls `str::to_lowercase`; the result is named by [`lowercase`].
#[verifier::external_body]
pub(crate) fn lowercase_exec(v: &Vec<char>) -> (r: Vec<char>)
    ensures
        r@ == lowercase(v@),
{
    let s: String = v.iter().collect();
    s.to_lowercase().chars().collect()
}


// ---------------------------------------------------------------------------
// Lists of texts
// ---------------------------------------------------------------------------
/// Appends `g` unless it is empty or already present (`!v.contains(&g)`).
pub open spec fn push_unique(v: Seq<Seq<char>>, g: Seq<char>) -> Seq<Seq<char>> {
    if g.len() > 0 && !v.contains(g) {
        v.push(g)
    } else {
        v
    }
}

/// Whether `v` holds `g`.
pub fn contains_text(v: &Vec<Vec<char>>, g: &Vec<char>) -> (b: bool)
    ensures
        b == vviews(v@).contains(g@),
{
    let mut i: usize = 0;
    while i < v.len()
        invariant
            i <= v.len(),
            forall|j: int| 0 <= j < i ==> v@[j]@ != g@,
        decreases v.len() - i,
    {
        if eq_exec(&v[i], g) {
            assert(vviews(v@)[i as int] == g@);
            return true;
        }
        i += 1;
    }
    assert forall|j: int| 0 <= j < vviews(v@).len() implies vviews(v@)[j] != g@ by {
        assert(vviews(v@)[j] == v@[j]@);
    }
    false
}

/// Appends `g` to `v` unless it is empty or already present.
pub fn push_unique_exec(v: &mut Vec<Vec<char>>, g: Vec<char>)
    ensures
        vviews(final(v)@) == push_unique(vviews(old(v)@), g@),
{
    if g.len() > 0 && !contains_text(v, &g) {
        let ghost before = vviews(v@);
        v.push(g);
        assert(vviews(v@) =~= before.push(g@));
    }
}

/// Strings of a list of character vectors.
pub fn strings_of(v: &Vec<Vec<char>>) -> (r: Vec<String>)
    ensures
        sviews(r@) == vviews(v@),
{
    let mut r: Vec<String> = Vec::new();
    let mut i: usize = 0;
    while i < v.len()
        invariant
            i <= v.len(),
            r@.len() == i,
            forall|j: int| 0 <= j < i ==> r@[j]@ == v@[j]@,
        decreases v.len() - i,
    {
        r.push(string_of(&v[i]));
        i += 1;
    }
    assert(sviews(r@) =~= vviews(v@));
    r
}

} // verus!
