//! Splitting text into words and pieces, and measuring it in UTF-8 bytes.
use vstd::prelude::*;
use crate::text::{char_is_ws, is_ws};

verus! {

/// Number of bytes of `c` in UTF-8 (`char::len_utf8`).
pub open spec fn char_utf8_len(c: char) -> nat {
    if (c as u32) < 0x80 {
        1
    } else if (c as u32) < 0x800 {
        2
    } else if (c as u32) < 0x10000 {
        3
    } else {
        4
    }
}

/// Number of bytes of `s` in UTF-8 (`str::len`).
pub open spec fn utf8_len(s: Seq<char>) -> nat
    decreases s.len(),
{
    if s.len() == 0 {
        0
    } else {
        utf8_len(s.drop_last()) + char_utf8_len(s.last())
    }
}

pub proof fn lemma_utf8_len_bound(s: Seq<char>)
    ensures
        utf8_len(s) <= 4 * s.len(),
    decreases s.len(),
{
    if s.len() > 0 {
        lemma_utf8_len_bound(s.drop_last());
    }
}

/// The UTF-8 length of `s`.
pub fn utf8_len_exec(s: &Vec<char>) -> (n: u128)
    ensures
        n == utf8_len(s@),
{
    let mut n: u128 = 0;
    let mut i: usize = 0;
    while i < s.len()
        invariant
            i <= s.len(),
            n == utf8_len(s@.take(i as int)),
        decreases s.len() - i,
    {
        proof {
            let t = s@.take(i + 1);
            assert(t.drop_last() =~= s@.take(i as int));
            lemma_utf8_len_bound(s@.take(i as int));
        }
        let c = s[i];
        let k: u128 = if (c as u32) < 0x80 {
            1
        } else if (c as u32) < 0x800 {
            2
        } else if (c as u32) < 0x10000 {
            3
        } else {
            4
        };
        n = n + k;
        i += 1;
    }
    assert(s@.take(s.len() as int) =~= s@);
    n
}

/// The position in `s` of the character boundary that lies `b` bytes into
/// its UTF-8 form; `None` when no boundary lies there (a byte slice of the
/// text at `b` would panic).
pub open spec fn byte_pos(s: Seq<char>, b: int) -> Option<int> {
    if exists|k: int| 0 <= k <= s.len() && #[trigger] utf8_len(s.take(k)) == b {
        Some(choose|k: int| 0 <= k <= s.len() && #[trigger] utf8_len(s.take(k)) == b)
    } else {
        None
    }
}

/// Longer prefixes have more bytes.
pub proof fn lemma_utf8_prefix_increasing(s: Seq<char>, i: int, j: int)
    requires
        0 <= i < j <= s.len(),
    ensures
        utf8_len(s.take(i)) < utf8_len(s.take(j)),
    decreases j - i,
{
    let t = s.take(j);
    assert(t.drop_last() =~= s.take(j - 1));
    if i < j - 1 {
        lemma_utf8_prefix_increasing(s, i, j - 1);
    }
}

/// The character boundary `b` bytes into `s` (see [`byte_pos`]).
pub fn byte_pos_exec(s: &Vec<char>, b: u128) -> (r: Option<usize>)
    ensures
        match r {
            Some(k) => byte_pos(s@, b as int) == Some(k as int),
            None => byte_pos(s@, b as int) is None,
        },
{
    let mut n: u128 = 0;
    let mut i: usize = 0;
    loop
        invariant
            i <= s.len(),
            n == utf8_len(s@.take(i as int)),
            forall|k: int| 0 <= k < i ==> #[trigger] utf8_len(s@.take(k)) != b,
        decreases s.len() - i,
    {
        if n == b {
            proof {
                assert forall|k: int| 0 <= k <= s.len() && #[trigger] utf8_len(s@.take(k)) == b implies k == i by {
                    if k < i {
                    } else if k > i {
                        lemma_utf8_prefix_increasing(s@, i as int, k);
                    }
                }
            }
            return Some(i);
        }
        if n > b || i == s.len() {
            proof {
                assert forall|k: int| 0 <= k <= s.len() implies #[trigger] utf8_len(s@.take(k)) != b by {
                    if k > i {
                        lemma_utf8_prefix_increasing(s@, i as int, k);
                    }
                }
            }
            return None;
        }
        proof {
            let t = s@.take(i + 1);
            assert(t.drop_last() =~= s@.take(i as int));
            lemma_utf8_len_bound(s@.take(i as int));
        }
        let c = s[i];
        let k: u128 = if (c as u32) < 0x80 {
            1
        } else if (c as u32) < 0x800 {
            2
        } else if (c as u32) < 0x10000 {
            3
        } else {
            4
        };
        n = n + k;
        i += 1;
    }
}

/// `str::split_whitespace`: the maximal runs of non-whitespace characters.
pub open spec fn words(s: Seq<char>) -> Seq<Seq<char>>
    decreases s.len(),
{
    if s.len() == 0 {
        Seq::empty()
    } else {
        let w = words(s.drop_last());
        let c = s.last();
        if is_ws(c) {
            w
        } else if s.len() >= 2 && !is_ws(s[s.len() - 2]) && w.len() > 0 {
            w.drop_last().push(w.last().push(c))
        } else {
            w.push(seq![c])
        }
    }
}

/// The words of `s` (see [`words`]).
pub fn words_exec(s: &Vec<char>) -> (r: Vec<Vec<char>>)
    ensures
        r@.len() == words(s@).len(),
        forall|k: int| 0 <= k < r@.len() ==> #[trigger] r@[k]@ == words(s@)[k],
{
    let mut out: Vec<Vec<char>> = Vec::new();
    let mut in_word = false;
    let mut i: usize = 0;
    while i < s.len()
        invariant
            i <= s.len(),
            out@.len() == words(s@.take(i as int)).len(),
            forall|k: int| 0 <= k < out@.len() ==> #[trigger] out@[k]@ == words(s@.take(i as int))[k],
            in_word == (i > 0 && !is_ws(s@[i - 1])),
            in_word ==> out@.len() > 0,
        decreases s.len() - i,
    {
        let ghost prev = words(s@.take(i as int));
        proof {
            let t = s@.take(i + 1);
            assert(t.drop_last() =~= s@.take(i as int));
            assert(t.last() == s@[i as int]);
            if i > 0 {
                assert(t[t.len() - 2] == s@[i - 1]);
            }
        }
        let c = s[i];
        if char_is_ws(c) {
            in_word = false;
        } else if in_word {
            let mut last = out.pop().unwrap();
            last.push(c);
            out.push(last);
            proof {
                let cur = words(s@.take(i + 1));
                assert(cur == prev.drop_last().push(prev.last().push(c)));
                assert forall|k: int| 0 <= k < out@.len() implies #[trigger] out@[k]@ == cur[k] by {
                    if k < out@.len() - 1 {
                        assert(cur[k] == prev[k]);
                    }
                }
            }
        } else {
            let mut w: Vec<char> = Vec::new();
            w.push(c);
            out.push(w);
            proof {
                let cur = words(s@.take(i + 1));
                assert(cur == prev.push(seq![c]));
                assert(w@ =~= seq![c]);
                assert forall|k: int| 0 <= k < out@.len() implies #[trigger] out@[k]@ == cur[k] by {
                    if k < out@.len() - 1 {
                        assert(cur[k] == prev[k]);
                    }
                }
            }
            in_word = true;
        }
        i += 1;
    }
    assert(s@.take(s.len() as int) =~= s@);
    out
}

/// `str::split(c)`: the pieces between occurrences of `c` (always at least one).
pub open spec fn split_char(s: Seq<char>, c: char) -> Seq<Seq<char>>
    decreases s.len(),
{
    if s.len() == 0 {
        seq![Seq::empty()]
    } else {
        let w = split_char(s.drop_last(), c);
        if s.last() == c {
            w.push(Seq::empty())
        } else {
            w.drop_last().push(w.last().push(s.last()))
        }
    }
}

pub proof fn lemma_split_char_nonempty(s: Seq<char>, c: char)
    ensures
        split_char(s, c).len() >= 1,
    decreases s.len(),
{
    if s.len() > 0 {
        lemma_split_char_nonempty(s.drop_last(), c);
    }
}

/// The pieces of `s` between occurrences of `c`.
pub fn split_char_exec(s: &Vec<char>, c: char) -> (r: Vec<Vec<char>>)
    ensures
        r@.len() == split_char(s@, c).len(),
        forall|k: int| 0 <= k < r@.len() ==> #[trigger] r@[k]@ == split_char(s@, c)[k],
{
    let mut out: Vec<Vec<char>> = Vec::new();
    out.push(Vec::new());
    proof {
        assert(s@.take(0) =~= Seq::<char>::empty());
        assert(out@[0]@ =~= Seq::<char>::empty());
    }
    let mut i: usize = 0;
    while i < s.len()
        invariant
            i <= s.len(),
            out@.len() == split_char(s@.take(i as int), c).len(),
            out@.len() >= 1,
            forall|k: int| 0 <= k < out@.len() ==> #[trigger] out@[k]@ == split_char(s@.take(i as int), c)[k],
        decreases s.len() - i,
    {
        let ghost prev = split_char(s@.take(i as int), c);
        proof {
            let t = s@.take(i + 1);
            assert(t.drop_last() =~= s@.take(i as int));
            assert(t.last() == s@[i as int]);
        }
        let x = s[i];
        if x == c {
            out.push(Vec::new());
            proof {
                let cur = split_char(s@.take(i + 1), c);
                assert(cur == prev.push(Seq::empty()));
                assert forall|k: int| 0 <= k < out@.len() implies #[trigger] out@[k]@ == cur[k] by {
                    if k < out@.len() - 1 {
                        assert(cur[k] == prev[k]);
                    } else {
                        assert(out@[k]@ =~= Seq::<char>::empty());
                    }
                }
            }
        } else {
            let mut last = out.pop().unwrap();
            last.push(x);
            out.push(last);
            proof {
                let cur = split_char(s@.take(i + 1), c);
                assert(cur == prev.drop_last().push(prev.last().push(x)));
                assert forall|k: int| 0 <= k < out@.len() implies #[trigger] out@[k]@ == cur[k] by {
                    if k < out@.len() - 1 {
                        assert(cur[k] == prev[k]);
                    }
                }
            }
        }
        i += 1;
    }
    assert(s@.take(s.len() as int) =~= s@);
    out
}

/// What `char::to_uppercase` yields for a character (Unicode uppercase mapping).
pub uninterp spec fn char_uppercase(c: char) -> Seq<char>;

/// Calls `char::to_uppercase`; the result is named by [`char_uppercase`].
#[verifier::external_body]
pub(crate) fn uppercase_of(c: char) -> (r: Vec<char>)
    ensures
        r@ == char_uppercase(c),
{
    c.to_uppercase().collect()
}

} // verus!
