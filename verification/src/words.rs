//! Splitting text into whitespace-separated words, and joining words again.
use vstd::prelude::*;

use crate::text::{char_is_space, is_space, owned};

verus! {

/// The number of characters before the first whitespace character of `s`.
pub open spec fn run_len(s: Seq<char>) -> nat
    decreases s.len(),
{
    if s.len() == 0 || is_space(s[0]) {
        0
    } else {
        1 + run_len(s.drop_first())
    }
}

/// A run never reaches past the end of its text.
pub proof fn lemma_run_len_bound(s: Seq<char>)
    ensures
        run_len(s) <= s.len(),
        s.len() > 0 && !is_space(s[0]) ==> run_len(s) >= 1,
    decreases s.len(),
{
    if s.len() > 0 && !is_space(s[0]) {
        lemma_run_len_bound(s.drop_first());
    }
}

/// The maximal runs of non-whitespace characters of `s`, in order, as
/// `str::split_whitespace` gives them.
pub open spec fn words(s: Seq<char>) -> Seq<Seq<char>>
    decreases s.len(),
{
    if s.len() == 0 {
        Seq::empty()
    } else if is_space(s[0]) {
        words(s.drop_first())
    } else {
        proof {
            lemma_run_len_bound(s);
        }
        let n = run_len(s);
        seq![s.take(n as int)] + words(s.skip(n as int))
    }
}

/// `ws` with a single space between each two neighbours, as
/// `[String]::join(" ")` gives it.
pub open spec fn joined_words(ws: Seq<Seq<char>>) -> Seq<char>
    decreases ws.len(),
{
    if ws.len() == 0 {
        Seq::empty()
    } else if ws.len() == 1 {
        ws[0]
    } else {
        joined_words(ws.drop_last()) + seq![' '] + ws.last()
    }
}

/// A word in the sense of `words`: not empty, and free of whitespace.
pub open spec fn is_word(w: Seq<char>) -> bool {
    w.len() > 0 && forall|k: int| 0 <= k < w.len() ==> !is_space(#[trigger] w[k])
}

proof fn lemma_run_len_exact(s: Seq<char>, j: int)
    requires
        0 <= j <= s.len(),
        forall|k: int| 0 <= k < j ==> !is_space(#[trigger] s[k]),
        j == s.len() || is_space(s[j]),
    ensures
        run_len(s) == j,
    decreases j,
{
    if j > 0 {
        let t = s.drop_first();
        assert forall|k: int| 0 <= k < j - 1 implies !is_space(#[trigger] t[k]) by {
            assert(t[k] == s[k + 1]);
        }
        if j < s.len() {
            assert(t[j - 1] == s[j]);
        }
        lemma_run_len_exact(t, j - 1);
    }
}

proof fn lemma_run_len_concat(x: Seq<char>, y: Seq<char>)
    ensures
        run_len(x) < x.len() ==> run_len(x + y) == run_len(x),
        run_len(x) == x.len() ==> run_len(x + y) == x.len() + run_len(y),
    decreases x.len(),
{
    lemma_run_len_bound(x);
    if x.len() == 0 {
        assert(x + y =~= y);
    } else {
        assert((x + y)[0] == x[0]);
        if !is_space(x[0]) {
            assert((x + y).drop_first() =~= x.drop_first() + y);
            lemma_run_len_concat(x.drop_first(), y);
        }
    }
}

/// A single word splits into just itself.
pub proof fn law_word_is_one_word(w: Seq<char>)
    requires
        is_word(w),
    ensures
        words(w) == seq![w],
{
    lemma_run_len_exact(w, w.len() as int);
    assert(!is_space(w[0]));
    assert(w.take(w.len() as int) =~= w);
    assert(w.skip(w.len() as int) =~= Seq::<char>::empty());
    assert(words(w.skip(w.len() as int)) =~= Seq::<Seq<char>>::empty());
    assert(words(w) =~= seq![w]);
}

/// Splitting `x`, a space and a word gives the words of `x` and then that word.
pub proof fn law_words_of_appended_word(x: Seq<char>, w: Seq<char>)
    requires
        is_word(w),
    ensures
        words(x + seq![' '] + w) == words(x).push(w),
    decreases x.len(),
{
    let rest = seq![' '] + w;
    assert(x + seq![' '] + w =~= x + rest);
    let s = x + rest;
    if x.len() == 0 {
        assert(s =~= rest);
        assert(rest.drop_first() =~= w);
        law_word_is_one_word(w);
        assert(words(x).push(w) =~= seq![w]);
    } else if is_space(x[0]) {
        assert(s[0] == x[0]);
        assert(s.drop_first() =~= x.drop_first() + seq![' '] + w);
        law_words_of_appended_word(x.drop_first(), w);
    } else {
        assert(s[0] == x[0]);
        lemma_run_len_bound(x);
        lemma_run_len_concat(x, rest);
        let n = run_len(x);
        if n < x.len() {
            assert(run_len(s) == n);
            assert(s.take(n as int) =~= x.take(n as int));
            assert(s.skip(n as int) =~= x.skip(n as int) + seq![' '] + w);
            law_words_of_appended_word(x.skip(n as int), w);
            assert(words(s) =~= seq![x.take(n as int)] + words(x.skip(n as int)).push(w));
            assert(words(x) =~= seq![x.take(n as int)] + words(x.skip(n as int)));
            assert(words(s) =~= words(x).push(w));
        } else {
            assert(run_len(rest) == 0);
            assert(run_len(s) == x.len());
            assert(s.take(n as int) =~= x);
            assert(s.skip(n as int) =~= rest);
            assert(rest.drop_first() =~= w);
            law_word_is_one_word(w);
            assert(words(rest) == seq![w]);
            assert(x.take(n as int) =~= x);
            assert(x.skip(n as int) =~= Seq::<char>::empty());
            assert(words(x.skip(n as int)) =~= Seq::<Seq<char>>::empty());
            assert(words(x) =~= seq![x]);
            assert(words(s) =~= words(x).push(w));
        }
    }
}

/// Joining words with single spaces and splitting the result again gives
/// back the same words.
pub proof fn lemma_words_of_joined(ws: Seq<Seq<char>>)
    requires
        forall|i: int| 0 <= i < ws.len() ==> is_word(#[trigger] ws[i]),
    ensures
        words(joined_words(ws)) == ws,
    decreases ws.len(),
{
    if ws.len() == 0 {
        assert(words(Seq::<char>::empty()) =~= ws);
    } else if ws.len() == 1 {
        assert(is_word(ws[0]));
        law_word_is_one_word(ws[0]);
        assert(seq![ws[0]] =~= ws);
    } else {
        let init = ws.drop_last();
        assert forall|i: int| 0 <= i < init.len() implies is_word(#[trigger] init[i]) by {
            assert(init[i] == ws[i]);
        }
        lemma_words_of_joined(init);
        assert(is_word(ws.last()));
        law_words_of_appended_word(joined_words(init), ws.last());
        assert(init.push(ws.last()) =~= ws);
    }
}

/// The characters of each string of a list.
pub open spec fn views(v: Seq<String>) -> Seq<Seq<char>> {
    v.map_values(|s: String| s@)
}

/// The whitespace-separated words of `s`, in order.
pub fn split_words(s: &str) -> (r: Vec<String>)
    ensures
        views(r@) == words(s@),
{
    let n = s.unicode_len();
    let mut out: Vec<String> = Vec::new();
    let mut i: usize = 0;
    assert(s@.skip(0) =~= s@);
    while i < n
        invariant
            n == s@.len(),
            i <= n,
            views(out@) + words(s@.skip(i as int)) == words(s@),
        decreases n - i,
    {
        let t = Ghost(s@.skip(i as int));
        if char_is_space(s.get_char(i)) {
            assert(t@[0] == s@[i as int]);
            assert(t@.drop_first() =~= s@.skip(i + 1));
            i = i + 1;
        } else {
            let mut j: usize = i + 1;
            while j < n && !char_is_space(s.get_char(j))
                invariant
                    n == s@.len(),
                    i < j <= n,
                    forall|k: int| i <= k < j ==> !is_space(#[trigger] s@[k]),
                decreases n - j,
            {
                j = j + 1;
            }
            proof {
                assert forall|k: int| 0 <= k < j - i implies !is_space(#[trigger] t@[k]) by {
                    assert(t@[k] == s@[k + i]);
                }
                if j < n {
                    assert(t@[j - i] == s@[j as int]);
                }
                lemma_run_len_exact(t@, j - i);
                assert(t@[0] == s@[i as int]);
                assert(t@.take(j - i) =~= s@.subrange(i as int, j as int));
                assert(t@.skip(j - i) =~= s@.skip(j as int));
            }
            let word = owned(s.substring_char(i, j));
            let ghost before = out@;
            out.push(word);
            assert(views(out@) =~= views(before).push(word@));
            assert(views(out@) + words(s@.skip(j as int)) =~= views(before) + words(t@));
            i = j;
        }
    }
    assert(s@.skip(n as int) =~= Seq::<char>::empty());
    assert(views(out@) + Seq::<Seq<char>>::empty() =~= views(out@));
    out
}

/// The strings of `v` with a single space between each two neighbours.
pub fn join_with_spaces(v: &Vec<String>) -> (r: String)
    ensures
        r@ == joined_words(views(v@)),
{
    let mut r = String::new();
    let mut i: usize = 0;
    while i < v.len()
        invariant
            i <= v.len(),
            r@ == joined_words(views(v@.take(i as int))),
        decreases v.len() - i,
    {
        let ghost before = v@.take(i as int);
        let ghost after = v@.take(i + 1);
        assert(after.drop_last() =~= before);
        assert(views(after).drop_last() =~= views(before));
        if i > 0 {
            proof {
                reveal_strlit(" ");
            }
            r.append(" ");
        }
        r.append(v[i].as_str());
        assert(views(after).last() == v@[i as int]@);
        assert(r@ =~= joined_words(views(after)));
        i = i + 1;
    }
    assert(v@.take(v.len() as int) =~= v@);
    r
}

/// The characters of a run are not whitespace.
proof fn lemma_run_len_prefix(s: Seq<char>)
    ensures
        forall|k: int| 0 <= k < run_len(s) ==> !is_space(#[trigger] s[k]),
    decreases s.len(),
{
    if s.len() > 0 && !is_space(s[0]) {
        let t = s.drop_first();
        lemma_run_len_prefix(t);
        lemma_run_len_bound(s);
        assert forall|k: int| 0 <= k < run_len(s) implies !is_space(#[trigger] s[k]) by {
            if k > 0 {
                assert(s[k] == t[k - 1]);
            }
        }
    }
}

/// Everything that splitting gives is a word: not empty, without whitespace.
pub proof fn law_split_gives_words(s: Seq<char>)
    ensures
        forall|i: int| 0 <= i < words(s).len() ==> is_word(#[trigger] words(s)[i]),
    decreases s.len(),
{
    if s.len() > 0 {
        if is_space(s[0]) {
            law_split_gives_words(s.drop_first());
            assert(words(s) == words(s.drop_first()));
        } else {
            lemma_run_len_bound(s);
            lemma_run_len_prefix(s);
            let n = run_len(s);
            law_split_gives_words(s.skip(n as int));
            let w = s.take(n as int);
            assert forall|k: int| 0 <= k < w.len() implies !is_space(#[trigger] w[k]) by {
                assert(w[k] == s[k]);
            }
            let rest = words(s.skip(n as int));
            assert(words(s) == seq![w] + rest);
            assert(is_word(w));
            assert forall|i: int| 0 <= i < words(s).len() implies is_word(#[trigger] words(s)[i]) by {
                if i == 0 {
                    assert(words(s)[0] == w);
                } else {
                    assert(words(s)[i] == rest[i - 1]);
                }
            }
        }
    }
}

/// Splitting text, joining the words with single spaces and splitting again
/// gives the same words.
pub proof fn law_split_join_split(s: Seq<char>)
    ensures
        words(joined_words(words(s))) == words(s),
{
    law_split_gives_words(s);
    lemma_words_of_joined(words(s));
}

/// The characters of `s` that are not whitespace, in order.
pub open spec fn without_space(s: Seq<char>) -> Seq<char>
    decreases s.len(),
{
    if s.len() == 0 {
        Seq::empty()
    } else if is_space(s[0]) {
        without_space(s.drop_first())
    } else {
        seq![s[0]] + without_space(s.drop_first())
    }
}

/// The strings of `ws` one after the other.
pub open spec fn concat_all(ws: Seq<Seq<char>>) -> Seq<char>
    decreases ws.len(),
{
    if ws.len() == 0 {
        Seq::empty()
    } else {
        ws[0] + concat_all(ws.drop_first())
    }
}

proof fn lemma_without_space_run(s: Seq<char>, k: int)
    requires
        0 <= k <= s.len(),
        forall|i: int| 0 <= i < k ==> !is_space(#[trigger] s[i]),
    ensures
        without_space(s) == s.take(k) + without_space(s.skip(k)),
    decreases k,
{
    if k == 0 {
        assert(s.skip(0) =~= s);
        assert(s.take(0) + without_space(s) =~= without_space(s));
    } else {
        let t = s.drop_first();
        assert forall|i: int| 0 <= i < k - 1 implies !is_space(#[trigger] t[i]) by {
            assert(t[i] == s[i + 1]);
        }
        lemma_without_space_run(t, k - 1);
        assert(!is_space(s[0]));
        assert(t.skip(k - 1) =~= s.skip(k));
        assert(s.take(k) =~= seq![s[0]] + t.take(k - 1));
        assert(without_space(s) =~= seq![s[0]] + (t.take(k - 1) + without_space(t.skip(k - 1))));
    }
}

/// The words of a text, put one after the other, are its characters
/// without the whitespace.
pub proof fn law_words_cover_text(s: Seq<char>)
    ensures
        concat_all(words(s)) == without_space(s),
    decreases s.len(),
{
    if s.len() == 0 {
        assert(concat_all(words(s)) =~= without_space(s));
    } else if is_space(s[0]) {
        law_words_cover_text(s.drop_first());
    } else {
        lemma_run_len_bound(s);
        lemma_run_len_prefix(s);
        let n = run_len(s);
        let rest = words(s.skip(n as int));
        law_words_cover_text(s.skip(n as int));
        lemma_without_space_run(s, n as int);
        let ws = seq![s.take(n as int)] + rest;
        assert(words(s) == ws);
        assert(ws[0] == s.take(n as int));
        assert(ws.drop_first() =~= rest);
    }
}

} // verus!
