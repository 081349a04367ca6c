//! Character-level helpers on strings, each proved against a small spec.

use vstd::prelude::*;

verus! {

/// The characters that Rust's `char::is_whitespace` accepts: the Unicode
/// `White_Space` property.
pub open spec fn is_space(c: char) -> bool {
    ||| c == '\t'
    ||| c == '\n'
    ||| c == '\u{b}'
    ||| c == '\u{c}'
    ||| c == '\r'
    ||| c == ' '
    ||| c == '\u{85}'
    ||| c == '\u{a0}'
    ||| c == '\u{1680}'
    ||| ('\u{2000}' <= c && c <= '\u{200a}')
    ||| c == '\u{2028}'
    ||| c == '\u{2029}'
    ||| c == '\u{202f}'
    ||| c == '\u{205f}'
    ||| c == '\u{3000}'
}

/// Whether `c` is a whitespace character.
pub fn char_is_space(c: char) -> (r: bool)
    ensures
        r == is_space(c),
{
    c == '\t' || c == '\n' || c == '\u{b}' || c == '\u{c}' || c == '\r' || c == ' ' || c
        == '\u{85}' || c == '\u{a0}' || c == '\u{1680}' || ('\u{2000}' <= c && c <= '\u{200a}')
        || c == '\u{2028}' || c == '\u{2029}' || c == '\u{202f}' || c == '\u{205f}' || c
        == '\u{3000}'
}

/// Whether two strings hold the same characters.
pub fn str_equal(a: &str, b: &str) -> (r: bool)
    ensures
        r == (a@ == b@),
{
    let n = a.unicode_len();
    let m = b.unicode_len();
    if n != m {
        return false;
    }
    let mut i: usize = 0;
    while i < n
        invariant
            n == a@.len(),
            m == b@.len(),
            n == m,
            i <= n,
            forall|k: int| 0 <= k < i ==> a@[k] == b@[k],
        decreases n - i,
    {
        if a.get_char(i) != b.get_char(i) {
            return false;
        }
        i = i + 1;
    }
    assert(a@ =~= b@);
    true
}

/// Whether the last character of `s` is `c`.
pub fn ends_with_char(s: &str, c: char) -> (r: bool)
    ensures
        r == (s@.len() > 0 && s@.last() == c),
{
    let n = s.unicode_len();
    n > 0 && s.get_char(n - 1) == c
}

/// A fresh `String` with the characters of `s`.
pub fn owned(s: &str) -> (r: String)
    ensures
        r@ == s@,
{
    String::from_str(s)
}

/// `a` followed by `b`.
pub fn concat2(a: &str, b: &str) -> (r: String)
    ensures
        r@ == a@ + b@,
{
    let mut r = String::from_str(a);
    r.append(b);
    r
}

/// `a`, then `b`, then `c`.
pub fn concat3(a: &str, b: &str, c: &str) -> (r: String)
    ensures
        r@ == a@ + b@ + c@,
{
    let mut r = String::from_str(a);
    r.append(b);
    r.append(c);
    r
}

/// The character that stands for the decimal digit `d`.
pub open spec fn digit_char(d: nat) -> char {
    if d == 0 {
        '0'
    } else if d == 1 {
        '1'
    } else if d == 2 {
        '2'
    } else if d == 3 {
        '3'
    } else if d == 4 {
        '4'
    } else if d == 5 {
        '5'
    } else if d == 6 {
        '6'
    } else if d == 7 {
        '7'
    } else if d == 8 {
        '8'
    } else {
        '9'
    }
}

/// The decimal notation of `n`, without sign or leading zeros.
pub open spec fn decimal(n: nat) -> Seq<char>
    decreases n,
{
    if n < 10 {
        seq![digit_char(n)]
    } else {
        decimal(n / 10) + seq![digit_char(n % 10)]
    }
}

fn digit_str(d: u32) -> (r: &'static str)
    requires
        d < 10,
    ensures
        r@ == seq![digit_char(d as nat)],
{
    if d == 0 {
        proof {
            reveal_strlit("0");
        }
        "0"
    } else if d == 1 {
        proof {
            reveal_strlit("1");
        }
        "1"
    } else if d == 2 {
        proof {
            reveal_strlit("2");
        }
        "2"
    } else if d == 3 {
        proof {
            reveal_strlit("3");
        }
        "3"
    } else if d == 4 {
        proof {
            reveal_strlit("4");
        }
        "4"
    } else if d == 5 {
        proof {
            reveal_strlit("5");
        }
        "5"
    } else if d == 6 {
        proof {
            reveal_strlit("6");
        }
        "6"
    } else if d == 7 {
        proof {
            reveal_strlit("7");
        }
        "7"
    } else if d == 8 {
        proof {
            reveal_strlit("8");
        }
        "8"
    } else {
        proof {
            reveal_strlit("9");
        }
        "9"
    }
}

/// The decimal notation of `n`, as `n.to_string()` writes it.
pub fn decimal_string(n: u32) -> (r: String)
    ensures
        r@ == decimal(n as nat),
    decreases n,
{
    if n < 10 {
        owned(digit_str(n))
    } else {
        let mut r = decimal_string(n / 10);
        r.append(digit_str(n % 10));
        r
    }
}

/// The number of whitespace characters at the front of `s`.
pub open spec fn leading_space(s: Seq<char>) -> nat
    decreases s.len(),
{
    if s.len() == 0 || !is_space(s[0]) {
        0
    } else {
        1 + leading_space(s.drop_first())
    }
}

/// The number of whitespace characters at the end of `s`.
pub open spec fn trailing_space(s: Seq<char>) -> nat
    decreases s.len(),
{
    if s.len() == 0 || !is_space(s.last()) {
        0
    } else {
        1 + trailing_space(s.drop_last())
    }
}

/// `s` without its leading and trailing whitespace, as `str::trim` gives it.
pub open spec fn trimmed(s: Seq<char>) -> Seq<char> {
    let t = s.skip(leading_space(s) as int);
    t.take(t.len() - trailing_space(t))
}

proof fn lemma_leading_space(s: Seq<char>, i: int)
    requires
        0 <= i <= s.len(),
        forall|k: int| 0 <= k < i ==> is_space(#[trigger] s[k]),
        i == s.len() || !is_space(s[i]),
    ensures
        leading_space(s) == i,
    decreases i,
{
    if i > 0 {
        assert(is_space(s[0]));
        let t = s.drop_first();
        assert forall|k: int| 0 <= k < i - 1 implies is_space(#[trigger] t[k]) by {
            assert(t[k] == s[k + 1]);
        }
        if i < s.len() {
            assert(t[i - 1] == s[i]);
        }
        lemma_leading_space(t, i - 1);
    }
}

proof fn lemma_trailing_space(s: Seq<char>, j: int)
    requires
        0 <= j <= s.len(),
        forall|k: int| j <= k < s.len() ==> is_space(#[trigger] s[k]),
        j == 0 || !is_space(s[j - 1]),
    ensures
        trailing_space(s) == s.len() - j,
    decreases s.len() - j,
{
    if j < s.len() {
        assert(is_space(s.last()));
        let t = s.drop_last();
        assert forall|k: int| j <= k < t.len() implies is_space(#[trigger] t[k]) by {
            assert(t[k] == s[k]);
        }
        if j > 0 {
            assert(t[j - 1] == s[j - 1]);
        }
        lemma_trailing_space(t, j);
    }
}

/// `s` without leading and trailing whitespace.
pub fn trim(s: &str) -> (r: String)
    ensures
        r@ == trimmed(s@),
{
    let n = s.unicode_len();
    let mut i: usize = 0;
    while i < n && char_is_space(s.get_char(i))
        invariant
            n == s@.len(),
            i <= n,
            forall|k: int| 0 <= k < i ==> is_space(#[trigger] s@[k]),
        decreases n - i,
    {
        i = i + 1;
    }
    proof {
        lemma_leading_space(s@, i as int);
    }
    let mut j: usize = n;
    while j > i && char_is_space(s.get_char(j - 1))
        invariant
            n == s@.len(),
            i <= j <= n,
            forall|k: int| j <= k < n ==> is_space(#[trigger] s@[k]),
        decreases j,
    {
        j = j - 1;
    }
    let ghost t = s@.skip(i as int);
    proof {
        assert forall|k: int| j - i <= k < t.len() implies is_space(#[trigger] t[k]) by {
            assert(t[k] == s@[k + i]);
        }
        if j > i {
            assert(t[j - i - 1] == s@[j - 1]);
        }
        lemma_trailing_space(t, j - i);
    }
    let r = owned(s.substring_char(i, j));
    assert(r@ =~= trimmed(s@));
    r
}

/// Whether `s` neither starts nor ends with whitespace.
pub open spec fn no_outer_space(s: Seq<char>) -> bool {
    s.len() == 0 || (!is_space(s[0]) && !is_space(s.last()))
}

/// Trimming leaves text without surrounding whitespace as it is.
pub proof fn law_trim_keeps_bare_text(s: Seq<char>)
    requires
        no_outer_space(s),
    ensures
        trimmed(s) == s,
{
    assert(leading_space(s) == 0);
    assert(s.skip(0) =~= s);
    assert(trailing_space(s) == 0);
    assert(s.take(s.len() as int) =~= s);
}

/// Trimming twice is trimming once.
pub proof fn law_trim_idempotent(s: Seq<char>)
    ensures
        trimmed(trimmed(s)) == trimmed(s),
{
    lemma_trimmed_bare(s);
    law_trim_keeps_bare_text(trimmed(s));
}

proof fn lemma_leading_bound(s: Seq<char>)
    ensures
        leading_space(s) <= s.len(),
        forall|k: int| 0 <= k < leading_space(s) ==> is_space(#[trigger] s[k]),
        leading_space(s) < s.len() ==> !is_space(s[leading_space(s) as int]),
    decreases s.len(),
{
    if s.len() > 0 && is_space(s[0]) {
        let t = s.drop_first();
        lemma_leading_bound(t);
        assert forall|k: int| 0 <= k < leading_space(s) implies is_space(#[trigger] s[k]) by {
            if k > 0 {
                assert(s[k] == t[k - 1]);
            }
        }
        if leading_space(s) < s.len() {
            assert(s[leading_space(s) as int] == t[leading_space(t) as int]);
        }
    }
}

proof fn lemma_trailing_bound(s: Seq<char>)
    ensures
        trailing_space(s) <= s.len(),
        trailing_space(s) < s.len() ==> !is_space(s[s.len() - trailing_space(s) - 1]),
        forall|k: int| s.len() - trailing_space(s) <= k < s.len() ==> is_space(#[trigger] s[k]),
    decreases s.len(),
{
    if s.len() > 0 && is_space(s.last()) {
        let t = s.drop_last();
        lemma_trailing_bound(t);
        assert forall|k: int| s.len() - trailing_space(s) <= k < s.len() implies is_space(
            #[trigger] s[k],
        ) by {
            if k < s.len() - 1 {
                assert(s[k] == t[k]);
            }
        }
        if trailing_space(s) < s.len() {
            assert(s[s.len() - trailing_space(s) - 1] == t[t.len() - trailing_space(t) - 1]);
        }
    }
}

/// What trimming gives has no surrounding whitespace.
pub proof fn lemma_trimmed_bare(s: Seq<char>)
    ensures
        no_outer_space(trimmed(s)),
{
    lemma_leading_bound(s);
    let a = leading_space(s);
    let t = s.skip(a as int);
    lemma_trailing_bound(t);
    let r = trimmed(s);
    if r.len() > 0 {
        assert(r[0] == t[0]);
        assert(t[0] == s[a as int]);
        assert(r.last() == t[t.len() - trailing_space(t) - 1]);
    }
}

/// Trimming takes away whitespace at both ends and nothing else: what it
/// gives is a stretch of the text, everything before and after that
/// stretch is whitespace, and the stretch neither starts nor ends with
/// whitespace.
pub proof fn law_trim_removes_outer_space(s: Seq<char>)
    ensures
        exists|a: int, b: int|
            {
                &&& 0 <= a <= b <= s.len()
                &&& trimmed(s) == s.subrange(a, b)
                &&& forall|k: int| 0 <= k < a ==> is_space(#[trigger] s[k])
                &&& forall|k: int| b <= k < s.len() ==> is_space(#[trigger] s[k])
            },
        no_outer_space(trimmed(s)),
{
    lemma_trimmed_bare(s);
    lemma_leading_bound(s);
    let a = leading_space(s) as int;
    let t = s.skip(a);
    lemma_trailing_bound(t);
    let b = a + t.len() - trailing_space(t);
    assert(trimmed(s) =~= s.subrange(a, b));
    assert forall|k: int| b <= k < s.len() implies is_space(#[trigger] s[k]) by {
        assert(s[k] == t[k - a]);
    }
}

/// The number that a string of decimal digits denotes.
pub open spec fn digits_value(s: Seq<char>) -> int
    decreases s.len(),
{
    if s.len() == 0 {
        0
    } else {
        digits_value(s.drop_last()) * 10 + (s.last() as int - '0' as int)
    }
}

/// Whether every character of `s` is one of `0` to `9`.
pub open spec fn all_digits(s: Seq<char>) -> bool {
    forall|i: int| 0 <= i < s.len() ==> '0' <= #[trigger] s[i] && s[i] <= '9'
}

/// The character of each decimal digit has the code of `0` plus the digit.
pub proof fn law_digit_char_code(d: nat)
    requires
        d < 10,
    ensures
        digit_char(d) as int == '0' as int + d,
{
    assert('1' as int == '0' as int + 1);
    assert('2' as int == '0' as int + 2);
    assert('3' as int == '0' as int + 3);
    assert('4' as int == '0' as int + 4);
    assert('5' as int == '0' as int + 5);
    assert('6' as int == '0' as int + 6);
    assert('7' as int == '0' as int + 7);
    assert('8' as int == '0' as int + 8);
    assert('9' as int == '0' as int + 9);
}

/// The decimal notation of `n` is made of digits only, starts with a
/// nonzero digit unless `n` is zero, and denotes `n`.
pub proof fn law_decimal_denotes(n: nat)
    ensures
        all_digits(decimal(n)),
        digits_value(decimal(n)) == n,
        decimal(n).len() >= 1,
        n > 0 ==> decimal(n)[0] != '0',
    decreases n,
{
    if n < 10 {
        law_digit_char_code(n);
        assert(decimal(n) == seq![digit_char(n)]);
        assert(seq![digit_char(n)].drop_last() =~= Seq::<char>::empty());
        assert(digits_value(Seq::<char>::empty()) == 0);
    } else {
        law_decimal_denotes(n / 10);
        law_digit_char_code(n % 10);
        let d = decimal(n / 10);
        let s = d + seq![digit_char(n % 10)];
        assert(s.drop_last() =~= d);
        assert(s.last() == digit_char(n % 10));
        assert(s[0] == d[0]);
        assert forall|i: int| 0 <= i < s.len() implies '0' <= #[trigger] s[i] && s[i] <= '9' by {
            if i < d.len() {
                assert(s[i] == d[i]);
            }
        }
        assert(n / 10 * 10 + n % 10 == n);
    }
}

} // verus!
