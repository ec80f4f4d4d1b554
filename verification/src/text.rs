//! Text helpers with exact contracts: comparison, joining, decimal digits of
//! integers, and the first-segment and fraction-cutting rules the dashboard
//! uses on strings.
use vstd::prelude::*;

verus! {

/// Whether `a` and `b` hold the same characters.
pub fn text_eq(a: &str, b: &str) -> (r: bool)
    ensures
        r == (a@ == b@),
{
    let n = a.unicode_len();
    let m = b.unicode_len();
    if n != m {
        return false;
    }
    let mut i: usize = 0;
    while i < n
        invariant
            n == a@.len(),
            m == b@.len(),
            n == m,
            i <= n,
            forall|j: int| 0 <= j < i ==> a@[j] == b@[j],
        decreases n - i,
    {
        if a.get_char(i) != b.get_char(i) {
            return false;
        }
        i = i + 1;
    }
    assert(a@ =~= b@);
    true
}

/// `a` followed by `b`, as a new string.
pub fn join2(a: &str, b: &str) -> (r: String)
    ensures
        r@ == a@ + b@,
{
    let mut s = String::from_str(a);
    s.append(b);
    s
}

/// `a`, `b` and `c` one after the other, as a new string.
pub fn join3(a: &str, b: &str, c: &str) -> (r: String)
    ensures
        r@ == a@ + b@ + c@,
{
    let mut s = String::from_str(a);
    s.append(b);
    s.append(c);
    s
}

/// The character of a decimal digit.
pub open spec fn digit_char(d: nat) -> char {
    if d == 0 {
        '0'
    } else if d == 1 {
        '1'
    } else if d == 2 {
        '2'
    } else if d == 3 {
        '3'
    } else if d == 4 {
        '4'
    } else if d == 5 {
        '5'
    } else if d == 6 {
        '6'
    } else if d == 7 {
        '7'
    } else if d == 8 {
        '8'
    } else {
        '9'
    }
}

/// The decimal digits of `n`, most significant first, with no leading zeros.
pub open spec fn decimal_text(n: nat) -> Seq<char>
    decreases n,
{
    if n < 10 {
        seq![digit_char(n)]
    } else {
        decimal_text(n / 10).push(digit_char(n % 10))
    }
}

fn digit_str(d: u64) -> (r: &'static str)
    requires
        d < 10,
    ensures
        r@ == seq![digit_char(d as nat)],
{
    proof {
        reveal_strlit("0");
        reveal_strlit("1");
        reveal_strlit("2");
        reveal_strlit("3");
        reveal_strlit("4");
        reveal_strlit("5");
        reveal_strlit("6");
        reveal_strlit("7");
        reveal_strlit("8");
        reveal_strlit("9");
    }
    if d == 0 {
        "0"
    } else if d == 1 {
        "1"
    } else if d == 2 {
        "2"
    } else if d == 3 {
        "3"
    } else if d == 4 {
        "4"
    } else if d == 5 {
        "5"
    } else if d == 6 {
        "6"
    } else if d == 7 {
        "7"
    } else if d == 8 {
        "8"
    } else {
        "9"
    }
}

/// `n` written in decimal, as `{}` formats an unsigned integer.
pub fn u64_text(n: u64) -> (r: String)
    ensures
        r@ == decimal_text(n as nat),
    decreases n,
{
    if n < 10 {
        String::from_str(digit_str(n))
    } else {
        let mut s = u64_text(n / 10);
        s.append(digit_str(n % 10));
        s
    }
}

/// How many times `c` occurs in `s`.
pub open spec fn count_char(s: Seq<char>, c: char) -> nat
    decreases s.len(),
{
    if s.len() == 0 {
        0
    } else {
        count_char(s.drop_last(), c) + if s.last() == c {
            1nat
        } else {
            0nat
        }
    }
}

/// The position of the first `c` in `s` (the length when there is none).
pub open spec fn first_index_of(s: Seq<char>, c: char) -> nat
    decreases s.len(),
{
    if s.len() == 0 {
        0
    } else if s[0] == c {
        0
    } else {
        1 + first_index_of(s.drop_first(), c)
    }
}

pub open spec fn min_nat(a: nat, b: nat) -> nat {
    if a <= b {
        a
    } else {
        b
    }
}

/// A number's text with its fractional part cut to at most two characters:
/// when the text splits at `.` into exactly two parts, the first part, a `.`,
/// and at most the first two characters of the second part; otherwise the
/// text unchanged.
pub open spec fn cut_fraction(s: Seq<char>) -> Seq<char> {
    if count_char(s, '.') == 1 {
        let i = first_index_of(s, '.') as int;
        let frac = s.subrange(i + 1, s.len() as int);
        s.subrange(0, i) + seq!['.'] + frac.take(min_nat(2, frac.len()) as int)
    } else {
        s
    }
}

/// The part of `s` before its first `c` (all of `s` when there is none).
pub open spec fn first_segment(s: Seq<char>, c: char) -> Seq<char> {
    s.take(first_index_of(s, c) as int)
}

proof fn lemma_count_prefix_step(s: Seq<char>, c: char, i: int)
    requires
        0 <= i < s.len(),
    ensures
        count_char(s.take(i + 1), c) == count_char(s.take(i), c) + if s[i] == c {
            1nat
        } else {
            0nat
        },
{
    assert(s.take(i + 1).drop_last() =~= s.take(i));
}

proof fn lemma_first_index_bound(s: Seq<char>, c: char)
    ensures
        first_index_of(s, c) <= s.len(),
        first_index_of(s, c) < s.len() ==> s[first_index_of(s, c) as int] == c,
        forall|j: int| 0 <= j < first_index_of(s, c) ==> s[j] != c,
    decreases s.len(),
{
    if s.len() > 0 && s[0] != c {
        lemma_first_index_bound(s.drop_first(), c);
        assert forall|j: int| 0 <= j < first_index_of(s, c) implies s[j] != c by {
            if j > 0 {
                assert(s[j] == s.drop_first()[j - 1]);
            }
        }
    }
}

pub proof fn lemma_first_index_exact(s: Seq<char>, c: char, k: int)
    requires
        0 <= k <= s.len(),
        k < s.len() ==> s[k] == c,
        forall|j: int| 0 <= j < k ==> s[j] != c,
    ensures
        first_index_of(s, c) == k,
    decreases s.len(),
{
    if s.len() > 0 && k > 0 {
        assert(s[0] != c);
        assert forall|j: int| 0 <= j < k - 1 implies s.drop_first()[j] != c by {
            assert(s.drop_first()[j] == s[j + 1]);
        }
        if k - 1 < s.drop_first().len() {
            assert(s.drop_first()[k - 1] == s[k]);
        }
        lemma_first_index_exact(s.drop_first(), c, k - 1);
    }
}

/// Counts the `c` characters of `s` and finds the first one.
fn scan_char(s: &str, c: char) -> (r: (usize, usize))
    ensures
        r.0 == count_char(s@, c),
        r.1 == first_index_of(s@, c),
        r.0 > 0 ==> r.1 < s@.len(),
{
    let n = s.unicode_len();
    let mut count: usize = 0;
    let mut first: usize = n;
    let mut i: usize = 0;
    while i < n
        invariant
            n == s@.len(),
            i <= n,
            count == count_char(s@.take(i as int), c),
            count <= i,
            first == n ==> forall|j: int| 0 <= j < i ==> s@[j] != c,
            first < n ==> first < i && s@[first as int] == c && forall|j: int|
                0 <= j < first ==> s@[j] != c,
            first <= n,
            first == n ==> count == 0,
        decreases n - i,
    {
        proof {
            lemma_count_prefix_step(s@, c, i as int);
        }
        if s.get_char(i) == c {
            if first == n {
                first = i;
            }
            count = count + 1;
        }
        i = i + 1;
    }
    assert(s@.take(n as int) =~= s@);
    proof {
        lemma_first_index_exact(s@, c, first as int);
    }
    (count, first)
}

/// Cuts the fractional part of a number's text to at most two characters,
/// as the dashboard shows amounts.
pub fn cut_fraction_text(s: &str) -> (r: String)
    ensures
        r@ == cut_fraction(s@),
{
    let (count, first) = scan_char(s, '.');
    if count == 1 {
        proof {
            lemma_first_index_bound(s@, '.');
        }
        let n = s.unicode_len();
        let frac_len = n - first - 1;
        let keep = if frac_len < 2 {
            frac_len
        } else {
            2
        };
        let head = s.substring_char(0, first);
        let tail = s.substring_char(first + 1, first + 1 + keep);
        let mut out = String::from_str(head);
        out.append(".");
        out.append(tail);
        proof {
            reveal_strlit(".");
            let frac = s@.subrange(first + 1, n as int);
            assert(tail@ =~= frac.take(keep as int));
        }
        out
    } else {
        String::from_str(s)
    }
}

/// The part of `s` before its first `c`, as `s.split(c).next()` yields it.
pub fn first_segment_text(s: &str, c: char) -> (r: String)
    ensures
        r@ == first_segment(s@, c),
{
    let (_count, first) = scan_char(s, c);
    proof {
        lemma_first_index_bound(s@, c);
    }
    String::from_str(s.substring_char(0, first))
}

} // verus!
