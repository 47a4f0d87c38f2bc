//! Character and string helpers used by resolution and rendering:
//! case-insensitive word matching, locating a separator, reading an unsigned
//! decimal, and rendering one.

use vstd::prelude::*;
use vstd::string::*;

verus! {

/// `c` matches `w` ignoring ASCII case, where `w` is the lowercase form:
/// either the characters are equal or `c` is the ASCII uppercase of `w`.
pub open spec fn matches_ci(c: char, w: char) -> bool {
    c == w || (65 <= c as u32 && c as u32 <= 90 && c as u32 + 32 == w as u32)
}

/// Character-wise ASCII-case-insensitive equality of `s` with a lowercase
/// word `w`.
pub open spec fn eq_ignore_ascii_case(s: Seq<char>, w: Seq<char>) -> bool {
    s.len() == w.len() && (forall|i: int| 0 <= i < s.len() ==> matches_ci(s[i], #[trigger] w[i]))
}

fn char_matches_ci(c: char, w: char) -> (r: bool)
    ensures
        r == matches_ci(c, w),
{
    let cu: u32 = c as u32;
    let wu: u32 = w as u32;
    c == w || (65 <= cu && cu <= 90 && cu + 32 == wu)
}

/// Whether `s` equals `w` up to ASCII case, `w` given in lowercase.
pub fn str_eq_ignore_ascii_case(s: &str, w: &str) -> (r: bool)
    ensures
        r == eq_ignore_ascii_case(s@, w@),
{
    let n: usize = s.unicode_len();
    let m: usize = w.unicode_len();
    if n != m {
        return false;
    }
    let mut i: usize = 0;
    while i < n
        invariant
            i <= n,
            n == s@.len(),
            n == w@.len(),
            forall|j: int| 0 <= j < i ==> matches_ci(s@[j], #[trigger] w@[j]),
        decreases n - i,
    {
        if !char_matches_ci(s.get_char(i), w.get_char(i)) {
            return false;
        }
        i += 1;
    }
    true
}

/// Whether the character `c` occurs in `s`.
pub fn str_contains_char(s: &str, c: char) -> (r: bool)
    ensures
        r == s@.contains(c),
{
    let n: usize = s.unicode_len();
    let mut i: usize = 0;
    while i < n
        invariant
            i <= n,
            n == s@.len(),
            forall|j: int| 0 <= j < i ==> s@[j] != c,
        decreases n - i,
    {
        if s.get_char(i) == c {
            proof {
                assert(s@[i as int] == c);
            }
            return true;
        }
        i += 1;
    }
    false
}

/// Index of the first occurrence of `c` in `s`, or `s.len()` if absent.
pub open spec fn first_index_of(s: Seq<char>, c: char) -> int
    decreases s.len(),
{
    if s.len() == 0 {
        0
    } else if s[0] == c {
        0
    } else {
        1 + first_index_of(s.drop_first(), c)
    }
}

proof fn lemma_first_index_of(s: Seq<char>, c: char, i: int)
    requires
        0 <= i <= s.len(),
        forall|j: int| 0 <= j < i ==> s[j] != c,
        i == s.len() || s[i] == c,
    ensures
        first_index_of(s, c) == i,
    decreases i,
{
    if s.len() == 0 {
    } else if i == 0 {
    } else {
        assert(s[0] != c);
        lemma_first_index_of(s.drop_first(), c, i - 1);
    }
}

/// Find the first occurrence of `c` in `s`; returns `s@.len()` if absent.
pub fn find_char(s: &str, c: char) -> (r: usize)
    ensures
        r as int == first_index_of(s@, c),
        r <= s@.len(),
        r < s@.len() ==> s@[r as int] == c,
        forall|j: int| 0 <= j < r ==> s@[j] != c,
{
    let n: usize = s.unicode_len();
    let mut i: usize = 0;
    while i < n
        invariant
            i <= n,
            n == s@.len(),
            forall|j: int| 0 <= j < i ==> s@[j] != c,
        decreases n - i,
    {
        if s.get_char(i) == c {
            proof {
                lemma_first_index_of(s@, c, i as int);
            }
            return i;
        }
        i += 1;
    }
    proof {
        lemma_first_index_of(s@, c, n as int);
    }
    n
}

/// Whether `c` is a decimal digit.
pub open spec fn is_ascii_digit_char(c: char) -> bool {
    48 <= c as u32 <= 57
}

/// Numeric value of a digit character; zero on anything else.
pub open spec fn digit_value(c: char) -> nat {
    if is_ascii_digit_char(c) {
        (c as u32 - 48) as nat
    } else {
        0
    }
}

/// Value of a digit string read most-significant first.
pub open spec fn digits_value(s: Seq<char>) -> nat
    decreases s.len(),
{
    if s.len() == 0 {
        0
    } else {
        digits_value(s.drop_last()) * 10 + digit_value(s.last())
    }
}

/// Whether every character of `s` is a decimal digit.
pub open spec fn all_ascii_digits(s: Seq<char>) -> bool {
    forall|i: int| 0 <= i < s.len() ==> is_ascii_digit_char(#[trigger] s[i])
}

/// The digit portion of a decimal literal: everything after one optional
/// leading plus sign.
pub open spec fn digits_part(s: Seq<char>) -> Seq<char> {
    if s.len() > 0 && s[0] == '+' {
        s.drop_first()
    } else {
        s
    }
}

/// What reading `s` as an unsigned decimal yields: the digits' value when
/// `s` is an optional plus sign followed by one or more digits and the value
/// fits, nothing otherwise.
pub open spec fn parse_usize_spec(s: Seq<char>) -> Option<usize> {
    let d = digits_part(s);
    if d.len() > 0 && all_ascii_digits(d) && digits_value(d) <= usize::MAX {
        Some(digits_value(d) as usize)
    } else {
        None
    }
}

proof fn lemma_digits_value_take_le(s: Seq<char>, k: int)
    requires
        0 <= k <= s.len(),
    ensures
        digits_value(s.take(k)) <= digits_value(s),
    decreases s.len() - k,
{
    if k == s.len() {
        assert(s.take(k) =~= s);
    } else {
        assert(s.take(k + 1).drop_last() =~= s.take(k));
        assert(s.take(k + 1).last() == s[k]);
        lemma_digits_value_take_le(s, k + 1);
    }
}

/// Read `s` as an unsigned decimal number.
pub fn parse_usize(s: &str) -> (r: Option<usize>)
    ensures
        r == parse_usize_spec(s@),
{
    let n: usize = s.unicode_len();
    let start: usize = if n > 0 && s.get_char(0) == '+' {
        1
    } else {
        0
    };
    let ghost d: Seq<char> = digits_part(s@);
    proof {
        assert(d =~= s@.subrange(start as int, n as int));
    }
    if start == n {
        return None;
    }
    let mut acc: usize = 0;
    let mut i: usize = start;
    while i < n
        invariant
            start <= i <= n,
            n == s@.len(),
            d == digits_part(s@),
            d =~= s@.subrange(start as int, n as int),
            all_ascii_digits(d.take(i - start)),
            acc as nat == digits_value(d.take(i - start)),
        decreases n - i,
    {
        let c = s.get_char(i);
        let cu: u32 = c as u32;
        proof {
            assert(0 <= i - start < d.len());
            assert(d[i - start] == s@[i as int]);
        }
        if !(48 <= cu && cu <= 57) {
            proof {
                assert(!is_ascii_digit_char(d[i - start]));
                assert(!all_ascii_digits(d));
            }
            return None;
        }
        let dv: usize = (cu - 48) as usize;
        proof {
            assert(is_ascii_digit_char(d[i - start]));
            assert(digit_value(d[i - start]) == dv as nat);
            assert(d.take(i - start + 1).drop_last() =~= d.take(i - start));
            assert(d.take(i - start + 1).last() == d[i - start]);
            assert(digits_value(d.take(i - start + 1)) == acc as nat * 10 + dv as nat);
        }
        match acc.checked_mul(10) {
            None => {
                proof {
                    assert(acc as nat * 10 + dv as nat > usize::MAX);
                    lemma_digits_value_take_le(d, i - start + 1);
                    assert(digits_value(d) > usize::MAX);
                }
                return None;
            }
            Some(a10) => {
                match a10.checked_add(dv) {
                    None => {
                        proof {
                            assert(acc as nat * 10 + dv as nat > usize::MAX);
                            lemma_digits_value_take_le(d, i - start + 1);
                            assert(digits_value(d) > usize::MAX);
                        }
                        return None;
                    }
                    Some(v) => {
                        acc = v;
                    }
                }
            }
        }
        proof {
            assert(all_ascii_digits(d.take(i + 1 - start))) by {
                assert(forall|j: int|
                    0 <= j < i + 1 - start ==> is_ascii_digit_char(#[trigger] d.take(i + 1 - start)[j]));
            }
        }
        i += 1;
    }
    proof {
        assert(d.take(n - start) =~= d);
    }
    Some(acc)
}

/// The digit character for a value below ten.
pub open spec fn decimal_digit_char(d: nat) -> char {
    if d == 0 {
        '0'
    } else if d == 1 {
        '1'
    } else if d == 2 {
        '2'
    } else if d == 3 {
        '3'
    } else if d == 4 {
        '4'
    } else if d == 5 {
        '5'
    } else if d == 6 {
        '6'
    } else if d == 7 {
        '7'
    } else if d == 8 {
        '8'
    } else {
        '9'
    }
}

/// Decimal rendering of `n`, most significant digit first, no leading zeros
/// (a single zero for zero itself).
pub open spec fn decimal_str(n: nat) -> Seq<char>
    decreases n,
{
    if n < 10 {
        seq![decimal_digit_char(n)]
    } else {
        decimal_str(n / 10) + seq![decimal_digit_char(n % 10)]
    }
}

fn decimal_digit_literal(d: usize) -> (r: &'static str)
    requires
        d < 10,
    ensures
        r@ == seq![decimal_digit_char(d as nat)],
{
    if d == 0 {
        proof {
            reveal_strlit("0");
            assert("0"@ =~= seq![decimal_digit_char(0)]);
        }
        "0"
    } else if d == 1 {
        proof {
            reveal_strlit("1");
            assert("1"@ =~= seq![decimal_digit_char(1)]);
        }
        "1"
    } else if d == 2 {
        proof {
            reveal_strlit("2");
            assert("2"@ =~= seq![decimal_digit_char(2)]);
        }
        "2"
    } else if d == 3 {
        proof {
            reveal_strlit("3");
            assert("3"@ =~= seq![decimal_digit_char(3)]);
        }
        "3"
    } else if d == 4 {
        proof {
            reveal_strlit("4");
            assert("4"@ =~= seq![decimal_digit_char(4)]);
        }
        "4"
    } else if d == 5 {
        proof {
            reveal_strlit("5");
            assert("5"@ =~= seq![decimal_digit_char(5)]);
        }
        "5"
    } else if d == 6 {
        proof {
            reveal_strlit("6");
            assert("6"@ =~= seq![decimal_digit_char(6)]);
        }
        "6"
    } else if d == 7 {
        proof {
            reveal_strlit("7");
            assert("7"@ =~= seq![decimal_digit_char(7)]);
        }
        "7"
    } else if d == 8 {
        proof {
            reveal_strlit("8");
            assert("8"@ =~= seq![decimal_digit_char(8)]);
        }
        "8"
    } else {
        proof {
            reveal_strlit("9");
            assert("9"@ =~= seq![decimal_digit_char(9)]);
        }
        "9"
    }
}

/// Append the decimal rendering of `n` to `out`.
pub fn push_decimal(out: &mut String, n: usize)
    ensures
        final(out)@ == old(out)@ + decimal_str(n as nat),
    decreases n,
{
    if n >= 10 {
        push_decimal(out, n / 10);
    }
    let lit = decimal_digit_literal(n % 10);
    out.append(lit);
    proof {
        if n >= 10 {
            assert(out@ =~= old(out)@ + decimal_str(n as nat));
        } else {
            assert(decimal_str(n as nat) == seq![decimal_digit_char(n as nat)]);
            assert(out@ =~= old(out)@ + decimal_str(n as nat));
        }
    }
}

} // verus!
