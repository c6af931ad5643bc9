//! Text building blocks: decimal numbers written and read, substring search
//! and replacement.

use vstd::prelude::*;
use vstd::string::*;

verus! {

/// The character that writes the decimal digit `d`.
pub open spec fn digit_char(d: nat) -> char {
    if d == 0 {
        '0'
    } else if d == 1 {
        '1'
    } else if d == 2 {
        '2'
    } else if d == 3 {
        '3'
    } else if d == 4 {
        '4'
    } else if d == 5 {
        '5'
    } else if d == 6 {
        '6'
    } else if d == 7 {
        '7'
    } else if d == 8 {
        '8'
    } else {
        '9'
    }
}

/// The decimal digits of `n`, most significant first, without leading zeros.
pub open spec fn decimal(n: nat) -> Seq<char>
    decreases n,
{
    if n < 10 {
        seq![digit_char(n)]
    } else {
        decimal(n / 10).push(digit_char(n % 10))
    }
}

/// `decimal(n)`, filled with a zero on the left to a width of at least two.
pub open spec fn two_digits(n: nat) -> Seq<char> {
    if n < 10 {
        seq!['0', digit_char(n)]
    } else {
        decimal(n)
    }
}

/// `needle` occurs in `hay` at offset `at`.
pub open spec fn occurs_at(hay: Seq<char>, needle: Seq<char>, at: int) -> bool {
    0 <= at && at + needle.len() <= hay.len() && hay.subrange(at, at + needle.len()) == needle
}

/// `needle` occurs somewhere in `hay`.
pub open spec fn contains_text(hay: Seq<char>, needle: Seq<char>) -> bool {
    exists|at: int| occurs_at(hay, needle, at)
}

fn digit_str(d: u64) -> (s: &'static str)
    requires
        d < 10,
    ensures
        s@ == seq![digit_char(d as nat)],
{
    proof {
        reveal_strlit("0");
        reveal_strlit("1");
        reveal_strlit("2");
        reveal_strlit("3");
        reveal_strlit("4");
        reveal_strlit("5");
        reveal_strlit("6");
        reveal_strlit("7");
        reveal_strlit("8");
        reveal_strlit("9");
    }
    let s = if d == 0 {
        "0"
    } else if d == 1 {
        "1"
    } else if d == 2 {
        "2"
    } else if d == 3 {
        "3"
    } else if d == 4 {
        "4"
    } else if d == 5 {
        "5"
    } else if d == 6 {
        "6"
    } else if d == 7 {
        "7"
    } else if d == 8 {
        "8"
    } else {
        "9"
    };
    assert(s@ =~= seq![digit_char(d as nat)]);
    s
}

/// Writes `n` in decimal.
pub fn decimal_string(n: u64) -> (s: String)
    ensures
        s@ == decimal(n as nat),
    decreases n,
{
    if n < 10 {
        String::from_str(digit_str(n))
    } else {
        let mut s = decimal_string(n / 10);
        s.append(digit_str(n % 10));
        assert(s@ =~= decimal(n as nat));
        s
    }
}

/// Writes `n` in decimal, at least two digits wide.
pub fn two_digit_string(n: u64) -> (s: String)
    ensures
        s@ == two_digits(n as nat),
{
    if n < 10 {
        proof {
            reveal_strlit("0");
        }
        let mut s = String::from_str("0");
        s.append(digit_str(n));
        assert(s@ =~= two_digits(n as nat));
        s
    } else {
        decimal_string(n)
    }
}

/// Tells whether `needle` occurs in `hay` at the character offset `at`.
pub fn matches_at(hay: &str, needle: &str, at: usize) -> (found: bool)
    requires
        at + needle@.len() <= hay@.len(),
    ensures
        found == occurs_at(hay@, needle@, at as int),
{
    let n: usize = needle.unicode_len();
    let h: usize = hay.unicode_len();
    let mut k: usize = 0;
    while k < n
        invariant
            k <= n,
            n == needle@.len(),
            at + n <= hay@.len() <= usize::MAX,
            forall|j: int| 0 <= j < k ==> hay@[at + j] == needle@[j],
        decreases n - k,
    {
        if hay.get_char(at + k) != needle.get_char(k) {
            assert(hay@.subrange(at as int, at + n)[k as int] == hay@[at + k]);
            return false;
        }
        k += 1;
    }
    assert(hay@.subrange(at as int, at + n) =~= needle@);
    true
}

/// `text` with every occurrence of `from` replaced by `to`, taken from the
/// left and without overlap. An empty `from` replaces nothing.
pub open spec fn replaced(text: Seq<char>, from: Seq<char>, to: Seq<char>) -> Seq<char>
    decreases text.len(),
{
    if from.len() == 0 || text.len() < from.len() {
        text
    } else if text.subrange(0, from.len() as int) == from {
        to + replaced(text.subrange(from.len() as int, text.len() as int), from, to)
    } else {
        text.subrange(0, 1) + replaced(text.subrange(1, text.len() as int), from, to)
    }
}

/// Replaces every occurrence of `from` in `text` by `to`.
pub fn replace_all(text: &str, from: &str, to: &str) -> (out: String)
    ensures
        out@ == replaced(text@, from@, to@),
{
    let n: usize = text.unicode_len();
    let m: usize = from.unicode_len();
    if m == 0 {
        return String::from_str(text);
    }
    let mut out = String::new();
    let mut i: usize = 0;
    proof {
        assert(text@.subrange(0, n as int) =~= text@);
        assert(out@ + replaced(text@, from@, to@) =~= replaced(text@, from@, to@));
    }
    while i < n
        invariant
            i <= n,
            n == text@.len(),
            m == from@.len(),
            m > 0,
            out@ + replaced(text@.subrange(i as int, n as int), from@, to@) == replaced(
                text@,
                from@,
                to@,
            ),
        decreases n - i,
    {
        let ghost rest = text@.subrange(i as int, n as int);
        if n - i < m {
            out.append(text.substring_char(i, n));
            proof {
                assert(text@.subrange(n as int, n as int) =~= Seq::<char>::empty());
                assert(out@ =~= replaced(text@, from@, to@));
            }
            i = n;
        } else if matches_at(text, from, i) {
            proof {
                assert(rest.subrange(0, m as int) =~= text@.subrange(i as int, i + m));
                assert(rest.subrange(m as int, rest.len() as int) =~= text@.subrange(
                    i + m,
                    n as int,
                ));
                let ghost grown = out@ + to@;
                assert(grown + replaced(text@.subrange(i + m, n as int), from@, to@) =~= out@
                    + replaced(rest, from@, to@));
            }
            out.append(to);
            i += m;
        } else {
            proof {
                assert(rest.subrange(0, m as int) =~= text@.subrange(i as int, i + m));
                assert(rest.subrange(1, rest.len() as int) =~= text@.subrange(i + 1, n as int));
                assert(rest.subrange(0, 1) =~= text@.subrange(i as int, i + 1));
                let ghost grown = out@ + text@.subrange(i as int, i + 1);
                assert(grown + replaced(text@.subrange(i + 1, n as int), from@, to@) =~= out@
                    + replaced(rest, from@, to@));
            }
            out.append(text.substring_char(i, i + 1));
            i += 1;
        }
    }
    proof {
        assert(text@.subrange(n as int, n as int) =~= Seq::<char>::empty());
        assert(out@ =~= replaced(text@, from@, to@));
    }
    out
}

/// A decimal digit.
pub open spec fn is_digit(c: char) -> bool {
    48 <= c as u32 <= 57
}

/// The number that a digit stands for; zero for any other character.
pub open spec fn digit_value(c: char) -> nat {
    if is_digit(c) {
        (c as u32 - 48) as nat
    } else {
        0
    }
}

/// Every character is a decimal digit.
pub open spec fn all_digits(s: Seq<char>) -> bool {
    forall|i: int| 0 <= i < s.len() ==> is_digit(#[trigger] s[i])
}

/// The number that a run of digits writes.
pub open spec fn digits_value(s: Seq<char>) -> nat
    decreases s.len(),
{
    if s.len() == 0 {
        0
    } else {
        digits_value(s.drop_last()) * 10 + digit_value(s.last())
    }
}

/// The digits of a number's text: what follows a plus sign at the front, or
/// the whole text where there is none.
pub open spec fn unsigned_digits(text: Seq<char>) -> Seq<char> {
    if text.len() > 0 && text[0] == '+' {
        text.subrange(1, text.len() as int)
    } else {
        text
    }
}

/// The number that a text writes in decimal, as `str::parse::<u64>` reads
/// it: at least one digit, a plus sign before them allowed, nothing else,
/// and a value that fits. `None` for any other text.
pub open spec fn parsed_u64(text: Seq<char>) -> Option<u64> {
    let digits = unsigned_digits(text);
    if digits.len() > 0 && all_digits(digits) && digits_value(digits) <= u64::MAX {
        Some(digits_value(digits) as u64)
    } else {
        None
    }
}

/// A run of digits writes at least what any of its beginnings writes.
pub proof fn lemma_digits_value_grows(s: Seq<char>, k: int)
    requires
        0 <= k <= s.len(),
    ensures
        digits_value(s.take(k)) <= digits_value(s),
    decreases s.len(),
{
    if k == s.len() {
        assert(s.take(k) =~= s);
    } else {
        assert(s.drop_last().take(k) =~= s.take(k));
        lemma_digits_value_grows(s.drop_last(), k);
    }
}

/// Reads a decimal number.
pub fn parse_u64(text: &str) -> (res: Option<u64>)
    ensures
        res == parsed_u64(text@),
{
    let n: usize = text.unicode_len();
    let start: usize = if n > 0 && text.get_char(0) == '+' {
        1
    } else {
        0
    };
    let ghost digits = unsigned_digits(text@);
    assert(digits =~= text@.subrange(start as int, n as int));
    if start == n {
        return None;
    }
    let mut acc: u64 = 0;
    let mut k: usize = start;
    while k < n
        invariant
            start <= k <= n,
            n == text@.len(),
            digits == text@.subrange(start as int, n as int),
            digits == unsigned_digits(text@),
            all_digits(digits.take(k - start)),
            acc == digits_value(digits.take(k - start)),
        decreases n - k,
    {
        let c = text.get_char(k);
        let code: u32 = c as u32;
        proof {
            assert(digits[k - start] == c);
            assert(digits.take(k + 1 - start).drop_last() =~= digits.take(k - start));
            assert(digits.take(k + 1 - start).last() == c);
        }
        if code < 48 || code > 57 {
            return None;
        }
        let d: u64 = (code - 48) as u64;
        if acc > (u64::MAX - d) / 10 {
            proof {
                lemma_digits_value_grows(digits, k + 1 - start);
            }
            return None;
        }
        acc = acc * 10 + d;
        k += 1;
    }
    assert(digits.take(k - start) =~= digits);
    Some(acc)
}

/// Tells whether two texts hold the same characters.
pub fn text_equal(a: &str, b: &str) -> (same: bool)
    ensures
        same == (a@ == b@),
{
    let la: usize = a.unicode_len();
    let lb: usize = b.unicode_len();
    if la != lb {
        return false;
    }
    let same = matches_at(a, b, 0);
    assert(a@.subrange(0, la as int) =~= a@);
    same
}

/// Tells whether `needle` occurs in `hay`.
pub fn text_contains(hay: &str, needle: &str) -> (found: bool)
    ensures
        found == contains_text(hay@, needle@),
{
    let h: usize = hay.unicode_len();
    let n: usize = needle.unicode_len();
    if n > h {
        return false;
    }
    let last: usize = h - n;
    let mut at: usize = 0;
    loop
        invariant
            h == hay@.len(),
            n == needle@.len(),
            last == h - n,
            at <= last,
            forall|j: int| 0 <= j < at ==> !occurs_at(hay@, needle@, j),
        decreases last - at,
    {
        if matches_at(hay, needle, at) {
            return true;
        }
        if at == last {
            return false;
        }
        at += 1;
    }
}

} // verus!
