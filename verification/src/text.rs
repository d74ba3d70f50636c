//! Integers as decimal text, the form they take in a path and in a JSON number.

use vstd::prelude::*;
use vstd::string::*;

verus! {

/// The character that stands for the digit `d`.
pub open spec fn digit_char(d: int) -> char {
    if d == 0 {
        '0'
    } else if d == 1 {
        '1'
    } else if d == 2 {
        '2'
    } else if d == 3 {
        '3'
    } else if d == 4 {
        '4'
    } else if d == 5 {
        '5'
    } else if d == 6 {
        '6'
    } else if d == 7 {
        '7'
    } else if d == 8 {
        '8'
    } else {
        '9'
    }
}

/// `c` is one of the ten digits.
pub open spec fn is_digit(c: char) -> bool {
    c == '0' || c == '1' || c == '2' || c == '3' || c == '4' || c == '5' || c == '6' || c == '7'
        || c == '8' || c == '9'
}

/// The digit that `c` stands for; 0 where `c` is no digit.
pub open spec fn digit_value(c: char) -> int {
    if c == '1' {
        1
    } else if c == '2' {
        2
    } else if c == '3' {
        3
    } else if c == '4' {
        4
    } else if c == '5' {
        5
    } else if c == '6' {
        6
    } else if c == '7' {
        7
    } else if c == '8' {
        8
    } else if c == '9' {
        9
    } else {
        0
    }
}

/// The digits of `n`, most significant first, without leading zeros.
pub open spec fn digits(n: nat) -> Seq<char>
    decreases n,
{
    if n < 10 {
        seq![digit_char(n as int)]
    } else {
        digits(n / 10).push(digit_char((n % 10) as int))
    }
}

/// The decimal text of `i`: its digits, after a minus sign where `i` is negative.
pub open spec fn decimal(i: int) -> Seq<char> {
    if i < 0 {
        seq!['-'] + digits((-i) as nat)
    } else {
        digits(i as nat)
    }
}

/// The number that a run of digits writes, read as base ten.
pub open spec fn natural_value(s: Seq<char>) -> int
    decreases s.len(),
{
    if s.len() == 0 {
        0
    } else {
        natural_value(s.drop_last()) * 10 + digit_value(s.last())
    }
}

/// `s` writes a natural number: digits only, at least one, no leading zero
/// but for the number zero itself.
pub open spec fn is_natural(s: Seq<char>) -> bool {
    &&& s.len() > 0
    &&& forall|k: int| 0 <= k < s.len() ==> is_digit(#[trigger] s[k])
    &&& s.len() > 1 ==> s[0] != '0'
}

/// The integer that `s` writes, where `s` is the decimal text of one.
pub open spec fn decimal_value(s: Seq<char>) -> Option<int> {
    if is_natural(s) {
        Some(natural_value(s))
    } else if s.len() > 1 && s[0] == '-' && is_natural(s.skip(1)) && natural_value(s.skip(1)) != 0 {
        Some(-natural_value(s.skip(1)))
    } else {
        None
    }
}

/// The digits of a number write that number, and are the text of a natural number.
pub proof fn lemma_digits_read_back(n: nat)
    ensures
        is_natural(digits(n)),
        natural_value(digits(n)) == n,
        n > 0 ==> digits(n)[0] != '0',
    decreases n,
{
    if n < 10 {
        assert(natural_value(digits(n).drop_last()) == 0);
    } else {
        lemma_digits_read_back(n / 10);
        assert(digits(n).drop_last() =~= digits(n / 10));
    }
}

/// Reading the decimal text of an integer gives the integer back.
pub proof fn lemma_decimal_read_back(i: int)
    ensures
        decimal_value(decimal(i)) == Some(i),
{
    if i < 0 {
        let n = (-i) as nat;
        lemma_digits_read_back(n);
        let s = decimal(i);
        assert(s.skip(1) =~= digits(n));
    } else {
        lemma_digits_read_back(i as nat);
    }
}

/// The text of a natural number is the digits of the number that it writes.
pub proof fn lemma_natural_is_its_digits(s: Seq<char>)
    requires
        is_natural(s),
    ensures
        digits(natural_value(s) as nat) == s,
        natural_value(s) >= 0,
        s[0] != '0' ==> natural_value(s) > 0,
    decreases s.len(),
{
    if s.len() == 1 {
        assert(natural_value(s.drop_last()) == 0);
    } else {
        lemma_natural_is_its_digits(s.drop_last());
    }
}

/// Only the decimal text of an integer reads as that integer: a text that
/// reads as `i` is the decimal text of `i`.
pub proof fn lemma_decimal_written_one_way(s: Seq<char>, i: int)
    requires
        decimal_value(s) == Some(i),
    ensures
        s == decimal(i),
{
    if is_natural(s) {
        lemma_natural_is_its_digits(s);
    } else {
        lemma_natural_is_its_digits(s.skip(1));
    }
}

/// A run of characters writes a number that is not negative, and no less
/// than any of its prefixes writes.
pub proof fn lemma_prefix_value(s: Seq<char>, k: int)
    requires
        0 <= k <= s.len(),
    ensures
        0 <= natural_value(s.take(k)) <= natural_value(s),
    decreases s.len(),
{
    if s.len() == 0 {
        // nothing to show: the only prefix is the empty run itself
    } else if k == s.len() {
        assert(s.take(k) =~= s);
        lemma_prefix_value(s.drop_last(), k - 1);
    } else {
        lemma_prefix_value(s.drop_last(), k);
        assert(s.drop_last().take(k) =~= s.take(k));
    }
}

fn digit_str(d: u8) -> (r: &'static str)
    requires
        d < 10,
    ensures
        r@ == seq![digit_char(d as int)],
{
    proof {
        reveal_strlit("0");
        reveal_strlit("1");
        reveal_strlit("2");
        reveal_strlit("3");
        reveal_strlit("4");
        reveal_strlit("5");
        reveal_strlit("6");
        reveal_strlit("7");
        reveal_strlit("8");
        reveal_strlit("9");
    }
    let r = if d == 0 {
        "0"
    } else if d == 1 {
        "1"
    } else if d == 2 {
        "2"
    } else if d == 3 {
        "3"
    } else if d == 4 {
        "4"
    } else if d == 5 {
        "5"
    } else if d == 6 {
        "6"
    } else if d == 7 {
        "7"
    } else if d == 8 {
        "8"
    } else {
        "9"
    };
    r
}

fn digit_of(c: char) -> (r: Option<u8>)
    ensures
        match r {
            Some(d) => is_digit(c) && d == digit_value(c) && d < 10,
            None => !is_digit(c),
        },
{
    if c == '0' {
        Some(0)
    } else if c == '1' {
        Some(1)
    } else if c == '2' {
        Some(2)
    } else if c == '3' {
        Some(3)
    } else if c == '4' {
        Some(4)
    } else if c == '5' {
        Some(5)
    } else if c == '6' {
        Some(6)
    } else if c == '7' {
        Some(7)
    } else if c == '8' {
        Some(8)
    } else if c == '9' {
        Some(9)
    } else {
        None
    }
}

/// The low digits of a number as they are peeled off, least significant
/// first, written in reading order.
spec fn in_reading_order(low: Seq<u8>) -> Seq<char> {
    Seq::new(low.len(), |k: int| digit_char(low[low.len() - 1 - k] as int))
}

/// The decimal text of `i`.
pub fn decimal_text(i: i32) -> (r: String)
    ensures
        r@ == decimal(i as int),
{
    let negative = i < 0;
    let wide: i64 = i as i64;
    let magnitude: u64 = if negative {
        (-wide) as u64
    } else {
        wide as u64
    };
    let mut rest: u64 = magnitude;
    let mut low: Vec<u8> = Vec::new();
    while rest >= 10
        invariant
            digits(magnitude as nat) == digits(rest as nat) + in_reading_order(low@),
            forall|k: int| 0 <= k < low@.len() ==> low@[k] < 10,
        decreases rest,
    {
        let d: u8 = (rest % 10) as u8;
        proof {
            assert(digits((rest / 10) as nat).push(digit_char(d as int)) + in_reading_order(low@)
                =~= digits((rest / 10) as nat) + in_reading_order(low@.push(d)));
        }
        low.push(d);
        rest = rest / 10;
    }
    let mut out = if negative {
        String::from_str("-")
    } else {
        String::new()
    };
    proof {
        reveal_strlit("-");
    }
    let ghost sign = out@;
    out.append(digit_str(rest as u8));
    let mut k: usize = low.len();
    while k > 0
        invariant
            k <= low@.len(),
            forall|j: int| 0 <= j < low@.len() ==> low@[j] < 10,
            out@ == sign + digits(rest as nat) + in_reading_order(low@).take(low@.len() - k),
            rest < 10,
        decreases k,
    {
        k = k - 1;
        out.append(digit_str(low[k]));
    }
    out
}

/// Reads the decimal text of an integer of 32 bits. `None` where `text` is
/// not the decimal text of an integer, or of one that does not fit.
pub fn parse_i32(text: &str) -> (r: Option<i32>)
    ensures
        r == match decimal_value(text@) {
            Some(i) => if i32::MIN <= i <= i32::MAX {
                Some(i as i32)
            } else {
                None
            },
            None => None,
        },
{
    let len: usize = text.unicode_len();
    if len == 0 {
        return None;
    }
    let negative = text.get_char(0) == '-';
    let start: usize = if negative {
        1
    } else {
        0
    };
    if start >= len {
        return None;
    }
    let ghost body = text@.skip(start as int);
    if len - start > 1 && text.get_char(start) == '0' {
        return None;
    }
    let mut acc: i64 = 0;
    let mut k: usize = start;
    while k < len
        invariant
            start <= k <= len,
            len == text@.len(),
            body == text@.skip(start as int),
            negative == (text@[0] == '-'),
            start == if negative { 1usize } else { 0usize },
            forall|j: int| 0 <= j < k - start ==> is_digit(#[trigger] body[j]),
            acc == natural_value(body.take(k - start)),
            0 <= acc <= 2147483648,
        decreases len - k,
    {
        let c = text.get_char(k);
        assert(body[k - start] == c);
        let d: u8 = match digit_of(c) {
            Some(d) => d,
            None => {
                return None;
            },
        };
        proof {
            let grown = body.take(k - start + 1);
            assert(grown.drop_last() =~= body.take(k - start));
        }
        acc = acc * 10 + d as i64;
        if acc > 2147483648 {
            proof {
                lemma_prefix_value(body, k - start + 1);
                if !negative {
                    assert(body =~= text@);
                }
            }
            return None;
        }
        k = k + 1;
    }
    proof {
        assert(body.take(len - start) =~= body);
        if !negative {
            assert(body =~= text@);
        }
    }
    if negative {
        if acc == 0 {
            None
        } else {
            Some((-acc) as i32)
        }
    } else if acc > 2147483647 {
        None
    } else {
        Some(acc as i32)
    }
}

} // verus!
