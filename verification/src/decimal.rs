//! Numbers in base ten: reading one from a text and writing one out.

use vstd::prelude::*;
use vstd::std_specs::iter::IteratorSpec;
use vstd::string::{StrSliceExecFns, StringExecFns};
use crate::text::{char_is_digit, is_ascii_digit};

verus! {

/// The number that the digit `c` stands for.
pub open spec fn digit_value(c: char) -> nat {
    (c as int - '0' as int) as nat
}

/// The number that a row of digits denotes in base ten.
pub open spec fn decimal_value(digits: Seq<char>) -> nat
    decreases digits.len(),
{
    if digits.len() == 0 {
        0
    } else {
        decimal_value(digits.drop_last()) * 10 + digit_value(digits.last())
    }
}

/// Every character of `s` is an ASCII digit.
pub open spec fn all_digits(s: Seq<char>) -> bool {
    forall|i: int| 0 <= i < s.len() ==> is_ascii_digit(#[trigger] s[i])
}

/// `text` without the `+` that may stand before its digits.
pub open spec fn unsigned_part(text: Seq<char>) -> Seq<char> {
    if text.len() > 0 && text[0] == '+' {
        text.drop_first()
    } else {
        text
    }
}

/// The number that `text` denotes: one or more ASCII digits, with or without
/// a `+` before them and nothing else around them, whose value fits 64 bits.
/// Any other text denotes none.
pub open spec fn number_of(text: Seq<char>) -> Option<u64> {
    let digits = unsigned_part(text);
    if digits.len() > 0 && all_digits(digits) && decimal_value(digits) <= u64::MAX {
        Some(decimal_value(digits) as u64)
    } else {
        None
    }
}

/// The first `k` digits of a row denote no more than the whole row.
proof fn lemma_decimal_prefix(digits: Seq<char>, k: int)
    requires
        0 <= k <= digits.len(),
    ensures
        decimal_value(digits.take(k)) <= decimal_value(digits),
    decreases digits.len() - k,
{
    if k == digits.len() {
        assert(digits.take(k) =~= digits);
    } else {
        lemma_decimal_prefix(digits.drop_last(), k);
        assert(digits.drop_last().take(k) =~= digits.take(k));
    }
}

/// Reads a number in base ten.
pub fn parse_decimal(text: &str) -> (r: Option<u64>)
    ensures
        r == number_of(text@),
{
    let n: usize = text.unicode_len();
    let mut value: u64 = 0;
    let mut start: usize = 0;
    let mut pos: usize = 0;
    for c in it: text.chars()
        invariant
            it.seq() == text@,
            n == text@.len(),
            pos == it.index(),
            start <= pos <= n,
            start <= 1,
            pos > 0 ==> unsigned_part(text@) == text@.skip(start as int),
            all_digits(text@.subrange(start as int, pos as int)),
            value == decimal_value(text@.subrange(start as int, pos as int)),
    {
        let ghost digits = unsigned_part(text@);
        if pos == 0 && c == '+' {
            start = 1;
        } else {
            let ghost read = text@.subrange(start as int, pos as int);
            let ghost next = text@.subrange(start as int, pos + 1);
            proof {
                assert(next.drop_last() =~= read);
                assert(next =~= digits.take(pos + 1 - start));
                lemma_decimal_prefix(digits, pos + 1 - start);
            }
            if !char_is_digit(c) {
                return None;
            }
            let d: u64 = (c as u32 - '0' as u32) as u64;
            if value > (u64::MAX - d) / 10 {
                return None;
            }
            value = value * 10 + d;
            assert(all_digits(next));
        }
        pos = pos + 1;
    }
    if pos > start {
        Some(value)
    } else {
        None
    }
}

/// The character that stands for a digit.
pub open spec fn digit_char(d: nat) -> char
    recommends
        d < 10,
{
    ('0' as nat + d) as char
}

/// A number as it is written in base ten.
pub open spec fn decimal(n: nat) -> Seq<char>
    decreases n,
{
    if n < 10 {
        seq![digit_char(n)]
    } else {
        decimal(n / 10) + seq![digit_char(n % 10)]
    }
}

fn digit_text(d: u64) -> (text: &'static str)
    requires
        d < 10,
    ensures
        text@ == seq![digit_char(d as nat)],
{
    proof {
        reveal_strlit("0");
        reveal_strlit("1");
        reveal_strlit("2");
        reveal_strlit("3");
        reveal_strlit("4");
        reveal_strlit("5");
        reveal_strlit("6");
        reveal_strlit("7");
        reveal_strlit("8");
        reveal_strlit("9");
    }
    if d == 0 {
        "0"
    } else if d == 1 {
        "1"
    } else if d == 2 {
        "2"
    } else if d == 3 {
        "3"
    } else if d == 4 {
        "4"
    } else if d == 5 {
        "5"
    } else if d == 6 {
        "6"
    } else if d == 7 {
        "7"
    } else if d == 8 {
        "8"
    } else {
        "9"
    }
}

/// Writes a number in base ten.
pub fn write_decimal(n: u64) -> (text: String)
    ensures
        text@ == decimal(n as nat),
    decreases n,
{
    if n < 10 {
        String::from_str(digit_text(n))
    } else {
        write_decimal(n / 10).concat(digit_text(n % 10))
    }
}

/// A number as it is written holds nothing but digits, at least one, and
/// denotes the number.
proof fn lemma_decimal_denotes(n: nat)
    ensures
        decimal(n).len() > 0,
        all_digits(decimal(n)),
        decimal_value(decimal(n)) == n,
    decreases n,
{
    if n < 10 {
        assert(decimal_value(decimal(n).drop_last()) == 0);
    } else {
        lemma_decimal_denotes(n / 10);
        let head = decimal(n / 10);
        let whole = decimal(n);
        assert(whole.drop_last() =~= head);
        assert(all_digits(whole));
    }
}

/// What [`write_decimal`] writes, [`parse_decimal`] reads back.
pub proof fn written_number_is_read_back(n: u64)
    ensures
        number_of(decimal(n as nat)) == Some(n),
{
    lemma_decimal_denotes(n as nat);
}

} // verus!
