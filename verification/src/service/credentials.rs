//! The credential policy: which e-mail addresses and passwords are taken at
//! signup.  Both checks are syntactic and cheap; they run before any hashing
//! or storage.

use vstd::prelude::*;
use vstd::std_specs::iter::IteratorSpec;
use vstd::string::StrSliceExecFns;
use crate::text::{
    char_is_digit, char_is_letter, char_is_whitespace, is_ascii_digit, is_ascii_letter,
    is_whitespace,
};

verus! {

/// An e-mail address must be longer than this many characters.
pub const EMAIL_LENGTH_ABOVE: usize = 3;

/// An e-mail address must be shorter than this many characters.
pub const EMAIL_LENGTH_BELOW: usize = 254;

/// The least number of characters of a password.
pub const PASSWORD_MIN_LENGTH: usize = 8;

/// Some character of `s` is an ASCII letter.
pub open spec fn has_letter(s: Seq<char>) -> bool {
    exists|i: int| 0 <= i < s.len() && is_ascii_letter(#[trigger] s[i])
}

/// Some character of `s` is an ASCII digit.
pub open spec fn has_digit(s: Seq<char>) -> bool {
    exists|i: int| 0 <= i < s.len() && is_ascii_digit(#[trigger] s[i])
}

/// Some character of `s` is white space.
pub open spec fn has_whitespace(s: Seq<char>) -> bool {
    exists|i: int| 0 <= i < s.len() && is_whitespace(#[trigger] s[i])
}

/// `at` is the place of the one `@` of `s`, with a non-empty local part before
/// it and, after it, a non-empty domain that holds a `.`.
pub open spec fn splits_at(s: Seq<char>, at: int) -> bool {
    &&& 0 < at < s.len() - 1
    &&& s[at] == '@'
    &&& forall|j: int| 0 <= j < s.len() && j != at ==> #[trigger] s[j] != '@'
    &&& exists|d: int| at < d < s.len() && #[trigger] s[d] == '.'
}

/// The e-mail policy: more than 3 and fewer than 254 characters, no white
/// space, exactly one `@` between a non-empty local part and a non-empty
/// domain, and a `.` somewhere in the domain.
pub open spec fn valid_email(s: Seq<char>) -> bool {
    &&& EMAIL_LENGTH_ABOVE < s.len() < EMAIL_LENGTH_BELOW
    &&& !has_whitespace(s)
    &&& exists|at: int| splits_at(s, at)
}

/// The password policy: at least 8 characters, among them an ASCII letter and
/// an ASCII digit.
pub open spec fn valid_password(s: Seq<char>) -> bool {
    &&& s.len() >= PASSWORD_MIN_LENGTH
    &&& has_letter(s)
    &&& has_digit(s)
}

/// One more character: the first `k + 1` characters hold white space where
/// the first `k` do or the next one is.
proof fn lemma_no_whitespace_step(s: Seq<char>, k: int)
    requires
        0 <= k < s.len(),
    ensures
        has_whitespace(s.take(k + 1)) == (has_whitespace(s.take(k)) || is_whitespace(s[k])),
{
    let before = s.take(k);
    let after = s.take(k + 1);
    if has_whitespace(before) {
        let i = choose|i: int| 0 <= i < before.len() && is_whitespace(#[trigger] before[i]);
        assert(is_whitespace(after[i]));
    }
    if is_whitespace(s[k]) {
        assert(is_whitespace(after[k]));
    }
    if has_whitespace(after) {
        let i = choose|i: int| 0 <= i < after.len() && is_whitespace(#[trigger] after[i]);
        if i < k {
            assert(is_whitespace(before[i]));
        }
    }
}

/// One more character: the first `k + 1` characters hold a letter where the
/// first `k` do or the next one is one, and likewise a digit.
proof fn lemma_letter_and_digit_step(s: Seq<char>, k: int)
    requires
        0 <= k < s.len(),
    ensures
        has_letter(s.take(k + 1)) == (has_letter(s.take(k)) || is_ascii_letter(s[k])),
        has_digit(s.take(k + 1)) == (has_digit(s.take(k)) || is_ascii_digit(s[k])),
{
    let before = s.take(k);
    let after = s.take(k + 1);
    if has_letter(before) {
        let i = choose|i: int| 0 <= i < before.len() && is_ascii_letter(#[trigger] before[i]);
        assert(is_ascii_letter(after[i]));
    }
    if has_digit(before) {
        let i = choose|i: int| 0 <= i < before.len() && is_ascii_digit(#[trigger] before[i]);
        assert(is_ascii_digit(after[i]));
    }
    if is_ascii_letter(s[k]) {
        assert(is_ascii_letter(after[k]));
    }
    if is_ascii_digit(s[k]) {
        assert(is_ascii_digit(after[k]));
    }
    if has_letter(after) {
        let i = choose|i: int| 0 <= i < after.len() && is_ascii_letter(#[trigger] after[i]);
        if i < k {
            assert(is_ascii_letter(before[i]));
        }
    }
    if has_digit(after) {
        let i = choose|i: int| 0 <= i < after.len() && is_ascii_digit(#[trigger] after[i]);
        if i < k {
            assert(is_ascii_digit(before[i]));
        }
    }
}

/// A letter or a digit among the first `k` characters is one of the whole
/// text.
proof fn lemma_letter_and_digit_grow(s: Seq<char>, k: int)
    requires
        0 <= k <= s.len(),
    ensures
        has_letter(s.take(k)) ==> has_letter(s),
        has_digit(s.take(k)) ==> has_digit(s),
{
    let head = s.take(k);
    if has_letter(head) {
        let i = choose|i: int| 0 <= i < head.len() && is_ascii_letter(#[trigger] head[i]);
        assert(is_ascii_letter(s[i]));
    }
    if has_digit(head) {
        let i = choose|i: int| 0 <= i < head.len() && is_ascii_digit(#[trigger] head[i]);
        assert(is_ascii_digit(s[i]));
    }
}

/// Whether `email` meets the e-mail policy.
pub fn is_valid_email(email: &str) -> (ok: bool)
    ensures
        ok == valid_email(email@),
{
    let n: usize = email.unicode_len();
    if n <= EMAIL_LENGTH_ABOVE || n >= EMAIL_LENGTH_BELOW {
        return false;
    }
    let mut at: Option<usize> = None;
    let mut dot = false;
    let mut pos: usize = 0;
    for c in it: email.chars()
        invariant
            it.seq() == email@,
            n == email@.len(),
            n < EMAIL_LENGTH_BELOW,
            pos == it.index(),
            pos <= n,
            !has_whitespace(email@.take(pos as int)),
            at is None ==> forall|j: int| 0 <= j < pos ==> email@[j] != '@',
            at is None ==> !dot,
            at is Some ==> {
                &&& at->0 < pos
                &&& email@[at->0 as int] == '@'
                &&& forall|j: int| 0 <= j < pos && j != at->0 ==> email@[j] != '@'
                &&& dot == exists|d: int| at->0 < d < pos && #[trigger] email@[d] == '.'
            },
    {
        if char_is_whitespace(c) {
            return false;
        }
        if c == '@' {
            if at.is_some() {
                // A second `@`: no place splits the address.
                assert forall|k: int| !splits_at(email@, k) by {}
                return false;
            }
            at = Some(pos);
        } else if c == '.' && at.is_some() {
            dot = true;
        }
        proof {
            lemma_no_whitespace_step(email@, pos as int);
        }
        pos = pos + 1;
    }
    assert(email@.take(pos as int) =~= email@);
    match at {
        None => {
            assert forall|k: int| !splits_at(email@, k) by {}
            false
        },
        Some(a) => {
            let ok = 0 < a && a < n - 1 && dot;
            proof {
                if ok {
                    assert(splits_at(email@, a as int));
                } else {
                    assert forall|k: int| !splits_at(email@, k) by {}
                }
            }
            ok
        },
    }
}

/// Whether `password` meets the password policy.
pub fn is_valid_password(password: &str) -> (ok: bool)
    ensures
        ok == valid_password(password@),
{
    if password.unicode_len() < PASSWORD_MIN_LENGTH {
        return false;
    }
    let mut letter = false;
    let mut digit = false;
    for c in it: password.chars()
        invariant
            it.seq() == password@,
            password@.len() >= PASSWORD_MIN_LENGTH,
            !(letter && digit),
            letter == has_letter(password@.take(it.index() as int)),
            digit == has_digit(password@.take(it.index() as int)),
    {
        proof {
            lemma_letter_and_digit_step(password@, it.index() as int);
        }
        if char_is_letter(c) {
            letter = true;
        }
        if char_is_digit(c) {
            digit = true;
        }
        if letter && digit {
            proof {
                lemma_letter_and_digit_grow(password@, it.index() + 1);
            }
            return true;
        }
    }
    assert(password@.take(password@.len() as int) =~= password@);
    false
}

} // verus!
