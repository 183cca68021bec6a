//! The client's side of the API: how a request's address and its
//! authorization header are put together, and what is made of an answer.
//! Sending is the caller's.

use vstd::prelude::*;
use vstd::std_specs::iter::IteratorSpec;
use vstd::string::{StrSliceExecFns, StringExecFns};
use crate::decimal::{decimal, write_decimal};
use crate::middleware::auth::extractor::{bearer_prefix, bearer_token};

verus! {

/// A request that failed, in words: a transport error, an answer that is not
/// a success (status and body), or a body that could not be read.
#[derive(Debug)]
pub struct ClientError(pub String);

impl ClientError {
    /// The error in words.
    pub fn message(&self) -> (text: String)
        ensures
            text@ == self.0@,
    {
        self.0.clone()
    }
}

pub type ClientResult<T> = Result<T, ClientError>;

/// `s` without the slashes at its end.
pub open spec fn trim_end_slashes(s: Seq<char>) -> Seq<char>
    decreases s.len(),
{
    if s.len() > 0 && s.last() == '/' {
        trim_end_slashes(s.drop_last())
    } else {
        s
    }
}

/// `s` without the slashes at its start.
pub open spec fn trim_start_slashes(s: Seq<char>) -> Seq<char>
    decreases s.len(),
{
    if s.len() > 0 && s.first() == '/' {
        trim_start_slashes(s.drop_first())
    } else {
        s
    }
}

/// Every character of `s` from `from` on is a slash.
pub open spec fn slashes_from(s: Seq<char>, from: int) -> bool {
    forall|i: int| from <= i < s.len() ==> s[i] == '/'
}

/// Every character of `s` before `to` is a slash.
pub open spec fn slashes_to(s: Seq<char>, to: int) -> bool {
    forall|i: int| 0 <= i < to ==> s[i] == '/'
}

/// Cutting `s` after its last character that is no slash trims its end.
proof fn lemma_trim_end(s: Seq<char>, keep: int)
    requires
        0 <= keep <= s.len(),
        slashes_from(s, keep),
        keep > 0 ==> s[keep - 1] != '/',
    ensures
        trim_end_slashes(s) == s.take(keep),
    decreases s.len(),
{
    if keep == s.len() {
    } else {
        lemma_trim_end(s.drop_last(), keep);
    }
}

/// Cutting `s` before its first character that is no slash trims its start.
proof fn lemma_trim_start(s: Seq<char>, drop: int)
    requires
        0 <= drop <= s.len(),
        slashes_to(s, drop),
        drop < s.len() ==> s[drop] != '/',
    ensures
        trim_start_slashes(s) == s.skip(drop),
    decreases s.len(),
{
    if drop == 0 {
    } else {
        let rest = s.drop_first();
        assert forall|i: int| 0 <= i < drop - 1 implies rest[i] == '/' by {
        }
        lemma_trim_start(rest, drop - 1);
    }
}

/// The address of `path` under `base`: the two joined by exactly one slash,
/// whatever slashes `base` ends with and `path` begins with.
pub fn join_url(base: &str, path: &str) -> (url: String)
    ensures
        url@ == trim_end_slashes(base@) + seq!['/'] + trim_start_slashes(path@),
{
    let base_len: usize = base.unicode_len();
    let mut keep: usize = 0;
    let mut pos: usize = 0;
    for c in it: base.chars()
        invariant
            it.seq() == base@,
            base_len == base@.len(),
            pos == it.index(),
            keep <= pos <= base_len,
            forall|i: int| keep <= i < pos ==> base@[i] == '/',
            keep > 0 ==> base@[keep - 1] != '/',
    {
        pos = pos + 1;
        if c != '/' {
            keep = pos;
        }
    }
    let path_len: usize = path.unicode_len();
    let mut drop: usize = 0;
    let mut leading = true;
    for c in it: path.chars()
        invariant
            it.seq() == path@,
            path_len == path@.len(),
            drop <= it.index() <= path_len,
            leading ==> drop == it.index(),
            !leading ==> path@[drop as int] != '/',
            forall|i: int| 0 <= i < drop ==> path@[i] == '/',
    {
        if leading {
            if c == '/' {
                drop = drop + 1;
            } else {
                leading = false;
            }
        }
    }
    proof {
        lemma_trim_end(base@, keep as int);
        lemma_trim_start(path@, drop as int);
        reveal_strlit("/");
    }
    let head = base.substring_char(0, keep);
    let tail = path.substring_char(drop, path_len);
    String::from_str(head).concat("/").concat(tail)
}

/// The value of the authorization header that carries `token`.
pub fn bearer_header(token: &str) -> (header: String)
    ensures
        header@ == bearer_prefix() + token@,
        bearer_token(header@) == Some(token@),
{
    proof {
        reveal_strlit("Bearer ");
    }
    String::from_str("Bearer ").concat(token)
}

/// Whether an answer with this status is a success.
pub open spec fn is_success(status: u16) -> bool {
    200 <= status < 300
}

/// What a failed request is reported as: the status, a space, the body.
pub open spec fn failure_text(status: u16, text: Seq<char>) -> Seq<char> {
    decimal(status as nat) + seq![' '] + text
}

/// Takes the body of an answer that is to be read as a value: the body of a
/// success as it is, and an error that holds status and body for any other
/// answer.
pub fn success_body(status: u16, text: String) -> (r: ClientResult<String>)
    ensures
        match r {
            Ok(body) => is_success(status) && body == text,
            Err(e) => !is_success(status) && e.0@ == failure_text(status, text@),
        },
{
    if 200 <= status && status < 300 {
        Ok(text)
    } else {
        proof {
            reveal_strlit(" ");
        }
        Err(ClientError(write_decimal(status as u64).concat(" ").concat(text.as_str())))
    }
}

} // verus!
