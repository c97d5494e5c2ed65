//! Finding the session cookie among the `Set-Cookie` headers of a sign-in answer.
//!
//! A header holds the session when it contains `PHPSESSID=`, followed by one or
//! more characters that are not white space, followed by `;`. The session is
//! the text from `PHPSESSID=` up to that `;`. Where several `;` follow in the
//! same run of non-white-space characters, the last of them ends the session.
//! Where several places of a header qualify, the leftmost one is taken; where
//! several headers hold a session, the first one is taken.
use vstd::prelude::*;
use vstd::string::StrSliceExecFns;

use crate::text::{chars_of, is_white_space, is_white_space_char, matches_at, occurs_at};

verus! {

/// The name of the session cookie, with the `=` that follows it.
pub open spec fn session_key() -> Seq<char> {
    "PHPSESSID="@
}

/// The first index at or after `j` that holds white space, or the length of `s`.
pub open spec fn run_end(s: Seq<char>, j: int) -> int
    decreases s.len() - j,
{
    if j < 0 || j >= s.len() || is_white_space(s[j]) {
        j
    } else {
        run_end(s, j + 1)
    }
}

/// The last index `k` with `lo < k < hi` that holds `;`.
pub open spec fn last_semicolon(s: Seq<char>, lo: int, hi: int) -> Option<int>
    decreases hi - lo,
{
    if hi <= lo + 1 {
        None
    } else if s[hi - 1] == ';' {
        Some(hi - 1)
    } else {
        last_semicolon(s, lo, hi - 1)
    }
}

/// Where the session that starts at index `i` of `s` ends, if one starts there.
pub open spec fn session_end(s: Seq<char>, i: int) -> Option<int> {
    if occurs_at(s, session_key(), i) {
        let value_start = i + session_key().len();
        last_semicolon(s, value_start, run_end(s, value_start))
    } else {
        None
    }
}

/// The leftmost session in `s` that starts at index `i` or later.
pub open spec fn session_from(s: Seq<char>, i: int) -> Option<Seq<char>>
    decreases s.len() - i,
{
    if i < 0 || i >= s.len() {
        None
    } else {
        match session_end(s, i) {
            Some(k) => Some(s.subrange(i, k)),
            None => session_from(s, i + 1),
        }
    }
}

/// The session held by the header `s`, if any.
pub open spec fn session_in(s: Seq<char>) -> Option<Seq<char>> {
    session_from(s, 0)
}

/// The session of the first header, from index `j` on, that holds one.
pub open spec fn session_in_headers(headers: Seq<String>, j: int) -> Option<Seq<char>>
    decreases headers.len() - j,
{
    if j < 0 || j >= headers.len() {
        None
    } else {
        match session_in(headers[j]@) {
            Some(v) => Some(v),
            None => session_in_headers(headers, j + 1),
        }
    }
}

fn run_end_exec(s: &Vec<char>, j: usize) -> (r: usize)
    requires
        j <= s@.len(),
    ensures
        r == run_end(s@, j as int),
        j <= r <= s@.len(),
{
    let mut k = j;
    while k < s.len() && !is_white_space_char(s[k])
        invariant
            j <= k <= s@.len(),
            run_end(s@, j as int) == run_end(s@, k as int),
        decreases s@.len() - k,
    {
        k += 1;
    }
    k
}

fn last_semicolon_exec(s: &Vec<char>, lo: usize, hi: usize) -> (r: Option<usize>)
    requires
        lo <= hi <= s@.len(),
    ensures
        r matches Some(k) ==> last_semicolon(s@, lo as int, hi as int) == Some(k as int) && lo < k
            < hi,
        r is None ==> last_semicolon(s@, lo as int, hi as int) is None,
{
    let mut k = hi;
    while k > lo && k - 1 > lo
        invariant
            lo <= k <= hi,
            hi <= s@.len(),
            last_semicolon(s@, lo as int, hi as int) == last_semicolon(s@, lo as int, k as int),
        decreases k,
    {
        if s[k - 1] == ';' {
            return Some(k - 1);
        }
        k -= 1;
    }
    None
}

/// The session held by the header `header`, if any.
pub fn session_cookie(header: &str) -> (r: Option<String>)
    ensures
        r matches Some(v) ==> session_in(header@) == Some(v@),
        r is None ==> session_in(header@) is None,
{
    let s = chars_of(header);
    let key_text = "PHPSESSID=";
    let key = chars_of(key_text);
    proof {
        reveal_strlit("PHPSESSID=");
    }
    let key_len = key.len();
    let n = s.len();
    let mut i: usize = 0;
    while i < n
        invariant
            n == s@.len(),
            s@ == header@,
            key@ == session_key(),
            key_len == 10,
            session_key().len() == 10,
            i <= n,
            session_in(s@) == session_from(s@, i as int),
        decreases n - i,
    {
        if matches_at(&s, &key, i) {
            let value_start = i + key_len;
            let end = run_end_exec(&s, value_start);
            match last_semicolon_exec(&s, value_start, end) {
                Some(k) => {
                    let v = header.substring_char(i, k).to_owned();
                    return Some(v);
                },
                None => {},
            }
        }
        i += 1;
    }
    None
}

/// The session held by the first of the `Set-Cookie` headers that holds one.
pub fn session_from_headers(headers: &Vec<String>) -> (r: Option<String>)
    ensures
        r matches Some(v) ==> session_in_headers(headers@, 0) == Some(v@),
        r is None ==> session_in_headers(headers@, 0) is None,
{
    let mut j: usize = 0;
    while j < headers.len()
        invariant
            j <= headers@.len(),
            session_in_headers(headers@, 0) == session_in_headers(headers@, j as int),
        decreases headers@.len() - j,
    {
        match session_cookie(headers[j].as_str()) {
            Some(v) => {
                return Some(v);
            },
            None => {},
        }
        j += 1;
    }
    None
}

} // verus!
