//! What a finished subprocess left behind, made readable.

use vstd::prelude::*;
use crate::text::{str_chars, string_from_chars, trim, trim_chars};

verus! {

/// The readable failure text of a subprocess: its trimmed standard error, or
/// its trimmed standard output when the former is blank.
pub open spec fn sanitized(stderr: Seq<char>, stdout: Seq<char>) -> Seq<char> {
    if trim(stderr).len() > 0 {
        trim(stderr)
    } else {
        trim(stdout)
    }
}

/// Extracts a readable failure text from what a subprocess wrote.
pub fn sanitize_cmd_error(stderr: &str, stdout: &str) -> (r: String)
    ensures
        r@ == sanitized(stderr@, stdout@),
{
    let err = str_chars(stderr);
    let trimmed = trim_chars(&err);
    if trimmed.len() > 0 {
        return string_from_chars(&trimmed);
    }
    let out = str_chars(stdout);
    let trimmed = trim_chars(&out);
    string_from_chars(&trimmed)
}

} // verus!
