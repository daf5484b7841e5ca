//! Input resolution: the candidate hash is the command-line argument itself,
//! unless the argument names an existing file, in which case it is the file's
//! content with one trailing line terminator stripped.

use vstd::prelude::*;

verus! {

/// `s` without its trailing line terminator (`"\r\n"` or `"\n"`), if it has
/// one; at most one terminator is removed.
pub open spec fn spec_strip_line_terminator(s: Seq<char>) -> Seq<char> {
    if s.len() >= 2 && s[s.len() - 2] == '\r' && s[s.len() - 1] == '\n' {
        s.subrange(0, s.len() - 2)
    } else if s.len() >= 1 && s[s.len() - 1] == '\n' {
        s.subrange(0, s.len() - 1)
    } else {
        s
    }
}

/// Removes one trailing line terminator from `s`, if there is one.
pub fn strip_line_terminator(s: &str) -> (r: String)
    ensures
        r@ == spec_strip_line_terminator(s@),
{
    let n = s.unicode_len();
    if n >= 2 && s.get_char(n - 2) == '\r' && s.get_char(n - 1) == '\n' {
        String::from_str(s.substring_char(0, n - 2))
    } else if n >= 1 && s.get_char(n - 1) == '\n' {
        String::from_str(s.substring_char(0, n - 1))
    } else {
        s.to_owned()
    }
}

/// Resolves the candidate hash. When the argument named an existing file, the
/// caller passes the file's content and the resolved hash is that content
/// with one trailing line terminator stripped; otherwise the argument itself
/// is the hash, taken literally.
pub fn resolve_hash(arg: String, file_content: Option<String>) -> (r: String)
    ensures
        match file_content {
            Some(content) => r@ == spec_strip_line_terminator(content@),
            None => r@ == arg@,
        },
{
    match file_content {
        Some(content) => strip_line_terminator(content.as_str()),
        None => arg,
    }
}

} // verus!
