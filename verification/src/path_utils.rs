//! Path validation and the derivation of the marker's storage location.
//!
//! All of this is pure text work: a path is inspected character by
//! character, never handed to the operating system.

use vstd::prelude::*;

use crate::error::UnblockerError;

verus! {

/// Whether the path contains a directory traversal sequence: two
/// consecutive dots anywhere in the text.
pub open spec fn has_traversal(s: Seq<char>) -> bool {
    exists|i: int| 0 <= i && i + 1 < s.len() && #[trigger] s[i] == '.' && s[i + 1] == '.'
}

/// The characters a path may not contain.
pub open spec fn forbidden_char(c: char) -> bool {
    c == '<' || c == '>' || c == '|' || c == '\0'
}

/// Whether the path contains a forbidden character.
pub open spec fn has_forbidden_char(s: Seq<char>) -> bool {
    exists|i: int| 0 <= i < s.len() && forbidden_char(s[i])
}

/// A path passes validation when it has neither a traversal sequence nor a
/// forbidden character.
pub open spec fn path_ok(s: Seq<char>) -> bool {
    !has_traversal(s) && !has_forbidden_char(s)
}

/// The storage location of the marker: the file's own path with the
/// stream name appended.
pub open spec fn ads_path_of(s: Seq<char>) -> Seq<char> {
    s + ":Zone.Identifier"@
}

/// The denylisted system locations: a path below one of these is skipped.
pub open spec fn is_dangerous_path(s: Seq<char>) -> bool {
    ||| "C:\\Windows\\System32"@.is_prefix_of(s)
    ||| "C:\\Windows\\SysWOW64"@.is_prefix_of(s)
    ||| "C:\\Program Files\\Windows"@.is_prefix_of(s)
    ||| "\\\\?\\"@.is_prefix_of(s)
}

/// The error a failed validation carries: the traversal message when a
/// traversal sequence is present, the character message otherwise.
pub open spec fn invalid_path_error(s: Seq<char>, e: UnblockerError) -> bool {
    &&& e matches UnblockerError::InvalidPath(m)
    &&& if has_traversal(s) {
        m@ == "Path contains directory traversal sequences"@
    } else {
        m@ == "Path contains invalid characters"@
    }
}

/// Scans for two consecutive dots.
fn find_traversal(s: &str) -> (r: bool)
    ensures
        r == has_traversal(s@),
{
    let n = s.unicode_len();
    if n < 2 {
        return false;
    }
    let mut i: usize = 0;
    while i + 1 < n
        invariant
            n == s@.len(),
            2 <= n,
            i + 1 <= n,
            forall|j: int| 0 <= j < i ==> !(#[trigger] s@[j] == '.' && s@[j + 1] == '.'),
        decreases n - i,
    {
        if s.get_char(i) == '.' && s.get_char(i + 1) == '.' {
            proof {
                assert(s@[i as int] == '.' && s@[i as int + 1] == '.');
            }
            return true;
        }
        i += 1;
    }
    false
}

/// Scans for a forbidden character.
fn find_forbidden_char(s: &str) -> (r: bool)
    ensures
        r == has_forbidden_char(s@),
{
    let n = s.unicode_len();
    let mut i: usize = 0;
    while i < n
        invariant
            n == s@.len(),
            i <= n,
            forall|j: int| 0 <= j < i ==> !forbidden_char(s@[j]),
        decreases n - i,
    {
        let c = s.get_char(i);
        if c == '<' || c == '>' || c == '|' || c == '\0' {
            proof {
                assert(forbidden_char(s@[i as int]));
            }
            return true;
        }
        i += 1;
    }
    false
}

/// Compares the head of `s` against `prefix`, character by character.
fn str_starts_with(s: &str, prefix: &str) -> (r: bool)
    ensures
        r == prefix@.is_prefix_of(s@),
{
    let n = s.unicode_len();
    let m = prefix.unicode_len();
    if m > n {
        return false;
    }
    let mut i: usize = 0;
    while i < m
        invariant
            n == s@.len(),
            m == prefix@.len(),
            m <= n,
            i <= m,
            forall|j: int| 0 <= j < i ==> s@[j] == prefix@[j],
        decreases m - i,
    {
        if s.get_char(i) != prefix.get_char(i) {
            proof {
                assert(s@.subrange(0, m as int)[i as int] == s@[i as int]);
            }
            return false;
        }
        i += 1;
    }
    proof {
        assert(prefix@ =~= s@.subrange(0, m as int));
    }
    true
}

/// Validates a path: rejects traversal sequences and forbidden characters,
/// and otherwise hands the path back unchanged.
pub fn validate_path(path: &str) -> (r: Result<String, UnblockerError>)
    ensures
        r is Ok <==> path_ok(path@),
        r matches Ok(p) ==> p@ == path@,
        r matches Err(e) ==> invalid_path_error(path@, e),
{
    if find_traversal(path) {
        Err(UnblockerError::InvalidPath(
            String::from_str("Path contains directory traversal sequences"),
        ))
    } else if find_forbidden_char(path) {
        Err(UnblockerError::InvalidPath(String::from_str("Path contains invalid characters")))
    } else {
        Ok(String::from_str(path))
    }
}

/// Derives the marker's storage location for a file: the validated path
/// with the stream name appended.
pub fn get_ads_path(file_path: &str) -> (r: Result<String, UnblockerError>)
    ensures
        r is Ok <==> path_ok(file_path@),
        r matches Ok(a) ==> a@ == ads_path_of(file_path@),
        r matches Err(e) ==> invalid_path_error(file_path@, e),
{
    match validate_path(file_path) {
        Ok(p) => Ok(p.concat(":Zone.Identifier")),
        Err(e) => Err(e),
    }
}

/// Whether a path is outside the denylisted system locations and so safe
/// to process.
pub fn is_safe_path(path: &str) -> (r: bool)
    ensures
        r == !is_dangerous_path(path@),
{
    if str_starts_with(path, "C:\\Windows\\System32") {
        false
    } else if str_starts_with(path, "C:\\Windows\\SysWOW64") {
        false
    } else if str_starts_with(path, "C:\\Program Files\\Windows") {
        false
    } else if str_starts_with(path, "\\\\?\\") {
        false
    } else {
        true
    }
}

} // verus!
