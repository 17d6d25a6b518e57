//! Regular expression search, done by the `regex` crate.

use vstd::prelude::*;

verus! {

/// What `regex::Regex::new` says of a pattern: `None` when the pattern
/// compiles, otherwise the text that the returned `regex::Error` displays.
pub uninterp spec fn regex_syntax_error(pattern: Seq<char>) -> Option<Seq<char>>;

/// What `regex::Regex::is_match` returns for a subject, on the regular
/// expression compiled from a pattern that `regex::Regex::new` accepts:
/// whether the expression matches anywhere in the subject.
pub uninterp spec fn regex_is_match(pattern: Seq<char>, subject: Seq<char>) -> bool;

/// Compiles `pattern` with `regex::Regex::new` and, where that succeeds,
/// searches `subject` with `regex::Regex::is_match`. Where compilation
/// fails, the error's display text is handed back. The contract only names
/// the two results; nothing about regular expression syntax is proved.
#[verifier::external_body]
pub(crate) fn search(pattern: &str, subject: &str) -> (r: Result<bool, String>)
    ensures
        match r {
            Ok(found) => regex_syntax_error(pattern@) is None && found == regex_is_match(
                pattern@,
                subject@,
            ),
            Err(message) => regex_syntax_error(pattern@) == Some(message@),
        },
{
    match regex::Regex::new(pattern) {
        Ok(regex) => Ok(regex.is_match(subject)),
        Err(e) => Err(format!("{e}")),
    }
}

} // verus!
