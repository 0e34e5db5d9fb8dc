//! Regular-expression captures, as the `regex` crate computes them.
use vstd::prelude::*;

verus! {

/// What the `regex` crate yields for `pattern` on `haystack`: `None` when the
/// pattern does not match (or does not compile), otherwise the text of capture
/// group `group` in the leftmost-first match, if that group took part.
pub uninterp spec fn regex_group(
    pattern: Seq<char>,
    haystack: Seq<char>,
    group: nat,
) -> Option<Option<Seq<char>>>;

/// Compiles `pattern` with `regex::Regex::new`, runs `Regex::captures` on
/// `haystack` and takes `Captures::get(group)`.  The contract only names the
/// result: it is the same for the same arguments.  A pattern that does not
/// compile gives `None`, like a pattern that does not match.
#[verifier::external_body]
pub(crate) fn capture_group(pattern: &str, haystack: &str, group: usize) -> (r: Option<
    Option<String>,
>)
    ensures
        r.deep_view() == regex_group(pattern@, haystack@, group as nat),
{
    match regex::Regex::new(pattern) {
        Ok(re) => re.captures(haystack).map(|caps| caps.get(group).map(|m| m.as_str().to_string())),
        Err(_) => None,
    }
}

} // verus!
