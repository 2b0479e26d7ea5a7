//! Calls into the `regex` crate. The regex language itself is the crate's:
//! what a pattern matches is named here, not restated.

use vstd::prelude::*;

verus! {

/// What `regex::Regex::new` reports for a pattern: the error's message when it
/// does not compile, `None` when it does.
pub uninterp spec fn regex_compile_error(pattern: Seq<char>) -> Option<Seq<char>>;

/// What `Regex::replace_all` gives for the compiled pattern, a text and a
/// replacement (with `$name` expansion).
pub uninterp spec fn regex_replace_all_text(pattern: Seq<char>, text: Seq<char>, replacement: Seq<char>) -> Seq<char>;

/// What `Regex::replace` (the leftmost match only) gives for the compiled
/// pattern, a text and a replacement.
pub uninterp spec fn regex_replace_first_text(pattern: Seq<char>, text: Seq<char>, replacement: Seq<char>) -> Seq<char>;

/// Compiles `pattern` with `regex::Regex::new` and replaces every match in
/// `text` with `Regex::replace_all`. The contract names both outcomes; the
/// regex language and the replacement syntax are left to the regex crate.
#[verifier::external_body]
pub(crate) fn regex_replace_all(pattern: &str, text: &str, replacement: &str) -> (r: Result<String, String>)
    ensures
        r matches Err(e) ==> regex_compile_error(pattern@) == Some(e@),
        r matches Ok(t) ==> regex_compile_error(pattern@) is None
            && t@ == regex_replace_all_text(pattern@, text@, replacement@),
{
    match regex::Regex::new(pattern) {
        Ok(re) => Ok(re.replace_all(text, replacement).into_owned()),
        Err(e) => Err(e.to_string()),
    }
}

/// Compiles `pattern` with `regex::Regex::new` and replaces its leftmost match
/// in `text` with `Regex::replace`. The contract names both outcomes.
#[verifier::external_body]
pub(crate) fn regex_replace_first(pattern: &str, text: &str, replacement: &str) -> (r: Result<String, String>)
    ensures
        r matches Err(e) ==> regex_compile_error(pattern@) == Some(e@),
        r matches Ok(t) ==> regex_compile_error(pattern@) is None
            && t@ == regex_replace_first_text(pattern@, text@, replacement@),
{
    match regex::Regex::new(pattern) {
        Ok(re) => Ok(re.replace(text, replacement).into_owned()),
        Err(e) => Err(e.to_string()),
    }
}

/// What `Regex::captures` gives for the compiled pattern and a text: the
/// text of group 1 of the leftmost match (none when that group took no part
/// in it) and the text after that match; `None` when nothing matches.
pub uninterp spec fn regex_group_and_rest(pattern: Seq<char>, text: Seq<char>) -> Option<(Option<Seq<char>>, Seq<char>)>;

/// The value of an optional group with the text after its match.
pub open spec fn opt_pair_view(o: Option<(Option<String>, String)>) -> Option<(Option<Seq<char>>, Seq<char>)> {
    match o {
        Some(p) => Some((match p.0 { Some(g) => Some(g@), None => None }, p.1@)),
        None => None,
    }
}

/// Compiles `pattern` with `regex::Regex::new` and finds its leftmost match in
/// `text` with `Regex::captures`, giving group 1 and the text after the match
/// (the byte offsets the regex crate reports, turned into strings).
#[verifier::external_body]
pub(crate) fn regex_capture_group(pattern: &str, text: &str) -> (r: Result<Option<(Option<String>, String)>, String>)
    ensures
        r matches Err(e) ==> regex_compile_error(pattern@) == Some(e@),
        r matches Ok(c) ==> regex_compile_error(pattern@) is None
            && opt_pair_view(c) == regex_group_and_rest(pattern@, text@),
{
    match regex::Regex::new(pattern) {
        Ok(re) => Ok(re.captures(text).map(|c| (
            c.get(1).map(|g| g.as_str().to_string()),
            text[c.get(0).map_or(0, |m| m.end())..].to_string(),
        ))),
        Err(e) => Err(e.to_string()),
    }
}

} // verus!
