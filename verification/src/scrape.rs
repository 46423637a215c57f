//! The data that the YouTube web pages embed: the JSON object assigned to
//! `ytInitialData` in a script of the page.
use vstd::prelude::*;
use crate::text::contains_seq;

verus! {

/// The text that group 1 of the pattern
/// `var ytInitialData =.* (\{.*\});</script>` captures in the first match
/// in `html`, if the pattern matches.
pub uninterp spec fn initial_data_capture(html: Seq<char>) -> Option<Seq<char>>;

/// Runs `regex::Regex::captures` with the pattern above on `html` and
/// returns the text of group 1. Claimed of it: the result is the named
/// capture; when there is one, it is a piece of `html` that starts with `{`
/// and ends with `}` (what group 1, `\{.*\}`, matches).
#[verifier::external_body]
fn capture_initial_data(html: &str) -> (r: Option<String>)
    ensures
        match r {
            Some(s) => initial_data_capture(html@) == Some(s@),
            None => initial_data_capture(html@) is None,
        },
        r is Some ==> contains_seq(html@, r->0@) && r->0@.len() >= 2 && r->0@[0] == '{'
            && r->0@.last() == '}',
{
    let re = regex::Regex::new(r"var ytInitialData =.* (\{.*\});</script>").unwrap();
    match re.captures(html) {
        Some(caps) => Some(caps.get(1).map_or("", |m| m.as_str()).to_string()),
        None => None,
    }
}

/// The text of the JSON object that a YouTube web page assigns to
/// `ytInitialData`, if the page has one.
pub fn filter_json(html: &str) -> (r: Option<String>)
    ensures
        match r {
            Some(s) => initial_data_capture(html@) == Some(s@),
            None => initial_data_capture(html@) is None,
        },
        r is Some ==> contains_seq(html@, r->0@),
{
    capture_initial_data(html)
}

} // verus!
