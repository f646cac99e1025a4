//! Matching a text against a regular expression.
//!
//! The matching itself is done by the `regex` crate. What it finds is a
//! function of the pattern and the text alone; the contracts of this crate
//! speak of it under the name `regex_captures`.

use vstd::prelude::*;
use crate::text::opt_texts;

verus! {

/// What a pattern found in a text.
#[derive(Debug)]
pub enum Captured {
    /// The pattern is not a regular expression that can be compiled.
    BadPattern,
    /// The pattern is fine and matches nowhere in the text.
    NoMatch,
    /// The leftmost match: what each capture group holds, group 0 being the
    /// whole match; `None` for a group that took no part in it.
    Groups(Vec<Option<String>>),
}

/// A `Captured` with its texts as character sequences.
pub enum CapturedView {
    BadPattern,
    NoMatch,
    Groups(Seq<Option<Seq<char>>>),
}

impl View for Captured {
    type V = CapturedView;

    open spec fn view(&self) -> CapturedView {
        match self {
            Captured::BadPattern => CapturedView::BadPattern,
            Captured::NoMatch => CapturedView::NoMatch,
            Captured::Groups(groups) => CapturedView::Groups(opt_texts(groups@)),
        }
    }
}

/// What the `regex` crate finds when `pattern` is compiled with its default
/// settings and searched for in `text`.
pub uninterp spec fn regex_captures(pattern: Seq<char>, text: Seq<char>) -> CapturedView;

/// Compiles `pattern` with `regex::Regex::new` and searches `text` with
/// `Regex::captures`.
///
/// Trusted: the result is what `regex_captures` names. A pattern that
/// `Regex::new` refuses gives `BadPattern`; a search without match gives
/// `NoMatch`; otherwise the groups are those that `Captures::iter` yields,
/// in its order, each as the matched text.
#[verifier::external_body]
pub(crate) fn captures(pattern: &str, text: &str) -> (r: Captured)
    ensures
        r@ == regex_captures(pattern@, text@),
{
    match regex::Regex::new(pattern) {
        Err(_) => Captured::BadPattern,
        Ok(re) => match re.captures(text) {
            None => Captured::NoMatch,
            Some(caps) => Captured::Groups(
                caps.iter().map(|m| m.map(|g| g.as_str().to_string())).collect(),
            ),
        },
    }
}

} // verus!
