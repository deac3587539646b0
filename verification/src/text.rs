//! Small operations on text that the naming rules are built from.

use vstd::prelude::*;
use vstd::string::*;

verus! {

/// What an optional text is, as plain values.
pub open spec fn text_of(o: Option<String>) -> Option<Seq<char>> {
    match o {
        Some(s) => Some(s@),
        None => None,
    }
}

/// Whether a string is the given text.
pub(crate) fn text_is(s: &String, text: &str) -> (r: bool)
    ensures
        r == (s@ == text@),
{
    let t = String::from_str(text);
    *s == t
}

/// The text `name` followed by `suffix`.
pub(crate) fn suffixed(name: &str, suffix: &str) -> (r: String)
    ensures
        r@ == name@ + suffix@,
{
    let mut text = String::from_str(name);
    text.append(suffix);
    text
}

/// The text `prefix`, `name`, `suffix` in a row.
pub(crate) fn affixed(prefix: &str, name: &str, suffix: &str) -> (r: String)
    ensures
        r@ == prefix@ + name@ + suffix@,
{
    let mut text = String::from_str(prefix);
    text.append(name);
    text.append(suffix);
    text
}

} // verus!
