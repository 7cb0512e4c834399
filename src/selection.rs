use vstd::prelude::*;

use crate::text::{trim, trimmed};

verus! {

/// The selected text, from what the primary selection and the clipboard hold (`None`
/// where reading one failed): the first of them that is not blank, trimmed; else empty.
pub open spec fn selection_from(primary: Option<Seq<char>>, clipboard: Option<Seq<char>>) -> Seq<
    char,
> {
    match primary {
        Some(p) if trim(p).len() > 0 => trim(p),
        _ => match clipboard {
            Some(c) if trim(c).len() > 0 => trim(c),
            _ => Seq::empty(),
        },
    }
}

/// Picks the selected text from the primary selection, falling back on the clipboard;
/// a failed or blank read gives way to the next, and the last resort is the empty string.
pub fn fetch_selection(primary: Option<String>, clipboard: Option<String>) -> (r: String)
    ensures
        r@ == selection_from(primary.deep_view(), clipboard.deep_view()),
{
    if let Some(p) = primary {
        let t = trimmed(p.as_str());
        if !t.as_str().is_empty() {
            return t;
        }
    }
    if let Some(c) = clipboard {
        let t = trimmed(c.as_str());
        if !t.as_str().is_empty() {
            return t;
        }
    }
    String::new()
}

} // verus!
