use vstd::prelude::*;

use crate::text::{chars_of, string_of};

verus! {

/// `pat` stands in `s` at index `i`.
pub open spec fn occurs_at(s: Seq<char>, pat: Seq<char>, i: int) -> bool {
    0 <= i && i + pat.len() <= s.len() && s.subrange(i, i + pat.len()) == pat
}

/// The first index at or after `i` where `pat` stands in `s`.
pub open spec fn find_from(s: Seq<char>, pat: Seq<char>, i: int) -> Option<int>
    decreases s.len() + 1 - i,
{
    if i < 0 || i + pat.len() > s.len() {
        None
    } else if occurs_at(s, pat, i) {
        Some(i)
    } else {
        find_from(s, pat, i + 1)
    }
}

/// The first index at or after `i` that holds `c`.
pub open spec fn find_char_from(s: Seq<char>, c: char, i: int) -> Option<int>
    decreases s.len() - i,
{
    if i < 0 || i >= s.len() {
        None
    } else if s[i] == c {
        Some(i)
    } else {
        find_char_from(s, c, i + 1)
    }
}

/// The link that the first occurrence of `pat` opens: the attribute value that starts
/// after `href="` and runs to the next `"`, without one leading slash. `None` where `pat`
/// does not occur or no quote closes the value.
pub open spec fn link_after(s: Seq<char>, pat: Seq<char>) -> Option<Seq<char>> {
    match find_from(s, pat, 0) {
        Some(i) => match find_char_from(s, '"', i + 6) {
            Some(k) => {
                let value = s.subrange(i + 6, k);
                if value.len() > 0 && value[0] == '/' {
                    Some(value.drop_first())
                } else {
                    Some(value)
                }
            },
            None => None,
        },
        None => None,
    }
}

/// The article path of the first hit on a search-results page: the first link into
/// `/content/`, or failing that the first into `/resources/`.
pub open spec fn first_hit(s: Seq<char>) -> Option<Seq<char>> {
    match link_after(s, "href=\"/content/"@) {
        Some(p) => Some(p),
        None => link_after(s, "href=\"/resources/"@),
    }
}

/// `find_from` gives the earliest occurrence at or after `i`, and `None` only where there
/// is none.
pub proof fn lemma_find_from_is_earliest(s: Seq<char>, pat: Seq<char>, i: int)
    requires
        0 <= i,
    ensures
        find_from(s, pat, i) matches Some(k) ==> i <= k && occurs_at(s, pat, k) && forall|j: int|
            i <= j < k ==> !#[trigger] occurs_at(s, pat, j),
        find_from(s, pat, i) is None ==> forall|j: int| i <= j ==> !#[trigger] occurs_at(s, pat, j),
    decreases s.len() + 1 - i,
{
    if i + pat.len() <= s.len() && !occurs_at(s, pat, i) {
        lemma_find_from_is_earliest(s, pat, i + 1);
    }
}

/// A page on which neither link pattern occurs has no hit; where a content link occurs,
/// the hit comes from the earliest one that is closed by a quote, and no resources link is
/// looked at.
pub proof fn lemma_first_hit(s: Seq<char>)
    ensures
        (forall|j: int| !#[trigger] occurs_at(s, "href=\"/content/"@, j)) && (forall|j: int|
            !#[trigger] occurs_at(s, "href=\"/resources/"@, j)) ==> first_hit(s) is None,
        link_after(s, "href=\"/content/"@) is Some ==> first_hit(s) == link_after(
            s,
            "href=\"/content/"@,
        ),
{
    lemma_find_from_is_earliest(s, "href=\"/content/"@, 0);
    lemma_find_from_is_earliest(s, "href=\"/resources/"@, 0);
}

fn find_pattern(s: &Vec<char>, pat: &Vec<char>) -> (r: Option<usize>)
    ensures
        r matches Some(i) ==> Some(i as int) == find_from(s@, pat@, 0) && occurs_at(
            s@,
            pat@,
            i as int,
        ),
        r is None ==> find_from(s@, pat@, 0) is None,
{
    if pat.len() > s.len() {
        return None;
    }
    let mut i: usize = 0;
    while i <= s.len() - pat.len()
        invariant
            pat@.len() <= s@.len(),
            find_from(s@, pat@, 0) == find_from(s@, pat@, i as int),
        decreases s@.len() - i,
    {
        let mut j: usize = 0;
        while j < pat.len() && s[i + j] == pat[j]
            invariant
                i + pat@.len() <= s@.len(),
                s@.len() <= usize::MAX,
                j <= pat@.len(),
                forall|k: int| 0 <= k < j ==> s@[i + k] == #[trigger] pat@[k],
            decreases pat@.len() - j,
        {
            j += 1;
        }
        if j == pat.len() {
            assert(s@.subrange(i as int, i + pat@.len()) =~= pat@);
            return Some(i);
        }
        assert(!occurs_at(s@, pat@, i as int)) by {
            if occurs_at(s@, pat@, i as int) {
                assert(s@.subrange(i as int, i + pat@.len())[j as int] == s@[i + j]);
            }
        }
        i += 1;
    }
    None
}

fn find_char(s: &Vec<char>, c: char, from: usize) -> (r: Option<usize>)
    ensures
        r matches Some(k) ==> Some(k as int) == find_char_from(s@, c, from as int) && from <= k
            < s@.len(),
        r is None ==> find_char_from(s@, c, from as int) is None,
{
    let mut k = from;
    while k < s.len()
        invariant
            from <= k,
            find_char_from(s@, c, from as int) == find_char_from(s@, c, k as int),
        decreases s@.len() - k,
    {
        if s[k] == c {
            return Some(k);
        }
        k += 1;
    }
    None
}

fn link_for(s: &Vec<char>, needle: &str) -> (r: Option<Vec<char>>)
    requires
        needle@.len() >= 6,
    ensures
        r.deep_view() == link_after(s@, needle@),
{
    let n = s.len();
    let pat = chars_of(needle);
    match find_pattern(s, &pat) {
        Some(i) => {
            let start = i + 6;
            match find_char(s, '"', start) {
                Some(k) => {
                    let mut value: Vec<char> = Vec::new();
                    let mut from = start;
                    if k > start && s[start] == '/' {
                        from = start + 1;
                    }
                    let mut j = from;
                    while j < k
                        invariant
                            from <= j <= k,
                            k < n,
                            n == s@.len(),
                            value@ == s@.subrange(from as int, j as int),
                        decreases k - j,
                    {
                        value.push(s[j]);
                        j += 1;
                        assert(value@ =~= s@.subrange(from as int, j as int));
                    }
                    let ghost whole = s@.subrange(start as int, k as int);
                    assert(whole.len() > 0 && whole[0] == '/' ==> whole.drop_first() =~= value@);
                    assert(!(whole.len() > 0 && whole[0] == '/') ==> whole =~= value@);
                    Some(value)
                },
                None => None,
            }
        },
        None => None,
    }
}

/// The article path of the first hit on a search-results page, if there is one.
pub fn extract_content_path(search_html: &str) -> (r: Option<String>)
    ensures
        r.deep_view() == first_hit(search_html@),
{
    proof {
        reveal_strlit("href=\"/content/");
        reveal_strlit("href=\"/resources/");
    }
    let s = chars_of(search_html);
    match link_for(&s, "href=\"/content/") {
        Some(v) => Some(string_of(v.as_slice())),
        None => match link_for(&s, "href=\"/resources/") {
            Some(v) => Some(string_of(v.as_slice())),
            None => None,
        },
    }
}

} // verus!
