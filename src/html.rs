use vstd::prelude::*;

use crate::text::{
    chars_of, collapse, collapse_chars, join, join_strings, string_of,
};

verus! {

/// The text nodes, in tree order, of each element that the CSS selector `selector` picks
/// in the document parsed from `html`, elements in document order.
pub uninterp spec fn selected_text_nodes(html: Seq<char>, selector: Seq<char>) -> Seq<
    Seq<Seq<char>>,
>;

/// Relies on scraper: `Html::parse_document` parses `html`, `Selector::parse` reads
/// `selector` (one it cannot read picks nothing), `Html::select` yields the elements it
/// picks and `ElementRef::text` the text nodes of each. The element that `:root` picks is
/// the one that `Html::root_element` gives.
#[verifier::external_body]
fn select_text_nodes(html: &str, selector: &str) -> (r: Vec<Vec<String>>)
    ensures
        r.deep_view() == selected_text_nodes(html@, selector@),
{
    let document = scraper::Html::parse_document(html);
    match scraper::Selector::parse(selector) {
        Ok(sel) => document.select(&sel).map(|e| e.text().map(String::from).collect()).collect(),
        Err(_) => Vec::new(),
    }
}

/// The line that an element's text nodes make: its text content, the nodes one after
/// the other, with each run of whitespace collapsed.
pub open spec fn line_of(nodes: Seq<Seq<char>>) -> Seq<char> {
    collapse(join(nodes, Seq::empty()))
}

/// The non-empty lines of the given paragraphs, in order.
pub open spec fn paragraph_lines(paragraphs: Seq<Seq<Seq<char>>>) -> Seq<Seq<char>>
    decreases paragraphs.len(),
{
    if paragraphs.len() == 0 {
        Seq::empty()
    } else {
        let before = paragraph_lines(paragraphs.drop_last());
        let line = line_of(paragraphs.last());
        if line.len() > 0 {
            before.push(line)
        } else {
            before
        }
    }
}

/// Most paragraphs that a summary takes.
pub const MAX_PARAGRAPHS: usize = 4;

/// The lines of an article's summary: the first heading's line, then those of the first
/// four paragraphs, each kept only where it is not empty.
pub open spec fn lines_of(headings: Seq<Seq<Seq<char>>>, paragraphs: Seq<Seq<Seq<char>>>) -> Seq<
    Seq<char>,
> {
    let head = if headings.len() > 0 && line_of(headings[0]).len() > 0 {
        seq![line_of(headings[0])]
    } else {
        Seq::empty()
    };
    let first = if paragraphs.len() <= 4 {
        paragraphs
    } else {
        paragraphs.take(4)
    };
    head + paragraph_lines(first)
}

/// The plain text of an article: its summary lines separated by blank lines, or, where
/// there are none, the line that the text under the root element makes.
pub open spec fn article_text(
    headings: Seq<Seq<Seq<char>>>,
    paragraphs: Seq<Seq<Seq<char>>>,
    roots: Seq<Seq<Seq<char>>>,
) -> Seq<char> {
    let lines = lines_of(headings, paragraphs);
    if lines.len() == 0 {
        if roots.len() > 0 {
            line_of(roots[0])
        } else {
            Seq::empty()
        }
    } else {
        join(lines, seq!['\n', '\n'])
    }
}

/// The plain text of the HTML page `html`.
pub open spec fn page_text(html: Seq<char>) -> Seq<char> {
    article_text(
        selected_text_nodes(html, seq!['h', '1']),
        selected_text_nodes(html, seq!['p']),
        selected_text_nodes(html, seq![':', 'r', 'o', 'o', 't']),
    )
}

/// A page with no `<h1>` and no `<p>` element reads as the text content of its root
/// element, with its whitespace collapsed.
pub proof fn lemma_page_without_summary_falls_back(html: Seq<char>)
    requires
        selected_text_nodes(html, seq!['h', '1']).len() == 0,
        selected_text_nodes(html, seq!['p']).len() == 0,
        selected_text_nodes(html, seq![':', 'r', 'o', 'o', 't']).len() > 0,
    ensures
        page_text(html) == collapse(
            join(selected_text_nodes(html, seq![':', 'r', 'o', 'o', 't'])[0], Seq::empty()),
        ),
{
    let none: Seq<Seq<Seq<char>>> = selected_text_nodes(html, seq!['p']);
    assert(lines_of(selected_text_nodes(html, seq!['h', '1']), none) =~= Seq::empty());
}

/// A page with one `<h1>` and one `<p>`, each holding text, reads as the two
/// whitespace-collapsed lines with a blank line between them.
pub proof fn lemma_heading_then_paragraph(html: Seq<char>)
    requires
        selected_text_nodes(html, seq!['h', '1']).len() == 1,
        selected_text_nodes(html, seq!['p']).len() == 1,
        line_of(selected_text_nodes(html, seq!['h', '1'])[0]).len() > 0,
        line_of(selected_text_nodes(html, seq!['p'])[0]).len() > 0,
    ensures
        page_text(html) == line_of(selected_text_nodes(html, seq!['h', '1'])[0]) + seq![
            '\n',
            '\n',
        ] + line_of(selected_text_nodes(html, seq!['p'])[0]),
{
    let ps = selected_text_nodes(html, seq!['p']);
    let head = line_of(selected_text_nodes(html, seq!['h', '1'])[0]);
    let body = line_of(ps[0]);
    assert(ps.drop_last() =~= Seq::empty());
    assert(paragraph_lines(ps.drop_last()) =~= Seq::empty());
    assert(ps.last() == ps[0]);
    assert(paragraph_lines(ps) =~= seq![body]);
    let lines = lines_of(selected_text_nodes(html, seq!['h', '1']), ps);
    assert(lines =~= seq![head, body]);
    assert(lines.drop_last() =~= seq![head]);
    assert(join(lines.drop_last(), seq!['\n', '\n']) == head);
}

/// The line that an element's text nodes make.
pub fn node_line(nodes: &Vec<String>) -> (r: String)
    ensures
        r@ == line_of(nodes.deep_view()),
{
    proof {
        reveal_strlit("");
    }
    let joined = join_strings(nodes, "");
    assert(""@ =~= Seq::<char>::empty());
    let squeezed = collapse_chars(&chars_of(joined.as_str()));
    string_of(squeezed.as_slice())
}

/// The lines of an article's summary, from the text nodes of its headings and its
/// paragraphs.
pub fn summary_lines(headings: &Vec<Vec<String>>, paragraphs: &Vec<Vec<String>>) -> (r: Vec<
    String,
>)
    ensures
        r.deep_view() == lines_of(headings.deep_view(), paragraphs.deep_view()),
{
    let mut lines: Vec<String> = Vec::new();
    if headings.len() > 0 {
        let line = node_line(&headings[0]);
        if !line.as_str().is_empty() {
            lines.push(line);
        }
    }
    assert(headings.deep_view().len() > 0 ==> headings.deep_view()[0] == headings[0].deep_view());
    let ghost head = lines.deep_view();
    let n = if paragraphs.len() <= MAX_PARAGRAPHS {
        paragraphs.len()
    } else {
        MAX_PARAGRAPHS
    };
    let ghost first = paragraphs.deep_view().take(n as int);
    let mut i: usize = 0;
    while i < n
        invariant
            n <= paragraphs@.len(),
            i <= n,
            first == paragraphs.deep_view().take(n as int),
            lines.deep_view() == head + paragraph_lines(first.take(i as int)),
        decreases n - i,
    {
        let ghost next = first.take(i as int + 1);
        assert(next.drop_last() =~= first.take(i as int));
        assert(next.last() == paragraphs[i as int].deep_view());
        let line = node_line(&paragraphs[i]);
        if !line.as_str().is_empty() {
            let ghost before = lines.deep_view();
            let ghost text = line@;
            lines.push(line);
            assert(lines.deep_view() =~= before.push(text));
            assert(lines.deep_view() =~= head + paragraph_lines(next));
        }
        i += 1;
    }
    assert(first.take(n as int) =~= first);
    assert(paragraphs.deep_view().len() <= 4 ==> first =~= paragraphs.deep_view());
    lines
}

/// The plain text of an HTML page: the first `<h1>` and up to four `<p>` elements, one line
/// each, separated by blank lines; where none of them holds text, all the text of the page
/// on one line.
pub fn html_to_text(html: &str) -> (r: String)
    ensures
        r@ == page_text(html@),
{
    proof {
        reveal_strlit("h1");
        reveal_strlit("p");
        reveal_strlit("\n\n");
        reveal_strlit(":root");
    }
    assert("h1"@ =~= seq!['h', '1']);
    assert("p"@ =~= seq!['p']);
    assert("\n\n"@ =~= seq!['\n', '\n']);
    assert(":root"@ =~= seq![':', 'r', 'o', 'o', 't']);
    let headings = select_text_nodes(html, "h1");
    let paragraphs = select_text_nodes(html, "p");
    let lines = summary_lines(&headings, &paragraphs);
    if lines.len() == 0 {
        let roots = select_text_nodes(html, ":root");
        if roots.len() > 0 {
            node_line(&roots[0])
        } else {
            String::new()
        }
    } else {
        join_strings(&lines, "\n\n")
    }
}

} // verus!
