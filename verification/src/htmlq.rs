//! CSS-selector extraction from a fetched HTML page, done by `scraper`
//! behind a named result.

use vstd::prelude::*;

verus! {

/// The joined text of the `n`-th element (0-based, in document order)
/// that the CSS selector `selector` matches in the document `html`;
/// nothing where the selector is invalid or matches at most `n`
/// elements. HTML parsing and selector matching are functions of the
/// two strings alone.
pub uninterp spec fn spec_selected_text(html: Seq<char>, selector: Seq<char>, n: int) -> Option<
    Seq<char>,
>;

/// Relies on scraper's `Selector::parse`, `Html::parse_document`,
/// `Html::select` and `ElementRef::text`: parse the document, take the
/// `n`-th match of the selector, join its text nodes.
#[verifier::external_body]
pub fn select_nth_text(html: &str, selector: &str, n: usize) -> (r: Option<String>)
    ensures
        r matches Some(t) ==> spec_selected_text(html@, selector@, n as int) == Some(t@),
        r is None ==> spec_selected_text(html@, selector@, n as int) is None,
{
    let Ok(sel) = scraper::Selector::parse(selector) else {
        return None;
    };
    let doc = scraper::Html::parse_document(html);
    let el = doc.select(&sel).nth(n)?;
    Some(el.text().collect::<Vec<&str>>().join(""))
}

} // verus!
