//! The parsed page: documents, elements and selector queries, done by the
//! `scraper` crate.
//!
//! A document and its elements are opaque here. What the decoders read from
//! them (the matches of a selector, the markup inside an element, the value
//! of an attribute) is a function of the page text and is given a name, so
//! that contracts can say which part of a page a field comes from.

use vstd::prelude::*;

verus! {

/// `scraper::Html`: a parsed document. Nothing inside it is read here.
#[verifier::external_type_specification]
#[verifier::external_body]
pub struct ExHtml(scraper::Html);

/// `scraper::ElementRef`: an element of a parsed document. Nothing inside
/// it is read here.
#[verifier::external_type_specification]
#[verifier::external_body]
pub struct ExElementRef<'a>(scraper::ElementRef<'a>);

/// `scraper::Selector`: a parsed selector group. Nothing inside it is read
/// here.
#[verifier::external_type_specification]
#[verifier::external_body]
pub struct ExSelector(scraper::Selector);

/// The greatest number of characters of a page that is handed to the parser.
pub const MAX_PAGE_LENGTH: usize = 0x0FFF_FFFF;

/// The greatest number of characters of a selector text that is handed to
/// the selector parser.
pub const MAX_SELECTOR_LENGTH: usize = 64;

/// The page text that a document was parsed from. A document stands for
/// what parsing makes of its text.
pub uninterp spec fn source_of(doc: scraper::Html) -> Seq<char>;

/// The selector text that a selector was parsed from. A selector stands for
/// what parsing makes of its text.
pub uninterp spec fn selector_source(selector: scraper::Selector) -> Seq<char>;

/// Whether the selector parser accepts the text `selector` as a selector
/// group.
pub uninterp spec fn selector_accepted(selector: Seq<char>) -> bool;

/// The elements of the document parsed from `source` that match the
/// selector group `selector`, in the order in which a selection on the
/// document yields them.
pub uninterp spec fn document_matches(source: Seq<char>, selector: Seq<char>) -> Seq<
    scraper::ElementRef<'static>,
>;

/// The descendants of `el` that match the selector group `selector`, in the
/// order in which a selection on the element yields them.
pub uninterp spec fn element_matches(el: scraper::ElementRef, selector: Seq<char>) -> Seq<
    scraper::ElementRef,
>;

/// The markup inside `el`, as the serialiser writes it.
pub uninterp spec fn inner_html_of(el: scraper::ElementRef) -> Seq<char>;

/// The value of the attribute `name` of `el`, where it has that attribute.
pub uninterp spec fn attr_of(el: scraper::ElementRef, name: Seq<char>) -> Option<Seq<char>>;

/// The first element of the document parsed from `source` that matches
/// `selector`.
pub open spec fn first_in_document(source: Seq<char>, selector: Seq<char>) -> Option<
    scraper::ElementRef<'static>,
> {
    let found = document_matches(source, selector);
    if found.len() > 0 {
        Some(found[0])
    } else {
        None
    }
}

/// The first descendant of `el` that matches `selector`.
pub open spec fn first_match(el: scraper::ElementRef, selector: Seq<char>) -> Option<
    scraper::ElementRef,
> {
    let found = element_matches(el, selector);
    if found.len() > 0 {
        Some(found[0])
    } else {
        None
    }
}

/// `scraper::Html::parse_document`, for a page of at most
/// [`MAX_PAGE_LENGTH`] characters.
///
/// The parser keeps text in buffers whose length in bytes must fit in 32
/// bits, and panics on a longer text. A character takes at most four bytes,
/// so that a page within the bound, and the text that the parser joins from
/// it, stays far below that limit. Within the bound the call returns a
/// document whatever the text holds; the document is a function of the page
/// text, which [`source_of`] recalls.
#[verifier::external_body]
pub(crate) fn parse_document(html: &str) -> (doc: scraper::Html)
    requires
        html@.len() <= MAX_PAGE_LENGTH,
    ensures
        source_of(doc) == html@,
{
    scraper::Html::parse_document(html)
}

/// `scraper::Selector::parse`, with the error dropped, for a selector text
/// of at most [`MAX_SELECTOR_LENGTH`] characters.
///
/// The parser counts the lines and the parts of a selector in 32 bits, which
/// only a text of gigabytes can overflow; the bound keeps far from that.
/// Parsing reads the text and nothing else, so whether a text is accepted is
/// a function of the text and is named [`selector_accepted`]; which texts
/// are selectors is not said. A parsed selector is a function of its text,
/// which [`selector_source`] recalls.
#[verifier::external_body]
pub(crate) fn parse_selector(selector: &str) -> (r: Option<scraper::Selector>)
    requires
        selector@.len() <= MAX_SELECTOR_LENGTH,
    ensures
        r.is_some() == selector_accepted(selector@),
        r matches Some(parsed) ==> selector_source(parsed) == selector@,
{
    scraper::Selector::parse(selector).ok()
}

/// `scraper::Html::select` on a document that [`parse_document`] made and
/// with a selector that [`parse_selector`] made: all matches, collected in
/// the order in which the iterator yields them. The matches are a function
/// of the page text and the selector text and are named
/// [`document_matches`]; which elements a selector matches is not said.
#[verifier::external_body]
pub(crate) fn select_document<'a>(doc: &'a scraper::Html, selector: &scraper::Selector) -> (v: Vec<
    scraper::ElementRef<'a>,
>)
    ensures
        v@ == document_matches(source_of(*doc), selector_source(*selector)),
{
    doc.select(selector).collect()
}

/// `scraper::ElementRef::select` with a selector that [`parse_selector`]
/// made: all matching descendants, collected in the order in which the
/// iterator yields them. The matches are a function of the element and the
/// selector text and are named [`element_matches`]; which elements a
/// selector matches is not said.
#[verifier::external_body]
pub(crate) fn select_element<'a>(
    el: &scraper::ElementRef<'a>,
    selector: &scraper::Selector,
) -> (v: Vec<scraper::ElementRef<'a>>)
    ensures
        v@ == element_matches(*el, selector_source(*selector)),
{
    el.select(selector).collect()
}

/// `scraper::ElementRef::inner_html`: the children of the element, written
/// out as markup. The text is a function of the element and is named
/// [`inner_html_of`]; how markup is written out is not said.
#[verifier::external_body]
pub(crate) fn inner_html(el: &scraper::ElementRef) -> (s: String)
    ensures
        s@ == inner_html_of(*el),
{
    el.inner_html()
}

/// `scraper::ElementRef::attr`, with the value copied into a `String`: the
/// value of an attribute, or nothing where the element has no attribute of
/// that name. The result is a function of the element and the name and is
/// named [`attr_of`].
#[verifier::external_body]
pub(crate) fn attr(el: &scraper::ElementRef, name: &str) -> (r: Option<String>)
    ensures
        match r {
            Some(s) => attr_of(*el, name@) == Some(s@),
            None => attr_of(*el, name@).is_none(),
        },
{
    el.attr(name).map(|value| value.to_string())
}

} // verus!
