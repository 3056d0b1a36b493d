//! Decoding of catalogue pages: the department listing and the course
//! detail page.

use vstd::prelude::*;
use vstd::string::StringExecFns;
use crate::markup::{
    attr, attr_of, document_matches, element_matches, first_in_document, first_match, inner_html,
    inner_html_of, parse_selector, select_document, select_element, selector_accepted,
    selector_source, source_of, MAX_SELECTOR_LENGTH,
};
use crate::text::{from_chars, trim, trimmed_text};

pub mod list;
pub mod sub;
pub mod timetable;

pub use list::{html_to_course_abstracts, CourseAbstract};
pub use sub::{html_to_course, Course, CourseDetail, LecturePlan, Semester};
pub use timetable::{Day, Period, TimeTable};

verus! {

/// Why a page could not be decoded.
#[derive(Debug, Clone, Copy, PartialEq, Eq, Structural)]
pub enum ExtractError {
    /// An element that the page layout requires is absent.
    MissingElement,
    /// A link carries no `href` attribute.
    MissingLink,
    /// The title heading does not hold the separator between its two titles.
    MalformedTitle,
    /// A timetable group names no room in parentheses.
    MissingRoom,
    /// A number field does not write an integer that fits.
    InvalidNumber,
    /// The selector or pattern engine refused one of the fixed queries.
    Engine,
    /// The page has more characters than the parser is given.
    PageTooLong,
}

/// A course title with the address of its detail page.
#[derive(Debug, Clone, PartialEq, Eq)]
pub struct CourseTitle {
    pub title: String,
    pub url: String,
}

/// The mathematical value of a [`CourseTitle`].
pub struct CourseTitleView {
    pub title: Seq<char>,
    pub url: Seq<char>,
}

impl View for CourseTitle {
    type V = CourseTitleView;

    open spec fn view(&self) -> CourseTitleView {
        CourseTitleView { title: self.title@, url: self.url@ }
    }
}

/// A lecturer's name with the address of their page.
#[derive(Debug, Clone, PartialEq, Eq)]
pub struct Lecturer {
    pub name: String,
    pub url: String,
}

/// The mathematical value of a [`Lecturer`].
pub struct LecturerView {
    pub name: Seq<char>,
    pub url: Seq<char>,
}

impl View for Lecturer {
    type V = LecturerView;

    open spec fn view(&self) -> LecturerView {
        LecturerView { name: self.name@, url: self.url@ }
    }
}

impl DeepView for Lecturer {
    type V = LecturerView;

    open spec fn deep_view(&self) -> LecturerView {
        self@
    }
}

/// The origin that every link of the portal is resolved against.
pub const BASE_URL: &'static str = "https://www.ocw.titech.ac.jp/";

/// The absolute address of a link target.
pub open spec fn absolute(href: Seq<char>) -> Seq<char> {
    BASE_URL@ + href
}

/// Rewrites a link target into an absolute address by prefixing the portal
/// origin.
pub fn absolute_url(href: &str) -> (url: String)
    ensures
        url@ == absolute(href@),
{
    let mut url = String::from_str(BASE_URL);
    url.append(href);
    url
}

// ---------------------------------------------------------------------------
// Reading the parsed page
// ---------------------------------------------------------------------------

/// The selector of a link element.
pub const LINK: &'static str = "a";

/// The attribute that holds a link's target.
pub const LINK_TARGET: &'static str = "href";

/// The text of an element: the markup inside it, trimmed.
pub open spec fn text_of(el: scraper::ElementRef) -> Seq<char> {
    trim(inner_html_of(el))
}

/// Reads the text of an element.
pub(crate) fn element_text(el: &scraper::ElementRef) -> (r: String)
    ensures
        r@ == text_of(*el),
{
    let markup = inner_html(el);
    let cell = trimmed_text(markup.as_str());
    from_chars(&cell)
}

/// Whether the selector text `selector` can be used: whether it is short
/// enough to be handed to the selector parser, and the parser accepts it.
pub open spec fn selector_usable(selector: Seq<char>) -> bool {
    selector.len() <= MAX_SELECTOR_LENGTH && selector_accepted(selector)
}

/// Parses a selector text, where it can be used.
pub(crate) fn usable_selector(selector: &str) -> (r: Option<scraper::Selector>)
    ensures
        r.is_some() == selector_usable(selector@),
        r matches Some(parsed) ==> selector_source(parsed) == selector@,
{
    if selector.unicode_len() > MAX_SELECTOR_LENGTH {
        None
    } else {
        parse_selector(selector)
    }
}

/// All elements of the document that match `selector`.
pub(crate) fn all_in_document<'a>(doc: &'a scraper::Html, selector: &str) -> (r: Result<
    Vec<scraper::ElementRef<'a>>,
    ExtractError,
>)
    ensures
        match r {
            Ok(v) => selector_usable(selector@) && v@ == document_matches(
                source_of(*doc),
                selector@,
            ),
            Err(e) => e == ExtractError::Engine && !selector_usable(selector@),
        },
{
    match usable_selector(selector) {
        Some(parsed) => Ok(select_document(doc, &parsed)),
        None => Err(ExtractError::Engine),
    }
}

/// All descendants of `el` that match `selector`.
pub(crate) fn all_in<'a>(el: &scraper::ElementRef<'a>, selector: &str) -> (r: Result<
    Vec<scraper::ElementRef<'a>>,
    ExtractError,
>)
    ensures
        match r {
            Ok(v) => selector_usable(selector@) && v@ == element_matches(*el, selector@),
            Err(e) => e == ExtractError::Engine && !selector_usable(selector@),
        },
{
    match usable_selector(selector) {
        Some(parsed) => Ok(select_element(el, &parsed)),
        None => Err(ExtractError::Engine),
    }
}

/// The first element of the document that matches `selector`; the page is
/// refused where there is none.
pub(crate) fn required_in_document<'a>(doc: &'a scraper::Html, selector: &str) -> (r: Result<
    scraper::ElementRef<'a>,
    ExtractError,
>)
    ensures
        match r {
            Ok(el) => selector_usable(selector@) && first_in_document(
                source_of(*doc),
                selector@,
            ) == Some(el),
            Err(e) => (e == ExtractError::Engine && !selector_usable(selector@)) || (e
                == ExtractError::MissingElement && selector_usable(selector@)
                && first_in_document(source_of(*doc), selector@).is_none()),
        },
{
    let found = all_in_document(doc, selector)?;
    if found.len() > 0 {
        Ok(found[0])
    } else {
        Err(ExtractError::MissingElement)
    }
}

/// The first descendant of `el` that matches `selector`, if there is one.
pub(crate) fn optional_in<'a>(el: &scraper::ElementRef<'a>, selector: &str) -> (r: Result<
    Option<scraper::ElementRef<'a>>,
    ExtractError,
>)
    ensures
        match r {
            Ok(found) => selector_usable(selector@) && found == first_match(*el, selector@),
            Err(e) => e == ExtractError::Engine && !selector_usable(selector@),
        },
{
    let found = all_in(el, selector)?;
    if found.len() > 0 {
        Ok(Some(found[0]))
    } else {
        Ok(None)
    }
}

/// The first descendant of `el` that matches `selector`; the page is refused
/// where there is none.
pub(crate) fn required_in<'a>(el: &scraper::ElementRef<'a>, selector: &str) -> (r: Result<
    scraper::ElementRef<'a>,
    ExtractError,
>)
    ensures
        match r {
            Ok(found) => selector_usable(selector@) && first_match(*el, selector@) == Some(
                found,
            ),
            Err(e) => (e == ExtractError::Engine && !selector_usable(selector@)) || (e
                == ExtractError::MissingElement && selector_usable(selector@) && first_match(
                *el,
                selector@,
            ).is_none()),
        },
{
    match optional_in(el, selector)? {
        Some(found) => Ok(found),
        None => Err(ExtractError::MissingElement),
    }
}

// ---------------------------------------------------------------------------
// Lecturers
// ---------------------------------------------------------------------------

/// The lecturer that a link names: its text and its absolute target.
pub open spec fn lecturer_of(link: scraper::ElementRef) -> LecturerView {
    LecturerView { name: text_of(link), url: absolute(attr_of(link, LINK_TARGET@).unwrap()) }
}

/// The lecturers that a sequence of links names, one for each link and in
/// the same order. A link without a target is refused.
pub open spec fn lecturers_of(links: Seq<scraper::ElementRef>) -> Result<
    Seq<LecturerView>,
    ExtractError,
> {
    if exists|i: int| 0 <= i < links.len() && attr_of(#[trigger] links[i], LINK_TARGET@).is_none() {
        Err(ExtractError::MissingLink)
    } else {
        Ok(Seq::new(links.len(), |i: int| lecturer_of(links[i])))
    }
}

/// The lecturers of a cell: those that its links name.
pub open spec fn lecturers_in(cell: scraper::ElementRef) -> Result<Seq<LecturerView>, ExtractError> {
    lecturers_of(element_matches(cell, LINK@))
}

/// The mathematical value of a decoded list of lecturers.
pub open spec fn lecturers_view(r: Result<Vec<Lecturer>, ExtractError>) -> Result<
    Seq<LecturerView>,
    ExtractError,
> {
    match r {
        Ok(v) => Ok(v.deep_view()),
        Err(e) => Err(e),
    }
}

/// There are exactly as many lecturers as the cell has links.
pub proof fn lemma_one_lecturer_per_link(cell: scraper::ElementRef)
    ensures
        lecturers_in(cell) matches Ok(found) ==> found.len() == element_matches(cell, LINK@).len(),
{
}

/// Reads the lecturers of a cell: one for each link in it.
pub(crate) fn get_lecturer(cell: &scraper::ElementRef) -> (r: Result<Vec<Lecturer>, ExtractError>)
    ensures
        r matches Err(ExtractError::Engine) <==> !selector_usable(LINK@),
        selector_usable(LINK@) ==> lecturers_view(r) == lecturers_in(*cell),
        r matches Ok(found) ==> found.len() == element_matches(*cell, LINK@).len(),
{
    let links = all_in(cell, LINK)?;
    let mut out: Vec<Lecturer> = Vec::new();
    let mut i: usize = 0;
    while i < links.len()
        invariant
            i <= links.len(),
            selector_usable(LINK@),
            links@ == element_matches(*cell, LINK@),
            forall|j: int| 0 <= j < i ==> attr_of(#[trigger] links@[j], LINK_TARGET@).is_some(),
            out.deep_view() == Seq::new(i as nat, |j: int| lecturer_of(links@[j])),
        decreases links.len() - i,
    {
        let link = &links[i];
        let name = element_text(link);
        let target = match attr(link, LINK_TARGET) {
            Some(target) => target,
            None => {
                return Err(ExtractError::MissingLink);
            },
        };
        let ghost before = out.deep_view();
        out.push(Lecturer { name, url: absolute_url(target.as_str()) });
        proof {
            assert(out.deep_view() == before.push(lecturer_of(links@[i as int])));
        }
        i += 1;
    }
    Ok(out)
}

} // verus!
