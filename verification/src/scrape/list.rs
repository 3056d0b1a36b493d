//! The department listing page.
//!
//! The listing holds one table row for each course. A row is decoded into a
//! [`CourseAbstract`] whether or not it carries a course code: no row is left
//! out here.

use vstd::prelude::*;
use crate::markup::{
    attr, attr_of, element_matches, first_in_document, first_match, parse_document,
    MAX_PAGE_LENGTH,
};
use crate::scrape::{
    absolute, absolute_url, all_in, element_text, get_lecturer, lecturers_in, optional_in,
    required_in, required_in_document, selector_usable, text_of, CourseTitle, CourseTitleView,
    ExtractError, Lecturer, LecturerView, LINK, LINK_TARGET,
};

verus! {

/// One row of the listing: a course in brief.
#[derive(Debug, Clone, PartialEq, Eq)]
pub struct CourseAbstract {
    pub code: String,
    pub title: CourseTitle,
    pub lecturer: Vec<Lecturer>,
    pub department: String,
    pub start: String,
    pub sylbs_update: String,
}

/// The mathematical value of a [`CourseAbstract`].
pub struct CourseAbstractView {
    pub code: Seq<char>,
    pub title: CourseTitleView,
    pub lecturer: Seq<LecturerView>,
    pub department: Seq<char>,
    pub start: Seq<char>,
    pub sylbs_update: Seq<char>,
}

impl View for CourseAbstract {
    type V = CourseAbstractView;

    open spec fn view(&self) -> CourseAbstractView {
        CourseAbstractView {
            code: self.code@,
            title: self.title@,
            lecturer: self.lecturer.deep_view(),
            department: self.department@,
            start: self.start@,
            sylbs_update: self.sylbs_update@,
        }
    }
}

impl DeepView for CourseAbstract {
    type V = CourseAbstractView;

    open spec fn deep_view(&self) -> CourseAbstractView {
        self@
    }
}

/// The container of the listing.
pub const LISTING: &'static str = ".ranking-list";

/// The body of the listing table.
pub const LISTING_BODY: &'static str = "tbody";

/// A row of the listing table.
pub const LISTING_ROW: &'static str = "tr";

/// The cell that holds the course code.
pub const CODE_CELL: &'static str = ".code";

/// The cell that holds the title and the link to the detail page.
pub const TITLE_CELL: &'static str = ".course_title";

/// The cell that holds the lecturers.
pub const LECTURER_CELL: &'static str = ".lecturer";

/// The cell that holds the department.
pub const DEPARTMENT_CELL: &'static str = ".opening_department";

/// The cell that holds the term.
pub const START_CELL: &'static str = ".start";

/// The cell that holds the date of the last syllabus update.
pub const UPDATE_CELL: &'static str = ".sylbs";

/// Whether the selector parser can be given and accepts the selectors that a row is read
/// with: those of its six cells and that of a link.
pub open spec fn row_selectors_accepted() -> bool {
    &&& selector_usable(CODE_CELL@)
    &&& selector_usable(TITLE_CELL@)
    &&& selector_usable(LECTURER_CELL@)
    &&& selector_usable(DEPARTMENT_CELL@)
    &&& selector_usable(START_CELL@)
    &&& selector_usable(UPDATE_CELL@)
    &&& selector_usable(LINK@)
}

/// Whether the selector parser can be given and accepts every selector that a listing page
/// is read with.
pub open spec fn listing_selectors_accepted() -> bool {
    &&& selector_usable(LISTING@)
    &&& selector_usable(LISTING_BODY@)
    &&& selector_usable(LISTING_ROW@)
    &&& row_selectors_accepted()
}

/// The title that a title cell writes: the text and target of its first
/// link. A cell without a link has an empty title and address; a link
/// without a target is refused.
pub open spec fn title_in(cell: scraper::ElementRef) -> Result<CourseTitleView, ExtractError> {
    match first_match(cell, LINK@) {
        None => Ok(CourseTitleView { title: Seq::empty(), url: Seq::empty() }),
        Some(link) => match attr_of(link, LINK_TARGET@) {
            Some(target) => Ok(CourseTitleView { title: text_of(link), url: absolute(target) }),
            None => Err(ExtractError::MissingLink),
        },
    }
}

/// The department that a department cell writes: the text of its first
/// link, or nothing where it has none.
pub open spec fn department_in(cell: scraper::ElementRef) -> Seq<char> {
    match first_match(cell, LINK@) {
        Some(link) => text_of(link),
        None => Seq::empty(),
    }
}

/// The course that a row writes. A row that lacks one of its six cells is
/// refused.
pub open spec fn row_abstract(row: scraper::ElementRef) -> Result<CourseAbstractView, ExtractError> {
    let code = first_match(row, CODE_CELL@);
    let title = first_match(row, TITLE_CELL@);
    let lecturer = first_match(row, LECTURER_CELL@);
    let department = first_match(row, DEPARTMENT_CELL@);
    let start = first_match(row, START_CELL@);
    let update = first_match(row, UPDATE_CELL@);
    if code.is_none() || title.is_none() || lecturer.is_none() || department.is_none()
        || start.is_none() || update.is_none() {
        Err(ExtractError::MissingElement)
    } else {
        match title_in(title.unwrap()) {
            Err(e) => Err(e),
            Ok(course_title) => match lecturers_in(lecturer.unwrap()) {
                Err(e) => Err(e),
                Ok(lecturers) => Ok(
                    CourseAbstractView {
                        code: text_of(code.unwrap()),
                        title: course_title,
                        lecturer: lecturers,
                        department: department_in(department.unwrap()),
                        start: text_of(start.unwrap()),
                        sylbs_update: text_of(update.unwrap()),
                    },
                ),
            },
        }
    }
}

/// The courses that a sequence of rows writes, one for each row and in the
/// same order. The first row that is refused refuses the page.
pub open spec fn rows_abstracts(rows: Seq<scraper::ElementRef>) -> Result<
    Seq<CourseAbstractView>,
    ExtractError,
>
    decreases rows.len(),
{
    if rows.len() == 0 {
        Ok(Seq::empty())
    } else {
        match rows_abstracts(rows.drop_last()) {
            Err(e) => Err(e),
            Ok(before) => match row_abstract(rows.last()) {
                Err(e) => Err(e),
                Ok(course) => Ok(before.push(course)),
            },
        }
    }
}

/// The rows of the listing on the page `source`: the rows of the first table
/// body in the first listing container.
pub open spec fn listing_rows(source: Seq<char>) -> Option<Seq<scraper::ElementRef<'static>>> {
    match first_in_document(source, LISTING@) {
        None => None,
        Some(listing) => match first_match(listing, LISTING_BODY@) {
            None => None,
            Some(body) => Some(element_matches(body, LISTING_ROW@)),
        },
    }
}

/// The courses that the listing page `source` writes. A page of more than
/// [`MAX_PAGE_LENGTH`] characters is refused unread, and so is a page
/// without a listing table.
pub open spec fn abstracts_of(source: Seq<char>) -> Result<Seq<CourseAbstractView>, ExtractError> {
    if source.len() > MAX_PAGE_LENGTH {
        Err(ExtractError::PageTooLong)
    } else {
        match listing_rows(source) {
            None => Err(ExtractError::MissingElement),
            Some(rows) => rows_abstracts(rows),
        }
    }
}

/// The mathematical value of a decoded title.
pub open spec fn title_view(r: Result<CourseTitle, ExtractError>) -> Result<
    CourseTitleView,
    ExtractError,
> {
    match r {
        Ok(t) => Ok(t@),
        Err(e) => Err(e),
    }
}

/// The mathematical value of a decoded row.
pub open spec fn abstract_view(r: Result<CourseAbstract, ExtractError>) -> Result<
    CourseAbstractView,
    ExtractError,
> {
    match r {
        Ok(a) => Ok(a@),
        Err(e) => Err(e),
    }
}

/// The mathematical value of a decoded listing.
pub open spec fn abstracts_view(r: Result<Vec<CourseAbstract>, ExtractError>) -> Result<
    Seq<CourseAbstractView>,
    ExtractError,
> {
    match r {
        Ok(v) => Ok(v.deep_view()),
        Err(e) => Err(e),
    }
}

/// A decoded row has exactly as many lecturers as its lecturer cell has
/// links.
pub proof fn lemma_lecturer_count(row: scraper::ElementRef)
    requires
        row_abstract(row).is_ok(),
    ensures
        row_abstract(row).unwrap().lecturer.len() == element_matches(
            first_match(row, LECTURER_CELL@).unwrap(),
            LINK@,
        ).len(),
{
}

/// A decoded listing has one course for each row, in the order of the rows:
/// no row is left out, whatever its code.
pub proof fn lemma_one_course_per_row(rows: Seq<scraper::ElementRef>)
    requires
        rows_abstracts(rows).is_ok(),
    ensures
        rows_abstracts(rows).unwrap().len() == rows.len(),
        forall|i: int|
            0 <= i < rows.len() ==> row_abstract(#[trigger] rows[i]) == Ok::<
                CourseAbstractView,
                ExtractError,
            >(rows_abstracts(rows).unwrap()[i]),
    decreases rows.len(),
{
    if rows.len() > 0 {
        lemma_one_course_per_row(rows.drop_last());
        assert forall|i: int| 0 <= i < rows.len() implies row_abstract(#[trigger] rows[i]) == Ok::<
            CourseAbstractView,
            ExtractError,
        >(rows_abstracts(rows).unwrap()[i]) by {
            if i < rows.len() - 1 {
                assert(rows[i] == rows.drop_last()[i]);
            }
        }
    }
}

/// Reads the title cell of a row.
pub(crate) fn get_course_title(cell: &scraper::ElementRef) -> (r: Result<CourseTitle, ExtractError>)
    ensures
        r matches Err(ExtractError::Engine) <==> !selector_usable(LINK@),
        selector_usable(LINK@) ==> title_view(r) == title_in(*cell),
{
    match optional_in(cell, LINK)? {
        None => Ok(CourseTitle { title: String::new(), url: String::new() }),
        Some(link) => match attr(&link, LINK_TARGET) {
            Some(target) => Ok(
                CourseTitle { title: element_text(&link), url: absolute_url(target.as_str()) },
            ),
            None => Err(ExtractError::MissingLink),
        },
    }
}

/// Reads the department cell of a row.
pub(crate) fn get_opening_department(cell: &scraper::ElementRef) -> (r: Result<
    String,
    ExtractError,
>)
    ensures
        match r {
            Ok(name) => selector_usable(LINK@) && name@ == department_in(*cell),
            Err(e) => e == ExtractError::Engine && !selector_usable(LINK@),
        },
{
    match optional_in(cell, LINK)? {
        Some(link) => Ok(element_text(&link)),
        None => Ok(String::new()),
    }
}

/// Decodes one row of the listing.
pub(crate) fn row_to_abstract(row: &scraper::ElementRef) -> (r: Result<CourseAbstract, ExtractError>)
    ensures
        r matches Err(ExtractError::Engine) || abstract_view(r) == row_abstract(*row),
        r matches Err(ExtractError::Engine) ==> !row_selectors_accepted(),
{
    let code = required_in(row, CODE_CELL)?;
    let title = required_in(row, TITLE_CELL)?;
    let lecturer = required_in(row, LECTURER_CELL)?;
    let department = required_in(row, DEPARTMENT_CELL)?;
    let start = required_in(row, START_CELL)?;
    let update = required_in(row, UPDATE_CELL)?;
    let course_title = get_course_title(&title)?;
    let lecturers = get_lecturer(&lecturer)?;
    Ok(
        CourseAbstract {
            code: element_text(&code),
            title: course_title,
            lecturer: lecturers,
            department: get_opening_department(&department)?,
            start: element_text(&start),
            sylbs_update: element_text(&update),
        },
    )
}

/// Decodes a department listing page into its courses, one for each row of
/// the listing table and in the order of the rows.
///
/// A page of more than [`MAX_PAGE_LENGTH`] characters, a page without a
/// listing table, a row that lacks one of its cells and a link without a
/// target refuse the page. Where the selector parser accepts
/// the fixed selectors of the listing, the result is what the page writes.
/// `Engine` is returned only where the parser refused one of them; a
/// selector is parsed when it is first needed.
pub fn html_to_course_abstracts(html: &str) -> (r: Result<Vec<CourseAbstract>, ExtractError>)
    ensures
        listing_selectors_accepted() ==> abstracts_view(r) == abstracts_of(html@),
        r matches Err(ExtractError::Engine) ==> !listing_selectors_accepted(),
        !(r matches Err(ExtractError::Engine)) ==> abstracts_view(r) == abstracts_of(html@),
{
    if html.unicode_len() > MAX_PAGE_LENGTH {
        return Err(ExtractError::PageTooLong);
    }
    let document = parse_document(html);
    let listing = required_in_document(&document, LISTING)?;
    let body = required_in(&listing, LISTING_BODY)?;
    let rows = all_in(&body, LISTING_ROW)?;
    let mut courses: Vec<CourseAbstract> = Vec::new();
    let mut i: usize = 0;
    assert(courses.deep_view() == Seq::<CourseAbstractView>::empty());
    while i < rows.len()
        invariant
            i <= rows.len(),
            html@.len() <= MAX_PAGE_LENGTH,
            listing_rows(html@) == Some(rows@),
            rows_abstracts(rows@.take(i as int)) == Ok::<Seq<CourseAbstractView>, ExtractError>(
                courses.deep_view(),
            ),
        decreases rows.len() - i,
    {
        let ghost before = courses.deep_view();
        proof {
            assert(rows@.take(i + 1).drop_last() == rows@.take(i as int));
            lemma_refused_row_refuses_page(rows@, i as int);
        }
        let course = row_to_abstract(&rows[i])?;
        courses.push(course);
        proof {
            assert(courses.deep_view() == before.push(course@));
        }
        i += 1;
    }
    assert(rows@.take(rows.len() as int) == rows@);
    Ok(courses)
}

/// Where the rows before row `i` are decoded and row `i` is refused, the page
/// is refused for the same reason.
pub proof fn lemma_refused_row_refuses_page(rows: Seq<scraper::ElementRef>, i: int)
    requires
        0 <= i < rows.len(),
        rows_abstracts(rows.take(i)).is_ok(),
    ensures
        row_abstract(rows[i]) matches Err(e) ==> rows_abstracts(rows) == Err::<
            Seq<CourseAbstractView>,
            ExtractError,
        >(e),
    decreases rows.len() - i,
{
    assert(rows.take(i + 1).drop_last() == rows.take(i));
    if row_abstract(rows[i]).is_err() {
        lemma_refusal_stays(rows, i + 1);
    }
}

/// Once a prefix of the rows is refused, the page is refused for the same
/// reason.
pub proof fn lemma_refusal_stays(rows: Seq<scraper::ElementRef>, n: int)
    requires
        0 <= n <= rows.len(),
        rows_abstracts(rows.take(n)).is_err(),
    ensures
        rows_abstracts(rows) == rows_abstracts(rows.take(n)),
    decreases rows.len() - n,
{
    if n < rows.len() {
        assert(rows.take(n + 1).drop_last() == rows.take(n));
        lemma_refusal_stays(rows, n + 1);
    } else {
        assert(rows.take(n) == rows);
    }
}

} // verus!
