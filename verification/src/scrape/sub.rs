//! The course detail page.

use vstd::prelude::*;
use vstd::string::StringExecFns;
use crate::scrape::timetable::{
    decode_timetable_with, timetable_of, TimeTable, TimeTableView, ROOM_PATTERN,
};
use crate::markup::{
    element_matches, first_in_document, first_match, inner_html, inner_html_of, parse_document,
    MAX_PAGE_LENGTH,
};
use crate::scrape::{
    all_in, element_text, get_lecturer, lecturers_in, optional_in, required_in,
    required_in_document, selector_usable, text_of, ExtractError, Lecturer, LecturerView, LINK,
};
use crate::pattern::{capture, capture_of, compile, pattern_accepted, pattern_of};
use crate::text::{
    drop_chars, equals, first_chars, from_chars, is_white_space, parse_i32, remove_all, slice,
    split, split_any, split_at_any, split_on, take_chars, texts, to_chars, to_i32, trim, trimmed,
    trimmed_text, white_space, without,
};

verus! {

/// A quarter of the academic year.
#[derive(Debug, Clone, Copy, PartialEq, Eq, Structural)]
pub enum Semester {
    First,
    Second,
    Third,
    Fourth,
}

/// One session of the lecture plan.
#[derive(Debug, Clone, PartialEq, Eq)]
pub struct LecturePlan {
    pub count: i32,
    pub plan: String,
    pub assignment: String,
}

/// The mathematical value of a [`LecturePlan`].
pub struct LecturePlanView {
    pub count: i32,
    pub plan: Seq<char>,
    pub assignment: Seq<char>,
}

impl View for LecturePlan {
    type V = LecturePlanView;

    open spec fn view(&self) -> LecturePlanView {
        LecturePlanView { count: self.count, plan: self.plan@, assignment: self.assignment@ }
    }
}

impl DeepView for LecturePlan {
    type V = LecturePlanView;

    open spec fn deep_view(&self) -> LecturePlanView {
        self@
    }
}

/// The syllabus of a course.
#[derive(Debug, Clone, PartialEq, Eq)]
pub struct CourseDetail {
    pub abst: String,
    pub goal: String,
    pub experience: bool,
    pub keyword: Vec<String>,
    pub competencies: Vec<String>,
    pub flow: String,
    pub schedule: Vec<LecturePlan>,
    pub out_of_class: String,
    pub textbook: String,
    pub reference_book: String,
    pub assessment: String,
    pub related_course: Vec<String>,
    pub prerequisite: String,
    pub contact: String,
    pub office_hour: String,
    pub note: String,
}

/// The mathematical value of a [`CourseDetail`].
pub struct CourseDetailView {
    pub abst: Seq<char>,
    pub goal: Seq<char>,
    pub experience: bool,
    pub keyword: Seq<Seq<char>>,
    pub competencies: Seq<Seq<char>>,
    pub flow: Seq<char>,
    pub schedule: Seq<LecturePlanView>,
    pub out_of_class: Seq<char>,
    pub textbook: Seq<char>,
    pub reference_book: Seq<char>,
    pub assessment: Seq<char>,
    pub related_course: Seq<Seq<char>>,
    pub prerequisite: Seq<char>,
    pub contact: Seq<char>,
    pub office_hour: Seq<char>,
    pub note: Seq<char>,
}

impl View for CourseDetail {
    type V = CourseDetailView;

    open spec fn view(&self) -> CourseDetailView {
        CourseDetailView {
            abst: self.abst@,
            goal: self.goal@,
            experience: self.experience,
            keyword: self.keyword.deep_view(),
            competencies: self.competencies.deep_view(),
            flow: self.flow@,
            schedule: self.schedule.deep_view(),
            out_of_class: self.out_of_class@,
            textbook: self.textbook@,
            reference_book: self.reference_book@,
            assessment: self.assessment@,
            related_course: self.related_course.deep_view(),
            prerequisite: self.prerequisite@,
            contact: self.contact@,
            office_hour: self.office_hour@,
            note: self.note@,
        }
    }
}

/// A course as its detail page describes it.
#[derive(Debug, Clone, PartialEq, Eq)]
pub struct Course {
    pub university: String,
    pub title: String,
    pub english_title: String,
    pub department: String,
    pub lecturer: Vec<Lecturer>,
    pub lecture_type: String,
    pub time_table: Vec<TimeTable>,
    pub code: String,
    pub credit: i32,
    pub year: i32,
    pub semester: Vec<Semester>,
    pub language: String,
    pub url: String,
    pub sylbs_update: String,
    pub course_detail: CourseDetail,
}

/// The mathematical value of a [`Course`].
pub struct CourseView {
    pub university: Seq<char>,
    pub title: Seq<char>,
    pub english_title: Seq<char>,
    pub department: Seq<char>,
    pub lecturer: Seq<LecturerView>,
    pub lecture_type: Seq<char>,
    pub time_table: Seq<TimeTableView>,
    pub code: Seq<char>,
    pub credit: i32,
    pub year: i32,
    pub semester: Seq<Semester>,
    pub language: Seq<char>,
    pub url: Seq<char>,
    pub sylbs_update: Seq<char>,
    pub course_detail: CourseDetailView,
}

impl View for Course {
    type V = CourseView;

    open spec fn view(&self) -> CourseView {
        CourseView {
            university: self.university@,
            title: self.title@,
            english_title: self.english_title@,
            department: self.department@,
            lecturer: self.lecturer.deep_view(),
            lecture_type: self.lecture_type@,
            time_table: self.time_table.deep_view(),
            code: self.code@,
            credit: self.credit,
            year: self.year,
            semester: self.semester@,
            language: self.language@,
            url: self.url@,
            sylbs_update: self.sylbs_update@,
            course_detail: self.course_detail@,
        }
    }
}

// ---------------------------------------------------------------------------
// Plain text fields
// ---------------------------------------------------------------------------

/// The text of a cell: its markup without the white space around it.
pub fn decode_text(text: &str) -> (r: String)
    ensures
        r@ == trim(text@),
{
    let cell = trimmed_text(text);
    from_chars(&cell)
}

// ---------------------------------------------------------------------------
// Title
// ---------------------------------------------------------------------------

/// What stands between the two titles in the title heading.
pub const TITLE_SEPARATOR: &'static str = "&nbsp;&nbsp;&nbsp;";

/// The number of characters of the label in front of the title.
pub const TITLE_LABEL_LENGTH: usize = 7;

/// The title and the English title that the heading text writes: what
/// stands before the first separator, without its label, and what stands
/// between the first separator and the next. A heading without a separator
/// is malformed.
pub open spec fn titles_of(text: Seq<char>) -> Result<(Seq<char>, Seq<char>), ExtractError> {
    let parts = split(trim(text), TITLE_SEPARATOR@);
    if parts.len() < 2 {
        Err(ExtractError::MalformedTitle)
    } else {
        Ok((drop_chars(parts[0], TITLE_LABEL_LENGTH as nat), parts[1]))
    }
}

/// The mathematical value of a decoded pair of titles.
pub open spec fn titles_view(r: Result<(String, String), ExtractError>) -> Result<
    (Seq<char>, Seq<char>),
    ExtractError,
> {
    match r {
        Ok((title, english)) => Ok((title@, english@)),
        Err(e) => Err(e),
    }
}

/// Decodes the title heading into the title and the English title.
pub fn decode_title(text: &str) -> (r: Result<(String, String), ExtractError>)
    ensures
        titles_view(r) == titles_of(text@),
{
    let heading = trimmed_text(text);
    let separator = to_chars(TITLE_SEPARATOR);
    let parts = split_on(&heading, &separator);
    if parts.len() < 2 {
        return Err(ExtractError::MalformedTitle);
    }
    let first = &parts[0];
    let title = if TITLE_LABEL_LENGTH >= first.len() {
        String::new()
    } else {
        let rest = slice(first, TITLE_LABEL_LENGTH, first.len());
        from_chars(&rest)
    };
    let english = from_chars(&parts[1]);
    Ok((title, english))
}

// ---------------------------------------------------------------------------
// Lecture type
// ---------------------------------------------------------------------------

/// The entity that the markup writes for a non-breaking space.
pub const NBSP_ENTITY: &'static str = "&nbsp;";

/// The lecture type that a cell writes: its trimmed text without line
/// feeds, without non-breaking-space entities, and then without any white
/// space.
pub open spec fn lecture_type_of(text: Seq<char>) -> Seq<char> {
    remove_all(remove_all(trim(text), seq!['\n']), NBSP_ENTITY@).filter(
        |c: char| !white_space(c),
    )
}

/// Decodes the lecture type cell.
pub fn decode_lecture_type(text: &str) -> (r: String)
    ensures
        r@ == lecture_type_of(text@),
{
    let cell = trimmed_text(text);
    let mut line_feed: Vec<char> = Vec::new();
    line_feed.push('\n');
    let joined = without(&cell, &line_feed);
    let entity = to_chars(NBSP_ENTITY);
    let bare = without(&joined, &entity);
    let mut out: Vec<char> = Vec::new();
    let mut i: usize = 0;
    let ghost keep = |c: char| !white_space(c);
    while i < bare.len()
        invariant
            i <= bare.len(),
            keep == |c: char| !white_space(c),
            out@ == bare@.take(i as int).filter(keep),
        decreases bare.len() - i,
    {
        proof {
            let next = bare@.take(i + 1);
            assert(next.drop_last() == bare@.take(i as int));
            reveal_with_fuel(Seq::filter, 1);
        }
        if !is_white_space(bare[i]) {
            out.push(bare[i]);
        }
        i += 1;
    }
    assert(bare@.take(bare.len() as int) == bare@);
    from_chars(&out)
}

// ---------------------------------------------------------------------------
// Credit and year
// ---------------------------------------------------------------------------

/// The credit that a cell writes: its trimmed text read as an integer.
pub open spec fn credit_of(text: Seq<char>) -> Result<i32, ExtractError> {
    match parse_i32(trim(text)) {
        Some(v) => Ok(v),
        None => Err(ExtractError::InvalidNumber),
    }
}

/// Decodes the credit cell.
pub fn decode_credit(text: &str) -> (r: Result<i32, ExtractError>)
    ensures
        r == credit_of(text@),
{
    let cell = trimmed_text(text);
    match to_i32(&cell) {
        Some(v) => Ok(v),
        None => Err(ExtractError::InvalidNumber),
    }
}

/// The two characters that follow the number in the year cell.
pub open spec fn year_suffix() -> Seq<char> {
    seq!['\u{5e74}', '\u{5ea6}']
}

/// The year that a cell writes: its trimmed text, without the year suffix,
/// read as an integer.
pub open spec fn year_of(text: Seq<char>) -> Result<i32, ExtractError> {
    match parse_i32(remove_all(trim(text), year_suffix())) {
        Some(v) => Ok(v),
        None => Err(ExtractError::InvalidNumber),
    }
}

/// Decodes the year cell.
pub fn decode_year(text: &str) -> (r: Result<i32, ExtractError>)
    ensures
        r == year_of(text@),
{
    let cell = trimmed_text(text);
    let mut suffix: Vec<char> = Vec::new();
    suffix.push('\u{5e74}');
    suffix.push('\u{5ea6}');
    assert(suffix@ == year_suffix());
    let number = without(&cell, &suffix);
    match to_i32(&number) {
        Some(v) => Ok(v),
        None => Err(ExtractError::InvalidNumber),
    }
}

// ---------------------------------------------------------------------------
// Semester
// ---------------------------------------------------------------------------

/// The quarters that a quarter token names, in ascending order. A token
/// that is not listed names none.
pub open spec fn quarters(token: Seq<char>) -> Seq<Semester> {
    if token == "1Q"@ {
        seq![Semester::First]
    } else if token == "2Q"@ {
        seq![Semester::Second]
    } else if token == "3Q"@ {
        seq![Semester::Third]
    } else if token == "4Q"@ {
        seq![Semester::Fourth]
    } else if token == "1-2Q"@ {
        seq![Semester::First, Semester::Second]
    } else if token == "1-3Q"@ {
        seq![Semester::First, Semester::Second, Semester::Third]
    } else if token == "1-4Q"@ {
        seq![Semester::First, Semester::Second, Semester::Third, Semester::Fourth]
    } else if token == "2-3Q"@ {
        seq![Semester::Second, Semester::Third]
    } else if token == "2-4Q"@ {
        seq![Semester::Second, Semester::Third, Semester::Fourth]
    } else if token == "3-4Q"@ {
        seq![Semester::Third, Semester::Fourth]
    } else {
        Seq::empty()
    }
}

/// The quarters that a semester cell writes.
pub open spec fn semesters_of(text: Seq<char>) -> Seq<Semester> {
    quarters(trim(text))
}

/// Decodes the semester cell.
pub fn decode_semester(text: &str) -> (r: Vec<Semester>)
    ensures
        r@ == semesters_of(text@),
{
    let token = trimmed_text(text);
    let mut out: Vec<Semester> = Vec::new();
    if equals(&token, "1Q") {
        out.push(Semester::First);
    } else if equals(&token, "2Q") {
        out.push(Semester::Second);
    } else if equals(&token, "3Q") {
        out.push(Semester::Third);
    } else if equals(&token, "4Q") {
        out.push(Semester::Fourth);
    } else if equals(&token, "1-2Q") {
        out.push(Semester::First);
        out.push(Semester::Second);
    } else if equals(&token, "1-3Q") {
        out.push(Semester::First);
        out.push(Semester::Second);
        out.push(Semester::Third);
    } else if equals(&token, "1-4Q") {
        out.push(Semester::First);
        out.push(Semester::Second);
        out.push(Semester::Third);
        out.push(Semester::Fourth);
    } else if equals(&token, "2-3Q") {
        out.push(Semester::Second);
        out.push(Semester::Third);
    } else if equals(&token, "2-4Q") {
        out.push(Semester::Second);
        out.push(Semester::Third);
        out.push(Semester::Fourth);
    } else if equals(&token, "3-4Q") {
        out.push(Semester::Third);
        out.push(Semester::Fourth);
    }
    out
}

// ---------------------------------------------------------------------------
// Keywords
// ---------------------------------------------------------------------------

/// The characters that separate keywords: the ideographic comma, the
/// fullwidth comma and the ASCII comma.
pub open spec fn keyword_delimiters() -> Seq<char> {
    seq!['\u{3001}', '\u{ff0c}', ',']
}

/// Each text of `parts`, trimmed.
pub open spec fn trim_each(parts: Seq<Seq<char>>) -> Seq<Seq<char>> {
    Seq::new(parts.len(), |i: int| trim(parts[i]))
}

/// The keywords that a cell writes: the pieces between the delimiters of its
/// trimmed text, each trimmed. A cell without text has no keywords.
pub open spec fn keywords_of(text: Seq<char>) -> Seq<Seq<char>> {
    if trim(text).len() == 0 {
        Seq::empty()
    } else {
        trim_each(split_any(trim(text), keyword_delimiters()))
    }
}

/// Decodes the keyword cell.
pub fn decode_keywords(text: &str) -> (r: Vec<String>)
    ensures
        r.deep_view() == keywords_of(text@),
{
    let cell = trimmed_text(text);
    let mut out: Vec<String> = Vec::new();
    if cell.len() == 0 {
        return out;
    }
    let mut delims: Vec<char> = Vec::new();
    delims.push('\u{3001}');
    delims.push('\u{ff0c}');
    delims.push(',');
    assert(delims@ == keyword_delimiters());
    let pieces = split_at_any(&cell, &delims);
    let ghost parts = texts(pieces@);
    let mut i: usize = 0;
    while i < pieces.len()
        invariant
            i <= pieces.len(),
            parts == texts(pieces@),
            out.deep_view() == trim_each(parts.take(i as int)),
        decreases pieces.len() - i,
    {
        let ghost before = out.deep_view();
        let piece = trimmed(&pieces[i]);
        out.push(from_chars(&piece));
        proof {
            assert(out.deep_view() == before.push(trim(parts[i as int])));
        }
        i += 1;
    }
    out
}

// ---------------------------------------------------------------------------
// Related courses
// ---------------------------------------------------------------------------

/// The number of characters of a course code.
pub const CODE_LENGTH: usize = 8;

/// The reference that a list item writes: the first characters of its
/// trimmed text, as many as a course code has.
pub open spec fn related_code_of(text: Seq<char>) -> Seq<char> {
    take_chars(trim(text), CODE_LENGTH as nat)
}

/// Decodes one item of the related-course list.
pub fn decode_related_code(text: &str) -> (r: String)
    ensures
        r@ == related_code_of(text@),
{
    let item = trimmed_text(text);
    let code = first_chars(&item, CODE_LENGTH);
    from_chars(&code)
}

// ---------------------------------------------------------------------------
// Lecture plan
// ---------------------------------------------------------------------------

/// The pattern that matches a run of ASCII digits.
pub const COUNT_PATTERN: &'static str = "[0-9]+";

/// The session number that a run of digits writes, where one was found.
pub open spec fn count_of_digits(digits: Option<Seq<char>>) -> Result<i32, ExtractError> {
    match digits {
        Some(d) => match parse_i32(d) {
            Some(v) => Ok(v),
            None => Err(ExtractError::InvalidNumber),
        },
        None => Err(ExtractError::InvalidNumber),
    }
}

/// The session number of a lecture-index cell, given the first run of digits
/// found in it: the number that the run writes. A cell without digits, or
/// with more than fit, is invalid.
pub fn count_from_digits(digits: Option<&str>) -> (r: Result<i32, ExtractError>)
    ensures
        r == count_of_digits(
            match digits {
                Some(d) => Some(d@),
                None => None,
            },
        ),
{
    match digits {
        Some(d) => {
            let chars = to_chars(d);
            match to_i32(&chars) {
                Some(v) => Ok(v),
                None => Err(ExtractError::InvalidNumber),
            }
        },
        None => Err(ExtractError::InvalidNumber),
    }
}

/// The session number that a lecture-index cell writes: the number written
/// by what `pattern` matches first in its trimmed text.
pub open spec fn count_of(text: Seq<char>, pattern: Seq<char>) -> Result<i32, ExtractError> {
    count_of_digits(capture_of(pattern, trim(text), 0))
}

/// Decodes a lecture-index cell with a compiled digit pattern.
pub(crate) fn decode_count_with(text: &str, digits: &regex::Regex) -> (r: Result<i32, ExtractError>)
    ensures
        r == count_of(text@, pattern_of(*digits)),
{
    let cell = decode_text(text);
    match capture(digits, cell.as_str(), 0) {
        Some(run) => count_from_digits(Some(run.as_str())),
        None => count_from_digits(None),
    }
}

/// Decodes a lecture-index cell: the first run of ASCII digits in it, read
/// as a number. `Engine` is returned where, and only where, the pattern
/// compiler refuses the digit pattern.
pub fn decode_count(text: &str) -> (r: Result<i32, ExtractError>)
    ensures
        r matches Err(ExtractError::Engine) <==> !pattern_accepted(COUNT_PATTERN@),
        pattern_accepted(COUNT_PATTERN@) ==> r == count_of(text@, COUNT_PATTERN@),
{
    match compile(COUNT_PATTERN) {
        Some(digits) => decode_count_with(text, &digits),
        None => Err(ExtractError::Engine),
    }
}

// ---------------------------------------------------------------------------
// Layout of the syllabus section
// ---------------------------------------------------------------------------

/// The container of the syllabus section.
pub const SYLLABUS: &'static str = "#overview";

/// A block of the syllabus section.
pub const BLOCK: &'static str = "div";

/// The paragraph that holds the text of a block.
pub const PARAGRAPH: &'static str = "p";

/// The list of a block.
pub const LIST: &'static str = "ul";

/// An item of a list.
pub const LIST_ITEM: &'static str = "li";

/// The body of the lecture plan table.
pub const PLAN_BODY: &'static str = "tbody";

/// A row of the lecture plan table.
pub const PLAN_ROW: &'static str = "tr";

/// A competency that the course is marked to develop.
pub const COMPETENCY: &'static str = ".skill_checked2";

/// The cell of a plan row that holds the session number.
pub const COUNT_CELL: &'static str = ".number_of_times";

/// The cell of a plan row that holds the plan of the session.
pub const PLAN_CELL: &'static str = ".plan";

/// The cell of a plan row that holds the assignment of the session.
pub const ASSIGNMENT_CELL: &'static str = ".assignment";

/// The position of each field's block in the syllabus section.
pub const ABSTRACT_BLOCK: usize = 0;

pub const GOAL_BLOCK: usize = 1;

pub const KEYWORD_BLOCK: usize = 2;

pub const COMPETENCY_BLOCK: usize = 3;

pub const FLOW_BLOCK: usize = 4;

pub const SCHEDULE_BLOCK: usize = 5;

pub const OUT_OF_CLASS_BLOCK: usize = 6;

pub const TEXTBOOK_BLOCK: usize = 7;

pub const REFERENCE_BOOK_BLOCK: usize = 8;

pub const ASSESSMENT_BLOCK: usize = 9;

pub const RELATED_COURSE_BLOCK: usize = 10;

pub const PREREQUISITE_BLOCK: usize = 11;

pub const CONTACT_BLOCK: usize = 12;

pub const OFFICE_HOUR_BLOCK: usize = 13;

pub const NOTE_BLOCK: usize = 14;

/// Whether the selector parser can be given and accepts the selectors that a row of the
/// lecture plan is read with.
pub open spec fn plan_selectors_accepted() -> bool {
    &&& selector_usable(COUNT_CELL@)
    &&& selector_usable(PLAN_CELL@)
    &&& selector_usable(ASSIGNMENT_CELL@)
}

/// Whether the selector parser can be given and accepts the selectors that the lecture plan
/// is read with.
pub open spec fn schedule_selectors_accepted() -> bool {
    &&& selector_usable(PLAN_BODY@)
    &&& selector_usable(PLAN_ROW@)
    &&& plan_selectors_accepted()
}

/// Whether the selector parser can be given and accepts every selector that the syllabus
/// section is read with.
pub open spec fn syllabus_selectors_accepted() -> bool {
    &&& selector_usable(BLOCK@)
    &&& selector_usable(PARAGRAPH@)
    &&& selector_usable(COMPETENCY@)
    &&& selector_usable(LIST@)
    &&& selector_usable(LIST_ITEM@)
    &&& schedule_selectors_accepted()
}

/// The first element under block number `index` that matches `selector`;
/// none where the section has no such block or the block no such element.
pub open spec fn block_part(
    blocks: Seq<scraper::ElementRef>,
    index: int,
    selector: Seq<char>,
) -> Option<scraper::ElementRef> {
    if 0 <= index < blocks.len() {
        first_match(blocks[index], selector)
    } else {
        None
    }
}

/// The markup of the paragraph of block number `index`; empty where the
/// block or its paragraph is absent.
pub open spec fn block_markup(blocks: Seq<scraper::ElementRef>, index: int) -> Seq<char> {
    match block_part(blocks, index, PARAGRAPH@) {
        Some(paragraph) => inner_html_of(paragraph),
        None => Seq::empty(),
    }
}

/// The text of block number `index`: the trimmed markup of its paragraph;
/// empty where the block or its paragraph is absent.
pub open spec fn block_text(blocks: Seq<scraper::ElementRef>, index: int) -> Seq<char> {
    match block_part(blocks, index, PARAGRAPH@) {
        Some(paragraph) => text_of(paragraph),
        None => Seq::empty(),
    }
}

/// The text of each element, in order.
pub open spec fn texts_of(elements: Seq<scraper::ElementRef>) -> Seq<Seq<char>> {
    Seq::new(elements.len(), |i: int| text_of(elements[i]))
}

/// The competencies of the section: the texts of the marked competencies in
/// their block; none where the block is absent.
pub open spec fn competencies_in(blocks: Seq<scraper::ElementRef>) -> Seq<Seq<char>> {
    if COMPETENCY_BLOCK < blocks.len() {
        texts_of(element_matches(blocks[COMPETENCY_BLOCK as int], COMPETENCY@))
    } else {
        Seq::empty()
    }
}

/// The reference that each list item writes, in order.
pub open spec fn related_codes_of(items: Seq<scraper::ElementRef>) -> Seq<Seq<char>> {
    Seq::new(items.len(), |i: int| related_code_of(inner_html_of(items[i])))
}

/// The related courses of the section: the references that the items of the
/// list in their block write; none where the block or its list is absent.
pub open spec fn related_courses_in(blocks: Seq<scraper::ElementRef>) -> Seq<Seq<char>> {
    match block_part(blocks, RELATED_COURSE_BLOCK as int, LIST@) {
        Some(list) => related_codes_of(element_matches(list, LIST_ITEM@)),
        None => Seq::empty(),
    }
}

/// The text of the first cell of `row` that matches `selector`; empty where
/// the row has no such cell.
pub open spec fn cell_text(row: scraper::ElementRef, selector: Seq<char>) -> Seq<char> {
    match first_match(row, selector) {
        Some(cell) => text_of(cell),
        None => Seq::empty(),
    }
}

/// The session that a row of the lecture plan writes. A row without a
/// session-number cell has number 0; a cell that writes no number is
/// invalid.
pub open spec fn plan_of(row: scraper::ElementRef, digits: Seq<char>) -> Result<
    LecturePlanView,
    ExtractError,
> {
    let count = match first_match(row, COUNT_CELL@) {
        Some(cell) => count_of(inner_html_of(cell), digits),
        None => Ok(0i32),
    };
    match count {
        Ok(n) => Ok(
            LecturePlanView {
                count: n,
                plan: cell_text(row, PLAN_CELL@),
                assignment: cell_text(row, ASSIGNMENT_CELL@),
            },
        ),
        Err(e) => Err(e),
    }
}

/// The sessions that the rows of the lecture plan write, one for each row
/// and in the same order. The first invalid row refuses the page.
pub open spec fn plans_of(rows: Seq<scraper::ElementRef>, digits: Seq<char>) -> Result<
    Seq<LecturePlanView>,
    ExtractError,
>
    decreases rows.len(),
{
    if rows.len() == 0 {
        Ok(Seq::empty())
    } else {
        match plans_of(rows.drop_last(), digits) {
            Err(e) => Err(e),
            Ok(before) => match plan_of(rows.last(), digits) {
                Err(e) => Err(e),
                Ok(plan) => Ok(before.push(plan)),
            },
        }
    }
}

/// The lecture plan of the section: the sessions of the table in its block;
/// none where the block or its table is absent.
pub open spec fn schedule_in(blocks: Seq<scraper::ElementRef>, digits: Seq<char>) -> Result<
    Seq<LecturePlanView>,
    ExtractError,
> {
    match block_part(blocks, SCHEDULE_BLOCK as int, PLAN_BODY@) {
        Some(body) => plans_of(element_matches(body, PLAN_ROW@), digits),
        None => Ok(Seq::empty()),
    }
}

/// The syllabus that the section `section` writes.
///
/// The blocks of the section are read by position. A field whose block, or
/// whose element in the block, is absent is empty. Only a session number
/// that cannot be read refuses the page.
pub open spec fn details_of(section: scraper::ElementRef, digits: Seq<char>) -> Result<
    CourseDetailView,
    ExtractError,
> {
    let blocks = element_matches(section, BLOCK@);
    match schedule_in(blocks, digits) {
        Err(e) => Err(e),
        Ok(schedule) => Ok(
            CourseDetailView {
                abst: block_text(blocks, ABSTRACT_BLOCK as int),
                goal: block_text(blocks, GOAL_BLOCK as int),
                experience: false,
                keyword: keywords_of(block_markup(blocks, KEYWORD_BLOCK as int)),
                competencies: competencies_in(blocks),
                flow: block_text(blocks, FLOW_BLOCK as int),
                schedule,
                out_of_class: block_text(blocks, OUT_OF_CLASS_BLOCK as int),
                textbook: block_text(blocks, TEXTBOOK_BLOCK as int),
                reference_book: block_text(blocks, REFERENCE_BOOK_BLOCK as int),
                assessment: block_text(blocks, ASSESSMENT_BLOCK as int),
                related_course: related_courses_in(blocks),
                prerequisite: block_text(blocks, PREREQUISITE_BLOCK as int),
                contact: block_text(blocks, CONTACT_BLOCK as int),
                office_hour: block_text(blocks, OFFICE_HOUR_BLOCK as int),
                note: block_text(blocks, NOTE_BLOCK as int),
            },
        ),
    }
}

/// The mathematical value of a decoded lecture plan.
pub open spec fn plans_view(r: Result<Vec<LecturePlan>, ExtractError>) -> Result<
    Seq<LecturePlanView>,
    ExtractError,
> {
    match r {
        Ok(v) => Ok(v.deep_view()),
        Err(e) => Err(e),
    }
}

/// The mathematical value of a decoded session.
pub open spec fn plan_view(r: Result<LecturePlan, ExtractError>) -> Result<
    LecturePlanView,
    ExtractError,
> {
    match r {
        Ok(v) => Ok(v@),
        Err(e) => Err(e),
    }
}

/// The mathematical value of a decoded syllabus.
pub open spec fn detail_view(r: Result<CourseDetail, ExtractError>) -> Result<
    CourseDetailView,
    ExtractError,
> {
    match r {
        Ok(v) => Ok(v@),
        Err(e) => Err(e),
    }
}

/// Reads the first element under block number `index` that matches
/// `selector`.
pub(crate) fn get_block_part<'a>(
    blocks: &Vec<scraper::ElementRef<'a>>,
    index: usize,
    selector: &str,
) -> (r: Result<Option<scraper::ElementRef<'a>>, ExtractError>)
    ensures
        match r {
            Ok(found) => found == block_part(blocks@, index as int, selector@),
            Err(e) => e == ExtractError::Engine && !selector_usable(selector@),
        },
{
    if index < blocks.len() {
        optional_in(&blocks[index], selector)
    } else {
        Ok(None)
    }
}

/// Reads the text of block number `index`.
pub(crate) fn get_block_text(blocks: &Vec<scraper::ElementRef>, index: usize) -> (r: Result<
    String,
    ExtractError,
>)
    ensures
        match r {
            Ok(text) => text@ == block_text(blocks@, index as int),
            Err(e) => e == ExtractError::Engine && !selector_usable(PARAGRAPH@),
        },
{
    match get_block_part(blocks, index, PARAGRAPH)? {
        Some(paragraph) => Ok(element_text(&paragraph)),
        None => Ok(String::new()),
    }
}

/// Reads the keywords of the section.
pub(crate) fn get_keywords(blocks: &Vec<scraper::ElementRef>) -> (r: Result<
    Vec<String>,
    ExtractError,
>)
    ensures
        match r {
            Ok(words) => words.deep_view() == keywords_of(
                block_markup(blocks@, KEYWORD_BLOCK as int),
            ),
            Err(e) => e == ExtractError::Engine && !selector_usable(PARAGRAPH@),
        },
{
    match get_block_part(blocks, KEYWORD_BLOCK, PARAGRAPH)? {
        Some(paragraph) => {
            let markup = inner_html(&paragraph);
            Ok(decode_keywords(markup.as_str()))
        },
        None => {
            let empty = String::new();
            Ok(decode_keywords(empty.as_str()))
        },
    }
}

/// Reads the text of each element.
pub(crate) fn get_texts(elements: &Vec<scraper::ElementRef>) -> (r: Vec<String>)
    ensures
        r.deep_view() == texts_of(elements@),
{
    let mut out: Vec<String> = Vec::new();
    let mut i: usize = 0;
    while i < elements.len()
        invariant
            i <= elements.len(),
            out.deep_view() == texts_of(elements@.take(i as int)),
        decreases elements.len() - i,
    {
        let ghost before = out.deep_view();
        out.push(element_text(&elements[i]));
        proof {
            assert(out.deep_view() == before.push(text_of(elements@[i as int])));
        }
        i += 1;
    }
    out
}

/// Reads the competencies of the section.
pub(crate) fn get_competencies(blocks: &Vec<scraper::ElementRef>) -> (r: Result<
    Vec<String>,
    ExtractError,
>)
    ensures
        match r {
            Ok(found) => found.deep_view() == competencies_in(blocks@),
            Err(e) => e == ExtractError::Engine && !selector_usable(COMPETENCY@),
        },
{
    if COMPETENCY_BLOCK < blocks.len() {
        let marked = all_in(&blocks[COMPETENCY_BLOCK], COMPETENCY)?;
        Ok(get_texts(&marked))
    } else {
        let none: Vec<String> = Vec::new();
        Ok(none)
    }
}

/// Reads the related courses of the section.
pub(crate) fn get_related_course(blocks: &Vec<scraper::ElementRef>) -> (r: Result<
    Vec<String>,
    ExtractError,
>)
    ensures
        match r {
            Ok(found) => found.deep_view() == related_courses_in(blocks@),
            Err(e) => e == ExtractError::Engine && !(selector_usable(LIST@) && selector_usable(
                LIST_ITEM@,
            )),
        },
{
    let mut out: Vec<String> = Vec::new();
    match get_block_part(blocks, RELATED_COURSE_BLOCK, LIST)? {
        Some(list) => {
            let items = all_in(&list, LIST_ITEM)?;
            let mut i: usize = 0;
            while i < items.len()
                invariant
                    i <= items.len(),
                    out.deep_view() == related_codes_of(items@.take(i as int)),
                decreases items.len() - i,
            {
                let ghost before = out.deep_view();
                let markup = inner_html(&items[i]);
                out.push(decode_related_code(markup.as_str()));
                proof {
                    assert(out.deep_view() == before.push(
                        related_code_of(inner_html_of(items@[i as int])),
                    ));
                }
                i += 1;
            }
            Ok(out)
        },
        None => {
            Ok(out)
        },
    }
}

/// Reads the text of the first cell of `row` that matches `selector`.
pub(crate) fn get_cell_text(row: &scraper::ElementRef, selector: &str) -> (r: Result<
    String,
    ExtractError,
>)
    ensures
        match r {
            Ok(text) => text@ == cell_text(*row, selector@),
            Err(e) => e == ExtractError::Engine && !selector_usable(selector@),
        },
{
    match optional_in(row, selector)? {
        Some(cell) => Ok(element_text(&cell)),
        None => Ok(String::new()),
    }
}

/// Decodes one row of the lecture plan.
pub(crate) fn get_plan(row: &scraper::ElementRef, digits: &regex::Regex) -> (r: Result<
    LecturePlan,
    ExtractError,
>)
    ensures
        r matches Err(ExtractError::Engine) || plan_view(r) == plan_of(*row, pattern_of(*digits)),
        r matches Err(ExtractError::Engine) ==> !plan_selectors_accepted(),
{
    let count = match optional_in(row, COUNT_CELL)? {
        Some(cell) => {
            let markup = inner_html(&cell);
            decode_count_with(markup.as_str(), digits)?
        },
        None => 0,
    };
    Ok(
        LecturePlan {
            count,
            plan: get_cell_text(row, PLAN_CELL)?,
            assignment: get_cell_text(row, ASSIGNMENT_CELL)?,
        },
    )
}

/// Where the rows before row `i` are decoded and row `i` is invalid, the
/// lecture plan is refused for the same reason.
pub proof fn lemma_invalid_row_refuses_plan(
    rows: Seq<scraper::ElementRef>,
    digits: Seq<char>,
    i: int,
)
    requires
        0 <= i < rows.len(),
        plans_of(rows.take(i), digits).is_ok(),
    ensures
        plan_of(rows[i], digits) matches Err(e) ==> plans_of(rows, digits) == Err::<
            Seq<LecturePlanView>,
            ExtractError,
        >(e),
{
    assert(rows.take(i + 1).drop_last() == rows.take(i));
    if plan_of(rows[i], digits).is_err() {
        lemma_plan_refusal_stays(rows, digits, i + 1);
    }
}

/// Once a prefix of the rows is refused, the lecture plan is refused for the
/// same reason.
pub proof fn lemma_plan_refusal_stays(rows: Seq<scraper::ElementRef>, digits: Seq<char>, n: int)
    requires
        0 <= n <= rows.len(),
        plans_of(rows.take(n), digits).is_err(),
    ensures
        plans_of(rows, digits) == plans_of(rows.take(n), digits),
    decreases rows.len() - n,
{
    if n < rows.len() {
        assert(rows.take(n + 1).drop_last() == rows.take(n));
        lemma_plan_refusal_stays(rows, digits, n + 1);
    } else {
        assert(rows.take(n) == rows);
    }
}

/// Reads the lecture plan of the section.
pub(crate) fn get_schedule(blocks: &Vec<scraper::ElementRef>, digits: &regex::Regex) -> (r: Result<
    Vec<LecturePlan>,
    ExtractError,
>)
    ensures
        r matches Err(ExtractError::Engine) ==> !schedule_selectors_accepted(),
        r matches Err(ExtractError::Engine) || plans_view(r) == schedule_in(
            blocks@,
            pattern_of(*digits),
        ),
{
    let mut plans: Vec<LecturePlan> = Vec::new();
    let body = match get_block_part(blocks, SCHEDULE_BLOCK, PLAN_BODY)? {
        Some(body) => body,
        None => {
            assert(plans.deep_view() == Seq::<LecturePlanView>::empty());
            return Ok(plans);
        },
    };
    let rows = all_in(&body, PLAN_ROW)?;
    let mut i: usize = 0;
    assert(plans.deep_view() == Seq::<LecturePlanView>::empty());
    while i < rows.len()
        invariant
            i <= rows.len(),
            schedule_in(blocks@, pattern_of(*digits)) == plans_of(rows@, pattern_of(*digits)),
            plans_of(rows@.take(i as int), pattern_of(*digits)) == Ok::<
                Seq<LecturePlanView>,
                ExtractError,
            >(plans.deep_view()),
        decreases rows.len() - i,
    {
        let ghost before = plans.deep_view();
        proof {
            assert(rows@.take(i + 1).drop_last() == rows@.take(i as int));
            lemma_invalid_row_refuses_plan(rows@, pattern_of(*digits), i as int);
        }
        let plan = get_plan(&rows[i], digits)?;
        plans.push(plan);
        proof {
            assert(plans.deep_view() == before.push(plan@));
        }
        i += 1;
    }
    assert(rows@.take(rows.len() as int) == rows@);
    Ok(plans)
}

/// Decodes the syllabus section of a detail page.
pub(crate) fn get_details(section: &scraper::ElementRef, digits: &regex::Regex) -> (r: Result<
    CourseDetail,
    ExtractError,
>)
    ensures
        r matches Err(ExtractError::Engine) ==> !syllabus_selectors_accepted(),
        r matches Err(ExtractError::Engine) || detail_view(r) == details_of(
            *section,
            pattern_of(*digits),
        ),
{
    let blocks = all_in(section, BLOCK)?;
    let abst = get_block_text(&blocks, ABSTRACT_BLOCK)?;
    let goal = get_block_text(&blocks, GOAL_BLOCK)?;
    let keyword = get_keywords(&blocks)?;
    let competencies = get_competencies(&blocks)?;
    let flow = get_block_text(&blocks, FLOW_BLOCK)?;
    let schedule = get_schedule(&blocks, digits)?;
    let out_of_class = get_block_text(&blocks, OUT_OF_CLASS_BLOCK)?;
    let textbook = get_block_text(&blocks, TEXTBOOK_BLOCK)?;
    let reference_book = get_block_text(&blocks, REFERENCE_BOOK_BLOCK)?;
    let assessment = get_block_text(&blocks, ASSESSMENT_BLOCK)?;
    let related_course = get_related_course(&blocks)?;
    let prerequisite = get_block_text(&blocks, PREREQUISITE_BLOCK)?;
    let contact = get_block_text(&blocks, CONTACT_BLOCK)?;
    let office_hour = get_block_text(&blocks, OFFICE_HOUR_BLOCK)?;
    let note = get_block_text(&blocks, NOTE_BLOCK)?;
    Ok(
        CourseDetail {
            abst,
            goal,
            experience: false,
            keyword,
            competencies,
            flow,
            schedule,
            out_of_class,
            textbook,
            reference_book,
            assessment,
            related_course,
            prerequisite,
            contact,
            office_hour,
            note,
        },
    )
}

// ---------------------------------------------------------------------------
// Layout of the outline
// ---------------------------------------------------------------------------

/// The container of the title heading.
pub const TITLE_AREA: &'static str = ".page-title-area";

/// The title heading.
pub const HEADING: &'static str = "h3";

/// The container of the outline.
pub const OUTLINE: &'static str = ".gaiyo-data";

/// An entry of the outline.
pub const ENTRY: &'static str = "dl";

/// The value of an entry.
pub const ENTRY_VALUE: &'static str = "dd";

/// The position of each field's entry in the outline.
pub const DEPARTMENT_ENTRY: usize = 0;

pub const LECTURER_ENTRY: usize = 1;

pub const LECTURE_TYPE_ENTRY: usize = 2;

pub const TIMETABLE_ENTRY: usize = 4;

pub const CODE_ENTRY: usize = 6;

pub const CREDIT_ENTRY: usize = 7;

pub const YEAR_ENTRY: usize = 8;

pub const SEMESTER_ENTRY: usize = 9;

pub const LANGUAGE_ENTRY: usize = 12;

/// The name of the university whose catalogue is read.
pub const UNIVERSITY: &'static str = "\u{6771}\u{4eac}\u{5de5}\u{696d}\u{5927}\u{5b66}";

/// The fields of a course that the outline of its detail page holds.
#[derive(Debug, Clone, PartialEq, Eq)]
pub struct Outline {
    pub department: String,
    pub lecturer: Vec<Lecturer>,
    pub lecture_type: String,
    pub time_table: Vec<TimeTable>,
    pub code: String,
    pub credit: i32,
    pub year: i32,
    pub semester: Vec<Semester>,
    pub language: String,
}

/// The mathematical value of an [`Outline`].
pub struct OutlineView {
    pub department: Seq<char>,
    pub lecturer: Seq<LecturerView>,
    pub lecture_type: Seq<char>,
    pub time_table: Seq<TimeTableView>,
    pub code: Seq<char>,
    pub credit: i32,
    pub year: i32,
    pub semester: Seq<Semester>,
    pub language: Seq<char>,
}

impl View for Outline {
    type V = OutlineView;

    open spec fn view(&self) -> OutlineView {
        OutlineView {
            department: self.department@,
            lecturer: self.lecturer.deep_view(),
            lecture_type: self.lecture_type@,
            time_table: self.time_table.deep_view(),
            code: self.code@,
            credit: self.credit,
            year: self.year,
            semester: self.semester@,
            language: self.language@,
        }
    }
}

/// Whether the selector parser can be given and accepts the selectors that the entries of
/// the outline are read with.
pub open spec fn outline_selectors_accepted() -> bool {
    selector_usable(ENTRY_VALUE@) && selector_usable(LINK@)
}

/// Whether the selector parser can be given and accepts every selector that a detail page is
/// read with.
pub open spec fn detail_selectors_accepted() -> bool {
    &&& selector_usable(TITLE_AREA@)
    &&& selector_usable(HEADING@)
    &&& selector_usable(OUTLINE@)
    &&& selector_usable(ENTRY@)
    &&& selector_usable(SYLLABUS@)
    &&& outline_selectors_accepted()
    &&& syllabus_selectors_accepted()
}

/// Whether the selector parser and the pattern compiler can be given and accept every
/// selector and pattern that a detail page is read with.
pub open spec fn detail_engine_accepted() -> bool {
    &&& pattern_accepted(ROOM_PATTERN@)
    &&& pattern_accepted(COUNT_PATTERN@)
    &&& detail_selectors_accepted()
}

/// The value of the entry at position `offset`; none where the outline has
/// no such entry or the entry no value.
pub open spec fn entry_value(entries: Seq<scraper::ElementRef>, offset: int) -> Option<
    scraper::ElementRef,
> {
    if 0 <= offset < entries.len() {
        first_match(entries[offset], ENTRY_VALUE@)
    } else {
        None
    }
}

/// The fields that the entries of an outline write, each read at its fixed
/// position. The entries are read in the order of their positions, and the
/// first that is absent or cannot be decoded refuses the page.
pub open spec fn outline_of(entries: Seq<scraper::ElementRef>, room: Seq<char>) -> Result<
    OutlineView,
    ExtractError,
> {
    match entry_value(entries, DEPARTMENT_ENTRY as int) {
        None => Err(ExtractError::MissingElement),
        Some(department) => match entry_value(entries, LECTURER_ENTRY as int) {
            None => Err(ExtractError::MissingElement),
            Some(lecturer) => match lecturers_in(lecturer) {
                Err(e) => Err(e),
                Ok(lecturers) => match entry_value(entries, LECTURE_TYPE_ENTRY as int) {
                    None => Err(ExtractError::MissingElement),
                    Some(lecture_type) => match entry_value(entries, TIMETABLE_ENTRY as int) {
                        None => Err(ExtractError::MissingElement),
                        Some(time_table) => match timetable_of(
                            trim(inner_html_of(time_table)),
                            room,
                        ) {
                            Err(e) => Err(e),
                            Ok(slots) => match outline_tail_of(entries) {
                                Err(e) => Err(e),
                                Ok(tail) => Ok(
                                    OutlineView {
                                        department: text_of(department),
                                        lecturer: lecturers,
                                        lecture_type: lecture_type_of(inner_html_of(lecture_type)),
                                        time_table: slots,
                                        code: tail.0,
                                        credit: tail.1,
                                        year: tail.2,
                                        semester: tail.3,
                                        language: tail.4,
                                    },
                                ),
                            },
                        },
                    },
                },
            },
        },
    }
}

/// The code, credit, year, quarters and language that the entries of an
/// outline write.
pub open spec fn outline_tail_of(entries: Seq<scraper::ElementRef>) -> Result<
    (Seq<char>, i32, i32, Seq<Semester>, Seq<char>),
    ExtractError,
> {
    match entry_value(entries, CODE_ENTRY as int) {
        None => Err(ExtractError::MissingElement),
        Some(code) => match entry_value(entries, CREDIT_ENTRY as int) {
            None => Err(ExtractError::MissingElement),
            Some(credit) => match credit_of(inner_html_of(credit)) {
                Err(e) => Err(e),
                Ok(credits) => match entry_value(entries, YEAR_ENTRY as int) {
                    None => Err(ExtractError::MissingElement),
                    Some(year) => match year_of(inner_html_of(year)) {
                        Err(e) => Err(e),
                        Ok(years) => match entry_value(entries, SEMESTER_ENTRY as int) {
                            None => Err(ExtractError::MissingElement),
                            Some(semester) => match entry_value(entries, LANGUAGE_ENTRY as int) {
                                None => Err(ExtractError::MissingElement),
                                Some(language) => Ok(
                                    (
                                        text_of(code),
                                        credits,
                                        years,
                                        semesters_of(inner_html_of(semester)),
                                        text_of(language),
                                    ),
                                ),
                            },
                        },
                    },
                },
            },
        },
    }
}

/// The two titles that the page `source` writes in its title heading.
pub open spec fn page_titles(source: Seq<char>) -> Result<(Seq<char>, Seq<char>), ExtractError> {
    match first_in_document(source, TITLE_AREA@) {
        None => Err(ExtractError::MissingElement),
        Some(area) => match first_match(area, HEADING@) {
            None => Err(ExtractError::MissingElement),
            Some(heading) => titles_of(inner_html_of(heading)),
        },
    }
}

/// The outline that the page `source` writes.
pub open spec fn page_outline(source: Seq<char>, room: Seq<char>) -> Result<
    OutlineView,
    ExtractError,
> {
    match first_in_document(source, OUTLINE@) {
        None => Err(ExtractError::MissingElement),
        Some(outline) => outline_of(element_matches(outline, ENTRY@), room),
    }
}

/// The syllabus that the page `source` writes.
pub open spec fn page_details(source: Seq<char>, digits: Seq<char>) -> Result<
    CourseDetailView,
    ExtractError,
> {
    match first_in_document(source, SYLLABUS@) {
        None => Err(ExtractError::MissingElement),
        Some(section) => details_of(section, digits),
    }
}

/// The course that the detail page `source` writes, with rooms captured by
/// the pattern `room` and session numbers matched by the pattern `digits`.
///
/// A page of more than [`MAX_PAGE_LENGTH`] characters is refused unread.
/// The address and the update date are not on the page and are left empty.
pub open spec fn course_of(source: Seq<char>, room: Seq<char>, digits: Seq<char>) -> Result<
    CourseView,
    ExtractError,
> {
    if source.len() > MAX_PAGE_LENGTH {
        Err(ExtractError::PageTooLong)
    } else {
        read_course_of(source, room, digits)
    }
}

/// The course that the parsed detail page `source` writes.
///
/// The title heading is read first, then the outline, then the syllabus
/// section; the first of them that is refused refuses the page.
pub open spec fn read_course_of(source: Seq<char>, room: Seq<char>, digits: Seq<char>) -> Result<
    CourseView,
    ExtractError,
> {
    match page_titles(source) {
        Err(e) => Err(e),
        Ok(titles) => match page_outline(source, room) {
            Err(e) => Err(e),
            Ok(outline) => match page_details(source, digits) {
                Err(e) => Err(e),
                Ok(details) => Ok(
                    CourseView {
                        university: UNIVERSITY@,
                        title: titles.0,
                        english_title: titles.1,
                        department: outline.department,
                        lecturer: outline.lecturer,
                        lecture_type: outline.lecture_type,
                        time_table: outline.time_table,
                        code: outline.code,
                        credit: outline.credit,
                        year: outline.year,
                        semester: outline.semester,
                        language: outline.language,
                        url: Seq::empty(),
                        sylbs_update: Seq::empty(),
                        course_detail: details,
                    },
                ),
            },
        },
    }
}

/// The mathematical value of a decoded outline.
pub open spec fn outline_view(r: Result<Outline, ExtractError>) -> Result<
    OutlineView,
    ExtractError,
> {
    match r {
        Ok(v) => Ok(v@),
        Err(e) => Err(e),
    }
}

/// The mathematical value of a decoded course.
pub open spec fn course_view(r: Result<Course, ExtractError>) -> Result<CourseView, ExtractError> {
    match r {
        Ok(v) => Ok(v@),
        Err(e) => Err(e),
    }
}

/// Reads the value of the entry at position `offset`; the page is refused
/// where the outline has no such entry or the entry no value.
pub(crate) fn get_entry_value<'a>(entries: &Vec<scraper::ElementRef<'a>>, offset: usize) -> (r:
    Result<scraper::ElementRef<'a>, ExtractError>)
    ensures
        match r {
            Ok(found) => entry_value(entries@, offset as int) == Some(found),
            Err(e) => (e == ExtractError::Engine && !selector_usable(ENTRY_VALUE@)) || (e
                == ExtractError::MissingElement
                && entry_value(entries@, offset as int).is_none()),
        },
{
    if offset < entries.len() {
        required_in(&entries[offset], ENTRY_VALUE)
    } else {
        Err(ExtractError::MissingElement)
    }
}

/// The mathematical value of a decoded code, credit, year, list of quarters
/// and language.
pub open spec fn outline_tail_view(
    r: Result<(String, i32, i32, Vec<Semester>, String), ExtractError>,
) -> Result<(Seq<char>, i32, i32, Seq<Semester>, Seq<char>), ExtractError> {
    match r {
        Ok((code, credit, year, semester, language)) => Ok(
            (code@, credit, year, semester@, language@),
        ),
        Err(e) => Err(e),
    }
}

/// Decodes the code, credit, year, quarters and language of the outline.
pub(crate) fn get_outline_tail(entries: &Vec<scraper::ElementRef>) -> (r: Result<
    (String, i32, i32, Vec<Semester>, String),
    ExtractError,
>)
    ensures
        r matches Err(ExtractError::Engine) ==> !selector_usable(ENTRY_VALUE@),
        r matches Err(ExtractError::Engine) || outline_tail_view(r) == outline_tail_of(entries@),
{
    let code = get_entry_value(entries, CODE_ENTRY)?;
    let code = element_text(&code);
    let credit = get_entry_value(entries, CREDIT_ENTRY)?;
    let credit = decode_credit(inner_html(&credit).as_str())?;
    let year = get_entry_value(entries, YEAR_ENTRY)?;
    let year = decode_year(inner_html(&year).as_str())?;
    let semester = get_entry_value(entries, SEMESTER_ENTRY)?;
    let semester = decode_semester(inner_html(&semester).as_str());
    let language = get_entry_value(entries, LANGUAGE_ENTRY)?;
    let language = element_text(&language);
    Ok((code, credit, year, semester, language))
}

/// Decodes the outline of a detail page from its entries.
pub(crate) fn get_outline(entries: &Vec<scraper::ElementRef>, room: &regex::Regex) -> (r: Result<
    Outline,
    ExtractError,
>)
    ensures
        r matches Err(ExtractError::Engine) ==> !outline_selectors_accepted(),
        r matches Err(ExtractError::Engine) || outline_view(r) == outline_of(
            entries@,
            pattern_of(*room),
        ),
{
    let department = get_entry_value(entries, DEPARTMENT_ENTRY)?;
    let department = element_text(&department);
    let lecturer = get_entry_value(entries, LECTURER_ENTRY)?;
    let lecturer = get_lecturer(&lecturer)?;
    let lecture_type = get_entry_value(entries, LECTURE_TYPE_ENTRY)?;
    let lecture_type = decode_lecture_type(inner_html(&lecture_type).as_str());
    let time_table = get_entry_value(entries, TIMETABLE_ENTRY)?;
    let time_table = decode_timetable_with(inner_html(&time_table).as_str(), room)?;
    let (code, credit, year, semester, language) = get_outline_tail(entries)?;
    Ok(
        Outline {
            department,
            lecturer,
            lecture_type,
            time_table,
            code,
            credit,
            year,
            semester,
            language,
        },
    )
}

/// Decodes a detail page with compiled patterns for rooms and session
/// numbers.
pub(crate) fn html_to_course_with(html: &str, room: &regex::Regex, digits: &regex::Regex) -> (r: Result<
    Course,
    ExtractError,
>)
    requires
        html@.len() <= MAX_PAGE_LENGTH,
    ensures
        r matches Err(ExtractError::Engine) ==> !detail_selectors_accepted(),
        r matches Err(ExtractError::Engine) || course_view(r) == read_course_of(
            html@,
            pattern_of(*room),
            pattern_of(*digits),
        ),
{
    let document = parse_document(html);
    let area = required_in_document(&document, TITLE_AREA)?;
    let heading = required_in(&area, HEADING)?;
    let (title, english_title) = decode_title(inner_html(&heading).as_str())?;
    let outline = required_in_document(&document, OUTLINE)?;
    let entries = all_in(&outline, ENTRY)?;
    let outline = get_outline(&entries, room)?;
    let section = required_in_document(&document, SYLLABUS)?;
    let course_detail = get_details(&section, digits)?;
    Ok(
        Course {
            university: String::from_str(UNIVERSITY),
            title,
            english_title,
            department: outline.department,
            lecturer: outline.lecturer,
            lecture_type: outline.lecture_type,
            time_table: outline.time_table,
            code: outline.code,
            credit: outline.credit,
            year: outline.year,
            semester: outline.semester,
            language: outline.language,
            url: String::new(),
            sylbs_update: String::new(),
            course_detail,
        },
    )
}

/// Decodes a course detail page.
///
/// A page of more than [`MAX_PAGE_LENGTH`] characters is refused unread.
/// The outline is read by position: an entry that is absent, a heading
/// without the title separator, a link without a target, a timetable group
/// without a room and a credit or year that is no number each refuse the
/// page. The syllabus section is read leniently: what is absent is empty.
/// The address and the update date of the result are empty; they come from
/// the listing. Where the selector parser and the pattern compiler accept
/// the fixed selectors and patterns of the page, the result is what the page
/// writes. `Engine` is returned only where one of them was refused; the
/// patterns are compiled first, and a selector is parsed when it is first
/// needed.
pub fn html_to_course(html: &str) -> (r: Result<Course, ExtractError>)
    ensures
        detail_engine_accepted() ==> course_view(r) == course_of(
            html@,
            ROOM_PATTERN@,
            COUNT_PATTERN@,
        ),
        r matches Err(ExtractError::Engine) ==> !detail_engine_accepted(),
        !(r matches Err(ExtractError::Engine)) ==> course_view(r) == course_of(
            html@,
            ROOM_PATTERN@,
            COUNT_PATTERN@,
        ),
{
    if html.unicode_len() > MAX_PAGE_LENGTH {
        return Err(ExtractError::PageTooLong);
    }
    let room = match compile(ROOM_PATTERN) {
        Some(room) => room,
        None => {
            return Err(ExtractError::Engine);
        },
    };
    let digits = match compile(COUNT_PATTERN) {
        Some(digits) => digits,
        None => {
            return Err(ExtractError::Engine);
        },
    };
    html_to_course_with(html, &room, &digits)
}

} // verus!
