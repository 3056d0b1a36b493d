//! Searching the store.
//!
//! A query names, for each of eight dimensions, the values that are asked
//! for; a dimension without values asks for nothing. A course is listed
//! when it meets every dimension that asks for something. University,
//! department, year and quarter are compared with what is stored; the grade
//! is read from the course code; the timetable is compared with the stored
//! slots; title and lecturer are looked for in the texts that the listing
//! shows.

use vstd::prelude::*;
use crate::database::codes::{
    day_code, day_label, day_label_of, day_number, period_code, period_label, period_label_of,
    period_number, semester_code, semester_label, semester_label_of, semester_number,
};
use crate::database::rows::{
    CourseRow, CourseRowView, LecturerRow, LecturerRowView, SemesterRow, SemesterRowView,
    TimetableRow, TimetableRowView,
};
use crate::database::store::{owned_by, Store, Tables};
use crate::scrape::sub::Semester;
use crate::scrape::timetable::{Day, Period};
use crate::text::{
    contains, from_chars, has, join, joined, parse_i32, same_text, texts, to_chars, to_i32,
};

verus! {

/// A day and a period that a query asks for.
#[derive(Debug, Clone, Copy, PartialEq, Eq, Structural)]
pub struct TimetableQuery {
    pub day: Day,
    pub period: Period,
}

/// What a search asks for.
#[derive(Debug, Clone, PartialEq, Eq)]
pub struct SearchQuery {
    pub university: Vec<String>,
    pub department: Vec<String>,
    pub year: Vec<String>,
    pub title: Vec<String>,
    pub lecturer: Vec<String>,
    pub grade: Vec<String>,
    pub quarter: Vec<Semester>,
    pub timetable: Vec<TimetableQuery>,
}

/// The mathematical value of a [`SearchQuery`].
pub struct SearchQueryView {
    pub university: Seq<Seq<char>>,
    pub department: Seq<Seq<char>>,
    pub year: Seq<Seq<char>>,
    pub title: Seq<Seq<char>>,
    pub lecturer: Seq<Seq<char>>,
    pub grade: Seq<Seq<char>>,
    pub quarter: Seq<Semester>,
    pub timetable: Seq<TimetableQuery>,
}

impl View for SearchQuery {
    type V = SearchQueryView;

    open spec fn view(&self) -> SearchQueryView {
        SearchQueryView {
            university: self.university.deep_view(),
            department: self.department.deep_view(),
            year: self.year.deep_view(),
            title: self.title.deep_view(),
            lecturer: self.lecturer.deep_view(),
            grade: self.grade.deep_view(),
            quarter: self.quarter@,
            timetable: self.timetable@,
        }
    }
}

/// A course as a search lists it.
#[derive(Debug, Clone, PartialEq, Eq)]
pub struct CourseListItem {
    pub id: i32,
    pub university: String,
    pub code: String,
    pub title: String,
    pub lecturer: String,
    pub timetable: String,
    pub semester: String,
    pub department: String,
    pub credit: i32,
}

/// The mathematical value of a [`CourseListItem`].
pub struct CourseListItemView {
    pub id: i32,
    pub university: Seq<char>,
    pub code: Seq<char>,
    pub title: Seq<char>,
    pub lecturer: Seq<char>,
    pub timetable: Seq<char>,
    pub semester: Seq<char>,
    pub department: Seq<char>,
    pub credit: i32,
}

impl View for CourseListItem {
    type V = CourseListItemView;

    open spec fn view(&self) -> CourseListItemView {
        CourseListItemView {
            id: self.id,
            university: self.university@,
            code: self.code@,
            title: self.title@,
            lecturer: self.lecturer@,
            timetable: self.timetable@,
            semester: self.semester@,
            department: self.department@,
            credit: self.credit,
        }
    }
}

impl DeepView for CourseListItem {
    type V = CourseListItemView;

    open spec fn deep_view(&self) -> CourseListItemView {
        self@
    }
}

/// What stands between two entries of a listed text.
pub const LIST_SEPARATOR: &'static str = ", ";

/// The position in a course code of the digit that tells the grade.
pub const GRADE_POSITION: usize = 5;

// ---------------------------------------------------------------------------
// The dimensions of a query
// ---------------------------------------------------------------------------

/// Whether `text` is one of `values`.
pub open spec fn text_listed(values: Seq<Seq<char>>, text: Seq<char>) -> bool {
    exists|i: int| 0 <= i < values.len() && #[trigger] values[i] == text
}

/// Whether one of `years` writes the number `year`.
pub open spec fn year_listed(years: Seq<Seq<char>>, year: i32) -> bool {
    exists|i: int| 0 <= i < years.len() && parse_i32(#[trigger] years[i]) == Some(year)
}

/// The digit that a grade band asks for in the course code: the hundreds of
/// the bands 100 to 600, and `0` for any other text.
pub open spec fn grade_digit_of(band: Seq<char>) -> char {
    if band == "100"@ {
        '1'
    } else if band == "200"@ {
        '2'
    } else if band == "300"@ {
        '3'
    } else if band == "400"@ {
        '4'
    } else if band == "500"@ {
        '5'
    } else if band == "600"@ {
        '6'
    } else {
        '0'
    }
}

/// Whether the course code `code` tells one of the grades `grades`: whether
/// it is long enough to hold a grade digit and that digit is the digit of
/// one of the bands.
pub open spec fn grade_listed(grades: Seq<Seq<char>>, code: Seq<char>) -> bool {
    code.len() > GRADE_POSITION && exists|i: int|
        0 <= i < grades.len() && grade_digit_of(#[trigger] grades[i]) == code[GRADE_POSITION as int]
}

/// Whether the number `number` stands for one of `quarters`.
pub open spec fn quarter_listed(quarters: Seq<Semester>, number: i32) -> bool {
    exists|i: int| 0 <= i < quarters.len() && semester_number(#[trigger] quarters[i]) == number
}

/// Whether course `course` is held in one of `quarters`.
pub open spec fn held_in(quarters: Seq<Semester>, table: Seq<SemesterRowView>, course: i32) -> bool {
    exists|r: int|
        0 <= r < table.len() && (#[trigger] table[r]).course_id == course && quarter_listed(
            quarters,
            table[r].semester,
        )
}

/// Whether one of `slots` names the day that the number `day` stands for
/// together with the period that the number `period` stands for.
pub open spec fn slot_listed(slots: Seq<TimetableQuery>, day: i32, period: i32) -> bool {
    exists|i: int|
        0 <= i < slots.len() && day_number((#[trigger] slots[i]).day) == day && period_number(
            slots[i].period,
        ) == period
}

/// Whether course `course` has a slot that is one of `slots`: on the day and
/// in the period of one and the same of them.
pub open spec fn meets_at(
    slots: Seq<TimetableQuery>,
    table: Seq<TimetableRowView>,
    course: i32,
) -> bool {
    exists|r: int|
        0 <= r < table.len() && (#[trigger] table[r]).course_id == course && slot_listed(
            slots,
            table[r].day,
            table[r].periods,
        )
}

/// Whether one of `parts` occurs in `text`.
pub open spec fn holds_one_of(text: Seq<char>, parts: Seq<Seq<char>>) -> bool {
    exists|i: int| 0 <= i < parts.len() && contains(text, #[trigger] parts[i])
}

// ---------------------------------------------------------------------------
// The listing of a course
// ---------------------------------------------------------------------------

/// The name of each lecturer row.
pub open spec fn lecturer_names(rows: Seq<LecturerRowView>) -> Seq<Seq<char>> {
    Seq::new(rows.len(), |i: int| rows[i].name)
}

/// The label of a slot: the character of its day, then its class hours.
pub open spec fn slot_label(row: TimetableRowView) -> Seq<char> {
    day_label_of(row.day) + period_label_of(row.periods)
}

/// The label of each timetable row.
pub open spec fn slot_labels(rows: Seq<TimetableRowView>) -> Seq<Seq<char>> {
    Seq::new(rows.len(), |i: int| slot_label(rows[i]))
}

/// The label of each quarter row.
pub open spec fn quarter_labels(rows: Seq<SemesterRowView>) -> Seq<Seq<char>> {
    Seq::new(rows.len(), |i: int| semester_label_of(rows[i].semester))
}

/// How a search lists the course that `row` stands for: with the names of
/// its lecturers, the labels of its slots and the tokens of its quarters,
/// each list in the order of its table and joined by a comma and a space.
pub open spec fn list_item_of(s: Tables, row: CourseRowView) -> CourseListItemView {
    CourseListItemView {
        id: row.id,
        university: row.university,
        code: row.code,
        title: row.title,
        lecturer: join(lecturer_names(owned_by(s.lecturers, row.id)), LIST_SEPARATOR@),
        timetable: join(slot_labels(owned_by(s.timetables, row.id)), LIST_SEPARATOR@),
        semester: join(quarter_labels(owned_by(s.semesters, row.id)), LIST_SEPARATOR@),
        department: row.department,
        credit: row.credit,
    }
}

/// Whether the course that `row` stands for meets the dimensions of `q` that
/// compare a stored value with the values asked for: university,
/// department, year and quarter.
pub open spec fn meets_stored_values(s: Tables, q: SearchQueryView, row: CourseRowView) -> bool {
    &&& q.university.len() == 0 || text_listed(q.university, row.university)
    &&& q.department.len() == 0 || text_listed(q.department, row.department)
    &&& q.year.len() == 0 || year_listed(q.year, row.year)
    &&& q.quarter.len() == 0 || held_in(q.quarter, s.semesters, row.id)
}

/// Whether a course meets the dimensions of `q` that are decided on what is
/// read or shown of the course, given its code, whether it has a slot that
/// the query asks for, its title and the listed names of its lecturers.
pub open spec fn meets_derived_given(
    q: SearchQueryView,
    code: Seq<char>,
    has_slot: bool,
    title: Seq<char>,
    lecturers: Seq<char>,
) -> bool {
    &&& q.grade.len() == 0 || grade_listed(q.grade, code)
    &&& q.timetable.len() == 0 || has_slot
    &&& q.title.len() == 0 || holds_one_of(title, q.title)
    &&& q.lecturer.len() == 0 || holds_one_of(lecturers, q.lecturer)
}

/// Whether the course that `row` stands for meets the dimensions of `q` that
/// are decided on what is read or shown of the course: grade, timetable,
/// title and lecturer.
pub open spec fn meets_derived_values(s: Tables, q: SearchQueryView, row: CourseRowView) -> bool {
    meets_derived_given(
        q,
        row.code,
        meets_at(q.timetable, s.timetables, row.id),
        row.title,
        list_item_of(s, row).lecturer,
    )
}

/// Whether a search for `q` lists the course that `row` stands for: whether
/// the course meets every dimension of the query that names a value.
pub open spec fn is_listed(s: Tables, q: SearchQueryView, row: CourseRowView) -> bool {
    meets_stored_values(s, q, row) && meets_derived_values(s, q, row)
}

/// What a search for `q` lists of the courses `rows`: the listing of each
/// course that the search lists, in the order of the rows.
pub open spec fn listed_among(
    s: Tables,
    q: SearchQueryView,
    rows: Seq<CourseRowView>,
) -> Seq<CourseListItemView>
    decreases rows.len(),
{
    if rows.len() == 0 {
        Seq::empty()
    } else if is_listed(s, q, rows.last()) {
        listed_among(s, q, rows.drop_last()).push(list_item_of(s, rows.last()))
    } else {
        listed_among(s, q, rows.drop_last())
    }
}

/// What a search for `q` returns: the listing of every stored course that
/// the search lists, in the order of the table of courses.
pub open spec fn search_of(s: Tables, q: SearchQueryView) -> Seq<CourseListItemView> {
    listed_among(s, q, s.courses)
}

/// A query that names no value lists every course that is stored.
pub proof fn lemma_empty_query_lists_all(s: Tables, q: SearchQueryView, rows: Seq<CourseRowView>)
    requires
        q.university.len() == 0,
        q.department.len() == 0,
        q.year.len() == 0,
        q.quarter.len() == 0,
        q.grade.len() == 0,
        q.timetable.len() == 0,
        q.title.len() == 0,
        q.lecturer.len() == 0,
    ensures
        listed_among(s, q, rows).len() == rows.len(),
        forall|i: int|
            0 <= i < rows.len() ==> (#[trigger] listed_among(s, q, rows)[i]) == list_item_of(
                s,
                rows[i],
            ),
    decreases rows.len(),
{
    if rows.len() > 0 {
        lemma_empty_query_lists_all(s, q, rows.drop_last());
    }
}

/// Whether `item` is the listing of one of the courses `rows` that a search
/// for `q` lists.
pub open spec fn lists(
    s: Tables,
    q: SearchQueryView,
    rows: Seq<CourseRowView>,
    item: CourseListItemView,
) -> bool {
    exists|i: int|
        0 <= i < rows.len() && is_listed(s, q, #[trigger] rows[i]) && item == list_item_of(
            s,
            rows[i],
        )
}

/// Every entry that a search returns is the listing of a stored course that
/// meets the query, and the search returns no more entries than courses are
/// stored.
pub proof fn lemma_listed_courses_meet_query(
    s: Tables,
    q: SearchQueryView,
    rows: Seq<CourseRowView>,
)
    ensures
        listed_among(s, q, rows).len() <= rows.len(),
        forall|k: int|
            0 <= k < listed_among(s, q, rows).len() ==> lists(
                s,
                q,
                rows,
                #[trigger] listed_among(s, q, rows)[k],
            ),
    decreases rows.len(),
{
    if rows.len() > 0 {
        let init = rows.drop_last();
        lemma_listed_courses_meet_query(s, q, init);
    }
}

/// Every course that meets the query is returned: its listing is one of the
/// entries.
pub proof fn lemma_courses_that_meet_query_are_listed(
    s: Tables,
    q: SearchQueryView,
    rows: Seq<CourseRowView>,
    i: int,
)
    requires
        0 <= i < rows.len(),
        is_listed(s, q, rows[i]),
    ensures
        listed_among(s, q, rows).contains(list_item_of(s, rows[i])),
    decreases rows.len(),
{
    let found = listed_among(s, q, rows);
    if i == rows.len() - 1 {
        assert(found.last() == list_item_of(s, rows[i]));
    } else {
        let init = rows.drop_last();
        lemma_courses_that_meet_query_are_listed(s, q, init, i);
        let k = choose|k: int|
            0 <= k < listed_among(s, q, init).len() && listed_among(s, q, init)[k] == list_item_of(
                s,
                init[i],
            );
        assert(found[k] == list_item_of(s, rows[i]));
    }
}

// ---------------------------------------------------------------------------
// Deciding the dimensions
// ---------------------------------------------------------------------------

/// Whether `text` is one of `values`.
pub fn is_text_listed(values: &Vec<String>, text: &str) -> (r: bool)
    ensures
        r == text_listed(values.deep_view(), text@),
{
    let mut i: usize = 0;
    while i < values.len()
        invariant
            i <= values.len(),
            forall|j: int| 0 <= j < i ==> #[trigger] values.deep_view()[j] != text@,
        decreases values.len() - i,
    {
        assert(values.deep_view()[i as int] == values@[i as int]@);
        if same_text(values[i].as_str(), text) {
            return true;
        }
        i += 1;
    }
    false
}

/// Whether one of `years` writes the number `year`.
pub fn is_year_listed(years: &Vec<String>, year: i32) -> (r: bool)
    ensures
        r == year_listed(years.deep_view(), year),
{
    let mut i: usize = 0;
    while i < years.len()
        invariant
            i <= years.len(),
            forall|j: int| 0 <= j < i ==> parse_i32(#[trigger] years.deep_view()[j]) != Some(year),
        decreases years.len() - i,
    {
        assert(years.deep_view()[i as int] == years@[i as int]@);
        let written = to_chars(years[i].as_str());
        match to_i32(&written) {
            Some(n) => {
                if n == year {
                    return true;
                }
            },
            None => {},
        }
        i += 1;
    }
    false
}

/// The digit that a grade band asks for in the course code.
pub fn grade_digit(band: &str) -> (c: char)
    ensures
        c == grade_digit_of(band@),
{
    if same_text(band, "100") {
        '1'
    } else if same_text(band, "200") {
        '2'
    } else if same_text(band, "300") {
        '3'
    } else if same_text(band, "400") {
        '4'
    } else if same_text(band, "500") {
        '5'
    } else if same_text(band, "600") {
        '6'
    } else {
        '0'
    }
}

/// Whether the course code `code` tells one of the grades `grades`.
pub fn is_grade_listed(grades: &Vec<String>, code: &str) -> (r: bool)
    ensures
        r == grade_listed(grades.deep_view(), code@),
{
    let chars = to_chars(code);
    if chars.len() <= GRADE_POSITION {
        return false;
    }
    let digit = chars[GRADE_POSITION];
    let mut i: usize = 0;
    while i < grades.len()
        invariant
            i <= grades.len(),
            chars@ == code@,
            chars.len() > GRADE_POSITION,
            digit == code@[GRADE_POSITION as int],
            forall|j: int| 0 <= j < i ==> grade_digit_of(#[trigger] grades.deep_view()[j]) != digit,
        decreases grades.len() - i,
    {
        assert(grades.deep_view()[i as int] == grades@[i as int]@);
        if grade_digit(grades[i].as_str()) == digit {
            return true;
        }
        i += 1;
    }
    false
}

/// Whether the number `number` stands for one of `quarters`.
pub fn is_quarter_listed(quarters: &Vec<Semester>, number: i32) -> (r: bool)
    ensures
        r == quarter_listed(quarters@, number),
{
    let mut i: usize = 0;
    while i < quarters.len()
        invariant
            i <= quarters.len(),
            forall|j: int| 0 <= j < i ==> semester_number(#[trigger] quarters@[j]) != number,
        decreases quarters.len() - i,
    {
        if semester_code(quarters[i]) == number {
            return true;
        }
        i += 1;
    }
    false
}

/// Whether course `course` is held in one of `quarters`.
pub fn is_held_in(quarters: &Vec<Semester>, table: &Vec<SemesterRow>, course: i32) -> (r: bool)
    ensures
        r == held_in(quarters@, table.deep_view(), course),
{
    let mut i: usize = 0;
    while i < table.len()
        invariant
            i <= table.len(),
            forall|j: int|
                0 <= j < i ==> !((#[trigger] table.deep_view()[j]).course_id == course
                    && quarter_listed(quarters@, table.deep_view()[j].semester)),
        decreases table.len() - i,
    {
        assert(table.deep_view()[i as int] == table@[i as int]@);
        if table[i].course_id == course && is_quarter_listed(quarters, table[i].semester) {
            return true;
        }
        i += 1;
    }
    false
}

/// Whether one of `slots` names the day that the number `day` stands for
/// together with the period that the number `period` stands for.
pub fn is_slot_listed(slots: &Vec<TimetableQuery>, day: i32, period: i32) -> (r: bool)
    ensures
        r == slot_listed(slots@, day, period),
{
    let mut i: usize = 0;
    while i < slots.len()
        invariant
            i <= slots.len(),
            forall|j: int|
                0 <= j < i ==> !(day_number((#[trigger] slots@[j]).day) == day && period_number(
                    slots@[j].period,
                ) == period),
        decreases slots.len() - i,
    {
        if day_code(slots[i].day) == day && period_code(slots[i].period) == period {
            return true;
        }
        i += 1;
    }
    false
}

/// Whether course `course` has a slot that is one of `slots`.
pub fn does_meet_at(slots: &Vec<TimetableQuery>, table: &Vec<TimetableRow>, course: i32) -> (r:
    bool)
    ensures
        r == meets_at(slots@, table.deep_view(), course),
{
    let mut i: usize = 0;
    while i < table.len()
        invariant
            i <= table.len(),
            forall|j: int|
                0 <= j < i ==> !((#[trigger] table.deep_view()[j]).course_id == course
                    && slot_listed(slots@, table.deep_view()[j].day, table.deep_view()[j].periods)),
        decreases table.len() - i,
    {
        assert(table.deep_view()[i as int] == table@[i as int]@);
        if table[i].course_id == course && is_slot_listed(slots, table[i].day, table[i].periods) {
            return true;
        }
        i += 1;
    }
    false
}

/// Whether `id` is one of `ids`.
pub fn is_id_listed(ids: &Vec<i32>, id: i32) -> (r: bool)
    ensures
        r == ids@.contains(id),
{
    let mut i: usize = 0;
    while i < ids.len()
        invariant
            i <= ids.len(),
            forall|j: int| 0 <= j < i ==> ids@[j] != id,
        decreases ids.len() - i,
    {
        if ids[i] == id {
            return true;
        }
        i += 1;
    }
    false
}

/// Whether one of `parts` occurs in `text`.
pub fn does_hold_one_of(text: &str, parts: &Vec<String>) -> (r: bool)
    ensures
        r == holds_one_of(text@, parts.deep_view()),
{
    let whole = to_chars(text);
    let mut i: usize = 0;
    while i < parts.len()
        invariant
            i <= parts.len(),
            whole@ == text@,
            forall|j: int| 0 <= j < i ==> !contains(text@, #[trigger] parts.deep_view()[j]),
        decreases parts.len() - i,
    {
        assert(parts.deep_view()[i as int] == parts@[i as int]@);
        let part = to_chars(parts[i].as_str());
        if has(&whole, &part) {
            return true;
        }
        i += 1;
    }
    false
}

// ---------------------------------------------------------------------------
// Listing
// ---------------------------------------------------------------------------

/// The names of the lecturers of course `course`, in the order of the table.
pub fn names_of_lecturers(table: &Vec<LecturerRow>, course: i32) -> (r: Vec<Vec<char>>)
    ensures
        texts(r@) == lecturer_names(owned_by(table.deep_view(), course)),
{
    let ghost all = table.deep_view();
    let mut r: Vec<Vec<char>> = Vec::new();
    let mut i: usize = 0;
    while i < table.len()
        invariant
            i <= table.len(),
            all == table.deep_view(),
            texts(r@) == lecturer_names(owned_by(all.take(i as int), course)),
        decreases table.len() - i,
    {
        let row = &table[i];
        let ghost so_far = texts(r@);
        proof {
            assert(all.take(i + 1).drop_last() == all.take(i as int));
        }
        if row.course_id == course {
            let name = to_chars(row.name.as_str());
            r.push(name);
            proof {
                assert(texts(r@) == so_far.push(all[i as int].name));
            }
        }
        i += 1;
    }
    assert(all.take(table.len() as int) == all);
    r
}

/// The labels of the slots of course `course`, in the order of the table.
pub fn labels_of_slots(table: &Vec<TimetableRow>, course: i32) -> (r: Vec<Vec<char>>)
    ensures
        texts(r@) == slot_labels(owned_by(table.deep_view(), course)),
{
    let ghost all = table.deep_view();
    let mut r: Vec<Vec<char>> = Vec::new();
    let mut i: usize = 0;
    while i < table.len()
        invariant
            i <= table.len(),
            all == table.deep_view(),
            texts(r@) == slot_labels(owned_by(all.take(i as int), course)),
        decreases table.len() - i,
    {
        let row = &table[i];
        let ghost so_far = texts(r@);
        proof {
            assert(all.take(i + 1).drop_last() == all.take(i as int));
        }
        if row.course_id == course {
            let mut label = to_chars(day_label(row.day));
            let mut hours = to_chars(period_label(row.periods));
            label.append(&mut hours);
            r.push(label);
            proof {
                assert(texts(r@) == so_far.push(slot_label(all[i as int])));
            }
        }
        i += 1;
    }
    assert(all.take(table.len() as int) == all);
    r
}

/// The tokens of the quarters of course `course`, in the order of the table.
pub fn labels_of_quarters(table: &Vec<SemesterRow>, course: i32) -> (r: Vec<Vec<char>>)
    ensures
        texts(r@) == quarter_labels(owned_by(table.deep_view(), course)),
{
    let ghost all = table.deep_view();
    let mut r: Vec<Vec<char>> = Vec::new();
    let mut i: usize = 0;
    while i < table.len()
        invariant
            i <= table.len(),
            all == table.deep_view(),
            texts(r@) == quarter_labels(owned_by(all.take(i as int), course)),
        decreases table.len() - i,
    {
        let row = &table[i];
        let ghost so_far = texts(r@);
        proof {
            assert(all.take(i + 1).drop_last() == all.take(i as int));
        }
        if row.course_id == course {
            let label = to_chars(semester_label(row.semester));
            r.push(label);
            proof {
                assert(texts(r@) == so_far.push(semester_label_of(all[i as int].semester)));
            }
        }
        i += 1;
    }
    assert(all.take(table.len() as int) == all);
    r
}

/// Joins the entries of a listed text.
pub fn listed_text(entries: &Vec<Vec<char>>) -> (r: String)
    ensures
        r@ == join(texts(entries@), LIST_SEPARATOR@),
{
    let separator = to_chars(LIST_SEPARATOR);
    let text = joined(entries, &separator);
    from_chars(&text)
}

/// Lists the course that `row` stands for.
pub fn list_item(store: &Store, row: &CourseRow) -> (item: CourseListItem)
    ensures
        item@ == list_item_of(store@, row@),
{
    let names = names_of_lecturers(store.lecturers(), row.id);
    let slots = labels_of_slots(store.timetables(), row.id);
    let quarters = labels_of_quarters(store.semesters(), row.id);
    CourseListItem {
        id: row.id,
        university: row.university.clone(),
        code: row.code.clone(),
        title: row.title.clone(),
        lecturer: listed_text(&names),
        timetable: listed_text(&slots),
        semester: listed_text(&quarters),
        department: row.department.clone(),
        credit: row.credit,
    }
}

/// Whether a course meets the dimensions of `query` that are decided on what
/// is read or shown of the course: whether its code tells a grade asked for,
/// whether it has a slot asked for, and whether its title and the listed
/// names of its lecturers hold a part asked for. A dimension without values
/// asks for nothing.
pub fn meets_derived(
    query: &SearchQuery,
    code: &str,
    has_slot: bool,
    title: &str,
    lecturers: &str,
) -> (r: bool)
    ensures
        r == meets_derived_given(query@, code@, has_slot, title@, lecturers@),
{
    if query.grade.len() > 0 && !is_grade_listed(&query.grade, code) {
        return false;
    }
    if query.timetable.len() > 0 && !has_slot {
        return false;
    }
    if query.title.len() > 0 && !does_hold_one_of(title, &query.title) {
        return false;
    }
    if query.lecturer.len() > 0 && !does_hold_one_of(lecturers, &query.lecturer) {
        return false;
    }
    true
}

/// Lists the course that `row` stands for, where the search for `query`
/// lists it.
pub fn listing_if_listed(store: &Store, query: &SearchQuery, row: &CourseRow) -> (r: Option<
    CourseListItem,
>)
    ensures
        match r {
            Some(item) => is_listed(store@, query@, row@) && item@ == list_item_of(store@, row@),
            None => !is_listed(store@, query@, row@),
        },
{
    if query.university.len() > 0 && !is_text_listed(&query.university, row.university.as_str()) {
        return None;
    }
    if query.department.len() > 0 && !is_text_listed(&query.department, row.department.as_str()) {
        return None;
    }
    if query.year.len() > 0 && !is_year_listed(&query.year, row.year) {
        return None;
    }
    if query.quarter.len() > 0 && !is_held_in(&query.quarter, store.semesters(), row.id) {
        return None;
    }
    let item = list_item(store, row);
    let has_slot = query.timetable.len() > 0 && does_meet_at(
        &query.timetable,
        store.timetables(),
        row.id,
    );
    if !meets_derived(
        query,
        item.code.as_str(),
        has_slot,
        item.title.as_str(),
        item.lecturer.as_str(),
    ) {
        return None;
    }
    Some(item)
}

/// Searches the store: lists every stored course that meets the query, in
/// the order in which the courses were stored.
pub fn search_courses(store: &Store, search_query: SearchQuery) -> (found: Vec<CourseListItem>)
    ensures
        found.deep_view() == search_of(store@, search_query@),
{
    let rows = store.courses();
    let ghost all = rows.deep_view();
    let mut found: Vec<CourseListItem> = Vec::new();
    let mut i: usize = 0;
    while i < rows.len()
        invariant
            i <= rows.len(),
            all == rows.deep_view(),
            all == store@.courses,
            found.deep_view() == listed_among(store@, search_query@, all.take(i as int)),
        decreases rows.len() - i,
    {
        proof {
            assert(all.take(i + 1).drop_last() == all.take(i as int));
        }
        match listing_if_listed(store, &search_query, &rows[i]) {
            Some(item) => {
                found.push(item);
            },
            None => {},
        }
        i += 1;
    }
    assert(all.take(rows.len() as int) == all);
    found
}

} // verus!
