//! The store: its tables, how a course is laid out in them, and how it is
//! read back.
//!
//! A course takes one row in the table of courses, which gives it its
//! identity, and one row in a table of its own kind for each lecturer,
//! timetable slot, quarter, keyword, competency and lecture plan session.
//! Its links to related courses are added in a second step, after the
//! course itself: a link names a course by the text of its code, whether or
//! not that course is stored.

use vstd::prelude::*;
use crate::database::codes::{
    day_code, day_number, period_code, period_number, semester_code, semester_number,
};
use crate::database::response::{
    CourseDetailResponse, CourseDetailResponseView, CourseResponse, CourseResponseView,
    LecturerResponse, LecturerResponseView, ScheduleResponse, ScheduleResponseView,
    TimetableResponse, TimetableResponseView,
};
use crate::database::rows::{
    CompetencyRow, CompetencyRowView, CourseRow, CourseRowView, KeywordRow, KeywordRowView,
    LecturerRow, LecturerRowView, RelatedCourseRow, RelatedCourseRowView, ScheduleRow,
    ScheduleRowView, SemesterRow, SemesterRowView, TimetableRow, TimetableRowView,
};
use crate::scrape::sub::{
    Course, CourseView, LecturePlan, LecturePlanView, Semester, CODE_LENGTH,
};
use crate::scrape::timetable::{TimeTable, TimeTableView};
use crate::scrape::{Lecturer, LecturerView};
use crate::text::{first_chars, from_chars, same_text, take_chars, to_chars};

verus! {

/// The greatest number of rows that a table can hold: the greatest identity
/// that a row can have.
pub const CAPACITY: usize = 2147483647;

/// Why the store could not take a course.
#[derive(Debug, Clone, Copy, PartialEq, Eq, Structural)]
pub enum StoreError {
    /// A table has no room for the rows of the course.
    Full,
    /// The store holds no course of the given identity.
    UnknownCourse,
}

// ---------------------------------------------------------------------------
// Rows that belong to a course
// ---------------------------------------------------------------------------

/// A row that has an identity of its own and belongs to a course.
pub trait Owned {
    /// The identity of the row in its table.
    spec fn row_id(&self) -> i32;

    /// The identity of the course that the row belongs to.
    spec fn owner(&self) -> i32;
}

impl Owned for LecturerRowView {
    open spec fn row_id(&self) -> i32 {
        self.id
    }

    open spec fn owner(&self) -> i32 {
        self.course_id
    }
}

impl Owned for TimetableRowView {
    open spec fn row_id(&self) -> i32 {
        self.id
    }

    open spec fn owner(&self) -> i32 {
        self.course_id
    }
}

impl Owned for SemesterRowView {
    open spec fn row_id(&self) -> i32 {
        self.id
    }

    open spec fn owner(&self) -> i32 {
        self.course_id
    }
}

impl Owned for KeywordRowView {
    open spec fn row_id(&self) -> i32 {
        self.id
    }

    open spec fn owner(&self) -> i32 {
        self.course_id
    }
}

impl Owned for CompetencyRowView {
    open spec fn row_id(&self) -> i32 {
        self.id
    }

    open spec fn owner(&self) -> i32 {
        self.course_id
    }
}

impl Owned for ScheduleRowView {
    open spec fn row_id(&self) -> i32 {
        self.id
    }

    open spec fn owner(&self) -> i32 {
        self.course_id
    }
}

impl Owned for RelatedCourseRowView {
    open spec fn row_id(&self) -> i32 {
        self.id
    }

    open spec fn owner(&self) -> i32 {
        self.course_id
    }
}

/// The rows of `rows` that belong to course `course`, in the order of the
/// table.
pub open spec fn owned_by<R: Owned>(rows: Seq<R>, course: i32) -> Seq<R>
    decreases rows.len(),
{
    if rows.len() == 0 {
        Seq::empty()
    } else if rows.last().owner() == course {
        owned_by(rows.drop_last(), course).push(rows.last())
    } else {
        owned_by(rows.drop_last(), course)
    }
}

/// A table is well formed when its rows are numbered from 1 in the order of
/// the table and each belongs to one of the `courses` stored courses.
pub open spec fn table_wf<R: Owned>(rows: Seq<R>, courses: nat) -> bool {
    &&& rows.len() <= CAPACITY
    &&& forall|i: int|
        0 <= i < rows.len() ==> (#[trigger] rows[i]).row_id() == i + 1 && 1 <= rows[i].owner()
            <= courses
}

/// The rows of two tables laid end to end that belong to a course are those
/// of the first followed by those of the second.
pub proof fn lemma_owned_by_concat<R: Owned>(a: Seq<R>, b: Seq<R>, course: i32)
    ensures
        owned_by(a + b, course) == owned_by(a, course) + owned_by(b, course),
    decreases b.len(),
{
    if !(b.len() == 0) {
        assert((a + b).drop_last() == a + b.drop_last());
        lemma_owned_by_concat(a, b.drop_last(), course);
    }
}

/// Where no row belongs to the course, none is selected.
pub proof fn lemma_owned_by_none<R: Owned>(rows: Seq<R>, course: i32)
    requires
        forall|i: int| 0 <= i < rows.len() ==> (#[trigger] rows[i]).owner() != course,
    ensures
        owned_by(rows, course) == Seq::<R>::empty(),
    decreases rows.len(),
{
    if rows.len() > 0 {
        lemma_owned_by_none(rows.drop_last(), course);
    }
}

/// Where every row belongs to the course, all are selected.
pub proof fn lemma_owned_by_all<R: Owned>(rows: Seq<R>, course: i32)
    requires
        forall|i: int| 0 <= i < rows.len() ==> (#[trigger] rows[i]).owner() == course,
    ensures
        owned_by(rows, course) == rows,
    decreases rows.len(),
{
    if rows.len() > 0 {
        lemma_owned_by_all(rows.drop_last(), course);
    }
}

// ---------------------------------------------------------------------------
// From a course to rows
// ---------------------------------------------------------------------------

/// The row of the table of courses that stands for `course` under the
/// identity `id`.
pub open spec fn course_row_of(course: CourseView, id: i32) -> CourseRowView {
    CourseRowView {
        id,
        university: course.university,
        title: course.title,
        english_title: course.english_title,
        department: course.department,
        lecture_type: course.lecture_type,
        code: course.code,
        credit: course.credit,
        year: course.year,
        language: course.language,
        url: course.url,
        abst: course.course_detail.abst,
        goal: course.course_detail.goal,
        experience: course.course_detail.experience,
        flow: course.course_detail.flow,
        out_of_class: course.course_detail.out_of_class,
        textbook: course.course_detail.textbook,
        reference_book: course.course_detail.reference_book,
        assessment: course.course_detail.assessment,
        prerequisite: course.course_detail.prerequisite,
        contact: course.course_detail.contact,
        office_hour: course.course_detail.office_hour,
        note: course.course_detail.note,
        sylbs_update: course.sylbs_update,
    }
}

/// Builds the row of the table of courses that stands for `course`.
pub fn course_row(course: &Course, id: i32) -> (row: CourseRow)
    ensures
        row@ == course_row_of(course@, id),
{
    CourseRow {
        id,
        university: course.university.clone(),
        title: course.title.clone(),
        english_title: course.english_title.clone(),
        department: course.department.clone(),
        lecture_type: course.lecture_type.clone(),
        code: course.code.clone(),
        credit: course.credit,
        year: course.year,
        language: course.language.clone(),
        url: course.url.clone(),
        abst: course.course_detail.abst.clone(),
        goal: course.course_detail.goal.clone(),
        experience: course.course_detail.experience,
        flow: course.course_detail.flow.clone(),
        out_of_class: course.course_detail.out_of_class.clone(),
        textbook: course.course_detail.textbook.clone(),
        reference_book: course.course_detail.reference_book.clone(),
        assessment: course.course_detail.assessment.clone(),
        prerequisite: course.course_detail.prerequisite.clone(),
        contact: course.course_detail.contact.clone(),
        office_hour: course.course_detail.office_hour.clone(),
        note: course.course_detail.note.clone(),
        sylbs_update: course.sylbs_update.clone(),
    }
}

/// The rows that stand for the lecturers of course `course`, numbered after the
/// `base` rows that the table holds already.
pub open spec fn lecturer_rows(items: Seq<LecturerView>, course: i32, base: nat) -> Seq<
    LecturerRowView,
> {
    Seq::new(
        items.len(),
        |i: int| LecturerRowView {
            id: (base + i + 1) as i32,
            course_id: course,
            name: items[i].name,
            url: items[i].url,
        },
    )
}

/// Appends the rows that stand for the lecturers of course `course`.
pub fn append_lecturers(table: &mut Vec<LecturerRow>, course: i32, items: &Vec<Lecturer>)
    requires
        old(table).len() + items.len() <= CAPACITY,
    ensures
        final(table).deep_view() == old(table).deep_view() + lecturer_rows(
            items.deep_view(),
            course,
            old(table).len() as nat,
        ),
{
    let ghost before = table.deep_view();
    let ghost all = items.deep_view();
    let base: usize = table.len();
    let mut i: usize = 0;
    while i < items.len()
        invariant
            i <= items.len(),
            base + items.len() <= CAPACITY,
            table.len() == base + i,
            all == items.deep_view(),
            table.deep_view() == before + lecturer_rows(all.take(i as int), course, base as nat),
        decreases items.len() - i,
    {
        let item = &items[i];
        let ghost so_far = table.deep_view();
        let ghost row = LecturerRowView {
            id: (base + i + 1) as i32,
            course_id: course,
            name: all[i as int].name,
            url: all[i as int].url,
        };
        table.push(LecturerRow {
            id: (base + i + 1) as i32,
            course_id: course,
            name: item.name.clone(),
            url: item.url.clone(),
        });
        proof {
            assert(table.deep_view() == so_far.push(row));
        }
        i += 1;
    }
}

/// The rows that stand for the timetable slots of course `course`, numbered after the
/// `base` rows that the table holds already.
pub open spec fn timetable_rows(items: Seq<TimeTableView>, course: i32, base: nat) -> Seq<
    TimetableRowView,
> {
    Seq::new(
        items.len(),
        |i: int| TimetableRowView {
            id: (base + i + 1) as i32,
            course_id: course,
            day: day_number(items[i].day),
            periods: period_number(items[i].period),
            room: items[i].room,
        },
    )
}

/// Appends the rows that stand for the timetable slots of course `course`.
pub fn append_timetables(table: &mut Vec<TimetableRow>, course: i32, items: &Vec<TimeTable>)
    requires
        old(table).len() + items.len() <= CAPACITY,
    ensures
        final(table).deep_view() == old(table).deep_view() + timetable_rows(
            items.deep_view(),
            course,
            old(table).len() as nat,
        ),
{
    let ghost before = table.deep_view();
    let ghost all = items.deep_view();
    let base: usize = table.len();
    let mut i: usize = 0;
    while i < items.len()
        invariant
            i <= items.len(),
            base + items.len() <= CAPACITY,
            table.len() == base + i,
            all == items.deep_view(),
            table.deep_view() == before + timetable_rows(all.take(i as int), course, base as nat),
        decreases items.len() - i,
    {
        let item = &items[i];
        let ghost so_far = table.deep_view();
        let ghost row = TimetableRowView {
            id: (base + i + 1) as i32,
            course_id: course,
            day: day_number(all[i as int].day),
            periods: period_number(all[i as int].period),
            room: all[i as int].room,
        };
        table.push(TimetableRow {
            id: (base + i + 1) as i32,
            course_id: course,
            day: day_code(item.day),
            periods: period_code(item.period),
            room: item.room.clone(),
        });
        proof {
            assert(table.deep_view() == so_far.push(row));
        }
        i += 1;
    }
}

/// The rows that stand for the quarters of course `course`, numbered after the
/// `base` rows that the table holds already.
pub open spec fn semester_rows(items: Seq<Semester>, course: i32, base: nat) -> Seq<
    SemesterRowView,
> {
    Seq::new(
        items.len(),
        |i: int| SemesterRowView {
            id: (base + i + 1) as i32,
            course_id: course,
            semester: semester_number(items[i]),
        },
    )
}

/// Appends the rows that stand for the quarters of course `course`.
pub fn append_semesters(table: &mut Vec<SemesterRow>, course: i32, items: &Vec<Semester>)
    requires
        old(table).len() + items.len() <= CAPACITY,
    ensures
        final(table).deep_view() == old(table).deep_view() + semester_rows(
            items@,
            course,
            old(table).len() as nat,
        ),
{
    let ghost before = table.deep_view();
    let ghost all = items@;
    let base: usize = table.len();
    let mut i: usize = 0;
    while i < items.len()
        invariant
            i <= items.len(),
            base + items.len() <= CAPACITY,
            table.len() == base + i,
            all == items@,
            table.deep_view() == before + semester_rows(all.take(i as int), course, base as nat),
        decreases items.len() - i,
    {
        let item = &items[i];
        let ghost so_far = table.deep_view();
        let ghost row = SemesterRowView {
            id: (base + i + 1) as i32,
            course_id: course,
            semester: semester_number(all[i as int]),
        };
        table.push(SemesterRow {
            id: (base + i + 1) as i32,
            course_id: course,
            semester: semester_code(*item),
        });
        proof {
            assert(table.deep_view() == so_far.push(row));
        }
        i += 1;
    }
}

/// The rows that stand for the keywords of course `course`, numbered after the
/// `base` rows that the table holds already.
pub open spec fn keyword_rows(items: Seq<Seq<char>>, course: i32, base: nat) -> Seq<
    KeywordRowView,
> {
    Seq::new(
        items.len(),
        |i: int| KeywordRowView { id: (base + i + 1) as i32, course_id: course, keyword: items[i] },
    )
}

/// Appends the rows that stand for the keywords of course `course`.
pub fn append_keywords(table: &mut Vec<KeywordRow>, course: i32, items: &Vec<String>)
    requires
        old(table).len() + items.len() <= CAPACITY,
    ensures
        final(table).deep_view() == old(table).deep_view() + keyword_rows(
            items.deep_view(),
            course,
            old(table).len() as nat,
        ),
{
    let ghost before = table.deep_view();
    let ghost all = items.deep_view();
    let base: usize = table.len();
    let mut i: usize = 0;
    while i < items.len()
        invariant
            i <= items.len(),
            base + items.len() <= CAPACITY,
            table.len() == base + i,
            all == items.deep_view(),
            table.deep_view() == before + keyword_rows(all.take(i as int), course, base as nat),
        decreases items.len() - i,
    {
        let item = &items[i];
        let ghost so_far = table.deep_view();
        let ghost row = KeywordRowView {
            id: (base + i + 1) as i32,
            course_id: course,
            keyword: all[i as int],
        };
        table.push(KeywordRow {
            id: (base + i + 1) as i32,
            course_id: course,
            keyword: item.clone(),
        });
        proof {
            assert(table.deep_view() == so_far.push(row));
        }
        i += 1;
    }
}

/// The rows that stand for the competencies of course `course`, numbered after the
/// `base` rows that the table holds already.
pub open spec fn competency_rows(items: Seq<Seq<char>>, course: i32, base: nat) -> Seq<
    CompetencyRowView,
> {
    Seq::new(
        items.len(),
        |i: int| CompetencyRowView {
            id: (base + i + 1) as i32,
            course_id: course,
            competency: items[i],
        },
    )
}

/// Appends the rows that stand for the competencies of course `course`.
pub fn append_competencies(table: &mut Vec<CompetencyRow>, course: i32, items: &Vec<String>)
    requires
        old(table).len() + items.len() <= CAPACITY,
    ensures
        final(table).deep_view() == old(table).deep_view() + competency_rows(
            items.deep_view(),
            course,
            old(table).len() as nat,
        ),
{
    let ghost before = table.deep_view();
    let ghost all = items.deep_view();
    let base: usize = table.len();
    let mut i: usize = 0;
    while i < items.len()
        invariant
            i <= items.len(),
            base + items.len() <= CAPACITY,
            table.len() == base + i,
            all == items.deep_view(),
            table.deep_view() == before + competency_rows(all.take(i as int), course, base as nat),
        decreases items.len() - i,
    {
        let item = &items[i];
        let ghost so_far = table.deep_view();
        let ghost row = CompetencyRowView {
            id: (base + i + 1) as i32,
            course_id: course,
            competency: all[i as int],
        };
        table.push(CompetencyRow {
            id: (base + i + 1) as i32,
            course_id: course,
            competency: item.clone(),
        });
        proof {
            assert(table.deep_view() == so_far.push(row));
        }
        i += 1;
    }
}

/// The rows that stand for the lecture plan sessions of course `course`, numbered after the
/// `base` rows that the table holds already.
pub open spec fn schedule_rows(items: Seq<LecturePlanView>, course: i32, base: nat) -> Seq<
    ScheduleRowView,
> {
    Seq::new(
        items.len(),
        |i: int| ScheduleRowView {
            id: (base + i + 1) as i32,
            course_id: course,
            count: items[i].count,
            plan: items[i].plan,
            assignment: items[i].assignment,
        },
    )
}

/// Appends the rows that stand for the lecture plan sessions of course `course`.
pub fn append_schedules(table: &mut Vec<ScheduleRow>, course: i32, items: &Vec<LecturePlan>)
    requires
        old(table).len() + items.len() <= CAPACITY,
    ensures
        final(table).deep_view() == old(table).deep_view() + schedule_rows(
            items.deep_view(),
            course,
            old(table).len() as nat,
        ),
{
    let ghost before = table.deep_view();
    let ghost all = items.deep_view();
    let base: usize = table.len();
    let mut i: usize = 0;
    while i < items.len()
        invariant
            i <= items.len(),
            base + items.len() <= CAPACITY,
            table.len() == base + i,
            all == items.deep_view(),
            table.deep_view() == before + schedule_rows(all.take(i as int), course, base as nat),
        decreases items.len() - i,
    {
        let item = &items[i];
        let ghost so_far = table.deep_view();
        let ghost row = ScheduleRowView {
            id: (base + i + 1) as i32,
            course_id: course,
            count: all[i as int].count,
            plan: all[i as int].plan,
            assignment: all[i as int].assignment,
        };
        table.push(ScheduleRow {
            id: (base + i + 1) as i32,
            course_id: course,
            count: item.count,
            plan: item.plan.clone(),
            assignment: item.assignment.clone(),
        });
        proof {
            assert(table.deep_view() == so_far.push(row));
        }
        i += 1;
    }
}

/// The text that a link keeps of a reference: its first characters, as many
/// as a course code has.
pub open spec fn related_code(reference: Seq<char>) -> Seq<char> {
    take_chars(reference, CODE_LENGTH as nat)
}

/// Cuts a reference down to the length of a course code.
pub fn related_code_text(reference: &str) -> (code: String)
    ensures
        code@ == related_code(reference@),
{
    let chars = to_chars(reference);
    let prefix = first_chars(&chars, CODE_LENGTH);
    from_chars(&prefix)
}

/// The rows that stand for the links of course `course` to related courses,
/// numbered after the `base` rows that the table holds already.
pub open spec fn related_course_rows(items: Seq<Seq<char>>, course: i32, base: nat) -> Seq<
    RelatedCourseRowView,
> {
    Seq::new(
        items.len(),
        |i: int|
            RelatedCourseRowView {
                id: (base + i + 1) as i32,
                course_id: course,
                related_course_code: related_code(items[i]),
            },
    )
}

/// Appends the rows that stand for the links of course `course` to related
/// courses.
pub fn append_related_courses(table: &mut Vec<RelatedCourseRow>, course: i32, items: &Vec<String>)
    requires
        old(table).len() + items.len() <= CAPACITY,
    ensures
        final(table).deep_view() == old(table).deep_view() + related_course_rows(
            items.deep_view(),
            course,
            old(table).len() as nat,
        ),
{
    let ghost before = table.deep_view();
    let ghost all = items.deep_view();
    let base: usize = table.len();
    let mut i: usize = 0;
    while i < items.len()
        invariant
            i <= items.len(),
            base + items.len() <= CAPACITY,
            table.len() == base + i,
            all == items.deep_view(),
            table.deep_view() == before + related_course_rows(
                all.take(i as int),
                course,
                base as nat,
            ),
        decreases items.len() - i,
    {
        let item = &items[i];
        let ghost so_far = table.deep_view();
        let ghost row = RelatedCourseRowView {
            id: (base + i + 1) as i32,
            course_id: course,
            related_course_code: related_code(all[i as int]),
        };
        table.push(
            RelatedCourseRow {
                id: (base + i + 1) as i32,
                course_id: course,
                related_course_code: related_code_text(item.as_str()),
            },
        );
        proof {
            assert(table.deep_view() == so_far.push(row));
        }
        i += 1;
    }
}

// ---------------------------------------------------------------------------
// The store
// ---------------------------------------------------------------------------

/// The eight tables.
pub struct Store {
    courses: Vec<CourseRow>,
    lecturers: Vec<LecturerRow>,
    timetables: Vec<TimetableRow>,
    semesters: Vec<SemesterRow>,
    keywords: Vec<KeywordRow>,
    competencies: Vec<CompetencyRow>,
    schedules: Vec<ScheduleRow>,
    related_courses: Vec<RelatedCourseRow>,
}

/// The mathematical value of a [`Store`]: the rows of its tables.
pub struct Tables {
    pub courses: Seq<CourseRowView>,
    pub lecturers: Seq<LecturerRowView>,
    pub timetables: Seq<TimetableRowView>,
    pub semesters: Seq<SemesterRowView>,
    pub keywords: Seq<KeywordRowView>,
    pub competencies: Seq<CompetencyRowView>,
    pub schedules: Seq<ScheduleRowView>,
    pub related_courses: Seq<RelatedCourseRowView>,
}

impl View for Store {
    type V = Tables;

    closed spec fn view(&self) -> Tables {
        Tables {
            courses: self.courses.deep_view(),
            lecturers: self.lecturers.deep_view(),
            timetables: self.timetables.deep_view(),
            semesters: self.semesters.deep_view(),
            keywords: self.keywords.deep_view(),
            competencies: self.competencies.deep_view(),
            schedules: self.schedules.deep_view(),
            related_courses: self.related_courses.deep_view(),
        }
    }
}

/// A store is well formed when its courses are numbered from 1 in the order
/// of their arrival and every other table is well formed.
pub open spec fn wf(s: Tables) -> bool {
    &&& s.courses.len() <= CAPACITY
    &&& forall|i: int| 0 <= i < s.courses.len() ==> (#[trigger] s.courses[i]).id == i + 1
    &&& table_wf(s.lecturers, s.courses.len())
    &&& table_wf(s.timetables, s.courses.len())
    &&& table_wf(s.semesters, s.courses.len())
    &&& table_wf(s.keywords, s.courses.len())
    &&& table_wf(s.competencies, s.courses.len())
    &&& table_wf(s.schedules, s.courses.len())
    &&& table_wf(s.related_courses, s.courses.len())
}

/// The store without any row.
pub open spec fn empty_store() -> Tables {
    Tables {
        courses: Seq::empty(),
        lecturers: Seq::empty(),
        timetables: Seq::empty(),
        semesters: Seq::empty(),
        keywords: Seq::empty(),
        competencies: Seq::empty(),
        schedules: Seq::empty(),
        related_courses: Seq::empty(),
    }
}

/// The identity that the next course receives.
pub open spec fn next_id(s: Tables) -> i32 {
    (s.courses.len() + 1) as i32
}

/// Whether every table has room for the rows of `course`, its links to
/// related courses aside.
pub open spec fn record_fits(s: Tables, course: CourseView) -> bool {
    &&& s.courses.len() < CAPACITY
    &&& s.lecturers.len() + course.lecturer.len() <= CAPACITY
    &&& s.timetables.len() + course.time_table.len() <= CAPACITY
    &&& s.semesters.len() + course.semester.len() <= CAPACITY
    &&& s.keywords.len() + course.course_detail.keyword.len() <= CAPACITY
    &&& s.competencies.len() + course.course_detail.competencies.len() <= CAPACITY
    &&& s.schedules.len() + course.course_detail.schedule.len() <= CAPACITY
}

/// The store after it has taken `course`, its links to related courses
/// aside: the course receives the next identity, and its rows are appended
/// to their tables in the order in which the course lists them.
pub open spec fn with_record(s: Tables, course: CourseView) -> Tables {
    let id = next_id(s);
    Tables {
        courses: s.courses.push(course_row_of(course, id)),
        lecturers: s.lecturers + lecturer_rows(course.lecturer, id, s.lecturers.len()),
        timetables: s.timetables + timetable_rows(course.time_table, id, s.timetables.len()),
        semesters: s.semesters + semester_rows(course.semester, id, s.semesters.len()),
        keywords: s.keywords + keyword_rows(course.course_detail.keyword, id, s.keywords.len()),
        competencies: s.competencies + competency_rows(
            course.course_detail.competencies,
            id,
            s.competencies.len(),
        ),
        schedules: s.schedules + schedule_rows(
            course.course_detail.schedule,
            id,
            s.schedules.len(),
        ),
        related_courses: s.related_courses,
    }
}

/// Whether the table of links has room for the links of `course`.
pub open spec fn related_fits(s: Tables, course: CourseView) -> bool {
    s.related_courses.len() + course.course_detail.related_course.len() <= CAPACITY
}

/// The store after the links of `course` to related courses have been added
/// under the identity `id`.
pub open spec fn with_related(s: Tables, id: i32, course: CourseView) -> Tables {
    Tables {
        related_courses: s.related_courses + related_course_rows(
            course.course_detail.related_course,
            id,
            s.related_courses.len(),
        ),
        ..s
    }
}

impl Store {
    /// A store without any row.
    pub fn new() -> (store: Store)
        ensures
            store@ == empty_store(),
            wf(store@),
    {
        let store = Store {
            courses: Vec::new(),
            lecturers: Vec::new(),
            timetables: Vec::new(),
            semesters: Vec::new(),
            keywords: Vec::new(),
            competencies: Vec::new(),
            schedules: Vec::new(),
            related_courses: Vec::new(),
        };
        assert(store.courses.deep_view() == Seq::<CourseRowView>::empty());
        assert(store.lecturers.deep_view() == Seq::<LecturerRowView>::empty());
        assert(store.timetables.deep_view() == Seq::<TimetableRowView>::empty());
        assert(store.semesters.deep_view() == Seq::<SemesterRowView>::empty());
        assert(store.keywords.deep_view() == Seq::<KeywordRowView>::empty());
        assert(store.competencies.deep_view() == Seq::<CompetencyRowView>::empty());
        assert(store.schedules.deep_view() == Seq::<ScheduleRowView>::empty());
        assert(store.related_courses.deep_view() == Seq::<RelatedCourseRowView>::empty());
        store
    }

    /// The table of courses.
    pub fn courses(&self) -> (rows: &Vec<CourseRow>)
        ensures
            rows.deep_view() == self@.courses,
    {
        &self.courses
    }

    /// The table of lecturers.
    pub fn lecturers(&self) -> (rows: &Vec<LecturerRow>)
        ensures
            rows.deep_view() == self@.lecturers,
    {
        &self.lecturers
    }

    /// The table of timetable slots.
    pub fn timetables(&self) -> (rows: &Vec<TimetableRow>)
        ensures
            rows.deep_view() == self@.timetables,
    {
        &self.timetables
    }

    /// The table of quarters.
    pub fn semesters(&self) -> (rows: &Vec<SemesterRow>)
        ensures
            rows.deep_view() == self@.semesters,
    {
        &self.semesters
    }

    /// The table of keywords.
    pub fn keywords(&self) -> (rows: &Vec<KeywordRow>)
        ensures
            rows.deep_view() == self@.keywords,
    {
        &self.keywords
    }

    /// The table of competencies.
    pub fn competencies(&self) -> (rows: &Vec<CompetencyRow>)
        ensures
            rows.deep_view() == self@.competencies,
    {
        &self.competencies
    }

    /// The table of lecture plan sessions.
    pub fn schedules(&self) -> (rows: &Vec<ScheduleRow>)
        ensures
            rows.deep_view() == self@.schedules,
    {
        &self.schedules
    }

    /// The table of links to related courses.
    pub fn related_courses(&self) -> (rows: &Vec<RelatedCourseRow>)
        ensures
            rows.deep_view() == self@.related_courses,
    {
        &self.related_courses
    }

    /// Takes `course` into the store, its links to related courses aside,
    /// and returns the identity that it received. A store without room for
    /// all rows of the course is left as it is.
    pub fn insert_record(&mut self, course: &Course) -> (r: Result<i32, StoreError>)
        requires
            wf(old(self)@),
        ensures
            wf(final(self)@),
            match r {
                Ok(id) => record_fits(old(self)@, course@) && id == next_id(old(self)@)
                    && final(self)@ == with_record(old(self)@, course@),
                Err(e) => e == StoreError::Full && !record_fits(old(self)@, course@)
                    && final(self)@ == old(self)@,
            },
    {
        if self.courses.len() >= CAPACITY || course.lecturer.len() > CAPACITY
            - self.lecturers.len() || course.time_table.len() > CAPACITY - self.timetables.len()
            || course.semester.len() > CAPACITY - self.semesters.len()
            || course.course_detail.keyword.len() > CAPACITY - self.keywords.len()
            || course.course_detail.competencies.len() > CAPACITY - self.competencies.len()
            || course.course_detail.schedule.len() > CAPACITY - self.schedules.len() {
            return Err(StoreError::Full);
        }
        let id: i32 = (self.courses.len() + 1) as i32;
        let row = course_row(course, id);
        let ghost courses_before = self.courses.deep_view();
        self.courses.push(row);
        assert(self.courses.deep_view() == courses_before.push(row@));
        append_lecturers(&mut self.lecturers, id, &course.lecturer);
        append_timetables(&mut self.timetables, id, &course.time_table);
        append_semesters(&mut self.semesters, id, &course.semester);
        append_keywords(&mut self.keywords, id, &course.course_detail.keyword);
        append_competencies(&mut self.competencies, id, &course.course_detail.competencies);
        append_schedules(&mut self.schedules, id, &course.course_detail.schedule);
        Ok(id)
    }

    /// Adds the links of `course` to related courses under the identity
    /// `id` of a stored course. A store without room for them, or without a
    /// course of that identity, is left as it is.
    pub fn insert_related_courses(&mut self, id: i32, course: &Course) -> (r: Result<
        (),
        StoreError,
    >)
        requires
            wf(old(self)@),
        ensures
            wf(final(self)@),
            match r {
                Ok(_) => 1 <= id <= old(self)@.courses.len() && related_fits(old(self)@, course@)
                    && final(self)@ == with_related(old(self)@, id, course@),
                Err(StoreError::UnknownCourse) => !(1 <= id <= old(self)@.courses.len())
                    && final(self)@ == old(self)@,
                Err(StoreError::Full) => 1 <= id <= old(self)@.courses.len() && !related_fits(
                    old(self)@,
                    course@,
                ) && final(self)@ == old(self)@,
            },
    {
        if id < 1 || id as usize > self.courses.len() {
            return Err(StoreError::UnknownCourse);
        }
        if course.course_detail.related_course.len() > CAPACITY - self.related_courses.len() {
            return Err(StoreError::Full);
        }
        append_related_courses(&mut self.related_courses, id, &course.course_detail.related_course);
        Ok(())
    }
}

/// Taking a course keeps the store well formed.
pub proof fn lemma_with_record_wf(s: Tables, course: CourseView)
    requires
        wf(s),
        record_fits(s, course),
    ensures
        wf(with_record(s, course)),
{
}

/// Adding the links of a stored course keeps the store well formed.
pub proof fn lemma_with_related_wf(s: Tables, id: i32, course: CourseView)
    requires
        wf(s),
        1 <= id <= s.courses.len(),
        related_fits(s, course),
    ensures
        wf(with_related(s, id, course)),
{
}

// ---------------------------------------------------------------------------
// From rows to a course
// ---------------------------------------------------------------------------

/// What a fetch returns for each of the given rows of the table of
/// lecturers, in the same order.
pub open spec fn lecturer_responses(rows: Seq<LecturerRowView>) -> Seq<LecturerResponseView> {
    Seq::new(rows.len(), |i: int| LecturerResponseView {
        id: rows[i].id,
        name: rows[i].name,
        url: rows[i].url,
    })
}

/// Reads the lecturers of course `course` from their table.
pub fn select_lecturers(table: &Vec<LecturerRow>, course: i32) -> (r: Vec<LecturerResponse>)
    ensures
        r.deep_view() == lecturer_responses(owned_by(table.deep_view(), course)),
{
    let ghost all = table.deep_view();
    let mut r: Vec<LecturerResponse> = Vec::new();
    let mut i: usize = 0;
    while i < table.len()
        invariant
            i <= table.len(),
            all == table.deep_view(),
            r.deep_view() == lecturer_responses(owned_by(all.take(i as int), course)),
        decreases table.len() - i,
    {
        let row = &table[i];
        let ghost so_far = r.deep_view();
        proof {
            assert(all.take(i + 1).drop_last() == all.take(i as int));
        }
        if row.course_id == course {
            r.push(LecturerResponse { id: row.id, name: row.name.clone(), url: row.url.clone() });
            proof {
                assert(r.deep_view() == so_far.push(LecturerResponseView {
                    id: all[i as int].id,
                    name: all[i as int].name,
                    url: all[i as int].url,
                }));
            }
        }
        i += 1;
    }
    assert(all.take(table.len() as int) == all);
    r
}

/// What a fetch returns for each of the given rows of the table of
/// timetable slots, in the same order.
pub open spec fn timetable_responses(rows: Seq<TimetableRowView>) -> Seq<TimetableResponseView> {
    Seq::new(rows.len(), |i: int| TimetableResponseView {
        course_id: rows[i].course_id,
        day_of_week: rows[i].day,
        period: rows[i].periods,
        room: rows[i].room,
    })
}

/// Reads the timetable slots of course `course` from their table.
pub fn select_timetables(table: &Vec<TimetableRow>, course: i32) -> (r: Vec<TimetableResponse>)
    ensures
        r.deep_view() == timetable_responses(owned_by(table.deep_view(), course)),
{
    let ghost all = table.deep_view();
    let mut r: Vec<TimetableResponse> = Vec::new();
    let mut i: usize = 0;
    while i < table.len()
        invariant
            i <= table.len(),
            all == table.deep_view(),
            r.deep_view() == timetable_responses(owned_by(all.take(i as int), course)),
        decreases table.len() - i,
    {
        let row = &table[i];
        let ghost so_far = r.deep_view();
        proof {
            assert(all.take(i + 1).drop_last() == all.take(i as int));
        }
        if row.course_id == course {
            r.push(TimetableResponse {
                course_id: row.course_id,
                day_of_week: row.day,
                period: row.periods,
                room: row.room.clone(),
            });
            proof {
                assert(r.deep_view() == so_far.push(TimetableResponseView {
                    course_id: all[i as int].course_id,
                    day_of_week: all[i as int].day,
                    period: all[i as int].periods,
                    room: all[i as int].room,
                }));
            }
        }
        i += 1;
    }
    assert(all.take(table.len() as int) == all);
    r
}

/// What a fetch returns for each of the given rows of the table of
/// quarters, in the same order.
pub open spec fn semester_numbers(rows: Seq<SemesterRowView>) -> Seq<i32> {
    Seq::new(rows.len(), |i: int| rows[i].semester)
}

/// Reads the quarters of course `course` from their table.
pub fn select_semesters(table: &Vec<SemesterRow>, course: i32) -> (r: Vec<i32>)
    ensures
        r@ == semester_numbers(owned_by(table.deep_view(), course)),
{
    let ghost all = table.deep_view();
    let mut r: Vec<i32> = Vec::new();
    let mut i: usize = 0;
    while i < table.len()
        invariant
            i <= table.len(),
            all == table.deep_view(),
            r@ == semester_numbers(owned_by(all.take(i as int), course)),
        decreases table.len() - i,
    {
        let row = &table[i];
        proof {
            assert(all.take(i + 1).drop_last() == all.take(i as int));
        }
        if row.course_id == course {
            r.push(row.semester);
        }
        i += 1;
    }
    assert(all.take(table.len() as int) == all);
    r
}

/// What a fetch returns for each of the given rows of the table of
/// keywords, in the same order.
pub open spec fn keyword_texts(rows: Seq<KeywordRowView>) -> Seq<Seq<char>> {
    Seq::new(rows.len(), |i: int| rows[i].keyword)
}

/// Reads the keywords of course `course` from their table.
pub fn select_keywords(table: &Vec<KeywordRow>, course: i32) -> (r: Vec<String>)
    ensures
        r.deep_view() == keyword_texts(owned_by(table.deep_view(), course)),
{
    let ghost all = table.deep_view();
    let mut r: Vec<String> = Vec::new();
    let mut i: usize = 0;
    while i < table.len()
        invariant
            i <= table.len(),
            all == table.deep_view(),
            r.deep_view() == keyword_texts(owned_by(all.take(i as int), course)),
        decreases table.len() - i,
    {
        let row = &table[i];
        let ghost so_far = r.deep_view();
        proof {
            assert(all.take(i + 1).drop_last() == all.take(i as int));
        }
        if row.course_id == course {
            r.push(row.keyword.clone());
            proof {
                assert(r.deep_view() == so_far.push(all[i as int].keyword));
            }
        }
        i += 1;
    }
    assert(all.take(table.len() as int) == all);
    r
}

/// What a fetch returns for each of the given rows of the table of
/// competencies, in the same order.
pub open spec fn competency_texts(rows: Seq<CompetencyRowView>) -> Seq<Seq<char>> {
    Seq::new(rows.len(), |i: int| rows[i].competency)
}

/// Reads the competencies of course `course` from their table.
pub fn select_competencies(table: &Vec<CompetencyRow>, course: i32) -> (r: Vec<String>)
    ensures
        r.deep_view() == competency_texts(owned_by(table.deep_view(), course)),
{
    let ghost all = table.deep_view();
    let mut r: Vec<String> = Vec::new();
    let mut i: usize = 0;
    while i < table.len()
        invariant
            i <= table.len(),
            all == table.deep_view(),
            r.deep_view() == competency_texts(owned_by(all.take(i as int), course)),
        decreases table.len() - i,
    {
        let row = &table[i];
        let ghost so_far = r.deep_view();
        proof {
            assert(all.take(i + 1).drop_last() == all.take(i as int));
        }
        if row.course_id == course {
            r.push(row.competency.clone());
            proof {
                assert(r.deep_view() == so_far.push(all[i as int].competency));
            }
        }
        i += 1;
    }
    assert(all.take(table.len() as int) == all);
    r
}

/// What a fetch returns for each of the given rows of the table of
/// lecture plan sessions, in the same order.
pub open spec fn schedule_responses(rows: Seq<ScheduleRowView>) -> Seq<ScheduleResponseView> {
    Seq::new(rows.len(), |i: int| ScheduleResponseView {
        count: rows[i].count,
        plan: rows[i].plan,
        assignment: rows[i].assignment,
    })
}

/// Reads the lecture plan sessions of course `course` from their table.
pub fn select_schedules(table: &Vec<ScheduleRow>, course: i32) -> (r: Vec<ScheduleResponse>)
    ensures
        r.deep_view() == schedule_responses(owned_by(table.deep_view(), course)),
{
    let ghost all = table.deep_view();
    let mut r: Vec<ScheduleResponse> = Vec::new();
    let mut i: usize = 0;
    while i < table.len()
        invariant
            i <= table.len(),
            all == table.deep_view(),
            r.deep_view() == schedule_responses(owned_by(all.take(i as int), course)),
        decreases table.len() - i,
    {
        let row = &table[i];
        let ghost so_far = r.deep_view();
        proof {
            assert(all.take(i + 1).drop_last() == all.take(i as int));
        }
        if row.course_id == course {
            r.push(ScheduleResponse {
                count: row.count,
                plan: row.plan.clone(),
                assignment: row.assignment.clone(),
            });
            proof {
                assert(r.deep_view() == so_far.push(ScheduleResponseView {
                    count: all[i as int].count,
                    plan: all[i as int].plan,
                    assignment: all[i as int].assignment,
                }));
            }
        }
        i += 1;
    }
    assert(all.take(table.len() as int) == all);
    r
}

/// What a fetch returns for each of the given rows of the table of
/// links to related courses, in the same order.
pub open spec fn related_course_codes(rows: Seq<RelatedCourseRowView>) -> Seq<Seq<char>> {
    Seq::new(rows.len(), |i: int| rows[i].related_course_code)
}

/// Reads the links to related courses of course `course` from their table.
pub fn select_related_courses(table: &Vec<RelatedCourseRow>, course: i32) -> (r: Vec<String>)
    ensures
        r.deep_view() == related_course_codes(owned_by(table.deep_view(), course)),
{
    let ghost all = table.deep_view();
    let mut r: Vec<String> = Vec::new();
    let mut i: usize = 0;
    while i < table.len()
        invariant
            i <= table.len(),
            all == table.deep_view(),
            r.deep_view() == related_course_codes(owned_by(all.take(i as int), course)),
        decreases table.len() - i,
    {
        let row = &table[i];
        let ghost so_far = r.deep_view();
        proof {
            assert(all.take(i + 1).drop_last() == all.take(i as int));
        }
        if row.course_id == course {
            r.push(row.related_course_code.clone());
            proof {
                assert(r.deep_view() == so_far.push(all[i as int].related_course_code));
            }
        }
        i += 1;
    }
    assert(all.take(table.len() as int) == all);
    r
}

/// What a fetch returns for the course that `row` stands for: the fields of
/// the row, and the rows of every other table that belong to the course.
pub open spec fn response_of(s: Tables, row: CourseRowView) -> CourseResponseView {
    CourseResponseView {
        id: row.id,
        university: row.university,
        title: row.title,
        english_title: row.english_title,
        department: row.department,
        lecturer: lecturer_responses(owned_by(s.lecturers, row.id)),
        lecture_type: row.lecture_type,
        timetable: timetable_responses(owned_by(s.timetables, row.id)),
        code: row.code,
        credit: row.credit,
        year: row.year,
        semester: semester_numbers(owned_by(s.semesters, row.id)),
        language: row.language,
        course_detail: CourseDetailResponseView {
            abst: row.abst,
            goal: row.goal,
            experience: row.experience,
            keyword: keyword_texts(owned_by(s.keywords, row.id)),
            competencies: competency_texts(owned_by(s.competencies, row.id)),
            flow: row.flow,
            schedule: schedule_responses(owned_by(s.schedules, row.id)),
            out_of_class: row.out_of_class,
            textbook: row.textbook,
            reference_book: row.reference_book,
            assessment: row.assessment,
            related_course: related_course_codes(owned_by(s.related_courses, row.id)),
            prerequisite: row.prerequisite,
            contact: row.contact,
            office_hour: row.office_hour,
            note: row.note,
        },
        url: row.url,
        sylbs_update: row.sylbs_update,
    }
}

/// What a fetch by the identity `id` returns: the course stored under that
/// identity, or nothing where no course has it.
pub open spec fn fetched(s: Tables, id: i32) -> Option<CourseResponseView> {
    if 1 <= id <= s.courses.len() {
        Some(response_of(s, s.courses[id - 1]))
    } else {
        None
    }
}

/// Whether the store holds a course with exactly this code, title and
/// update date.
pub open spec fn is_stored(
    s: Tables,
    code: Seq<char>,
    title: Seq<char>,
    sylbs_update: Seq<char>,
) -> bool {
    exists|i: int|
        0 <= i < s.courses.len() && (#[trigger] s.courses[i]).code == code && s.courses[i].title
            == title && s.courses[i].sylbs_update == sylbs_update
}

/// What a fetch returns for the course that `row` stands for, given the
/// tables that hold what belongs to courses.
pub open spec fn response_from(
    row: CourseRowView,
    lecturers: Seq<LecturerRowView>,
    timetables: Seq<TimetableRowView>,
    semesters: Seq<SemesterRowView>,
    keywords: Seq<KeywordRowView>,
    competencies: Seq<CompetencyRowView>,
    schedules: Seq<ScheduleRowView>,
    related_courses: Seq<RelatedCourseRowView>,
) -> CourseResponseView {
    response_of(
        Tables {
            courses: seq![row],
            lecturers,
            timetables,
            semesters,
            keywords,
            competencies,
            schedules,
            related_courses,
        },
        row,
    )
}

/// Puts a course together from its row and from the rows of the other
/// tables that belong to it. Rows of other courses in the tables are passed
/// over.
pub fn assemble_response(
    row: &CourseRow,
    lecturers: &Vec<LecturerRow>,
    timetables: &Vec<TimetableRow>,
    semesters: &Vec<SemesterRow>,
    keywords: &Vec<KeywordRow>,
    competencies: &Vec<CompetencyRow>,
    schedules: &Vec<ScheduleRow>,
    related_courses: &Vec<RelatedCourseRow>,
) -> (r: CourseResponse)
    ensures
        r@ == response_from(
            row@,
            lecturers.deep_view(),
            timetables.deep_view(),
            semesters.deep_view(),
            keywords.deep_view(),
            competencies.deep_view(),
            schedules.deep_view(),
            related_courses.deep_view(),
        ),
{
    let id: i32 = row.id;
    CourseResponse {
        id: row.id,
        university: row.university.clone(),
        title: row.title.clone(),
        english_title: row.english_title.clone(),
        department: row.department.clone(),
        lecturer: select_lecturers(lecturers, id),
        lecture_type: row.lecture_type.clone(),
        timetable: select_timetables(timetables, id),
        code: row.code.clone(),
        credit: row.credit,
        year: row.year,
        semester: select_semesters(semesters, id),
        language: row.language.clone(),
        course_detail: CourseDetailResponse {
            abst: row.abst.clone(),
            goal: row.goal.clone(),
            experience: row.experience,
            keyword: select_keywords(keywords, id),
            competencies: select_competencies(competencies, id),
            flow: row.flow.clone(),
            schedule: select_schedules(schedules, id),
            out_of_class: row.out_of_class.clone(),
            textbook: row.textbook.clone(),
            reference_book: row.reference_book.clone(),
            assessment: row.assessment.clone(),
            related_course: select_related_courses(related_courses, id),
            prerequisite: row.prerequisite.clone(),
            contact: row.contact.clone(),
            office_hour: row.office_hour.clone(),
            note: row.note.clone(),
        },
        url: row.url.clone(),
        sylbs_update: row.sylbs_update.clone(),
    }
}

/// Fetches the course stored under the identity `id`, with everything that
/// belongs to it. Nothing is returned where no course has that identity.
pub fn get_course(store: &Store, id: i32) -> (r: Option<CourseResponse>)
    ensures
        match r {
            Some(course) => fetched(store@, id) == Some(course@),
            None => fetched(store@, id).is_none(),
        },
{
    if id < 1 || id as usize > store.courses.len() {
        return None;
    }
    let row = &store.courses[(id - 1) as usize];
    Some(
        assemble_response(
            row,
            &store.lecturers,
            &store.timetables,
            &store.semesters,
            &store.keywords,
            &store.competencies,
            &store.schedules,
            &store.related_courses,
        ),
    )
}

/// Whether the store holds a course with exactly this code, title and
/// update date: whether the course is stored in the state in which it was
/// seen.
pub fn check_sylbs_update(store: &Store, code: &str, title: &str, sylbs_update: &str) -> (r: bool)
    ensures
        r == is_stored(store@, code@, title@, sylbs_update@),
{
    let mut i: usize = 0;
    while i < store.courses.len()
        invariant
            i <= store.courses.len(),
            forall|j: int|
                0 <= j < i ==> !((#[trigger] store@.courses[j]).code == code@
                    && store@.courses[j].title == title@ && store@.courses[j].sylbs_update
                    == sylbs_update@),
        decreases store.courses.len() - i,
    {
        let row = &store.courses[i];
        assert(store@.courses[i as int] == row@);
        if same_text(row.code.as_str(), code) && same_text(row.title.as_str(), title) && same_text(
            row.sylbs_update.as_str(),
            sylbs_update,
        ) {
            return true;
        }
        i += 1;
    }
    false
}

/// Whether a course that was seen with this code, title and update date is
/// to be taken into the store: it is, unless the store holds a course with
/// exactly this code, title and update date. A course whose title or update
/// date has changed is taken again.
pub fn should_ingest(store: &Store, code: &str, title: &str, sylbs_update: &str) -> (r: bool)
    ensures
        r == !is_stored(store@, code@, title@, sylbs_update@),
{
    !check_sylbs_update(store, code, title, sylbs_update)
}

/// Takes `course` into the store in two steps, first the course with what
/// belongs to it, then its links to related courses, and returns the
/// identity that the course received.
///
/// A store without room for the first step is left as it is. A store
/// without room for the links keeps the course without its links.
pub fn insert_course(store: &mut Store, course: &Course) -> (r: Result<i32, StoreError>)
    requires
        wf(old(store)@),
    ensures
        wf(final(store)@),
        match r {
            Ok(id) => record_fits(old(store)@, course@) && related_fits(old(store)@, course@)
                && id == next_id(old(store)@) && final(store)@ == with_related(
                with_record(old(store)@, course@),
                id,
                course@,
            ),
            Err(e) => e == StoreError::Full && ((!record_fits(old(store)@, course@)
                && final(store)@ == old(store)@) || (record_fits(old(store)@, course@)
                && !related_fits(old(store)@, course@) && final(store)@ == with_record(
                old(store)@,
                course@,
            ))),
        },
{
    let id = match store.insert_record(course) {
        Ok(id) => id,
        Err(e) => {
            return Err(e);
        },
    };
    match store.insert_related_courses(id, course) {
        Ok(_) => Ok(id),
        Err(_) => Err(StoreError::Full),
    }
}

} // verus!
