//! What holds of the store across its operations.

use vstd::prelude::*;
use crate::database::codes::{day_of_number, period_of_number, semester_of_number};
use crate::database::store::{
    competency_rows, fetched, is_stored, keyword_rows, lecturer_rows, lemma_owned_by_all,
    lemma_owned_by_concat, lemma_owned_by_none, next_id, owned_by, record_fits, related_code,
    related_course_rows, related_fits, schedule_rows, semester_rows, table_wf, timetable_rows,
    wf, with_record, with_related, Owned, Tables,
};
use crate::scrape::sub::{CourseView, CODE_LENGTH};

verus! {

/// Rows that were appended for a new course are exactly the rows that belong
/// to it.
pub proof fn lemma_new_rows_belong<R: Owned>(old: Seq<R>, new: Seq<R>, courses: nat, id: i32)
    requires
        table_wf(old, courses),
        id > courses,
        forall|i: int| 0 <= i < new.len() ==> (#[trigger] new[i]).owner() == id,
    ensures
        owned_by(old + new, id) == new,
{
    lemma_owned_by_concat(old, new, id);
    lemma_owned_by_none(old, id);
    lemma_owned_by_all(new, id);
}

/// Rows that were appended for another course leave the rows of a course
/// as they were.
pub proof fn lemma_other_rows_stay<R: Owned>(old: Seq<R>, new: Seq<R>, other: i32, id: i32)
    requires
        other != id,
        forall|i: int| 0 <= i < new.len() ==> (#[trigger] new[i]).owner() == other,
    ensures
        owned_by(old + new, id) == owned_by(old, id),
{
    lemma_owned_by_concat(old, new, id);
    lemma_owned_by_none(new, id);
}

/// A course that was stored is fetched again, by the identity that it
/// received, with every field that holds one value and with every list in
/// the order and length in which the course held it. Days, periods and
/// quarters come back as the numbers that stand for them, and a link to a
/// related course as the first characters of its reference, as many as a
/// course code has.
pub proof fn lemma_fetch_returns_what_was_stored(s: Tables, course: CourseView)
    requires
        wf(s),
        record_fits(s, course),
        related_fits(s, course),
    ensures
        ({
            let id = next_id(s);
            let after = with_related(with_record(s, course), id, course);
            let detail = course.course_detail;
            &&& wf(after)
            &&& fetched(after, id) matches Some(found) && {
                &&& found.id == id
                &&& found.university == course.university
                &&& found.title == course.title
                &&& found.english_title == course.english_title
                &&& found.department == course.department
                &&& found.lecture_type == course.lecture_type
                &&& found.code == course.code
                &&& found.credit == course.credit
                &&& found.year == course.year
                &&& found.language == course.language
                &&& found.url == course.url
                &&& found.sylbs_update == course.sylbs_update
                &&& found.course_detail.abst == detail.abst
                &&& found.course_detail.goal == detail.goal
                &&& found.course_detail.experience == detail.experience
                &&& found.course_detail.flow == detail.flow
                &&& found.course_detail.out_of_class == detail.out_of_class
                &&& found.course_detail.textbook == detail.textbook
                &&& found.course_detail.reference_book == detail.reference_book
                &&& found.course_detail.assessment == detail.assessment
                &&& found.course_detail.prerequisite == detail.prerequisite
                &&& found.course_detail.contact == detail.contact
                &&& found.course_detail.office_hour == detail.office_hour
                &&& found.course_detail.note == detail.note
                &&& found.lecturer.len() == course.lecturer.len()
                &&& forall|i: int|
                    0 <= i < course.lecturer.len() ==> (#[trigger] found.lecturer[i]).name
                        == course.lecturer[i].name && found.lecturer[i].url
                        == course.lecturer[i].url
                &&& found.timetable.len() == course.time_table.len()
                &&& forall|i: int|
                    0 <= i < course.time_table.len() ==> (#[trigger] found.timetable[i]).course_id
                        == id && day_of_number(found.timetable[i].day_of_week) == Some(
                        course.time_table[i].day,
                    ) && period_of_number(found.timetable[i].period) == Some(
                        course.time_table[i].period,
                    ) && found.timetable[i].room == course.time_table[i].room
                &&& found.semester.len() == course.semester.len()
                &&& forall|i: int|
                    0 <= i < course.semester.len() ==> semester_of_number(
                        #[trigger] found.semester[i],
                    ) == Some(course.semester[i])
                &&& found.course_detail.keyword == detail.keyword
                &&& found.course_detail.competencies == detail.competencies
                &&& found.course_detail.schedule.len() == detail.schedule.len()
                &&& forall|i: int|
                    0 <= i < detail.schedule.len() ==> (
                    #[trigger] found.course_detail.schedule[i]).count == detail.schedule[i].count
                        && found.course_detail.schedule[i].plan == detail.schedule[i].plan
                        && found.course_detail.schedule[i].assignment
                        == detail.schedule[i].assignment
                &&& found.course_detail.related_course.len() == detail.related_course.len()
                &&& forall|i: int|
                    0 <= i < detail.related_course.len() ==> (
                    #[trigger] found.course_detail.related_course[i]) == related_code(
                        detail.related_course[i],
                    )
            }
        }),
{
    let id = next_id(s);
    let detail = course.course_detail;
    let n = s.courses.len();
    lemma_new_rows_belong(s.lecturers, lecturer_rows(course.lecturer, id, s.lecturers.len()), n, id);
    lemma_new_rows_belong(
        s.timetables,
        timetable_rows(course.time_table, id, s.timetables.len()),
        n,
        id,
    );
    lemma_new_rows_belong(s.semesters, semester_rows(course.semester, id, s.semesters.len()), n, id);
    lemma_new_rows_belong(s.keywords, keyword_rows(detail.keyword, id, s.keywords.len()), n, id);
    lemma_new_rows_belong(
        s.competencies,
        competency_rows(detail.competencies, id, s.competencies.len()),
        n,
        id,
    );
    lemma_new_rows_belong(s.schedules, schedule_rows(detail.schedule, id, s.schedules.len()), n, id);
    lemma_new_rows_belong(
        s.related_courses,
        related_course_rows(detail.related_course, id, s.related_courses.len()),
        n,
        id,
    );
}

/// Where every reference of a course to a related course is no longer than
/// a course code, the references are fetched as they were stored.
pub proof fn lemma_short_references_come_back_whole(s: Tables, course: CourseView)
    requires
        wf(s),
        record_fits(s, course),
        related_fits(s, course),
        forall|i: int|
            0 <= i < course.course_detail.related_course.len() ==> (
            #[trigger] course.course_detail.related_course[i]).len() <= CODE_LENGTH,
    ensures
        fetched(
            with_related(with_record(s, course), next_id(s), course),
            next_id(s),
        ).unwrap().course_detail.related_course == course.course_detail.related_course,
{
    lemma_fetch_returns_what_was_stored(s, course);
}

/// Storing a course leaves every course that was stored before as it was:
/// it is fetched under the same identity with the same content.
pub proof fn lemma_stored_courses_stay(s: Tables, course: CourseView, id: i32)
    requires
        wf(s),
        record_fits(s, course),
        related_fits(s, course),
        1 <= id <= s.courses.len(),
    ensures
        fetched(with_related(with_record(s, course), next_id(s), course), id) == fetched(s, id),
{
    let new_id = next_id(s);
    let detail = course.course_detail;
    lemma_other_rows_stay(
        s.lecturers,
        lecturer_rows(course.lecturer, new_id, s.lecturers.len()),
        new_id,
        id,
    );
    lemma_other_rows_stay(
        s.timetables,
        timetable_rows(course.time_table, new_id, s.timetables.len()),
        new_id,
        id,
    );
    lemma_other_rows_stay(
        s.semesters,
        semester_rows(course.semester, new_id, s.semesters.len()),
        new_id,
        id,
    );
    lemma_other_rows_stay(
        s.keywords,
        keyword_rows(detail.keyword, new_id, s.keywords.len()),
        new_id,
        id,
    );
    lemma_other_rows_stay(
        s.competencies,
        competency_rows(detail.competencies, new_id, s.competencies.len()),
        new_id,
        id,
    );
    lemma_other_rows_stay(
        s.schedules,
        schedule_rows(detail.schedule, new_id, s.schedules.len()),
        new_id,
        id,
    );
    lemma_other_rows_stay(
        s.related_courses,
        related_course_rows(detail.related_course, new_id, s.related_courses.len()),
        new_id,
        id,
    );
}

/// Once a course is stored, the store holds its code, title and update
/// date, and goes on holding those that it held before.
pub proof fn lemma_stored_course_is_found(
    s: Tables,
    course: CourseView,
    code: Seq<char>,
    title: Seq<char>,
    sylbs_update: Seq<char>,
)
    ensures
        is_stored(with_record(s, course), course.code, course.title, course.sylbs_update),
        is_stored(s, code, title, sylbs_update) ==> is_stored(
            with_record(s, course),
            code,
            title,
            sylbs_update,
        ),
        is_stored(with_record(s, course), code, title, sylbs_update) ==> is_stored(
            s,
            code,
            title,
            sylbs_update,
        ) || (code == course.code && title == course.title && sylbs_update == course.sylbs_update),
{
    let t = with_record(s, course);
    let last = s.courses.len() as int;
    assert(t.courses[last].code == course.code && t.courses[last].title == course.title
        && t.courses[last].sylbs_update == course.sylbs_update);
    if is_stored(s, code, title, sylbs_update) {
        let i = choose|i: int|
            0 <= i < s.courses.len() && (#[trigger] s.courses[i]).code == code
                && s.courses[i].title == title && s.courses[i].sylbs_update == sylbs_update;
        assert(t.courses[i] == s.courses[i]);
    }
}

} // verus!
