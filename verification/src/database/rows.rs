//! The rows of the eight tables.

use vstd::prelude::*;

verus! {

/// A row of the table of courses: the fields of a course that hold one value.
#[derive(Debug, Clone, PartialEq, Eq)]
pub struct CourseRow {
    pub id: i32,
    pub university: String,
    pub title: String,
    pub english_title: String,
    pub department: String,
    pub lecture_type: String,
    pub code: String,
    pub credit: i32,
    pub year: i32,
    pub language: String,
    pub url: String,
    pub abst: String,
    pub goal: String,
    pub experience: bool,
    pub flow: String,
    pub out_of_class: String,
    pub textbook: String,
    pub reference_book: String,
    pub assessment: String,
    pub prerequisite: String,
    pub contact: String,
    pub office_hour: String,
    pub note: String,
    pub sylbs_update: String,
}

/// The mathematical value of a [`CourseRow`].
pub struct CourseRowView {
    pub id: i32,
    pub university: Seq<char>,
    pub title: Seq<char>,
    pub english_title: Seq<char>,
    pub department: Seq<char>,
    pub lecture_type: Seq<char>,
    pub code: Seq<char>,
    pub credit: i32,
    pub year: i32,
    pub language: Seq<char>,
    pub url: Seq<char>,
    pub abst: Seq<char>,
    pub goal: Seq<char>,
    pub experience: bool,
    pub flow: Seq<char>,
    pub out_of_class: Seq<char>,
    pub textbook: Seq<char>,
    pub reference_book: Seq<char>,
    pub assessment: Seq<char>,
    pub prerequisite: Seq<char>,
    pub contact: Seq<char>,
    pub office_hour: Seq<char>,
    pub note: Seq<char>,
    pub sylbs_update: Seq<char>,
}

impl View for CourseRow {
    type V = CourseRowView;

    open spec fn view(&self) -> CourseRowView {
        CourseRowView {
            id: self.id,
            university: self.university@,
            title: self.title@,
            english_title: self.english_title@,
            department: self.department@,
            lecture_type: self.lecture_type@,
            code: self.code@,
            credit: self.credit,
            year: self.year,
            language: self.language@,
            url: self.url@,
            abst: self.abst@,
            goal: self.goal@,
            experience: self.experience,
            flow: self.flow@,
            out_of_class: self.out_of_class@,
            textbook: self.textbook@,
            reference_book: self.reference_book@,
            assessment: self.assessment@,
            prerequisite: self.prerequisite@,
            contact: self.contact@,
            office_hour: self.office_hour@,
            note: self.note@,
            sylbs_update: self.sylbs_update@,
        }
    }
}

impl DeepView for CourseRow {
    type V = CourseRowView;

    open spec fn deep_view(&self) -> CourseRowView {
        self@
    }
}

/// A row of the table of lecturers.
#[derive(Debug, Clone, PartialEq, Eq)]
pub struct LecturerRow {
    pub id: i32,
    pub course_id: i32,
    pub name: String,
    pub url: String,
}

/// The mathematical value of a [`LecturerRow`].
pub struct LecturerRowView {
    pub id: i32,
    pub course_id: i32,
    pub name: Seq<char>,
    pub url: Seq<char>,
}

impl View for LecturerRow {
    type V = LecturerRowView;

    open spec fn view(&self) -> LecturerRowView {
        LecturerRowView {
            id: self.id,
            course_id: self.course_id,
            name: self.name@,
            url: self.url@,
        }
    }
}

impl DeepView for LecturerRow {
    type V = LecturerRowView;

    open spec fn deep_view(&self) -> LecturerRowView {
        self@
    }
}

/// A row of the table of timetable slots.
#[derive(Debug, Clone, PartialEq, Eq)]
pub struct TimetableRow {
    pub id: i32,
    pub course_id: i32,
    pub day: i32,
    pub periods: i32,
    pub room: String,
}

/// The mathematical value of a [`TimetableRow`].
pub struct TimetableRowView {
    pub id: i32,
    pub course_id: i32,
    pub day: i32,
    pub periods: i32,
    pub room: Seq<char>,
}

impl View for TimetableRow {
    type V = TimetableRowView;

    open spec fn view(&self) -> TimetableRowView {
        TimetableRowView {
            id: self.id,
            course_id: self.course_id,
            day: self.day,
            periods: self.periods,
            room: self.room@,
        }
    }
}

impl DeepView for TimetableRow {
    type V = TimetableRowView;

    open spec fn deep_view(&self) -> TimetableRowView {
        self@
    }
}

/// A row of the table of quarters.
#[derive(Debug, Clone, PartialEq, Eq)]
pub struct SemesterRow {
    pub id: i32,
    pub course_id: i32,
    pub semester: i32,
}

/// The mathematical value of a [`SemesterRow`].
pub struct SemesterRowView {
    pub id: i32,
    pub course_id: i32,
    pub semester: i32,
}

impl View for SemesterRow {
    type V = SemesterRowView;

    open spec fn view(&self) -> SemesterRowView {
        SemesterRowView {
            id: self.id,
            course_id: self.course_id,
            semester: self.semester,
        }
    }
}

impl DeepView for SemesterRow {
    type V = SemesterRowView;

    open spec fn deep_view(&self) -> SemesterRowView {
        self@
    }
}

/// A row of the table of keywords.
#[derive(Debug, Clone, PartialEq, Eq)]
pub struct KeywordRow {
    pub id: i32,
    pub course_id: i32,
    pub keyword: String,
}

/// The mathematical value of a [`KeywordRow`].
pub struct KeywordRowView {
    pub id: i32,
    pub course_id: i32,
    pub keyword: Seq<char>,
}

impl View for KeywordRow {
    type V = KeywordRowView;

    open spec fn view(&self) -> KeywordRowView {
        KeywordRowView {
            id: self.id,
            course_id: self.course_id,
            keyword: self.keyword@,
        }
    }
}

impl DeepView for KeywordRow {
    type V = KeywordRowView;

    open spec fn deep_view(&self) -> KeywordRowView {
        self@
    }
}

/// A row of the table of competencies.
#[derive(Debug, Clone, PartialEq, Eq)]
pub struct CompetencyRow {
    pub id: i32,
    pub course_id: i32,
    pub competency: String,
}

/// The mathematical value of a [`CompetencyRow`].
pub struct CompetencyRowView {
    pub id: i32,
    pub course_id: i32,
    pub competency: Seq<char>,
}

impl View for CompetencyRow {
    type V = CompetencyRowView;

    open spec fn view(&self) -> CompetencyRowView {
        CompetencyRowView {
            id: self.id,
            course_id: self.course_id,
            competency: self.competency@,
        }
    }
}

impl DeepView for CompetencyRow {
    type V = CompetencyRowView;

    open spec fn deep_view(&self) -> CompetencyRowView {
        self@
    }
}

/// A row of the table of lecture plan sessions.
#[derive(Debug, Clone, PartialEq, Eq)]
pub struct ScheduleRow {
    pub id: i32,
    pub course_id: i32,
    pub count: i32,
    pub plan: String,
    pub assignment: String,
}

/// The mathematical value of a [`ScheduleRow`].
pub struct ScheduleRowView {
    pub id: i32,
    pub course_id: i32,
    pub count: i32,
    pub plan: Seq<char>,
    pub assignment: Seq<char>,
}

impl View for ScheduleRow {
    type V = ScheduleRowView;

    open spec fn view(&self) -> ScheduleRowView {
        ScheduleRowView {
            id: self.id,
            course_id: self.course_id,
            count: self.count,
            plan: self.plan@,
            assignment: self.assignment@,
        }
    }
}

impl DeepView for ScheduleRow {
    type V = ScheduleRowView;

    open spec fn deep_view(&self) -> ScheduleRowView {
        self@
    }
}

/// A row of the table of links to related courses. The code is kept as
/// text: it need not be the code of a stored course.
#[derive(Debug, Clone, PartialEq, Eq)]
pub struct RelatedCourseRow {
    pub id: i32,
    pub course_id: i32,
    pub related_course_code: String,
}

/// The mathematical value of a [`RelatedCourseRow`].
pub struct RelatedCourseRowView {
    pub id: i32,
    pub course_id: i32,
    pub related_course_code: Seq<char>,
}

impl View for RelatedCourseRow {
    type V = RelatedCourseRowView;

    open spec fn view(&self) -> RelatedCourseRowView {
        RelatedCourseRowView {
            id: self.id,
            course_id: self.course_id,
            related_course_code: self.related_course_code@,
        }
    }
}

impl DeepView for RelatedCourseRow {
    type V = RelatedCourseRowView;

    open spec fn deep_view(&self) -> RelatedCourseRowView {
        self@
    }
}

} // verus!
