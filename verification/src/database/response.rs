//! What a fetch of one course returns.

use vstd::prelude::*;

verus! {

/// A lecturer of a fetched course.
#[derive(Debug, Clone, PartialEq, Eq)]
pub struct LecturerResponse {
    pub id: i32,
    pub name: String,
    pub url: String,
}

/// The mathematical value of a [`LecturerResponse`].
pub struct LecturerResponseView {
    pub id: i32,
    pub name: Seq<char>,
    pub url: Seq<char>,
}

impl View for LecturerResponse {
    type V = LecturerResponseView;

    open spec fn view(&self) -> LecturerResponseView {
        LecturerResponseView {
            id: self.id,
            name: self.name@,
            url: self.url@,
        }
    }
}

impl DeepView for LecturerResponse {
    type V = LecturerResponseView;

    open spec fn deep_view(&self) -> LecturerResponseView {
        self@
    }
}

/// A timetable slot of a fetched course.
#[derive(Debug, Clone, PartialEq, Eq)]
pub struct TimetableResponse {
    pub course_id: i32,
    pub day_of_week: i32,
    pub period: i32,
    pub room: String,
}

/// The mathematical value of a [`TimetableResponse`].
pub struct TimetableResponseView {
    pub course_id: i32,
    pub day_of_week: i32,
    pub period: i32,
    pub room: Seq<char>,
}

impl View for TimetableResponse {
    type V = TimetableResponseView;

    open spec fn view(&self) -> TimetableResponseView {
        TimetableResponseView {
            course_id: self.course_id,
            day_of_week: self.day_of_week,
            period: self.period,
            room: self.room@,
        }
    }
}

impl DeepView for TimetableResponse {
    type V = TimetableResponseView;

    open spec fn deep_view(&self) -> TimetableResponseView {
        self@
    }
}

/// A lecture plan session of a fetched course.
#[derive(Debug, Clone, PartialEq, Eq)]
pub struct ScheduleResponse {
    pub count: i32,
    pub plan: String,
    pub assignment: String,
}

/// The mathematical value of a [`ScheduleResponse`].
pub struct ScheduleResponseView {
    pub count: i32,
    pub plan: Seq<char>,
    pub assignment: Seq<char>,
}

impl View for ScheduleResponse {
    type V = ScheduleResponseView;

    open spec fn view(&self) -> ScheduleResponseView {
        ScheduleResponseView {
            count: self.count,
            plan: self.plan@,
            assignment: self.assignment@,
        }
    }
}

impl DeepView for ScheduleResponse {
    type V = ScheduleResponseView;

    open spec fn deep_view(&self) -> ScheduleResponseView {
        self@
    }
}

/// The syllabus of a fetched course.
#[derive(Debug, Clone, PartialEq, Eq)]
pub struct CourseDetailResponse {
    pub abst: String,
    pub goal: String,
    pub experience: bool,
    pub keyword: Vec<String>,
    pub competencies: Vec<String>,
    pub flow: String,
    pub schedule: Vec<ScheduleResponse>,
    pub out_of_class: String,
    pub textbook: String,
    pub reference_book: String,
    pub assessment: String,
    pub related_course: Vec<String>,
    pub prerequisite: String,
    pub contact: String,
    pub office_hour: String,
    pub note: String,
}

/// The mathematical value of a [`CourseDetailResponse`].
pub struct CourseDetailResponseView {
    pub abst: Seq<char>,
    pub goal: Seq<char>,
    pub experience: bool,
    pub keyword: Seq<Seq<char>>,
    pub competencies: Seq<Seq<char>>,
    pub flow: Seq<char>,
    pub schedule: Seq<ScheduleResponseView>,
    pub out_of_class: Seq<char>,
    pub textbook: Seq<char>,
    pub reference_book: Seq<char>,
    pub assessment: Seq<char>,
    pub related_course: Seq<Seq<char>>,
    pub prerequisite: Seq<char>,
    pub contact: Seq<char>,
    pub office_hour: Seq<char>,
    pub note: Seq<char>,
}

impl View for CourseDetailResponse {
    type V = CourseDetailResponseView;

    open spec fn view(&self) -> CourseDetailResponseView {
        CourseDetailResponseView {
            abst: self.abst@,
            goal: self.goal@,
            experience: self.experience,
            keyword: self.keyword.deep_view(),
            competencies: self.competencies.deep_view(),
            flow: self.flow@,
            schedule: self.schedule.deep_view(),
            out_of_class: self.out_of_class@,
            textbook: self.textbook@,
            reference_book: self.reference_book@,
            assessment: self.assessment@,
            related_course: self.related_course.deep_view(),
            prerequisite: self.prerequisite@,
            contact: self.contact@,
            office_hour: self.office_hour@,
            note: self.note@,
        }
    }
}

/// A course as it is fetched from the store by its identity.
#[derive(Debug, Clone, PartialEq, Eq)]
pub struct CourseResponse {
    pub id: i32,
    pub university: String,
    pub title: String,
    pub english_title: String,
    pub department: String,
    pub lecturer: Vec<LecturerResponse>,
    pub lecture_type: String,
    pub timetable: Vec<TimetableResponse>,
    pub code: String,
    pub credit: i32,
    pub year: i32,
    pub semester: Vec<i32>,
    pub language: String,
    pub course_detail: CourseDetailResponse,
    pub url: String,
    pub sylbs_update: String,
}

/// The mathematical value of a [`CourseResponse`].
pub struct CourseResponseView {
    pub id: i32,
    pub university: Seq<char>,
    pub title: Seq<char>,
    pub english_title: Seq<char>,
    pub department: Seq<char>,
    pub lecturer: Seq<LecturerResponseView>,
    pub lecture_type: Seq<char>,
    pub timetable: Seq<TimetableResponseView>,
    pub code: Seq<char>,
    pub credit: i32,
    pub year: i32,
    pub semester: Seq<i32>,
    pub language: Seq<char>,
    pub course_detail: CourseDetailResponseView,
    pub url: Seq<char>,
    pub sylbs_update: Seq<char>,
}

impl View for CourseResponse {
    type V = CourseResponseView;

    open spec fn view(&self) -> CourseResponseView {
        CourseResponseView {
            id: self.id,
            university: self.university@,
            title: self.title@,
            english_title: self.english_title@,
            department: self.department@,
            lecturer: self.lecturer.deep_view(),
            lecture_type: self.lecture_type@,
            timetable: self.timetable.deep_view(),
            code: self.code@,
            credit: self.credit,
            year: self.year,
            semester: self.semester@,
            language: self.language@,
            course_detail: self.course_detail@,
            url: self.url@,
            sylbs_update: self.sylbs_update@,
        }
    }
}

} // verus!
