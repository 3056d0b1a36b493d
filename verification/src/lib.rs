//! Course catalogue extraction and normalisation.
//!
//! [`scrape`] decodes the pages of the catalogue: the listing of a
//! department into its courses in brief, and the detail page of a course
//! into the course. [`database`] lays a course out in the tables of the
//! store, reads it back, tells whether a course has changed since it was
//! stored, and searches. [`ingest`] joins the two.

pub mod database;
pub mod ingest;
pub mod markup;
pub mod pattern;
pub mod scrape;
pub mod text;

pub use database::{
    check_sylbs_update, get_course, insert_course, search_courses, should_ingest, CourseListItem,
    CourseResponse, SearchQuery, Store, StoreError,
};
pub use scrape::{
    html_to_course, html_to_course_abstracts, Course, CourseAbstract, CourseDetail, CourseTitle,
    Day, ExtractError, LecturePlan, Lecturer, Period, Semester, TimeTable,
};
