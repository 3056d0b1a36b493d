//! The normalised store of courses: one table of courses, six tables of
//! rows that belong to a course, and one table of links to related courses.

pub mod codes;
pub mod laws;
pub mod pushdown;
pub mod response;
pub mod rows;
pub mod search;
pub mod store;

pub use response::{
    CourseDetailResponse, CourseResponse, LecturerResponse, ScheduleResponse, TimetableResponse,
};
pub use search::{search_courses, CourseListItem, SearchQuery, TimetableQuery};
pub use store::{
    check_sylbs_update, get_course, insert_course, should_ingest, Store, StoreError,
};
