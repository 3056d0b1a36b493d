//! The steps of taking a listing into the store.
//!
//! Fetching pages is left to the caller. For each course of a listing the
//! caller asks [`plan_ingest`] what to do, fetches the detail page where it
//! is told to, and hands the page to [`ingest_page`].

use vstd::prelude::*;
use crate::database::store::{
    check_sylbs_update, insert_course, is_stored, next_id, record_fits, related_fits, wf,
    with_record, with_related, Store, StoreError, Tables,
};
use crate::scrape::list::{CourseAbstract, CourseAbstractView};
use crate::scrape::sub::{
    course_of, detail_engine_accepted, html_to_course, Course, CourseView, COUNT_PATTERN,
};
use crate::scrape::timetable::ROOM_PATTERN;
use crate::scrape::ExtractError;

verus! {

/// What to do with a course of a listing.
#[derive(Debug, Clone, PartialEq, Eq)]
pub enum IngestAction {
    /// The row carries no course code: it stands for no course.
    SkipUnlisted,
    /// The course is stored in the state in which the listing shows it.
    SkipUnchanged,
    /// The detail page at this address is to be fetched and taken in.
    Fetch { url: String },
}

/// The mathematical value of an [`IngestAction`].
pub enum IngestActionView {
    SkipUnlisted,
    SkipUnchanged,
    Fetch { url: Seq<char> },
}

impl View for IngestAction {
    type V = IngestActionView;

    open spec fn view(&self) -> IngestActionView {
        match self {
            IngestAction::SkipUnlisted => IngestActionView::SkipUnlisted,
            IngestAction::SkipUnchanged => IngestActionView::SkipUnchanged,
            IngestAction::Fetch { url } => IngestActionView::Fetch { url: url@ },
        }
    }
}

/// Why a detail page was not taken into the store.
#[derive(Debug, Clone, Copy, PartialEq, Eq, Structural)]
pub enum IngestError {
    /// The page could not be decoded.
    Page(ExtractError),
    /// The store could not take the course.
    Store(StoreError),
}

/// What is to be done with the course `summary` of a listing, given
/// whether it is stored in the state in which the listing shows it: a row
/// without a code is skipped, a course that is stored is skipped, and any
/// other course is fetched.
pub open spec fn action_given(summary: CourseAbstractView, stored: bool) -> IngestActionView {
    if summary.code.len() == 0 {
        IngestActionView::SkipUnlisted
    } else if stored {
        IngestActionView::SkipUnchanged
    } else {
        IngestActionView::Fetch { url: summary.title.url }
    }
}

/// What is to be done with the course `summary` of a listing: a row without
/// a code is skipped, a course that is stored with the same code, title and
/// update date is skipped, and any other course is fetched.
pub open spec fn planned(s: Tables, summary: CourseAbstractView) -> IngestActionView {
    action_given(
        summary,
        is_stored(s, summary.code, summary.title.title, summary.sylbs_update),
    )
}

/// Whether a row of a listing stands for a course: whether it carries a
/// course code.
pub fn is_listed_course(summary: &CourseAbstract) -> (r: bool)
    ensures
        r == (summary@.code.len() > 0),
{
    summary.code.as_str().unicode_len() > 0
}

/// Decides what to do with a course of a listing, given whether the store
/// holds it in the state in which the listing shows it.
pub fn action_for(summary: &CourseAbstract, stored: bool) -> (action: IngestAction)
    ensures
        action@ == action_given(summary@, stored),
{
    if !is_listed_course(summary) {
        IngestAction::SkipUnlisted
    } else if stored {
        IngestAction::SkipUnchanged
    } else {
        IngestAction::Fetch { url: summary.title.url.clone() }
    }
}

/// Decides what to do with a course of a listing.
pub fn plan_ingest(store: &Store, summary: &CourseAbstract) -> (action: IngestAction)
    ensures
        action@ == planned(store@, summary@),
{
    let stored = check_sylbs_update(
        store,
        summary.code.as_str(),
        summary.title.title.as_str(),
        summary.sylbs_update.as_str(),
    );
    action_for(summary, stored)
}

/// The course of a detail page, completed with what only the listing
/// knows: the address of the page and the update date.
pub open spec fn completed(detail: CourseView, summary: CourseAbstractView) -> CourseView {
    CourseView { url: summary.title.url, sylbs_update: summary.sylbs_update, ..detail }
}

/// Completes the course of a detail page with the address and the update
/// date that the listing shows for it.
pub fn complete_course(detail: Course, summary: &CourseAbstract) -> (course: Course)
    ensures
        course@ == completed(detail@, summary@),
{
    let mut course = detail;
    course.url = summary.title.url.clone();
    course.sylbs_update = summary.sylbs_update.clone();
    course
}

/// Takes the fetched detail page of the course `summary` into the store and
/// returns the identity that the course received.
///
/// The page is decoded, the course is completed from the listing and
/// stored. A page that cannot be decoded leaves the store as it is. The
/// `Engine` error of the page comes only where the selector parser or the
/// pattern compiler refused one of the fixed selectors and patterns.
pub fn ingest_page(store: &mut Store, summary: &CourseAbstract, page: &str) -> (r: Result<
    i32,
    IngestError,
>)
    requires
        wf(old(store)@),
    ensures
        wf(final(store)@),
        match r {
            Ok(id) => course_of(page@, ROOM_PATTERN@, COUNT_PATTERN@) matches Ok(detail) && {
                let course = completed(detail, summary@);
                &&& record_fits(old(store)@, course)
                &&& related_fits(old(store)@, course)
                &&& id == next_id(old(store)@)
                &&& final(store)@ == with_related(with_record(old(store)@, course), id, course)
            },
            Err(IngestError::Page(ExtractError::Engine)) => !detail_engine_accepted()
                && final(store)@ == old(store)@,
            Err(IngestError::Page(e)) => course_of(page@, ROOM_PATTERN@, COUNT_PATTERN@) == Err::<
                CourseView,
                ExtractError,
            >(e) && final(store)@ == old(store)@,
            Err(IngestError::Store(e)) => course_of(page@, ROOM_PATTERN@, COUNT_PATTERN@) matches Ok(
                detail,
            ) && {
                let course = completed(detail, summary@);
                &&& e == StoreError::Full
                &&& (!record_fits(old(store)@, course) && final(store)@ == old(store)@) || (
                record_fits(old(store)@, course) && !related_fits(old(store)@, course)
                    && final(store)@ == with_record(old(store)@, course))
            },
        },
{
    let detail = match html_to_course(page) {
        Ok(detail) => detail,
        Err(e) => {
            return Err(IngestError::Page(e));
        },
    };
    let course = complete_course(detail, summary);
    match insert_course(store, &course) {
        Ok(id) => Ok(id),
        Err(e) => Err(IngestError::Store(e)),
    }
}

/// Once the detail page of a course was taken in, the course is skipped for
/// as long as the listing shows it unchanged: where the detail page writes
/// the code and the title that the listing shows, the store holds the
/// course in the state in which the listing shows it.
pub proof fn lemma_ingested_course_is_skipped(
    s: Tables,
    detail: CourseView,
    summary: CourseAbstractView,
)
    requires
        summary.code.len() > 0,
        detail.code == summary.code,
        detail.title == summary.title.title,
    ensures
        ({
            let course = completed(detail, summary);
            let after = with_related(with_record(s, course), next_id(s), course);
            planned(after, summary) == IngestActionView::SkipUnchanged
        }),
{
    let course = completed(detail, summary);
    let after = with_related(with_record(s, course), next_id(s), course);
    let last = s.courses.len() as int;
    assert(after.courses[last].code == summary.code && after.courses[last].title
        == summary.title.title && after.courses[last].sylbs_update == summary.sylbs_update);
}

/// A row without a code is never fetched, whatever the store holds.
pub proof fn lemma_unlisted_row_is_skipped(s: Tables, summary: CourseAbstractView)
    requires
        summary.code.len() == 0,
    ensures
        planned(s, summary) == IngestActionView::SkipUnlisted,
{
}

} // verus!
