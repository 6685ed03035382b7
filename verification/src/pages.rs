//! Listings as they are answered: stored rows shown one by one, with the page they belong to.
use vstd::prelude::*;
use crate::models::announcement::{Announcement, AnnouncementListResponse, AnnouncementResponse};
use crate::models::blog::{summarizes_post, BlogPost, BlogPostListResponse, BlogPostSummaryResponse};
use crate::models::course::{Course, CourseListResponse, CourseResponse};
use crate::models::booking::{Booking, BookingListResponse, BookingResponse};
use crate::models::member::{Member, MemberListResponse, MemberResponse};
use crate::models::schedule::{CourseSchedule, CourseScheduleResponse, ScheduleListResponse};

verus! {

/// Shows stored announcements, in order.
pub fn announcement_responses(rows: Vec<Announcement>) -> (r: Vec<AnnouncementResponse>)
    ensures
        r@ == rows@.map_values(|a: Announcement| AnnouncementResponse::shown(a)),
        forall|i: int| 0 <= i < rows@.len() ==> AnnouncementResponse::reads_kinds(#[trigger] r@[i], rows@[i]),
{
    let mut r: Vec<AnnouncementResponse> = Vec::new();
    for a in it: rows.into_iter()
        invariant
            r@ == it.seq().take(it.index() as int).map_values(
                |a: Announcement| AnnouncementResponse::shown(a),
            ),
            forall|j: int| 0 <= j < it.index() ==> AnnouncementResponse::reads_kinds(#[trigger] r@[j], it.seq()[j]),
    {
        r.push(AnnouncementResponse::from(a));
        proof {
            assert(it.seq().take(it.index() as int + 1) =~= it.seq().take(it.index() as int).push(a));
        }
        assert(r@ =~= it.seq().take(it.index() as int + 1).map_values(
            |a: Announcement| AnnouncementResponse::shown(a),
        ));
    }
    r
}

/// One page of announcements.
pub fn announcement_page(rows: Vec<Announcement>, total: i64, page: i64, per_page: i64) -> (r:
    AnnouncementListResponse)
    ensures
        r.announcements@ == rows@.map_values(|a: Announcement| AnnouncementResponse::shown(a)),
        forall|i: int| 0 <= i < rows@.len() ==> AnnouncementResponse::reads_kinds(#[trigger] r.announcements@[i], rows@[i]),
        r.total == total,
        r.page == page,
        r.per_page == per_page,
{
    AnnouncementListResponse { announcements: announcement_responses(rows), total, page, per_page }
}

/// Shows stored bookings, in order.
pub fn booking_responses(rows: Vec<Booking>) -> (r: Vec<BookingResponse>)
    ensures
        r@ == rows@.map_values(|b: Booking| BookingResponse::shown(b)),
        forall|i: int| 0 <= i < rows@.len() ==> BookingResponse::reads_kinds(#[trigger] r@[i], rows@[i]),
{
    let mut r: Vec<BookingResponse> = Vec::new();
    for a in it: rows.into_iter()
        invariant
            r@ == it.seq().take(it.index() as int).map_values(
                |b: Booking| BookingResponse::shown(b),
            ),
            forall|j: int| 0 <= j < it.index() ==> BookingResponse::reads_kinds(#[trigger] r@[j], it.seq()[j]),
    {
        r.push(BookingResponse::from(a));
        proof {
            assert(it.seq().take(it.index() as int + 1) =~= it.seq().take(it.index() as int).push(a));
        }
        assert(r@ =~= it.seq().take(it.index() as int + 1).map_values(
            |b: Booking| BookingResponse::shown(b),
        ));
    }
    r
}

/// One page of bookings.
pub fn booking_page(rows: Vec<Booking>, total: i64, page: i64, per_page: i64) -> (r:
    BookingListResponse)
    ensures
        r.bookings@ == rows@.map_values(|b: Booking| BookingResponse::shown(b)),
        forall|i: int| 0 <= i < rows@.len() ==> BookingResponse::reads_kinds(#[trigger] r.bookings@[i], rows@[i]),
        r.total == total,
        r.page == page,
        r.per_page == per_page,
{
    BookingListResponse { bookings: booking_responses(rows), total, page, per_page }
}

/// Shows stored accounts, in order.
pub fn member_responses(rows: Vec<Member>) -> (r: Vec<MemberResponse>)
    ensures
        r@ == rows@.map_values(|m: Member| MemberResponse::shown(m)),
        forall|i: int| 0 <= i < rows@.len() ==> MemberResponse::reads_kinds(#[trigger] r@[i], rows@[i]),
{
    let mut r: Vec<MemberResponse> = Vec::new();
    for a in it: rows.into_iter()
        invariant
            r@ == it.seq().take(it.index() as int).map_values(
                |m: Member| MemberResponse::shown(m),
            ),
            forall|j: int| 0 <= j < it.index() ==> MemberResponse::reads_kinds(#[trigger] r@[j], it.seq()[j]),
    {
        r.push(MemberResponse::from(a));
        proof {
            assert(it.seq().take(it.index() as int + 1) =~= it.seq().take(it.index() as int).push(a));
        }
        assert(r@ =~= it.seq().take(it.index() as int + 1).map_values(
            |m: Member| MemberResponse::shown(m),
        ));
    }
    r
}

/// One page of accounts.
pub fn member_page(rows: Vec<Member>, total: i64, page: i64, per_page: i64) -> (r:
    MemberListResponse)
    ensures
        r.members@ == rows@.map_values(|m: Member| MemberResponse::shown(m)),
        forall|i: int| 0 <= i < rows@.len() ==> MemberResponse::reads_kinds(#[trigger] r.members@[i], rows@[i]),
        r.total == total,
        r.page == page,
        r.per_page == per_page,
{
    MemberListResponse { members: member_responses(rows), total, page, per_page }
}

/// Shows stored sessions, in order.
pub fn schedule_responses(rows: Vec<CourseSchedule>) -> (r: Vec<CourseScheduleResponse>)
    ensures
        r@ == rows@.map_values(|s: CourseSchedule| CourseScheduleResponse::shown(s)),
        forall|i: int| 0 <= i < rows@.len() ==> CourseScheduleResponse::reads_kinds(#[trigger] r@[i], rows@[i]),
{
    let mut r: Vec<CourseScheduleResponse> = Vec::new();
    for a in it: rows.into_iter()
        invariant
            r@ == it.seq().take(it.index() as int).map_values(
                |s: CourseSchedule| CourseScheduleResponse::shown(s),
            ),
            forall|j: int| 0 <= j < it.index() ==> CourseScheduleResponse::reads_kinds(#[trigger] r@[j], it.seq()[j]),
    {
        r.push(CourseScheduleResponse::from(a));
        proof {
            assert(it.seq().take(it.index() as int + 1) =~= it.seq().take(it.index() as int).push(a));
        }
        assert(r@ =~= it.seq().take(it.index() as int + 1).map_values(
            |s: CourseSchedule| CourseScheduleResponse::shown(s),
        ));
    }
    r
}

/// One page of sessions.
pub fn schedule_page(rows: Vec<CourseSchedule>, total: i64, page: i64, per_page: i64) -> (r:
    ScheduleListResponse)
    ensures
        r.schedules@ == rows@.map_values(|s: CourseSchedule| CourseScheduleResponse::shown(s)),
        forall|i: int| 0 <= i < rows@.len() ==> CourseScheduleResponse::reads_kinds(#[trigger] r.schedules@[i], rows@[i]),
        r.total == total,
        r.page == page,
        r.per_page == per_page,
{
    ScheduleListResponse { schedules: schedule_responses(rows), total, page, per_page }
}

/// Lists stored posts, in order.
pub fn blog_post_summaries(rows: Vec<BlogPost>) -> (r: Vec<BlogPostSummaryResponse>)
    ensures
        r@.len() == rows@.len(),
        forall|i: int| 0 <= i < rows@.len() ==> summarizes_post(#[trigger] r@[i], rows@[i]),
{
    let mut r: Vec<BlogPostSummaryResponse> = Vec::new();
    for b in it: rows.into_iter()
        invariant
            r@.len() == it.index(),
            forall|i: int| 0 <= i < it.index() ==> summarizes_post(#[trigger] r@[i], it.seq()[i]),
    {
        r.push(BlogPostSummaryResponse::from(b));
    }
    r
}

/// One page of listed posts.
pub fn blog_post_page(rows: Vec<BlogPost>, total: i64, page: i64, per_page: i64) -> (r:
    BlogPostListResponse)
    ensures
        r.posts@.len() == rows@.len(),
        forall|i: int| 0 <= i < rows@.len() ==> summarizes_post(#[trigger] r.posts@[i], rows@[i]),
        r.total == total,
        r.page == page,
        r.per_page == per_page,
{
    BlogPostListResponse { posts: blog_post_summaries(rows), total, page, per_page }
}

/// Shows stored courses, in order.
pub fn course_responses<P>(rows: Vec<Course<P>>) -> (r: Vec<CourseResponse<P>>)
    ensures
        r@ == rows@.map_values(|c: Course<P>| CourseResponse::shown(c)),
        forall|i: int| 0 <= i < rows@.len() ==> CourseResponse::reads_kinds(#[trigger] r@[i], rows@[i]),
{
    let mut r: Vec<CourseResponse<P>> = Vec::new();
    for c in it: rows.into_iter()
        invariant
            r@ == it.seq().take(it.index() as int).map_values(|c: Course<P>| CourseResponse::shown(c)),
            forall|j: int| 0 <= j < it.index() ==> CourseResponse::reads_kinds(#[trigger] r@[j], it.seq()[j]),
    {
        r.push(CourseResponse::from(c));
        proof {
            assert(it.seq().take(it.index() as int + 1) =~= it.seq().take(it.index() as int).push(c));
        }
        assert(r@ =~= it.seq().take(it.index() as int + 1).map_values(
            |c: Course<P>| CourseResponse::shown(c),
        ));
    }
    r
}

/// One page of courses.
pub fn course_page<P>(rows: Vec<Course<P>>, total: i64, page: i64, per_page: i64) -> (r:
    CourseListResponse<P>)
    ensures
        r.courses@ == rows@.map_values(|c: Course<P>| CourseResponse::shown(c)),
        forall|i: int| 0 <= i < rows@.len() ==> CourseResponse::reads_kinds(#[trigger] r.courses@[i], rows@[i]),
        r.total == total,
        r.page == page,
        r.per_page == per_page,
{
    CourseListResponse { courses: course_responses(rows), total, page, per_page }
}

} // verus!
