use boxing_gym_backend::error::AppError;
use boxing_gym_backend::models::blog::{generate_slug, read_tags};
use boxing_gym_backend::models::booking::{cancellation_steps, seat_change_on_booking, seat_change_on_promotion};
use boxing_gym_backend::models::blog::{archive_blog_post, publish_blog_post};
use boxing_gym_backend::models::booking::{cancel_booking, promote_from_waitlist};
use boxing_gym_backend::models::schedule::cancel_schedule;
use boxing_gym_backend::models::blog::{
    archive_blog_post_at, blog_slug_candidate, build_blog_post, check_publicly_visible, merge_blog_post_update,
    new_blog_post, publish_blog_post_at, BlogCategory, BlogPost, BlogPostResponse, BlogPostStatus,
    CreateBlogPostRequest, UpdateBlogPostRequest,
};
use boxing_gym_backend::models::booking::{
    build_booking, cancel_booking_at, check_monthly_limit, check_not_booked_yet, check_weekly_limit,
    frees_seat_on_cancel, merge_booking_update, next_waitlist_position, plan_booking, promote_booking_at,
    Booking, BookingResponse, BookingStatus, CreateBookingRequest, UpdateBookingRequest,
};
use boxing_gym_backend::models::schedule::{
    available_spots, build_schedule, cancel_schedule_at, merge_schedule_update, schedule_has_room,
    CourseSchedule, CourseScheduleResponse, CreateScheduleRequest, ScheduleStatus, UpdateScheduleRequest,
};
use boxing_gym_backend::pages::{blog_post_page, booking_page, schedule_page};

const ID: &str = "0f8fad5b-d9cb-469f-a165-70867728950e";
const T0: &str = "2024-01-01T10:00:00+00:00";
const T1: &str = "2024-02-02T12:30:00+00:00";

fn session(max_capacity: i32, current_enrollment: i32) -> CourseSchedule {
    let req = CreateScheduleRequest {
        course_id: "course-1".to_string(),
        instructor_id: None,
        scheduled_date: "2024-03-04".to_string(),
        start_time: "18:00".to_string(),
        end_time: "19:00".to_string(),
        max_capacity: Some(max_capacity),
        location: Some("Ring A".to_string()),
        notes: None,
    };
    let mut s = build_schedule(&req, 20, ID.to_string(), T0.to_string());
    s.current_enrollment = current_enrollment;
    s
}

fn booking(status: BookingStatus, position: Option<i32>) -> Booking {
    let req = CreateBookingRequest { schedule_id: "sched-1".to_string(), notes: Some("first time".to_string()) };
    build_booking("member-1", &req, status, position, ID.to_string(), T0.to_string())
}

#[test]
fn schedule_created_with_default_capacity() {
    let req = CreateScheduleRequest {
        course_id: "course-1".to_string(),
        instructor_id: Some("coach".to_string()),
        scheduled_date: "2024-03-04".to_string(),
        start_time: "18:00".to_string(),
        end_time: "19:00".to_string(),
        max_capacity: None,
        location: None,
        notes: None,
    };
    let s = build_schedule(&req, 16, ID.to_string(), T0.to_string());
    assert_eq!(s.max_capacity, 16);
    assert_eq!(s.current_enrollment, 0);
    assert_eq!(s.status, "scheduled");
    let shown = CourseScheduleResponse::from(s);
    assert_eq!(shown.available_spots, 16);
    assert_eq!(shown.status, ScheduleStatus::Scheduled);
    assert!(shown.course_name.is_none() && shown.instructor_name.is_none());
}

#[test]
fn seats_left() {
    assert_eq!(available_spots(10, 3), 7);
    assert_eq!(available_spots(10, 12), -2);
    assert_eq!(available_spots(i32::MIN, 1), i32::MAX);
    assert!(schedule_has_room(&session(2, 1)));
    assert!(!schedule_has_room(&session(2, 2)));
}

#[test]
fn schedule_update_and_cancel() {
    let s = session(10, 4);
    let req = UpdateScheduleRequest {
        instructor_id: Some("coach-2".to_string()),
        scheduled_date: None,
        start_time: Some("17:30".to_string()),
        end_time: None,
        max_capacity: None,
        location: None,
        status: Some(ScheduleStatus::Completed),
        notes: None,
    };
    let r = merge_schedule_update(s.clone(), &req, T1.to_string());
    assert_eq!(r.instructor_id.as_deref(), Some("coach-2"));
    assert_eq!(r.start_time, "17:30");
    assert_eq!(r.end_time, "19:00");
    assert_eq!(r.current_enrollment, 4);
    assert_eq!(r.status, "completed");
    assert_eq!(r.updated_at, T1);
    let c = cancel_schedule_at(s, T1.to_string());
    assert_eq!(c.status, "cancelled");
    assert_eq!(c.current_enrollment, 4);
    assert_eq!(c.location.as_deref(), Some("Ring A"));
}

#[test]
fn booking_confirmed_while_a_seat_is_free() {
    let p = plan_booking(&session(10, 9), None);
    assert_eq!(p.status, BookingStatus::Confirmed);
    assert_eq!(p.waitlist_position, None);
    assert!(p.takes_seat);
    assert_eq!(p.message, "Booking confirmed");
}

#[test]
fn booking_waitlisted_when_full() {
    let p = plan_booking(&session(10, 10), Some(3));
    assert_eq!(p.status, BookingStatus::Waitlisted);
    assert_eq!(p.waitlist_position, Some(3));
    assert!(!p.takes_seat);
    assert_eq!(p.message, "Added to waitlist at position 3");
    let q = plan_booking(&session(1, 5), Some(12));
    assert_eq!(q.message, "Added to waitlist at position 12");
}

#[test]
fn waitlist_positions() {
    assert_eq!(next_waitlist_position(None), 1);
    assert_eq!(next_waitlist_position(Some(1)), 2);
    assert_eq!(next_waitlist_position(Some(41)), 42);
}

#[test]
fn booking_limits_and_duplicates() {
    assert!(check_weekly_limit(3, 2).is_ok());
    match check_weekly_limit(3, 3) {
        Err(AppError::ValidationError(m)) => assert_eq!(m, "You have reached your weekly booking limit"),
        other => panic!("unexpected {:?}", other),
    }
    assert!(check_monthly_limit(10, 0).is_ok());
    match check_monthly_limit(10, 11) {
        Err(AppError::ValidationError(m)) => assert_eq!(m, "You have reached your monthly booking limit"),
        other => panic!("unexpected {:?}", other),
    }
    assert!(check_not_booked_yet(false).is_ok());
    match check_not_booked_yet(true) {
        Err(AppError::ConflictError(m)) => assert_eq!(m, "You already have a booking for this class"),
        other => panic!("unexpected {:?}", other),
    }
}

#[test]
fn booking_created_updated_cancelled_and_promoted() {
    let b = booking(BookingStatus::Confirmed, None);
    assert_eq!(b.member_id, "member-1");
    assert_eq!(b.schedule_id, "sched-1");
    assert_eq!(b.status, "confirmed");
    assert_eq!(b.booked_at, T0);
    assert!(!b.attended && b.cancelled_at.is_none());
    assert!(frees_seat_on_cancel(&b));

    let upd = UpdateBookingRequest { status: Some(BookingStatus::Completed), attended: Some(true), notes: None };
    let r = merge_booking_update(b.clone(), &upd, T1.to_string());
    assert_eq!(r.status, "completed");
    assert!(r.attended);
    assert_eq!(r.notes.as_deref(), Some("first time"));
    assert!(!frees_seat_on_cancel(&r));

    let c = cancel_booking_at(b, Some("sick".to_string()), T1.to_string());
    assert_eq!(c.status, "cancelled");
    assert_eq!(c.cancelled_at.as_deref(), Some(T1));
    assert_eq!(c.cancellation_reason.as_deref(), Some("sick"));
    assert_eq!(c.booked_at, T0);
    assert!(!frees_seat_on_cancel(&c));

    let w = booking(BookingStatus::Waitlisted, Some(2));
    assert!(!frees_seat_on_cancel(&w));
    let p = promote_booking_at(w, T1.to_string());
    assert_eq!(p.status, "confirmed");
    assert_eq!(p.waitlist_position, None);
    assert!(frees_seat_on_cancel(&p));
    let shown = BookingResponse::from(p);
    assert_eq!(shown.status, BookingStatus::Confirmed);
}

#[test]
fn pages_keep_rows_in_order() {
    let rows = vec![booking(BookingStatus::Confirmed, None), booking(BookingStatus::Waitlisted, Some(1))];
    let page = booking_page(rows, 7, 2, 2);
    assert_eq!((page.total, page.page, page.per_page), (7, 2, 2));
    assert_eq!(page.bookings.len(), 2);
    assert_eq!(page.bookings[1].status, BookingStatus::Waitlisted);
    let sp = schedule_page(vec![session(5, 1)], 1, 1, 20);
    assert_eq!(sp.schedules[0].available_spots, 4);
}

fn post_request(title: &str) -> CreateBlogPostRequest {
    CreateBlogPostRequest {
        title: title.to_string(),
        slug: None,
        summary: Some("Essential boxing tips for beginners".to_string()),
        content: "Here are some tips for improving your boxing technique...".to_string(),
        category: Some(BlogCategory::Training),
        tags: Some(vec!["boxing".to_string(), "tips".to_string(), "training".to_string()]),
        featured_image_url: None,
        is_featured: None,
        publish_immediately: None,
    }
}

fn stored_post() -> BlogPost {
    let req = post_request("Boxing Training Tips");
    let slug = blog_slug_candidate(&req);
    build_blog_post(&req, "admin-1", slug, false, ID.to_string(), T0.to_string())
}

#[test]
fn blog_post_created_as_draft() {
    let p = stored_post();
    assert_eq!(p.title, "Boxing Training Tips");
    assert_eq!(p.slug, "boxing-training-tips");
    assert_eq!(p.status, "draft");
    assert_eq!(p.category, "training");
    assert_eq!(p.tags.as_deref(), Some("boxing,tips,training"));
    assert!(p.publish_date.is_none());
    assert_eq!(p.view_count, 0);
    let shown = BlogPostResponse::from(p);
    assert_eq!(shown.tags, vec!["boxing", "tips", "training"]);
    assert_eq!(shown.status, BlogPostStatus::Draft);
    assert_eq!(shown.category, BlogCategory::Training);
}

#[test]
fn blog_post_slug_taken_gets_id_suffix() {
    let req = post_request("Boxing Training Tips");
    let p = build_blog_post(&req, "admin-1", "boxing-training-tips".to_string(), true, ID.to_string(), T0.to_string());
    assert_eq!(p.slug, "boxing-training-tips-0f8fad5b");
    let fresh = new_blog_post(&req, "admin-1", "boxing-training-tips".to_string(), true);
    assert!(fresh.slug.starts_with("boxing-training-tips-"));
    assert_eq!(fresh.slug, format!("boxing-training-tips-{}", &fresh.id[..8]));
    let mut given = post_request("Whatever");
    given.slug = Some("my-own-slug".to_string());
    assert_eq!(blog_slug_candidate(&given), "my-own-slug");
}

#[test]
fn blog_post_published_immediately() {
    let mut req = post_request("Breaking News");
    req.publish_immediately = Some(true);
    req.category = None;
    req.tags = None;
    let p = build_blog_post(&req, "admin-1", blog_slug_candidate(&req), false, ID.to_string(), T0.to_string());
    assert_eq!(p.status, "published");
    assert_eq!(p.publish_date.as_deref(), Some(T0));
    assert_eq!(p.category, "news");
    assert_eq!(p.tags.as_deref(), Some(""));
    assert!(check_publicly_visible(&p).is_ok());
}

#[test]
fn blog_post_update_publish_and_archive() {
    let p = stored_post();
    match check_publicly_visible(&p) {
        Err(AppError::NotFound(m)) => assert_eq!(m, "Blog post not found"),
        other => panic!("unexpected {:?}", other),
    }
    let upd = UpdateBlogPostRequest {
        title: Some("Better Tips".to_string()),
        slug: None,
        summary: None,
        content: None,
        category: None,
        tags: Some(vec!["jab".to_string(), "cross".to_string()]),
        featured_image_url: None,
        status: Some(BlogPostStatus::Published),
        is_featured: Some(true),
    };
    let r = merge_blog_post_update(p.clone(), &upd, T1.to_string());
    assert_eq!(r.title, "Better Tips");
    assert_eq!(r.slug, "boxing-training-tips");
    assert_eq!(r.tags.as_deref(), Some("jab,cross"));
    assert_eq!(r.status, "published");
    assert_eq!(r.publish_date.as_deref(), Some(T1));
    assert!(r.is_featured);
    let published = publish_blog_post_at(p, T1.to_string());
    assert_eq!(published.status, "published");
    assert_eq!(published.publish_date.as_deref(), Some(T1));
    let archived = archive_blog_post_at(published, "2024-07-07T00:00:00+00:00".to_string());
    assert_eq!(archived.status, "archived");
    assert_eq!(archived.publish_date.as_deref(), Some(T1));
    assert!(check_publicly_visible(&archived).is_err());
    let page = blog_post_page(vec![archived], 1, 1, 10);
    assert_eq!(page.posts[0].tags, vec!["boxing", "tips", "training"]);
    assert_eq!(page.posts[0].slug, "boxing-training-tips");
}

#[test]
fn transitions_stamped_now() {
    let p = publish_blog_post(stored_post());
    assert_eq!(p.status, "published");
    assert_eq!(p.publish_date.as_deref(), Some(p.updated_at.as_str()));
    assert_ne!(p.updated_at, T0);
    let a = archive_blog_post(p.clone());
    assert_eq!(a.status, "archived");
    assert_eq!(a.publish_date, p.publish_date);
    let c = cancel_booking(booking(BookingStatus::Confirmed, None), None);
    assert_eq!(c.status, "cancelled");
    assert_eq!(c.cancelled_at.as_deref(), Some(c.updated_at.as_str()));
    assert!(c.cancellation_reason.is_none());
    let w = promote_from_waitlist(booking(BookingStatus::Waitlisted, Some(4)));
    assert_eq!((w.status.as_str(), w.waitlist_position), ("confirmed", None));
    let s = cancel_schedule(session(3, 1));
    assert_eq!(s.status, "cancelled");
    assert_ne!(s.updated_at, T0);
}

#[test]
fn seat_taken_is_seat_freed() {
    let req = CreateBookingRequest { schedule_id: "sched-1".to_string(), notes: None };
    for (capacity, enrolled, next) in [(5, 2, None), (5, 5, Some(1)), (1, 0, None), (1, 3, Some(7))] {
        let plan = plan_booking(&session(capacity, enrolled), next);
        let b = build_booking("m", &req, plan.status, plan.waitlist_position, ID.to_string(), T0.to_string());
        assert_eq!(plan.takes_seat, frees_seat_on_cancel(&b));
    }
}

#[test]
fn seat_counts_follow_bookings() {
    let req = CreateBookingRequest { schedule_id: "sched-1".to_string(), notes: None };
    let free = plan_booking(&session(2, 1), None);
    assert_eq!(seat_change_on_booking(&free), 1);
    let full = plan_booking(&session(2, 2), Some(1));
    assert_eq!(seat_change_on_booking(&full), 0);
    let confirmed = build_booking("m", &req, free.status, free.waitlist_position, ID.to_string(), T0.to_string());
    let steps = cancellation_steps(&confirmed);
    assert_eq!((steps.seat_change, steps.promote_first_waiting), (-1, true));
    let waiting = build_booking("m", &req, full.status, full.waitlist_position, ID.to_string(), T0.to_string());
    let steps = cancellation_steps(&waiting);
    assert_eq!((steps.seat_change, steps.promote_first_waiting), (0, false));
    assert_eq!(seat_change_on_promotion(), 1);
    // enrollment 2 of 2; cancelling a confirmed booking and promoting the waiting one keeps 2 seats held
    let after = 2 + cancellation_steps(&confirmed).seat_change + seat_change_on_promotion();
    assert_eq!(after, 2);
}

#[test]
fn slugs_are_fixed_points_and_ignore_case() {
    for title in ["Hello,  World!", "  --Top 10 Tips!-- ", "Boxing Training Tips", "!!!", "a-B_c"] {
        let s = generate_slug(title);
        assert_eq!(generate_slug(&s), s);
        assert_eq!(generate_slug(&title.to_uppercase()), s);
    }
    assert_eq!(generate_slug("Hello,  World!"), "hello-world");
    assert_eq!(generate_slug("  --Top 10 Tips!-- "), "top-10-tips");
}

#[test]
fn ascii_tags_trimmed() {
    assert_eq!(read_tags(&Some(" jab ,\tcross\n, hook".to_string())), vec!["jab", "cross", "hook"]);
}
