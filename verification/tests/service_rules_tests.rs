use boxing_gym_backend::error::AppError;
use boxing_gym_backend::models::announcement::CreateAnnouncementRequest;
use boxing_gym_backend::models::blog::CreateBlogPostRequest;
use boxing_gym_backend::models::course::{CourseType, CreateCourseRequest, UpdateCourseRequest};
use boxing_gym_backend::models::member::{
    check_email_unused, CreateMemberRequest, LoginRequest, UpdateMemberRequest,
};
use boxing_gym_backend::models::membership_plan::{CreateMembershipPlanRequest, PlanDuration};
use boxing_gym_backend::models::schedule::CreateScheduleRequest;
use boxing_gym_backend::models::{ApiResponse, MessageResponse, PaginationQuery};
use boxing_gym_backend::sql::{
    active_announcements_sql, announcement_list_sql, blog_post_list_sql, booking_list_sql, course_list_sql,
    member_list_sql, membership_plan_list_sql, schedule_list_sql,
};
use boxing_gym_backend::validation::{email_ok, finish, length_ok};

fn validation_message(r: Result<(), AppError>) -> String {
    match r {
        Err(AppError::ValidationError(m)) => m,
        other => panic!("expected a validation error, got {:?}", other),
    }
}

fn registration(email: &str, password: &str, first: &str, last: &str) -> CreateMemberRequest {
    CreateMemberRequest {
        email: email.to_string(),
        password: password.to_string(),
        first_name: first.to_string(),
        last_name: last.to_string(),
        phone: None,
        date_of_birth: None,
        emergency_contact_name: None,
        emergency_contact_phone: None,
    }
}

#[test]
fn pagination_defaults_and_bounds() {
    let q = PaginationQuery { page: None, per_page: None };
    assert_eq!((q.get_page(), q.get_per_page(), q.get_offset()), (1, 20, 0));
    let q = PaginationQuery { page: Some(3), per_page: Some(10) };
    assert_eq!((q.get_page(), q.get_per_page(), q.get_offset()), (3, 10, 20));
    let q = PaginationQuery { page: Some(0), per_page: Some(0) };
    assert_eq!((q.get_page(), q.get_per_page(), q.get_offset()), (1, 1, 0));
    let q = PaginationQuery { page: Some(-5), per_page: Some(500) };
    assert_eq!((q.get_page(), q.get_per_page(), q.get_offset()), (1, 100, 0));
    let q = PaginationQuery { page: Some(2), per_page: Some(100) };
    assert_eq!(q.get_offset(), 100);
}

#[test]
fn consecutive_pages_follow_each_other() {
    for per_page in [None, Some(7), Some(1000)] {
        let q = PaginationQuery { page: Some(4), per_page };
        let next = PaginationQuery { page: Some(5), per_page };
        assert_eq!(next.get_offset(), q.get_offset() + q.get_per_page());
    }
}

#[test]
fn envelopes() {
    let r = ApiResponse::success(5);
    assert!(r.success);
    assert_eq!(r.data, Some(5));
    assert!(r.message.is_none());
    let r = ApiResponse::success_with_message("x", "Booking confirmed");
    assert_eq!(r.message.as_deref(), Some("Booking confirmed"));
    let m = MessageResponse::new("Member deleted successfully");
    assert!(m.success);
    assert_eq!(m.message, "Member deleted successfully");
}

#[test]
fn errors_are_reported_with_status_and_code() {
    let cases = [
        (AppError::DatabaseError("x".to_string()), 500, "database_error", "Database error: x"),
        (AppError::NotFound("Member not found".to_string()), 404, "not_found", "Not found: Member not found"),
        (AppError::ValidationError("v".to_string()), 400, "validation_error", "Validation error: v"),
        (AppError::AuthenticationError("a".to_string()), 401, "authentication_error", "Authentication error: a"),
        (AppError::AuthorizationError("z".to_string()), 403, "authorization_error", "Authorization error: z"),
        (AppError::ConflictError("c".to_string()), 409, "conflict", "Conflict: c"),
        (AppError::InternalError("i".to_string()), 500, "internal_error", "Internal error: i"),
    ];
    for (e, status, code, text) in cases {
        assert_eq!(e.status_code(), status);
        assert_eq!(e.error_code(), code);
        assert_eq!(e.to_string(), text);
    }
    assert_eq!(AppError::ConflictError("Email already registered".to_string()).message(), "Email already registered");
}

#[test]
fn field_lengths_count_characters() {
    assert!(length_ok("é", Some(1), Some(1)));
    assert!(!length_ok("", Some(1), None));
    assert!(length_ok("", None, None));
    assert!(!length_ok("abcdef", None, Some(5)));
    assert!(length_ok(&"x".repeat(200), Some(1), Some(200)));
    assert!(!length_ok(&"x".repeat(201), Some(1), Some(200)));
}

#[test]
fn email_addresses() {
    assert!(email_ok("ana@example.com"));
    assert!(!email_ok("not-an-email"));
    assert!(!email_ok(""));
    assert!(!email_ok("@example.com"));
    assert!(finish(vec![]).is_ok());
    assert_eq!(validation_message(finish(vec!["a: b".to_string(), "c: d".to_string()])), "a: b\nc: d");
}

#[test]
fn registration_rules() {
    assert!(registration("ana@example.com", "secret1", "Ana", "Ring").validate().is_ok());
    assert_eq!(
        validation_message(registration("ana@example.com", "short", "Ana", "Ring").validate()),
        "password: Password must be at least 6 characters"
    );
    assert_eq!(
        validation_message(registration("bad", "x", "", "").validate()),
        "email: Invalid email format\npassword: Password must be at least 6 characters\nfirst_name: First name is required\nlast_name: Last name is required"
    );
    let login = LoginRequest { email: "nobody".to_string(), password: "whatever".to_string() };
    assert_eq!(validation_message(login.validate()), "email: Invalid email format");
    let ok_login = LoginRequest { email: "ana@example.com".to_string(), password: String::new() };
    assert!(ok_login.validate().is_ok());
    let upd = UpdateMemberRequest {
        email: Some("broken".to_string()),
        first_name: None,
        last_name: None,
        phone: None,
        date_of_birth: None,
        emergency_contact_name: None,
        emergency_contact_phone: None,
        status: None,
    };
    assert_eq!(validation_message(upd.validate()), "email: Invalid email format");
    assert!(check_email_unused(false).is_ok());
    match check_email_unused(true) {
        Err(AppError::ConflictError(m)) => assert_eq!(m, "Email already registered"),
        other => panic!("unexpected {:?}", other),
    }
}

#[test]
fn content_rules() {
    let a = CreateAnnouncementRequest {
        title: "x".repeat(201),
        content: String::new(),
        priority: None,
        target_audience: None,
        publish_date: None,
        expiry_date: None,
        is_pinned: None,
        publish_immediately: None,
    };
    assert_eq!(
        validation_message(a.validate()),
        "title: Title must be between 1 and 200 characters\ncontent: Content is required"
    );
    let b = CreateBlogPostRequest {
        title: String::new(),
        slug: None,
        summary: None,
        content: "body".to_string(),
        category: None,
        tags: None,
        featured_image_url: None,
        is_featured: None,
        publish_immediately: None,
    };
    assert_eq!(validation_message(b.validate()), "title: Title must be between 1 and 200 characters");
    let s = CreateScheduleRequest {
        course_id: "c".to_string(),
        instructor_id: None,
        scheduled_date: "2024-01-01".to_string(),
        start_time: "10:00".to_string(),
        end_time: "11:00".to_string(),
        max_capacity: Some(0),
        location: None,
        notes: None,
    };
    assert_eq!(validation_message(s.validate()), "max_capacity: Max capacity must be at least 1");
}

#[test]
fn course_and_plan_rules() {
    let c = CreateCourseRequest {
        name: String::new(),
        description: None,
        course_type: CourseType::Workshop,
        difficulty_level: None,
        instructor_id: None,
        max_capacity: 0,
        duration_minutes: 10,
        price: -1.0f64,
    };
    assert_eq!(
        validation_message(c.validate(c.price < 0.0)),
        "name: Course name is required\nmax_capacity: Max capacity must be at least 1\nduration_minutes: Duration must be at least 15 minutes\nprice: Price cannot be negative"
    );
    let fine = CreateCourseRequest { name: "Sparring".to_string(), max_capacity: 8, duration_minutes: 15, price: 0.0, ..c };
    assert!(fine.validate(fine.price < 0.0).is_ok());
    let u: UpdateCourseRequest<f64> = UpdateCourseRequest {
        name: None,
        description: None,
        course_type: None,
        difficulty_level: None,
        instructor_id: None,
        max_capacity: None,
        duration_minutes: Some(14),
        price: Some(-3.0),
        status: None,
    };
    assert_eq!(
        validation_message(u.validate(true)),
        "duration_minutes: Duration must be at least 15 minutes\nprice: Price cannot be negative"
    );
    let p = CreateMembershipPlanRequest {
        name: String::new(),
        description: None,
        duration: PlanDuration::Monthly,
        price: -10.0f64,
        max_bookings_per_week: None,
        max_bookings_per_month: None,
        includes_personal_training: None,
        personal_training_sessions: None,
    };
    assert_eq!(
        validation_message(p.validate(p.price < 0.0)),
        "name: Plan name is required\nprice: Price cannot be negative"
    );
}

#[test]
fn listing_statements() {
    let q = member_list_sql(Some("active"), None);
    assert_eq!(q.count_sql, "SELECT COUNT(*) FROM members WHERE 1=1 AND status = 'active'");
    assert_eq!(
        q.select_sql,
        "SELECT * FROM members WHERE 1=1 AND status = 'active' ORDER BY created_at DESC LIMIT ? OFFSET ?"
    );
    let q = course_list_sql(None, Some("beginner"), Some("active"));
    assert_eq!(
        q.count_sql,
        "SELECT COUNT(*) FROM courses WHERE 1=1 AND difficulty_level = 'beginner' AND status = 'active'"
    );
    let q = schedule_list_sql(Some("c1"), None, Some("2024-01-01"), Some("2024-01-31"), None);
    assert_eq!(
        q.select_sql,
        "SELECT * FROM course_schedules WHERE 1=1 AND course_id = 'c1' AND scheduled_date >= '2024-01-01' AND scheduled_date <= '2024-01-31' ORDER BY scheduled_date ASC, start_time ASC LIMIT ? OFFSET ?"
    );
    let q = booking_list_sql(None, None, None);
    assert_eq!(q.count_sql, "SELECT COUNT(*) FROM bookings WHERE 1=1");
    assert_eq!(q.select_sql, "SELECT * FROM bookings WHERE 1=1 ORDER BY booked_at DESC LIMIT ? OFFSET ?");
    let q = announcement_list_sql(Some("published"), None, Some("members"), true);
    assert_eq!(
        q.count_sql,
        "SELECT COUNT(*) FROM announcements WHERE 1=1 AND status = 'published' AND target_audience = 'members' AND is_pinned = 1"
    );
    let q = blog_post_list_sql(Some("published"), None, Some("tips"), true, Some("a1"));
    assert_eq!(
        q.select_sql,
        "SELECT * FROM blog_posts WHERE 1=1 AND status = 'published' AND tags LIKE '%tips%' AND is_featured = 1 AND author_id = 'a1' ORDER BY is_featured DESC, publish_date DESC, created_at DESC LIMIT ? OFFSET ?"
    );
    assert_eq!(
        active_announcements_sql("2024-01-01T00:00:00+00:00", Some("members")),
        "SELECT * FROM announcements WHERE status = 'published' AND (expiry_date IS NULL OR expiry_date > '2024-01-01T00:00:00+00:00') AND (target_audience = 'members' OR target_audience = 'all') ORDER BY is_pinned DESC, priority DESC, publish_date DESC"
    );
    assert_eq!(
        active_announcements_sql("now", None),
        "SELECT * FROM announcements WHERE status = 'published' AND (expiry_date IS NULL OR expiry_date > 'now') ORDER BY is_pinned DESC, priority DESC, publish_date DESC"
    );
    assert_eq!(membership_plan_list_sql(false), "SELECT * FROM membership_plans WHERE is_active = 1 ORDER BY price ASC");
    assert_eq!(membership_plan_list_sql(true), "SELECT * FROM membership_plans ORDER BY price ASC");
}
