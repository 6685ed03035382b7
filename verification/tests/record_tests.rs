use boxing_gym_backend::models::announcement::{archive_announcement, publish_announcement};
use boxing_gym_backend::models::member::{assign_membership, update_member_role};
use boxing_gym_backend::models::announcement::{
    archive_announcement_at, build_announcement, merge_announcement_update, new_announcement,
    publish_announcement_at, Announcement, AnnouncementPriority, AnnouncementResponse, AnnouncementStatus,
    CreateAnnouncementRequest, TargetAudience, UpdateAnnouncementRequest,
};
use boxing_gym_backend::models::member::{
    assign_membership_at, build_member, change_role_at, membership_period, merge_member_update, new_member,
    CreateMemberRequest,
    Member, MemberResponse, MemberRole, MemberStatus, UpdateMemberRequest,
};
use boxing_gym_backend::models::membership_plan::{
    build_membership_plan, merge_membership_plan_update, plan_list, CreateMembershipPlanRequest,
    MembershipPlanResponse, PlanDuration, UpdateMembershipPlanRequest,
};
use boxing_gym_backend::models::course::{
    build_course, merge_course_update, CourseResponse, CourseStatus, CourseType, CreateCourseRequest,
    DifficultyLevel, UpdateCourseRequest,
};

const ID: &str = "0f8fad5b-d9cb-469f-a165-70867728950e";
const T0: &str = "2024-01-01T10:00:00+00:00";
const T1: &str = "2024-02-02T12:30:00+00:00";

fn is_uuid(s: &str) -> bool {
    let cs: Vec<char> = s.chars().collect();
    cs.len() == 36
        && cs.iter().enumerate().all(|(i, c)| {
            if i == 8 || i == 13 || i == 18 || i == 23 {
                *c == '-'
            } else {
                c.is_ascii_digit() || ('a'..='f').contains(c)
            }
        })
}

fn announcement_request() -> CreateAnnouncementRequest {
    CreateAnnouncementRequest {
        title: "Holiday hours".to_string(),
        content: "Closed on Monday".to_string(),
        priority: None,
        target_audience: None,
        publish_date: Some("2024-03-01".to_string()),
        expiry_date: None,
        is_pinned: None,
        publish_immediately: None,
    }
}

fn empty_announcement_update() -> UpdateAnnouncementRequest {
    UpdateAnnouncementRequest {
        title: None,
        content: None,
        priority: None,
        status: None,
        target_audience: None,
        publish_date: None,
        expiry_date: None,
        is_pinned: None,
    }
}

fn stored_announcement() -> Announcement {
    build_announcement(&announcement_request(), "admin-1", ID.to_string(), T0.to_string())
}

#[test]
fn fresh_ids_are_uuids_and_differ() {
    let a = new_member(&member_request(), "h").id;
    let b = new_member(&member_request(), "h").id;
    assert!(is_uuid(&a), "{}", a);
    assert!(is_uuid(&b), "{}", b);
    assert_ne!(a, b);
    let t = new_member(&member_request(), "h").created_at;
    assert!(t.len() >= 20 && t.contains('T'), "{}", t);
}

#[test]
fn announcement_created_as_draft_with_defaults() {
    let a = stored_announcement();
    assert_eq!(a.id, ID);
    assert_eq!(a.title, "Holiday hours");
    assert_eq!(a.priority, "normal");
    assert_eq!(a.status, "draft");
    assert_eq!(a.target_audience, "all");
    assert_eq!(a.author_id, "admin-1");
    assert_eq!(a.publish_date.as_deref(), Some("2024-03-01"));
    assert!(!a.is_pinned);
    assert_eq!((a.created_at.as_str(), a.updated_at.as_str()), (T0, T0));
}

#[test]
fn announcement_published_immediately() {
    let mut req = announcement_request();
    req.publish_immediately = Some(true);
    req.priority = Some(AnnouncementPriority::Urgent);
    req.target_audience = Some(TargetAudience::Members);
    req.is_pinned = Some(true);
    let a = build_announcement(&req, "admin-1", ID.to_string(), T0.to_string());
    assert_eq!(a.status, "published");
    assert_eq!(a.publish_date.as_deref(), Some(T0));
    assert_eq!(a.priority, "urgent");
    assert_eq!(a.target_audience, "members");
    assert!(a.is_pinned);
    let fresh = new_announcement(&req, "admin-2");
    assert!(is_uuid(&fresh.id));
    assert_eq!(fresh.publish_date.as_deref(), Some(fresh.created_at.as_str()));
}

#[test]
fn announcement_update_replaces_given_fields() {
    let existing = stored_announcement();
    let mut req = empty_announcement_update();
    req.title = Some("New hours".to_string());
    req.is_pinned = Some(true);
    req.priority = Some(AnnouncementPriority::High);
    let r = merge_announcement_update(existing.clone(), &req, T1.to_string());
    assert_eq!(r.title, "New hours");
    assert_eq!(r.content, existing.content);
    assert_eq!(r.priority, "high");
    assert!(r.is_pinned);
    assert_eq!(r.status, "draft");
    assert_eq!(r.publish_date, existing.publish_date);
    assert_eq!(r.created_at, T0);
    assert_eq!(r.updated_at, T1);
}

#[test]
fn empty_announcement_update_only_touches_the_time() {
    let existing = stored_announcement();
    let r = merge_announcement_update(existing.clone(), &empty_announcement_update(), T1.to_string());
    assert_eq!(r.title, existing.title);
    assert_eq!(r.content, existing.content);
    assert_eq!(r.priority, existing.priority);
    assert_eq!(r.status, existing.status);
    assert_eq!(r.target_audience, existing.target_audience);
    assert_eq!(r.publish_date, existing.publish_date);
    assert_eq!(r.expiry_date, existing.expiry_date);
    assert_eq!(r.is_pinned, existing.is_pinned);
    assert_eq!(r.created_at, existing.created_at);
    assert_eq!(r.updated_at, T1);
}

#[test]
fn announcement_publication_is_dated_when_it_happens() {
    let existing = stored_announcement();
    let mut req = empty_announcement_update();
    req.status = Some(AnnouncementStatus::Published);
    let r = merge_announcement_update(existing, &req, T1.to_string());
    assert_eq!(r.status, "published");
    assert_eq!(r.publish_date.as_deref(), Some(T1));
    let mut again = empty_announcement_update();
    again.title = Some("Still published".to_string());
    let later = merge_announcement_update(r.clone(), &again, "2024-05-05T00:00:00+00:00".to_string());
    assert_eq!(later.publish_date.as_deref(), Some(T1));
}

#[test]
fn announcement_publish_and_archive() {
    let existing = stored_announcement();
    let p = publish_announcement_at(existing.clone(), T1.to_string());
    assert_eq!(p.status, "published");
    assert_eq!(p.publish_date.as_deref(), Some(T1));
    assert_eq!(p.updated_at, T1);
    assert_eq!(p.title, existing.title);
    let a = archive_announcement_at(p, "2024-06-01T00:00:00+00:00".to_string());
    assert_eq!(a.status, "archived");
    assert_eq!(a.publish_date.as_deref(), Some(T1));
    assert_eq!(a.updated_at, "2024-06-01T00:00:00+00:00");
    let shown = AnnouncementResponse::from(a);
    assert_eq!(shown.status, AnnouncementStatus::Archived);
    assert_eq!(shown.priority, AnnouncementPriority::Normal);
    assert_eq!(shown.target_audience, TargetAudience::All);
}

fn member_request() -> CreateMemberRequest {
    CreateMemberRequest {
        email: "ana@example.com".to_string(),
        password: "secret1".to_string(),
        first_name: "Ana".to_string(),
        last_name: "Ring".to_string(),
        phone: Some("555-0101".to_string()),
        date_of_birth: None,
        emergency_contact_name: None,
        emergency_contact_phone: None,
    }
}

fn stored_member() -> Member {
    build_member(&member_request(), "$2b$hash", ID.to_string(), T0.to_string())
}

#[test]
fn member_registers_as_active_plain_member() {
    let m = stored_member();
    assert_eq!(m.id, ID);
    assert_eq!(m.email, "ana@example.com");
    assert_eq!(m.password_hash, "$2b$hash");
    assert_eq!(m.status, "active");
    assert_eq!(m.role, "member");
    assert_eq!(m.phone.as_deref(), Some("555-0101"));
    assert!(m.membership_plan_id.is_none());
    assert!(m.membership_start_date.is_none() && m.membership_end_date.is_none());
    let fresh = new_member(&member_request(), "$2b$other");
    assert!(is_uuid(&fresh.id));
    assert_eq!(fresh.created_at, fresh.updated_at);
    let shown = MemberResponse::from(stored_member());
    assert_eq!(shown.status, MemberStatus::Active);
    assert_eq!(shown.role, MemberRole::Member);
}

#[test]
fn member_update_keeps_role_and_plan() {
    let existing = stored_member();
    let req = UpdateMemberRequest {
        email: None,
        first_name: Some("Anna".to_string()),
        last_name: None,
        phone: None,
        date_of_birth: Some("1990-04-04".to_string()),
        emergency_contact_name: None,
        emergency_contact_phone: None,
        status: Some(MemberStatus::Suspended),
    };
    let r = merge_member_update(existing.clone(), &req, T1.to_string());
    assert_eq!(r.first_name, "Anna");
    assert_eq!(r.last_name, "Ring");
    assert_eq!(r.date_of_birth.as_deref(), Some("1990-04-04"));
    assert_eq!(r.phone.as_deref(), Some("555-0101"));
    assert_eq!(r.status, "suspended");
    assert_eq!(r.role, "member");
    assert_eq!(r.password_hash, existing.password_hash);
    assert_eq!(r.updated_at, T1);
}

#[test]
fn membership_assignment_and_role_change() {
    let mut existing = stored_member();
    existing.status = "expired".to_string();
    let m = assign_membership_at(existing, "plan-9", "2024-02-02".to_string(), "2024-03-03".to_string(), T1.to_string());
    assert_eq!(m.membership_plan_id.as_deref(), Some("plan-9"));
    assert_eq!(m.membership_start_date.as_deref(), Some("2024-02-02"));
    assert_eq!(m.membership_end_date.as_deref(), Some("2024-03-03"));
    assert_eq!(m.status, "active");
    assert_eq!(m.updated_at, T1);
    assert_eq!(m.created_at, T0);
    let r = change_role_at(m, MemberRole::Instructor, "2024-04-04T00:00:00+00:00".to_string());
    assert_eq!(r.role, "instructor");
    assert_eq!(r.membership_plan_id.as_deref(), Some("plan-9"));
    assert_eq!(r.updated_at, "2024-04-04T00:00:00+00:00");
}

#[test]
fn plan_created_and_updated() {
    let req = CreateMembershipPlanRequest {
        name: "Gold".to_string(),
        description: None,
        duration: PlanDuration::Quarterly,
        price: 120.5f64,
        max_bookings_per_week: Some(3),
        max_bookings_per_month: None,
        includes_personal_training: None,
        personal_training_sessions: None,
    };
    let p = build_membership_plan(&req, ID.to_string(), T0.to_string());
    assert_eq!(p.duration, "quarterly");
    assert_eq!(p.price, 120.5);
    assert!(p.is_active);
    assert!(!p.includes_personal_training);
    assert_eq!(p.personal_training_sessions, 0);
    let shown = MembershipPlanResponse::from(p.clone());
    assert_eq!(shown.duration, PlanDuration::Quarterly);
    assert_eq!(shown.duration_days, 90);
    let upd = UpdateMembershipPlanRequest {
        name: None,
        description: Some("Three months".to_string()),
        duration: Some(PlanDuration::Annual),
        price: Some(400.0),
        max_bookings_per_week: None,
        max_bookings_per_month: Some(12),
        includes_personal_training: None,
        personal_training_sessions: None,
        is_active: Some(false),
    };
    let r = merge_membership_plan_update(p, &upd, T1.to_string());
    assert_eq!(r.name, "Gold");
    assert_eq!(r.duration, "annual");
    assert_eq!(r.price, 400.0);
    assert_eq!(r.max_bookings_per_week, Some(3));
    assert_eq!(r.max_bookings_per_month, Some(12));
    assert!(!r.is_active);
    let list = plan_list(vec![r.clone(), r]);
    assert_eq!(list.total, 2);
    assert_eq!(list.plans[1].duration_days, 365);
}

#[test]
fn course_created_shown_and_updated() {
    let req = CreateCourseRequest {
        name: "Boxing basics".to_string(),
        description: None,
        course_type: CourseType::GroupClass,
        difficulty_level: None,
        instructor_id: Some("coach-1".to_string()),
        max_capacity: 12,
        duration_minutes: 60,
        price: 15.0f64,
    };
    let c = build_course(&req, ID.to_string(), T0.to_string());
    assert_eq!(c.course_type, "group_class");
    assert_eq!(c.difficulty_level, "all_levels");
    assert_eq!(c.status, "active");
    assert_eq!(c.current_enrollment, 0);
    let mut busy = c.clone();
    busy.current_enrollment = 5;
    let shown = CourseResponse::from(busy);
    assert_eq!(shown.available_spots, 7);
    assert_eq!(shown.course_type, CourseType::GroupClass);
    assert_eq!(shown.difficulty_level, DifficultyLevel::AllLevels);
    assert!(shown.instructor_name.is_none());
    let upd = UpdateCourseRequest {
        name: None,
        description: None,
        course_type: None,
        difficulty_level: Some(DifficultyLevel::Advanced),
        instructor_id: None,
        max_capacity: Some(20),
        duration_minutes: None,
        price: None,
        status: Some(CourseStatus::Full),
    };
    let r = merge_course_update(c, &upd, T1.to_string());
    assert_eq!(r.difficulty_level, "advanced");
    assert_eq!(r.max_capacity, 20);
    assert_eq!(r.status, "full");
    assert_eq!(r.price, 15.0);
    assert_eq!(r.instructor_id.as_deref(), Some("coach-1"));
    assert_eq!(r.updated_at, T1);
}

#[test]
fn membership_periods() {
    let (start, end) = membership_period("per_session".to_string());
    assert_eq!(start, end);
    assert_eq!(start.len(), 10);
    assert_eq!(&start[4..5], "-");
    let (start, end) = membership_period("MONTHLY".to_string());
    assert_eq!((start.len(), end.len()), (10, 10));
    assert!(end > start);
    let (start, end) = membership_period("annual".to_string());
    assert!(end > start);
}

#[test]
fn account_and_announcement_transitions_stamped_now() {
    let p = publish_announcement(stored_announcement());
    assert_eq!(p.status, "published");
    assert_eq!(p.publish_date.as_deref(), Some(p.updated_at.as_str()));
    let a = archive_announcement(p.clone());
    assert_eq!(a.status, "archived");
    assert_eq!(a.publish_date, p.publish_date);
    let m = assign_membership(stored_member(), "plan-1", "2024-01-01".to_string(), "2024-01-31".to_string());
    assert_eq!(m.membership_plan_id.as_deref(), Some("plan-1"));
    assert_ne!(m.updated_at, T0);
    let r = update_member_role(m, MemberRole::Admin);
    assert_eq!(r.role, "admin");
}
