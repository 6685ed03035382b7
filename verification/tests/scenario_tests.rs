use boxing_gym_backend::auth::{
    check_can_update_member, check_can_view_member, hash_new_password, invalid_credentials, issue_claims,
    require_admin, require_instructor_or_admin, token_from_auth_header, user_from_claims, verify_login_password,
    AuthenticatedUser,
};
use boxing_gym_backend::error::AppError;
use boxing_gym_backend::models::announcement::{
    archive_announcement_at, new_announcement, merge_announcement_update, publish_announcement_at,
    AnnouncementPriority, AnnouncementResponse, AnnouncementStatus, CreateAnnouncementRequest, TargetAudience,
    UpdateAnnouncementRequest,
};
use boxing_gym_backend::models::blog::{
    archive_blog_post_at, blog_slug_candidate, check_publicly_visible, merge_blog_post_update, new_blog_post,
    publish_blog_post_at, BlogCategory, BlogPostResponse, BlogPostStatus, CreateBlogPostRequest,
    UpdateBlogPostRequest,
};
use boxing_gym_backend::models::course::{
    merge_course_update, new_course, CourseResponse, CourseType, CreateCourseRequest, DifficultyLevel,
    UpdateCourseRequest,
};
use boxing_gym_backend::models::member::{
    check_email_unused, merge_member_update, new_member, CreateMemberRequest, LoginRequest, MemberResponse,
    MemberRole, UpdateMemberRequest,
};
use boxing_gym_backend::models::ApiResponse;
use boxing_gym_backend::pages::{announcement_page, blog_post_page, member_page};
use boxing_gym_backend::sql::active_announcements_sql;

const NOW: &str = "2024-01-15T09:00:00+00:00";

fn caller(id: &str, role: MemberRole) -> AuthenticatedUser {
    AuthenticatedUser { id: id.to_string(), email: format!("{}@example.com", id), role }
}

fn admin() -> AuthenticatedUser {
    caller("admin-id", MemberRole::Admin)
}

fn registration(email: &str, password: &str, first: &str, last: &str) -> CreateMemberRequest {
    CreateMemberRequest {
        email: email.to_string(),
        password: password.to_string(),
        first_name: first.to_string(),
        last_name: last.to_string(),
        phone: None,
        date_of_birth: None,
        emergency_contact_name: None,
        emergency_contact_phone: None,
    }
}

fn announcement(title: &str, content: &str) -> CreateAnnouncementRequest {
    CreateAnnouncementRequest {
        title: title.to_string(),
        content: content.to_string(),
        priority: None,
        target_audience: None,
        publish_date: None,
        expiry_date: None,
        is_pinned: None,
        publish_immediately: None,
    }
}

fn post(title: &str, content: &str) -> CreateBlogPostRequest {
    CreateBlogPostRequest {
        title: title.to_string(),
        slug: None,
        summary: None,
        content: content.to_string(),
        category: None,
        tags: None,
        featured_image_url: None,
        is_featured: None,
        publish_immediately: None,
    }
}

fn status_of(e: &AppError) -> u16 {
    e.status_code()
}

#[test]
fn test_create_announcement() {
    assert!(require_admin(&admin()).is_ok());
    let mut req = announcement("Gym Closure Notice", "The gym will be closed on January 20th for maintenance.");
    req.priority = Some(AnnouncementPriority::High);
    req.target_audience = Some(TargetAudience::All);
    assert!(req.validate().is_ok());
    let shown = AnnouncementResponse::from(new_announcement(&req, &admin().id));
    let body = ApiResponse::success(shown);
    assert!(body.success);
    let data = body.data.unwrap();
    assert_eq!(data.title, "Gym Closure Notice");
    assert_eq!(data.status, AnnouncementStatus::Draft);
    assert_eq!(data.priority, AnnouncementPriority::High);
}

#[test]
fn test_create_announcement_publish_immediately() {
    let mut req = announcement("Urgent Notice", "Important message for all members.");
    req.priority = Some(AnnouncementPriority::Urgent);
    req.publish_immediately = Some(true);
    let shown = AnnouncementResponse::from(new_announcement(&req, &admin().id));
    assert_eq!(shown.status, AnnouncementStatus::Published);
    assert!(shown.publish_date.is_some());
}

#[test]
fn test_list_announcements() {
    let a = new_announcement(&announcement("Test Announcement", "Test content"), &admin().id);
    let page = announcement_page(vec![a], 1, 1, 20);
    assert!(!page.announcements.is_empty());
    assert_eq!(page.announcements[0].title, "Test Announcement");
}

#[test]
fn test_publish_announcement() {
    let draft = new_announcement(&announcement("Draft Announcement", "This will be published."), &admin().id);
    let shown = AnnouncementResponse::from(publish_announcement_at(draft, NOW.to_string()));
    assert_eq!(shown.status, AnnouncementStatus::Published);
    assert_eq!(shown.publish_date.as_deref(), Some(NOW));
}

#[test]
fn test_archive_announcement() {
    let mut req = announcement("To Archive", "This will be archived.");
    req.publish_immediately = Some(true);
    let published = new_announcement(&req, &admin().id);
    let shown = AnnouncementResponse::from(archive_announcement_at(published, NOW.to_string()));
    assert_eq!(shown.status, AnnouncementStatus::Archived);
}

#[test]
fn test_update_announcement() {
    let existing = new_announcement(&announcement("Original Title", "Original content"), &admin().id);
    let changes = UpdateAnnouncementRequest {
        title: Some("Updated Title".to_string()),
        content: None,
        priority: Some(AnnouncementPriority::Urgent),
        status: None,
        target_audience: None,
        publish_date: None,
        expiry_date: None,
        is_pinned: Some(true),
    };
    let shown = AnnouncementResponse::from(merge_announcement_update(existing, &changes, NOW.to_string()));
    assert_eq!(shown.title, "Updated Title");
    assert_eq!(shown.priority, AnnouncementPriority::Urgent);
    assert!(shown.is_pinned);
    assert_eq!(shown.content, "Original content");
}

#[test]
fn test_get_active_announcements_as_member() {
    let member = caller("member1", MemberRole::Member);
    let sql = active_announcements_sql(NOW, Some(&member.role.to_string()));
    assert!(sql.contains("status = 'published'"));
    assert!(sql.contains("(target_audience = 'member' OR target_audience = 'all')"));
}

#[test]
fn test_announcement_without_auth() {
    let e = token_from_auth_header(None).unwrap_err();
    assert_eq!(status_of(&e), 401);
}

#[test]
fn test_announcement_as_non_admin() {
    let e = require_admin(&caller("regular", MemberRole::Member)).unwrap_err();
    assert_eq!(status_of(&e), 403);
}

#[test]
fn test_register_success() {
    let req = registration("test1@example.com", "password123", "Test", "User1");
    assert!(req.validate().is_ok());
    assert!(check_email_unused(false).is_ok());
    let hash = hash_new_password(&req.password).unwrap();
    let shown = MemberResponse::from(new_member(&req, &hash));
    let body = ApiResponse::success(shown);
    assert!(body.success);
    assert_eq!(body.data.as_ref().unwrap().email, "test1@example.com");
    assert_eq!(body.data.unwrap().role, MemberRole::Member);
}

#[test]
fn test_register_duplicate_email() {
    let e = check_email_unused(true).unwrap_err();
    assert_eq!(status_of(&e), 409);
    assert_eq!(e.message(), "Email already registered");
}

#[test]
fn test_login_success() {
    let login = LoginRequest { email: "test1@example.com".to_string(), password: "password123".to_string() };
    assert!(login.validate().is_ok());
    let hash = hash_new_password("password123").unwrap();
    assert!(verify_login_password(&login.password, &hash).is_ok());
    let claims = issue_claims("member-1", &login.email, &MemberRole::Member, 24);
    assert_eq!(claims.email, "test1@example.com");
    assert!(claims.exp > claims.iat);
}

#[test]
fn test_login_wrong_password() {
    let hash = hash_new_password("password123").unwrap();
    let e = verify_login_password("wrongpassword", &hash).unwrap_err();
    assert_eq!(status_of(&e), 401);
}

#[test]
fn test_login_nonexistent_user() {
    let login = LoginRequest { email: "nonexistent@example.com".to_string(), password: "somepassword".to_string() };
    assert!(login.validate().is_ok());
    let e = invalid_credentials();
    assert_eq!(status_of(&e), 401);
    assert_eq!(e.message(), "Invalid credentials");
}

#[test]
fn test_get_current_user() {
    let token = token_from_auth_header(Some("Bearer some.signed.token")).unwrap();
    assert_eq!(token, "some.signed.token");
    let claims = issue_claims("member-1", "test1@example.com", &MemberRole::Member, 24);
    let user = user_from_claims(claims);
    assert_eq!(user.id, "member-1");
    assert_eq!(user.role, MemberRole::Member);
}

#[test]
fn test_get_current_user_no_auth() {
    let e = token_from_auth_header(None).unwrap_err();
    assert_eq!(status_of(&e), 401);
    assert_eq!(e.message(), "Missing authorization header");
}

#[test]
fn test_register_validation() {
    let e = registration("invalid-email", "password123", "Test", "User").validate().unwrap_err();
    assert_eq!(status_of(&e), 400);
    let e = registration("valid@example.com", "short", "Test", "User").validate().unwrap_err();
    assert_eq!(status_of(&e), 400);
}

#[test]
fn test_create_blog_post() {
    let mut req = post("Boxing Training Tips", "Here are some tips for improving your boxing technique...");
    req.category = Some(BlogCategory::Training);
    req.tags = Some(vec!["boxing".to_string(), "tips".to_string(), "training".to_string()]);
    req.summary = Some("Essential boxing tips for beginners".to_string());
    assert!(req.validate().is_ok());
    let slug = blog_slug_candidate(&req);
    let shown = BlogPostResponse::from(new_blog_post(&req, &admin().id, slug, false));
    let body = ApiResponse::success(shown);
    assert!(body.success);
    let data = body.data.unwrap();
    assert_eq!(data.title, "Boxing Training Tips");
    assert_eq!(data.status, BlogPostStatus::Draft);
    assert!(data.slug.contains("boxing-training-tips"));
}

#[test]
fn test_create_blog_post_publish_immediately() {
    let mut req = post("Breaking News", "Important announcement...");
    req.category = Some(BlogCategory::News);
    req.publish_immediately = Some(true);
    let slug = blog_slug_candidate(&req);
    let shown = BlogPostResponse::from(new_blog_post(&req, &admin().id, slug, false));
    assert_eq!(shown.status, BlogPostStatus::Published);
}

#[test]
fn test_list_admin_blog_posts() {
    let req = post("Test Blog Post", "Test content");
    let p = new_blog_post(&req, &admin().id, blog_slug_candidate(&req), false);
    let page = blog_post_page(vec![p], 1, 1, 20);
    assert!(!page.posts.is_empty());
}

#[test]
fn test_publish_blog_post() {
    let req = post("Draft Post", "This will be published.");
    let draft = new_blog_post(&req, &admin().id, blog_slug_candidate(&req), false);
    let shown = BlogPostResponse::from(publish_blog_post_at(draft, NOW.to_string()));
    assert_eq!(shown.status, BlogPostStatus::Published);
}

#[test]
fn test_archive_blog_post() {
    let mut req = post("To Archive", "This will be archived.");
    req.publish_immediately = Some(true);
    let published = new_blog_post(&req, &admin().id, blog_slug_candidate(&req), false);
    let shown = BlogPostResponse::from(archive_blog_post_at(published, NOW.to_string()));
    assert_eq!(shown.status, BlogPostStatus::Archived);
}

#[test]
fn test_update_blog_post() {
    let req = post("Original Title", "Original content");
    let existing = new_blog_post(&req, &admin().id, blog_slug_candidate(&req), false);
    let changes = UpdateBlogPostRequest {
        title: Some("Updated Title".to_string()),
        slug: None,
        summary: None,
        content: None,
        category: Some(BlogCategory::Tips),
        tags: None,
        featured_image_url: None,
        status: None,
        is_featured: Some(true),
    };
    let shown = BlogPostResponse::from(merge_blog_post_update(existing, &changes, NOW.to_string()));
    assert_eq!(shown.title, "Updated Title");
    assert_eq!(shown.category, BlogCategory::Tips);
    assert!(shown.is_featured);
    assert_eq!(shown.slug, "original-title");
}

#[test]
fn test_list_public_blog_posts() {
    let mut req = post("Public Post", "This is visible to everyone.");
    req.publish_immediately = Some(true);
    let p = new_blog_post(&req, &admin().id, blog_slug_candidate(&req), false);
    assert!(check_publicly_visible(&p).is_ok());
    let body = ApiResponse::success(blog_post_page(vec![p], 1, 1, 20));
    assert!(body.success);
    assert!(!body.data.unwrap().posts.is_empty());
}

#[test]
fn test_get_public_blog_post_by_slug() {
    let mut req = post("My Amazing Blog Post", "Great content here.");
    req.publish_immediately = Some(true);
    let p = new_blog_post(&req, &admin().id, blog_slug_candidate(&req), false);
    assert_eq!(p.slug, "my-amazing-blog-post");
    assert!(check_publicly_visible(&p).is_ok());
}

#[test]
fn test_get_draft_post_publicly_fails() {
    let req = post("Draft Only Post", "This should not be visible publicly.");
    let p = new_blog_post(&req, &admin().id, blog_slug_candidate(&req), false);
    let e = check_publicly_visible(&p).unwrap_err();
    assert_eq!(status_of(&e), 404);
}

#[test]
fn test_blog_post_without_auth() {
    let e = token_from_auth_header(None).unwrap_err();
    assert_eq!(status_of(&e), 401);
}

#[test]
fn test_blog_post_as_non_admin() {
    let e = require_admin(&caller("regular", MemberRole::Member)).unwrap_err();
    assert_eq!(status_of(&e), 403);
}

#[test]
fn test_create_course() {
    assert!(require_instructor_or_admin(&admin()).is_ok());
    let req = CreateCourseRequest {
        name: "Boxing Fundamentals".to_string(),
        description: Some("Learn the basics of boxing".to_string()),
        course_type: CourseType::GroupClass,
        difficulty_level: Some(DifficultyLevel::Beginner),
        instructor_id: None,
        max_capacity: 20,
        duration_minutes: 60,
        price: 25.0f64,
    };
    assert!(req.validate(!(req.price >= 0.0)).is_ok());
    let body = ApiResponse::success(CourseResponse::from(new_course(&req)));
    assert!(body.success);
    let data = body.data.unwrap();
    assert_eq!(data.name, "Boxing Fundamentals");
    assert_eq!(data.difficulty_level, DifficultyLevel::Beginner);
    assert_eq!(data.available_spots, 20);
}

#[test]
fn test_update_course() {
    let req = CreateCourseRequest {
        name: "Original Name".to_string(),
        description: None,
        course_type: CourseType::GroupClass,
        difficulty_level: None,
        instructor_id: None,
        max_capacity: 10,
        duration_minutes: 60,
        price: 30.0f64,
    };
    let existing = new_course(&req);
    let changes = UpdateCourseRequest {
        name: Some("Updated Name".to_string()),
        description: None,
        course_type: None,
        difficulty_level: None,
        instructor_id: None,
        max_capacity: None,
        duration_minutes: None,
        price: Some(40.0),
        status: None,
    };
    assert!(changes.validate(false).is_ok());
    let shown = CourseResponse::from(merge_course_update(existing, &changes, NOW.to_string()));
    assert_eq!(shown.name, "Updated Name");
    assert_eq!(shown.price, 40.0);
}

#[test]
fn test_create_course_without_auth() {
    let e = token_from_auth_header(None).unwrap_err();
    assert_eq!(status_of(&e), 401);
}

#[test]
fn test_list_members_as_admin() {
    assert!(require_admin(&admin()).is_ok());
    let hash = hash_new_password("adminpass123").unwrap();
    let m = new_member(&registration("admin@boxinggym.com", "adminpass123", "Admin", "User"), &hash);
    let body = ApiResponse::success(member_page(vec![m], 1, 1, 20));
    assert!(body.success);
    assert_eq!(body.data.unwrap().members.len(), 1);
}

#[test]
fn test_list_members_as_regular_user() {
    let e = require_admin(&caller("member1", MemberRole::Member)).unwrap_err();
    assert_eq!(status_of(&e), 403);
}

#[test]
fn test_get_member_by_id() {
    let me = caller("member-7", MemberRole::Member);
    assert!(check_can_view_member(&me, "member-7").is_ok());
    assert!(check_can_view_member(&admin(), "member-7").is_ok());
}

#[test]
fn test_update_member() {
    let hash = hash_new_password("adminpass123").unwrap();
    let existing = new_member(&registration("admin@boxinggym.com", "adminpass123", "Admin", "User"), &hash);
    let me = caller(&existing.id, MemberRole::Admin);
    let changes = UpdateMemberRequest {
        email: None,
        first_name: Some("UpdatedFirst".to_string()),
        last_name: Some("UpdatedLast".to_string()),
        phone: None,
        date_of_birth: None,
        emergency_contact_name: None,
        emergency_contact_phone: None,
        status: None,
    };
    assert!(check_can_update_member(&me, &existing.id, changes.status.is_some()).is_ok());
    assert!(changes.validate().is_ok());
    let shown = MemberResponse::from(merge_member_update(existing, &changes, NOW.to_string()));
    assert_eq!(shown.first_name, "UpdatedFirst");
    assert_eq!(shown.last_name, "UpdatedLast");
}
