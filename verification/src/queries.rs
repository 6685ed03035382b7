//! The query and body shapes that individual endpoints read.
use vstd::prelude::*;
use crate::models::member::MemberRole;

verus! {

/// Filters and page for listing courses.
#[derive(Debug, Clone)]
pub struct CourseQuery {
    pub page: Option<i64>,
    pub per_page: Option<i64>,
    pub course_type: Option<String>,
    pub difficulty: Option<String>,
    pub status: Option<String>,
}

/// Filters and page for listing the sessions of one course.
#[derive(Debug, Clone)]
pub struct ScheduleQuery {
    pub page: Option<i64>,
    pub per_page: Option<i64>,
    pub date_from: Option<String>,
    pub date_to: Option<String>,
    pub status: Option<String>,
}

/// Filters and page for listing accounts.
#[derive(Debug, Clone)]
pub struct MemberQuery {
    pub page: Option<i64>,
    pub per_page: Option<i64>,
    pub status: Option<String>,
    pub role: Option<String>,
}

/// What an administrator sends to change a member's role.
#[derive(Debug, Clone)]
pub struct UpdateRoleRequest {
    pub role: MemberRole,
}

/// Whether to list withdrawn plans too.
#[derive(Debug, Clone)]
pub struct PlanQuery {
    pub include_inactive: Option<bool>,
}

} // verus!
