//! The text of the listing queries: a count and a page select over the same filters.
use vstd::prelude::*;
use vstd::string::StringExecFns;
use crate::text::owned;

verus! {

/// The two statements of a listing: how many rows match, and one page of them.
#[derive(Debug, Clone)]
pub struct ListSql {
    pub count_sql: String,
    pub select_sql: String,
}

/// A condition comparing a column with a quoted value.
pub open spec fn cond(column: Seq<char>, op: Seq<char>, value: Seq<char>) -> Seq<char> {
    " AND "@ + column + " "@ + op + " '"@ + value + "'"@
}

/// The condition for an optional filter value; nothing when no value is given.
pub open spec fn opt_cond(column: Seq<char>, op: Seq<char>, value: Option<&str>) -> Seq<char> {
    match value {
        Some(v) => cond(column, op, v@),
        None => Seq::empty(),
    }
}

/// A fixed condition that applies only when `on` holds.
pub open spec fn flag_cond(on: bool, clause: Seq<char>) -> Seq<char> {
    if on {
        clause
    } else {
        Seq::empty()
    }
}

/// `q` lists `table` under the conditions `conds`, a page at a time in the order `order`.
pub open spec fn listing(q: ListSql, table: Seq<char>, conds: Seq<char>, order: Seq<char>) -> bool {
    &&& q.count_sql@ == "SELECT COUNT(*) FROM "@ + table + " WHERE 1=1"@ + conds
    &&& q.select_sql@ == "SELECT * FROM "@ + table + " WHERE 1=1"@ + conds + " ORDER BY "@ + order
        + " LIMIT ? OFFSET ?"@
}

/// Appends the condition for an optional filter value.
fn push_opt_cond(conds: &mut String, column: &str, op: &str, value: Option<&str>)
    ensures
        final(conds)@ == old(conds)@ + opt_cond(column@, op@, value),
{
    match value {
        Some(v) => {
            conds.append(" AND ");
            conds.append(column);
            conds.append(" ");
            conds.append(op);
            conds.append(" '");
            conds.append(v);
            conds.append("'");
            assert(conds@ =~= old(conds)@ + opt_cond(column@, op@, value));
        },
        None => {
            assert(conds@ =~= old(conds)@ + opt_cond(column@, op@, value));
        },
    }
}

/// Appends a fixed condition when `on` holds.
fn push_flag_cond(conds: &mut String, on: bool, clause: &str)
    ensures
        final(conds)@ == old(conds)@ + flag_cond(on, clause@),
{
    if on {
        conds.append(clause);
    }
    assert(conds@ =~= old(conds)@ + flag_cond(on, clause@));
}

/// Both statements of a listing of `table` under `conds`, ordered by `order`.
fn listing_sql(table: &str, conds: &str, order: &str) -> (q: ListSql)
    ensures
        listing(q, table@, conds@, order@),
{
    let count_sql = owned("SELECT COUNT(*) FROM ").concat(table).concat(" WHERE 1=1").concat(conds);
    let select_sql = owned("SELECT * FROM ").concat(table).concat(" WHERE 1=1").concat(conds).concat(
        " ORDER BY ",
    ).concat(order).concat(" LIMIT ? OFFSET ?");
    ListSql { count_sql, select_sql }
}

/// The listing of accounts, optionally of one status and one role, newest first.
pub fn member_list_sql(status_filter: Option<&str>, role_filter: Option<&str>) -> (q: ListSql)
    ensures
        listing(
            q,
            "members"@,
            opt_cond("status"@, "="@, status_filter) + opt_cond("role"@, "="@, role_filter),
            "created_at DESC"@,
        ),
{
    let mut conds = String::new();
    push_opt_cond(&mut conds, "status", "=", status_filter);
    push_opt_cond(&mut conds, "role", "=", role_filter);
    assert(conds@ =~= opt_cond("status"@, "="@, status_filter) + opt_cond("role"@, "="@, role_filter));
    listing_sql("members", conds.as_str(), "created_at DESC")
}

/// The listing of courses by type, level and status, newest first.
pub fn course_list_sql(
    course_type: Option<&str>,
    difficulty: Option<&str>,
    status: Option<&str>,
) -> (q: ListSql)
    ensures
        listing(
            q,
            "courses"@,
            opt_cond("course_type"@, "="@, course_type) + opt_cond(
                "difficulty_level"@,
                "="@,
                difficulty,
            ) + opt_cond("status"@, "="@, status),
            "created_at DESC"@,
        ),
{
    let mut conds = String::new();
    push_opt_cond(&mut conds, "course_type", "=", course_type);
    push_opt_cond(&mut conds, "difficulty_level", "=", difficulty);
    push_opt_cond(&mut conds, "status", "=", status);
    assert(conds@ =~= opt_cond("course_type"@, "="@, course_type) + opt_cond(
        "difficulty_level"@,
        "="@,
        difficulty,
    ) + opt_cond("status"@, "="@, status));
    listing_sql("courses", conds.as_str(), "created_at DESC")
}

/// The listing of sessions by course, instructor, date range and status, earliest first.
pub fn schedule_list_sql(
    course_id: Option<&str>,
    instructor_id: Option<&str>,
    date_from: Option<&str>,
    date_to: Option<&str>,
    status: Option<&str>,
) -> (q: ListSql)
    ensures
        listing(
            q,
            "course_schedules"@,
            opt_cond("course_id"@, "="@, course_id) + opt_cond("instructor_id"@, "="@, instructor_id)
                + opt_cond("scheduled_date"@, ">="@, date_from) + opt_cond(
                "scheduled_date"@,
                "<="@,
                date_to,
            ) + opt_cond("status"@, "="@, status),
            "scheduled_date ASC, start_time ASC"@,
        ),
{
    let mut conds = String::new();
    push_opt_cond(&mut conds, "course_id", "=", course_id);
    push_opt_cond(&mut conds, "instructor_id", "=", instructor_id);
    push_opt_cond(&mut conds, "scheduled_date", ">=", date_from);
    push_opt_cond(&mut conds, "scheduled_date", "<=", date_to);
    push_opt_cond(&mut conds, "status", "=", status);
    assert(conds@ =~= opt_cond("course_id"@, "="@, course_id) + opt_cond(
        "instructor_id"@,
        "="@,
        instructor_id,
    ) + opt_cond("scheduled_date"@, ">="@, date_from) + opt_cond("scheduled_date"@, "<="@, date_to)
        + opt_cond("status"@, "="@, status));
    listing_sql(
        "course_schedules",
        conds.as_str(),
        "scheduled_date ASC, start_time ASC",
    )
}

/// The listing of bookings by member, session and status, most recently booked first.
pub fn booking_list_sql(
    member_id: Option<&str>,
    schedule_id: Option<&str>,
    status: Option<&str>,
) -> (q: ListSql)
    ensures
        listing(
            q,
            "bookings"@,
            opt_cond("member_id"@, "="@, member_id) + opt_cond("schedule_id"@, "="@, schedule_id)
                + opt_cond("status"@, "="@, status),
            "booked_at DESC"@,
        ),
{
    let mut conds = String::new();
    push_opt_cond(&mut conds, "member_id", "=", member_id);
    push_opt_cond(&mut conds, "schedule_id", "=", schedule_id);
    push_opt_cond(&mut conds, "status", "=", status);
    assert(conds@ =~= opt_cond("member_id"@, "="@, member_id) + opt_cond(
        "schedule_id"@,
        "="@,
        schedule_id,
    ) + opt_cond("status"@, "="@, status));
    listing_sql("bookings", conds.as_str(), "booked_at DESC")
}

/// The listing of announcements by status, priority, audience and pinning,
/// pinned and urgent first.
pub fn announcement_list_sql(
    status: Option<&str>,
    priority: Option<&str>,
    target_audience: Option<&str>,
    pinned_only: bool,
) -> (q: ListSql)
    ensures
        listing(
            q,
            "announcements"@,
            opt_cond("status"@, "="@, status) + opt_cond("priority"@, "="@, priority) + opt_cond(
                "target_audience"@,
                "="@,
                target_audience,
            ) + flag_cond(pinned_only, " AND is_pinned = 1"@),
            "is_pinned DESC, priority DESC, created_at DESC"@,
        ),
{
    let mut conds = String::new();
    push_opt_cond(&mut conds, "status", "=", status);
    push_opt_cond(&mut conds, "priority", "=", priority);
    push_opt_cond(&mut conds, "target_audience", "=", target_audience);
    push_flag_cond(&mut conds, pinned_only, " AND is_pinned = 1");
    assert(conds@ =~= opt_cond("status"@, "="@, status) + opt_cond("priority"@, "="@, priority)
        + opt_cond("target_audience"@, "="@, target_audience) + flag_cond(
        pinned_only,
        " AND is_pinned = 1"@,
    ));
    listing_sql("announcements", conds.as_str(), "is_pinned DESC, priority DESC, created_at DESC")
}

/// The condition that a post carries a tag: its tag text contains the value.
pub open spec fn tag_cond(tag: Option<&str>) -> Seq<char> {
    match tag {
        Some(t) => " AND tags LIKE '%"@ + t@ + "%'"@,
        None => Seq::empty(),
    }
}

/// The listing of posts by status, category, tag, featuring and author,
/// featured and recently published first.
pub fn blog_post_list_sql(
    status: Option<&str>,
    category: Option<&str>,
    tag: Option<&str>,
    featured_only: bool,
    author_id: Option<&str>,
) -> (q: ListSql)
    ensures
        listing(
            q,
            "blog_posts"@,
            opt_cond("status"@, "="@, status) + opt_cond("category"@, "="@, category) + tag_cond(tag)
                + flag_cond(featured_only, " AND is_featured = 1"@) + opt_cond(
                "author_id"@,
                "="@,
                author_id,
            ),
            "is_featured DESC, publish_date DESC, created_at DESC"@,
        ),
{
    let mut conds = String::new();
    push_opt_cond(&mut conds, "status", "=", status);
    push_opt_cond(&mut conds, "category", "=", category);
    let ghost before_tag = conds@;
    match tag {
        Some(t) => {
            conds.append(" AND tags LIKE '%");
            conds.append(t);
            conds.append("%'");
        },
        None => {},
    }
    assert(conds@ =~= before_tag + tag_cond(tag));
    push_flag_cond(&mut conds, featured_only, " AND is_featured = 1");
    push_opt_cond(&mut conds, "author_id", "=", author_id);
    assert(conds@ =~= opt_cond("status"@, "="@, status) + opt_cond("category"@, "="@, category)
        + tag_cond(tag) + flag_cond(featured_only, " AND is_featured = 1"@) + opt_cond(
        "author_id"@,
        "="@,
        author_id,
    ));
    listing_sql(
        "blog_posts",
        conds.as_str(),
        "is_featured DESC, publish_date DESC, created_at DESC",
    )
}

/// The query for the announcements that are in force at time `now`: published,
/// not expired, and meant for everyone or for `target_audience` when one is given;
/// pinned and urgent first, then the most recently published.
pub fn active_announcements_sql(now: &str, target_audience: Option<&str>) -> (q: String)
    ensures
        q@ == "SELECT * FROM announcements WHERE status = 'published' AND (expiry_date IS NULL OR expiry_date > '"@
            + now@ + "')"@ + (match target_audience {
            Some(t) => " AND (target_audience = '"@ + t@ + "' OR target_audience = 'all')"@,
            None => Seq::empty(),
        }) + " ORDER BY is_pinned DESC, priority DESC, publish_date DESC"@,
{
    let mut q = owned(
        "SELECT * FROM announcements WHERE status = 'published' AND (expiry_date IS NULL OR expiry_date > '",
    );
    q.append(now);
    q.append("')");
    match target_audience {
        Some(t) => {
            q.append(" AND (target_audience = '");
            q.append(t);
            q.append("' OR target_audience = 'all')");
        },
        None => {},
    }
    q.append(" ORDER BY is_pinned DESC, priority DESC, publish_date DESC");
    q
}

/// The query for the plans on offer, cheapest first; withdrawn plans only when asked for.
pub fn membership_plan_list_sql(include_inactive: bool) -> (q: String)
    ensures
        q@ == "SELECT * FROM membership_plans"@ + flag_cond(!include_inactive, " WHERE is_active = 1"@)
            + " ORDER BY price ASC"@,
{
    let mut q = owned("SELECT * FROM membership_plans");
    if !include_inactive {
        q.append(" WHERE is_active = 1");
    }
    q.append(" ORDER BY price ASC");
    q
}

} // verus!
