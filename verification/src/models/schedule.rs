//! Dated sessions of a course, with their seats.
use vstd::prelude::*;
use vstd::std_specs::convert::FromSpecImpl;
use crate::error::AppError;
use crate::ids::{is_hyphenated_uuid, new_record_id, now_rfc3339};
use crate::text::{
    all_ascii, ascii_lowercase, clone_opt, lowercase_of, or_else, owned, str_eq, to_lowercase,
};
use crate::validation::{
    failure_line, finish, line_if, note_if, reports, lists_line, lemma_reported_line, lemma_line_if_contains, lemma_concat_contains,
};

verus! {

/// A day of the week.
#[derive(Debug, Clone, Copy, PartialEq, Eq, Structural)]
pub enum DayOfWeek {
    Monday,
    Tuesday,
    Wednesday,
    Thursday,
    Friday,
    Saturday,
    Sunday,
}

impl DayOfWeek {
    /// The name under which a day is stored.
    pub open spec fn name(self) -> Seq<char> {
        match self {
            DayOfWeek::Monday => "monday"@,
            DayOfWeek::Tuesday => "tuesday"@,
            DayOfWeek::Wednesday => "wednesday"@,
            DayOfWeek::Thursday => "thursday"@,
            DayOfWeek::Friday => "friday"@,
            DayOfWeek::Saturday => "saturday"@,
            DayOfWeek::Sunday => "sunday"@,
        }
    }

    /// The day that a lowercased stored name stands for; other names give `Monday`.
    pub open spec fn from_lowercase(s: Seq<char>) -> Self {
        if s == "monday"@ {
            DayOfWeek::Monday
        } else if s == "tuesday"@ {
            DayOfWeek::Tuesday
        } else if s == "wednesday"@ {
            DayOfWeek::Wednesday
        } else if s == "thursday"@ {
            DayOfWeek::Thursday
        } else if s == "friday"@ {
            DayOfWeek::Friday
        } else if s == "saturday"@ {
            DayOfWeek::Saturday
        } else if s == "sunday"@ {
            DayOfWeek::Sunday
        } else {
            DayOfWeek::Monday
        }
    }

    /// `k` is the kind that the stored name `stored` reads as: the one its
    /// lowercase form names, so that every stored name reads back as its own
    /// kind and an ASCII name reads through its ASCII lowercase form.
    pub open spec fn read_as(stored: Seq<char>, k: Self) -> bool {
        &&& k == Self::from_lowercase(lowercase_of(stored))
        &&& (all_ascii(stored) ==> k == Self::from_lowercase(ascii_lowercase(stored)))
        &&& forall|x: Self| stored == x.name() ==> k == x
    }

    /// Every stored name is ASCII, already lowercase, and parses back to its day.
    pub proof fn lemma_name_parses_back(self)
        ensures
            all_ascii(self.name()),
            ascii_lowercase(self.name()) == self.name(),
            Self::from_lowercase(self.name()) == self,
    {
        reveal_strlit("monday");
        reveal_strlit("tuesday");
        reveal_strlit("wednesday");
        reveal_strlit("thursday");
        reveal_strlit("friday");
        reveal_strlit("saturday");
        reveal_strlit("sunday");
        assert("monday"@[0] != "friday"@[0]);
        assert("monday"@[0] != "sunday"@[0]);
        assert("thursday"@[0] != "saturday"@[0]);
        assert("friday"@[0] != "sunday"@[0]);
        assert(ascii_lowercase(self.name()) =~= self.name());
    }

    /// The stored name of the day.
    pub fn to_string(&self) -> (s: String)
        ensures
            s@ == self.name(),
    {
        match self {
            DayOfWeek::Monday => owned("monday"),
            DayOfWeek::Tuesday => owned("tuesday"),
            DayOfWeek::Wednesday => owned("wednesday"),
            DayOfWeek::Thursday => owned("thursday"),
            DayOfWeek::Friday => owned("friday"),
            DayOfWeek::Saturday => owned("saturday"),
            DayOfWeek::Sunday => owned("sunday"),
        }
    }
}

impl From<String> for DayOfWeek {
    /// Reads a stored name, ignoring case; other names give `Monday`.
    fn from(s: String) -> (r: Self)
        ensures
            r == Self::from_lowercase(lowercase_of(s@)),
            all_ascii(s@) ==> r == Self::from_lowercase(ascii_lowercase(s@)),
            forall|x: Self| s@ == x.name() ==> r == x,
    {
        let l = to_lowercase(s.as_str());
        proof {
            DayOfWeek::Monday.lemma_name_parses_back();
            DayOfWeek::Tuesday.lemma_name_parses_back();
            DayOfWeek::Wednesday.lemma_name_parses_back();
            DayOfWeek::Thursday.lemma_name_parses_back();
            DayOfWeek::Friday.lemma_name_parses_back();
            DayOfWeek::Saturday.lemma_name_parses_back();
            DayOfWeek::Sunday.lemma_name_parses_back();
        }
        if str_eq(l.as_str(), "monday") {
            DayOfWeek::Monday
        } else if str_eq(l.as_str(), "tuesday") {
            DayOfWeek::Tuesday
        } else if str_eq(l.as_str(), "wednesday") {
            DayOfWeek::Wednesday
        } else if str_eq(l.as_str(), "thursday") {
            DayOfWeek::Thursday
        } else if str_eq(l.as_str(), "friday") {
            DayOfWeek::Friday
        } else if str_eq(l.as_str(), "saturday") {
            DayOfWeek::Saturday
        } else if str_eq(l.as_str(), "sunday") {
            DayOfWeek::Sunday
        } else {
            DayOfWeek::Monday
        }
    }
}

impl FromSpecImpl<String> for DayOfWeek {
    open spec fn obeys_from_spec() -> bool {
        true
    }

    open spec fn from_spec(v: String) -> Self {
        Self::from_lowercase(lowercase_of(v@))
    }
}

/// Whether a scheduled session will take place.
#[derive(Debug, Clone, Copy, PartialEq, Eq, Structural)]
pub enum ScheduleStatus {
    Scheduled,
    Cancelled,
    Completed,
}

impl ScheduleStatus {
    /// The name under which a status is stored.
    pub open spec fn name(self) -> Seq<char> {
        match self {
            ScheduleStatus::Scheduled => "scheduled"@,
            ScheduleStatus::Cancelled => "cancelled"@,
            ScheduleStatus::Completed => "completed"@,
        }
    }

    /// The status that a lowercased stored name stands for; other names give `Scheduled`.
    pub open spec fn from_lowercase(s: Seq<char>) -> Self {
        if s == "scheduled"@ {
            ScheduleStatus::Scheduled
        } else if s == "cancelled"@ {
            ScheduleStatus::Cancelled
        } else if s == "completed"@ {
            ScheduleStatus::Completed
        } else {
            ScheduleStatus::Scheduled
        }
    }

    /// `k` is the kind that the stored name `stored` reads as: the one its
    /// lowercase form names, so that every stored name reads back as its own
    /// kind and an ASCII name reads through its ASCII lowercase form.
    pub open spec fn read_as(stored: Seq<char>, k: Self) -> bool {
        &&& k == Self::from_lowercase(lowercase_of(stored))
        &&& (all_ascii(stored) ==> k == Self::from_lowercase(ascii_lowercase(stored)))
        &&& forall|x: Self| stored == x.name() ==> k == x
    }

    /// Every stored name is ASCII, already lowercase, and parses back to its status.
    pub proof fn lemma_name_parses_back(self)
        ensures
            all_ascii(self.name()),
            ascii_lowercase(self.name()) == self.name(),
            Self::from_lowercase(self.name()) == self,
    {
        reveal_strlit("scheduled");
        reveal_strlit("cancelled");
        reveal_strlit("completed");
        assert("scheduled"@[0] != "cancelled"@[0]);
        assert("scheduled"@[0] != "completed"@[0]);
        assert("cancelled"@[1] != "completed"@[1]);
        assert(ascii_lowercase(self.name()) =~= self.name());
    }

    /// The stored name of the status.
    pub fn to_string(&self) -> (s: String)
        ensures
            s@ == self.name(),
    {
        match self {
            ScheduleStatus::Scheduled => owned("scheduled"),
            ScheduleStatus::Cancelled => owned("cancelled"),
            ScheduleStatus::Completed => owned("completed"),
        }
    }
}

impl Default for ScheduleStatus {
    fn default() -> (r: Self)
        ensures
            r == ScheduleStatus::Scheduled,
    {
        ScheduleStatus::Scheduled
    }
}

impl From<String> for ScheduleStatus {
    /// Reads a stored name, ignoring case; other names give `Scheduled`.
    fn from(s: String) -> (r: Self)
        ensures
            r == Self::from_lowercase(lowercase_of(s@)),
            all_ascii(s@) ==> r == Self::from_lowercase(ascii_lowercase(s@)),
            forall|x: Self| s@ == x.name() ==> r == x,
    {
        let l = to_lowercase(s.as_str());
        proof {
            ScheduleStatus::Scheduled.lemma_name_parses_back();
            ScheduleStatus::Cancelled.lemma_name_parses_back();
            ScheduleStatus::Completed.lemma_name_parses_back();
        }
        if str_eq(l.as_str(), "scheduled") {
            ScheduleStatus::Scheduled
        } else if str_eq(l.as_str(), "cancelled") {
            ScheduleStatus::Cancelled
        } else if str_eq(l.as_str(), "completed") {
            ScheduleStatus::Completed
        } else {
            ScheduleStatus::Scheduled
        }
    }
}

impl FromSpecImpl<String> for ScheduleStatus {
    open spec fn obeys_from_spec() -> bool {
        true
    }

    open spec fn from_spec(v: String) -> Self {
        Self::from_lowercase(lowercase_of(v@))
    }
}


/// A session of a course as it is stored; its status is kept as its name.
#[derive(Debug, Clone)]
pub struct CourseSchedule {
    pub id: String,
    pub course_id: String,
    pub instructor_id: Option<String>,
    pub scheduled_date: String,
    pub start_time: String,
    pub end_time: String,
    pub max_capacity: i32,
    pub current_enrollment: i32,
    pub location: Option<String>,
    pub status: String,
    pub notes: Option<String>,
    pub created_at: String,
    pub updated_at: String,
}

/// The seats left in a session: capacity minus enrollment, computed in
/// 32-bit arithmetic that wraps around.
pub open spec fn open_seats(max_capacity: i32, current_enrollment: i32) -> i32 {
    max_capacity.wrapping_sub(current_enrollment)
}

/// The seats left in a session.
pub fn available_spots(max_capacity: i32, current_enrollment: i32) -> (r: i32)
    ensures
        r == open_seats(max_capacity, current_enrollment),
        i32::MIN <= max_capacity - current_enrollment <= i32::MAX ==> r == max_capacity
            - current_enrollment,
{
    let r = max_capacity.wrapping_sub(current_enrollment);
    r
}

/// Whether a session still has a free seat.
pub open spec fn has_room(s: CourseSchedule) -> bool {
    s.current_enrollment < s.max_capacity
}

/// Whether a session still has a free seat.
pub fn schedule_has_room(s: &CourseSchedule) -> (b: bool)
    ensures
        b == has_room(*s),
{
    s.current_enrollment < s.max_capacity
}

/// A session as it is shown to clients.
#[derive(Debug, Clone)]
pub struct CourseScheduleResponse {
    pub id: String,
    pub course_id: String,
    pub course_name: Option<String>,
    pub instructor_id: Option<String>,
    pub instructor_name: Option<String>,
    pub scheduled_date: String,
    pub start_time: String,
    pub end_time: String,
    pub max_capacity: i32,
    pub current_enrollment: i32,
    pub available_spots: i32,
    pub location: Option<String>,
    pub status: ScheduleStatus,
    pub notes: Option<String>,
    pub created_at: String,
    pub updated_at: String,
}

impl CourseScheduleResponse {
    /// How a stored session is shown: the free seats are computed, the status is
    /// read back ignoring case, and names are left to be filled in.
    pub open spec fn shown(s: CourseSchedule) -> Self {
        CourseScheduleResponse {
            id: s.id,
            course_id: s.course_id,
            course_name: None,
            instructor_id: s.instructor_id,
            instructor_name: None,
            scheduled_date: s.scheduled_date,
            start_time: s.start_time,
            end_time: s.end_time,
            max_capacity: s.max_capacity,
            current_enrollment: s.current_enrollment,
            available_spots: open_seats(s.max_capacity, s.current_enrollment),
            location: s.location,
            status: ScheduleStatus::from_lowercase(lowercase_of(s.status@)),
            notes: s.notes,
            created_at: s.created_at,
            updated_at: s.updated_at,
        }
    }

    /// The kinds that a shown session carries are the ones its stored names read as.
    pub open spec fn reads_kinds(r: Self, s: CourseSchedule) -> bool {
        &&& ScheduleStatus::read_as(s.status@, r.status)
    }
}

impl From<CourseSchedule> for CourseScheduleResponse {
    /// Shows a stored session.
    fn from(s: CourseSchedule) -> (r: Self)
        ensures
            r == Self::shown(s),
            Self::reads_kinds(r, s),
    {
        let available = available_spots(s.max_capacity, s.current_enrollment);
        CourseScheduleResponse {
            id: s.id,
            course_id: s.course_id,
            course_name: None,
            instructor_id: s.instructor_id,
            instructor_name: None,
            scheduled_date: s.scheduled_date,
            start_time: s.start_time,
            end_time: s.end_time,
            max_capacity: s.max_capacity,
            current_enrollment: s.current_enrollment,
            available_spots: available,
            location: s.location,
            status: ScheduleStatus::from(s.status),
            notes: s.notes,
            created_at: s.created_at,
            updated_at: s.updated_at,
        }
    }
}

impl FromSpecImpl<CourseSchedule> for CourseScheduleResponse {
    open spec fn obeys_from_spec() -> bool {
        true
    }

    open spec fn from_spec(s: CourseSchedule) -> Self {
        Self::shown(s)
    }
}

/// What an instructor or administrator sends to put a course on the calendar.
#[derive(Debug, Clone)]
pub struct CreateScheduleRequest {
    pub course_id: String,
    pub instructor_id: Option<String>,
    pub scheduled_date: String,
    pub start_time: String,
    pub end_time: String,
    pub max_capacity: Option<i32>,
    pub location: Option<String>,
    pub notes: Option<String>,
}

/// What an instructor or administrator sends to change a session; absent fields stay.
#[derive(Debug, Clone)]
pub struct UpdateScheduleRequest {
    pub instructor_id: Option<String>,
    pub scheduled_date: Option<String>,
    pub start_time: Option<String>,
    pub end_time: Option<String>,
    pub max_capacity: Option<i32>,
    pub location: Option<String>,
    pub status: Option<ScheduleStatus>,
    pub notes: Option<String>,
}

/// Filters and page for listing sessions.
#[derive(Debug, Clone)]
pub struct ScheduleQuery {
    pub course_id: Option<String>,
    pub instructor_id: Option<String>,
    pub date_from: Option<String>,
    pub date_to: Option<String>,
    pub status: Option<String>,
    pub page: Option<i64>,
    pub per_page: Option<i64>,
}

/// One page of sessions.
#[derive(Debug, Clone)]
pub struct ScheduleListResponse {
    pub schedules: Vec<CourseScheduleResponse>,
    pub total: i64,
    pub page: i64,
    pub per_page: i64,
}

/// The report lines for a new session: a capacity, when given, must be at least one.
pub open spec fn create_schedule_failures(req: CreateScheduleRequest) -> Seq<Seq<char>> {
    line_if(
        req.max_capacity matches Some(c) && c < 1,
        failure_line("max_capacity"@, "Max capacity must be at least 1"@),
    )
}

impl CreateScheduleRequest {
    /// Checks the request's fields.
    pub fn validate(&self) -> (r: Result<(), AppError>)
        ensures
            reports(r, create_schedule_failures(*self)),
    {
        let mut lines: Vec<String> = Vec::new();
        let too_small = match self.max_capacity {
            Some(c) => c < 1,
            None => false,
        };
        note_if(&mut lines, too_small, "max_capacity", "Max capacity must be at least 1");
        finish(lines)
    }
}

/// `s` is the session that `req` creates, given its identifier, the time of
/// writing, and the capacity to use when the request names none.
pub open spec fn created_schedule(
    s: CourseSchedule,
    req: CreateScheduleRequest,
    default_capacity: i32,
    id: String,
    now: String,
) -> bool {
    &&& s.id == id
    &&& s.course_id == req.course_id
    &&& s.instructor_id == req.instructor_id
    &&& s.scheduled_date == req.scheduled_date
    &&& s.start_time == req.start_time
    &&& s.end_time == req.end_time
    &&& s.max_capacity == or_else(req.max_capacity, default_capacity)
    &&& s.current_enrollment == 0
    &&& s.location == req.location
    &&& s.status@ == ScheduleStatus::Scheduled.name()
    &&& s.notes == req.notes
    &&& s.created_at == now
    &&& s.updated_at == now
}

/// The session that `req` creates, with the given identifier and time.
pub fn build_schedule(
    req: &CreateScheduleRequest,
    default_capacity: i32,
    id: String,
    now: String,
) -> (s: CourseSchedule)
    ensures
        created_schedule(s, *req, default_capacity, id, now),
{
    CourseSchedule {
        id,
        course_id: req.course_id.clone(),
        instructor_id: clone_opt(&req.instructor_id),
        scheduled_date: req.scheduled_date.clone(),
        start_time: req.start_time.clone(),
        end_time: req.end_time.clone(),
        max_capacity: match req.max_capacity {
            Some(c) => c,
            None => default_capacity,
        },
        current_enrollment: 0,
        location: clone_opt(&req.location),
        status: ScheduleStatus::Scheduled.to_string(),
        notes: clone_opt(&req.notes),
        created_at: now.clone(),
        updated_at: now,
    }
}

/// A new session for `req` under a fresh identifier, stamped with the current time.
pub fn new_schedule(req: &CreateScheduleRequest, default_capacity: i32) -> (s: CourseSchedule)
    ensures
        is_hyphenated_uuid(s.id@),
        created_schedule(s, *req, default_capacity, s.id, s.created_at),
{
    let id = new_record_id();
    let now = now_rfc3339();
    build_schedule(req, default_capacity, id, now)
}

/// `r` is `existing` after `req` is applied at time `now`: every field that the
/// request carries replaces the stored one and the others stay.
pub open spec fn updated_schedule(
    r: CourseSchedule,
    existing: CourseSchedule,
    req: UpdateScheduleRequest,
    now: String,
) -> bool {
    &&& r.id == existing.id
    &&& r.course_id == existing.course_id
    &&& r.instructor_id == (match req.instructor_id {
        Some(i) => Some(i),
        None => existing.instructor_id,
    })
    &&& r.scheduled_date == or_else(req.scheduled_date, existing.scheduled_date)
    &&& r.start_time == or_else(req.start_time, existing.start_time)
    &&& r.end_time == or_else(req.end_time, existing.end_time)
    &&& r.max_capacity == or_else(req.max_capacity, existing.max_capacity)
    &&& r.current_enrollment == existing.current_enrollment
    &&& r.location == (match req.location {
        Some(l) => Some(l),
        None => existing.location,
    })
    &&& (match req.status {
        Some(s) => r.status@ == s.name(),
        None => r.status == existing.status,
    })
    &&& r.notes == (match req.notes {
        Some(n) => Some(n),
        None => existing.notes,
    })
    &&& r.created_at == existing.created_at
    &&& r.updated_at == now
}

/// Applies a change request to a stored session at time `now`.
pub fn merge_schedule_update(
    existing: CourseSchedule,
    req: &UpdateScheduleRequest,
    now: String,
) -> (r: CourseSchedule)
    ensures
        updated_schedule(r, existing, *req, now),
{
    CourseSchedule {
        id: existing.id,
        course_id: existing.course_id,
        instructor_id: match &req.instructor_id {
            Some(i) => Some(i.clone()),
            None => existing.instructor_id,
        },
        scheduled_date: match &req.scheduled_date {
            Some(d) => d.clone(),
            None => existing.scheduled_date,
        },
        start_time: match &req.start_time {
            Some(t) => t.clone(),
            None => existing.start_time,
        },
        end_time: match &req.end_time {
            Some(t) => t.clone(),
            None => existing.end_time,
        },
        max_capacity: match req.max_capacity {
            Some(c) => c,
            None => existing.max_capacity,
        },
        current_enrollment: existing.current_enrollment,
        location: match &req.location {
            Some(l) => Some(l.clone()),
            None => existing.location,
        },
        status: match req.status {
            Some(s) => s.to_string(),
            None => existing.status,
        },
        notes: match &req.notes {
            Some(n) => Some(n.clone()),
            None => existing.notes,
        },
        created_at: existing.created_at,
        updated_at: now,
    }
}

/// Applies a change request to a stored session, stamped with the current time.
pub fn apply_schedule_update(existing: CourseSchedule, req: &UpdateScheduleRequest) -> (r:
    CourseSchedule)
    ensures
        updated_schedule(r, existing, *req, r.updated_at),
{
    let now = now_rfc3339();
    merge_schedule_update(existing, req, now)
}

/// `r` is `existing` called off at time `now`: only its status and the time of change differ.
pub open spec fn cancelled_schedule(r: CourseSchedule, existing: CourseSchedule, now: String) -> bool {
    &&& r.status@ == ScheduleStatus::Cancelled.name()
    &&& r == (CourseSchedule { status: r.status, updated_at: now, ..existing })
}

/// Calls off a stored session at time `now`.
pub fn cancel_schedule_at(existing: CourseSchedule, now: String) -> (r: CourseSchedule)
    ensures
        cancelled_schedule(r, existing, now),
{
    CourseSchedule { status: ScheduleStatus::Cancelled.to_string(), updated_at: now, ..existing }
}


/// Calls off a stored session now.
pub fn cancel_schedule(existing: CourseSchedule) -> (r: CourseSchedule)
    ensures
        cancelled_schedule(r, existing, r.updated_at),
{
    cancel_schedule_at(existing, now_rfc3339())
}

/// Whether a change request carries no change at all.
pub open spec fn is_empty_schedule_update(req: UpdateScheduleRequest) -> bool {
    req.instructor_id is None && req.scheduled_date is None && req.start_time is None && req.end_time is None && req.max_capacity is None && req.location is None && req.status is None && req.notes is None
}

/// A change request that carries nothing changes nothing but the time of the
/// session's last change.
pub proof fn law_empty_schedule_update(r: CourseSchedule, existing: CourseSchedule, req: UpdateScheduleRequest, now: String)
    requires
        updated_schedule(r, existing, req, now),
        is_empty_schedule_update(req),
    ensures
        r == (CourseSchedule { updated_at: now, ..existing }),
{
}



/// Validation accepts the request exactly when no field fails its rule, and
/// the report of a failed validation lists the line of every field that fails.
pub proof fn law_schedule_validation(req: CreateScheduleRequest, r: Result<(), AppError>)
    requires
        reports(r, create_schedule_failures(req)),
    ensures
        r is Ok <==> (!(req.max_capacity matches Some(c) && c < 1)),
        (req.max_capacity matches Some(c) && c < 1) ==> lists_line(r, failure_line("max_capacity"@, "Max capacity must be at least 1"@)),
{
    lemma_line_if_contains(req.max_capacity matches Some(c) && c < 1, failure_line("max_capacity"@, "Max capacity must be at least 1"@));
    assert(create_schedule_failures(req) == line_if(req.max_capacity matches Some(c) && c < 1, failure_line("max_capacity"@, "Max capacity must be at least 1"@)));
    if req.max_capacity matches Some(c) && c < 1 {
        lemma_reported_line(r, create_schedule_failures(req), failure_line("max_capacity"@, "Max capacity must be at least 1"@));
    }
}


/// Updating a session sets every field that the request gives to the given
/// value, keeps every field that it leaves out, never touches the fields that
/// a request cannot change, and stamps the time of the change.
pub proof fn law_schedule_update_fields(r: CourseSchedule, existing: CourseSchedule, req: UpdateScheduleRequest, now: String)
    requires
        updated_schedule(r, existing, req, now),
    ensures
        req.instructor_id matches Some(v) ==> r.instructor_id == Some(v),
        req.instructor_id is None ==> r.instructor_id == existing.instructor_id,
        req.scheduled_date matches Some(v) ==> r.scheduled_date == v,
        req.scheduled_date is None ==> r.scheduled_date == existing.scheduled_date,
        req.start_time matches Some(v) ==> r.start_time == v,
        req.start_time is None ==> r.start_time == existing.start_time,
        req.end_time matches Some(v) ==> r.end_time == v,
        req.end_time is None ==> r.end_time == existing.end_time,
        req.max_capacity matches Some(v) ==> r.max_capacity == v,
        req.max_capacity is None ==> r.max_capacity == existing.max_capacity,
        req.location matches Some(v) ==> r.location == Some(v),
        req.location is None ==> r.location == existing.location,
        req.status matches Some(k) ==> r.status@ == k.name(),
        req.status is None ==> r.status == existing.status,
        req.notes matches Some(v) ==> r.notes == Some(v),
        req.notes is None ==> r.notes == existing.notes,
        r.id == existing.id,
        r.course_id == existing.course_id,
        r.current_enrollment == existing.current_enrollment,
        r.created_at == existing.created_at,
        r.updated_at == now,
{
}


/// A new session keeps what the request gives, takes the given default
/// capacity when the request names none, has nobody enrolled and is scheduled.
pub proof fn law_new_schedule_defaults(
    s: CourseSchedule,
    req: CreateScheduleRequest,
    default_capacity: i32,
    id: String,
    now: String,
)
    requires
        created_schedule(s, req, default_capacity, id, now),
    ensures
        s.id == id,
        s.course_id == req.course_id,
        s.instructor_id == req.instructor_id,
        s.scheduled_date == req.scheduled_date,
        s.start_time == req.start_time,
        s.end_time == req.end_time,
        req.max_capacity is None ==> s.max_capacity == default_capacity,
        req.max_capacity matches Some(c) ==> s.max_capacity == c,
        s.current_enrollment == 0,
        s.location == req.location,
        s.status@ == "scheduled"@,
        s.notes == req.notes,
        s.created_at == now,
        s.updated_at == now,
{
}


/// Calling off a session makes it cancelled, keeps its bookings count and
/// everything else, and stamps the time of change.
pub proof fn law_cancelling_schedule(r: CourseSchedule, existing: CourseSchedule, now: String)
    requires
        cancelled_schedule(r, existing, now),
    ensures
        r.id == existing.id,
        r.course_id == existing.course_id,
        r.instructor_id == existing.instructor_id,
        r.scheduled_date == existing.scheduled_date,
        r.start_time == existing.start_time,
        r.end_time == existing.end_time,
        r.max_capacity == existing.max_capacity,
        r.current_enrollment == existing.current_enrollment,
        r.location == existing.location,
        r.status@ == "cancelled"@,
        r.notes == existing.notes,
        r.created_at == existing.created_at,
        r.updated_at == now,
{
}


/// A session is shown as it is stored: every stored field is passed on
/// unchanged, the kinds are the ones their stored names read as, and what the
/// store does not hold is left to be filled in.
pub proof fn law_session_shown_as_stored(r: CourseScheduleResponse, s: CourseSchedule)
    requires
        r == CourseScheduleResponse::shown(s),
        CourseScheduleResponse::reads_kinds(r, s),
    ensures
        r.id == s.id,
        r.course_id == s.course_id,
        r.course_name is None,
        r.instructor_id == s.instructor_id,
        r.instructor_name is None,
        r.scheduled_date == s.scheduled_date,
        r.start_time == s.start_time,
        r.end_time == s.end_time,
        r.max_capacity == s.max_capacity,
        r.current_enrollment == s.current_enrollment,
        i32::MIN <= s.max_capacity - s.current_enrollment <= i32::MAX ==> r.available_spots == s.max_capacity - s.current_enrollment,
        r.location == s.location,
        all_ascii(s.status@) ==> r.status == ScheduleStatus::from_lowercase(ascii_lowercase(s.status@)),
        forall|k: ScheduleStatus| s.status@ == k.name() ==> r.status == k,
        r.notes == s.notes,
        r.created_at == s.created_at,
        r.updated_at == s.updated_at,
{
}


/// Every day of week is stored under its snake-case name, and every stored
/// name reads back as the kind it names.
pub proof fn law_day_of_week_names()
    ensures
        DayOfWeek::Monday.name() == "monday"@,
        DayOfWeek::Tuesday.name() == "tuesday"@,
        DayOfWeek::Wednesday.name() == "wednesday"@,
        DayOfWeek::Thursday.name() == "thursday"@,
        DayOfWeek::Friday.name() == "friday"@,
        DayOfWeek::Saturday.name() == "saturday"@,
        DayOfWeek::Sunday.name() == "sunday"@,
        forall|k: DayOfWeek| #[trigger] DayOfWeek::from_lowercase(k.name()) == k,
{
    DayOfWeek::Monday.lemma_name_parses_back();
    DayOfWeek::Tuesday.lemma_name_parses_back();
    DayOfWeek::Wednesday.lemma_name_parses_back();
    DayOfWeek::Thursday.lemma_name_parses_back();
    DayOfWeek::Friday.lemma_name_parses_back();
    DayOfWeek::Saturday.lemma_name_parses_back();
    DayOfWeek::Sunday.lemma_name_parses_back();
    reveal_strlit("monday");
    reveal_strlit("tuesday");
    reveal_strlit("wednesday");
    reveal_strlit("thursday");
    reveal_strlit("friday");
    reveal_strlit("saturday");
    reveal_strlit("sunday");
    assert forall|k: DayOfWeek| #[trigger] DayOfWeek::from_lowercase(k.name()) == k by {
        k.lemma_name_parses_back();
    }
}

/// Every schedule status is stored under its snake-case name, and every stored
/// name reads back as the kind it names.
pub proof fn law_schedule_status_names()
    ensures
        ScheduleStatus::Scheduled.name() == "scheduled"@,
        ScheduleStatus::Cancelled.name() == "cancelled"@,
        ScheduleStatus::Completed.name() == "completed"@,
        forall|k: ScheduleStatus| #[trigger] ScheduleStatus::from_lowercase(k.name()) == k,
{
    ScheduleStatus::Scheduled.lemma_name_parses_back();
    ScheduleStatus::Cancelled.lemma_name_parses_back();
    ScheduleStatus::Completed.lemma_name_parses_back();
    reveal_strlit("scheduled");
    reveal_strlit("cancelled");
    reveal_strlit("completed");
    assert forall|k: ScheduleStatus| #[trigger] ScheduleStatus::from_lowercase(k.name()) == k by {
        k.lemma_name_parses_back();
    }
}

} // verus!
