//! The courses the gym offers. Prices are carried as they come (`P`), never computed with.
use vstd::prelude::*;
use vstd::std_specs::convert::FromSpecImpl;
use crate::error::AppError;
use crate::ids::{is_hyphenated_uuid, new_record_id, now_rfc3339};
use crate::models::schedule::{available_spots, open_seats};
use crate::text::{
    all_ascii, ascii_lowercase, clone_opt, lowercase_of, or_else, owned, str_eq, to_lowercase,
};
use crate::validation::{
    failure_line, finish, length_ok, length_within, line_if, note_if, reports, lists_line, lemma_reported_line, lemma_line_if_contains, lemma_concat_contains,
};

verus! {

/// The kind of session a course offers.
#[derive(Debug, Clone, Copy, PartialEq, Eq, Structural)]
pub enum CourseType {
    GroupClass,
    PersonalTraining,
    OpenGym,
    Workshop,
    Competition,
}

impl CourseType {
    /// The name under which a course type is stored.
    pub open spec fn name(self) -> Seq<char> {
        match self {
            CourseType::GroupClass => "group_class"@,
            CourseType::PersonalTraining => "personal_training"@,
            CourseType::OpenGym => "open_gym"@,
            CourseType::Workshop => "workshop"@,
            CourseType::Competition => "competition"@,
        }
    }

    /// The course type that a lowercased stored name stands for; other names give `GroupClass`.
    pub open spec fn from_lowercase(s: Seq<char>) -> Self {
        if s == "group_class"@ {
            CourseType::GroupClass
        } else if s == "personal_training"@ {
            CourseType::PersonalTraining
        } else if s == "open_gym"@ {
            CourseType::OpenGym
        } else if s == "workshop"@ {
            CourseType::Workshop
        } else if s == "competition"@ {
            CourseType::Competition
        } else {
            CourseType::GroupClass
        }
    }

    /// `k` is the kind that the stored name `stored` reads as: the one its
    /// lowercase form names, so that every stored name reads back as its own
    /// kind and an ASCII name reads through its ASCII lowercase form.
    pub open spec fn read_as(stored: Seq<char>, k: Self) -> bool {
        &&& k == Self::from_lowercase(lowercase_of(stored))
        &&& (all_ascii(stored) ==> k == Self::from_lowercase(ascii_lowercase(stored)))
        &&& forall|x: Self| stored == x.name() ==> k == x
    }

    /// Every stored name is ASCII, already lowercase, and parses back to its course type.
    pub proof fn lemma_name_parses_back(self)
        ensures
            all_ascii(self.name()),
            ascii_lowercase(self.name()) == self.name(),
            Self::from_lowercase(self.name()) == self,
    {
        reveal_strlit("group_class");
        reveal_strlit("personal_training");
        reveal_strlit("open_gym");
        reveal_strlit("workshop");
        reveal_strlit("competition");
        assert("group_class"@[0] != "competition"@[0]);
        assert("open_gym"@[0] != "workshop"@[0]);
        assert(ascii_lowercase(self.name()) =~= self.name());
    }

    /// The stored name of the course type.
    pub fn to_string(&self) -> (s: String)
        ensures
            s@ == self.name(),
    {
        match self {
            CourseType::GroupClass => owned("group_class"),
            CourseType::PersonalTraining => owned("personal_training"),
            CourseType::OpenGym => owned("open_gym"),
            CourseType::Workshop => owned("workshop"),
            CourseType::Competition => owned("competition"),
        }
    }
}

impl Default for CourseType {
    fn default() -> (r: Self)
        ensures
            r == CourseType::GroupClass,
    {
        CourseType::GroupClass
    }
}

impl From<String> for CourseType {
    /// Reads a stored name, ignoring case; other names give `GroupClass`.
    fn from(s: String) -> (r: Self)
        ensures
            r == Self::from_lowercase(lowercase_of(s@)),
            all_ascii(s@) ==> r == Self::from_lowercase(ascii_lowercase(s@)),
            forall|x: Self| s@ == x.name() ==> r == x,
    {
        let l = to_lowercase(s.as_str());
        proof {
            CourseType::GroupClass.lemma_name_parses_back();
            CourseType::PersonalTraining.lemma_name_parses_back();
            CourseType::OpenGym.lemma_name_parses_back();
            CourseType::Workshop.lemma_name_parses_back();
            CourseType::Competition.lemma_name_parses_back();
        }
        if str_eq(l.as_str(), "group_class") {
            CourseType::GroupClass
        } else if str_eq(l.as_str(), "personal_training") {
            CourseType::PersonalTraining
        } else if str_eq(l.as_str(), "open_gym") {
            CourseType::OpenGym
        } else if str_eq(l.as_str(), "workshop") {
            CourseType::Workshop
        } else if str_eq(l.as_str(), "competition") {
            CourseType::Competition
        } else {
            CourseType::GroupClass
        }
    }
}

impl FromSpecImpl<String> for CourseType {
    open spec fn obeys_from_spec() -> bool {
        true
    }

    open spec fn from_spec(v: String) -> Self {
        Self::from_lowercase(lowercase_of(v@))
    }
}

/// How demanding a course is.
#[derive(Debug, Clone, Copy, PartialEq, Eq, Structural)]
pub enum DifficultyLevel {
    Beginner,
    Intermediate,
    Advanced,
    AllLevels,
}

impl DifficultyLevel {
    /// The name under which a level is stored.
    pub open spec fn name(self) -> Seq<char> {
        match self {
            DifficultyLevel::Beginner => "beginner"@,
            DifficultyLevel::Intermediate => "intermediate"@,
            DifficultyLevel::Advanced => "advanced"@,
            DifficultyLevel::AllLevels => "all_levels"@,
        }
    }

    /// The level that a lowercased stored name stands for; other names give `AllLevels`.
    pub open spec fn from_lowercase(s: Seq<char>) -> Self {
        if s == "beginner"@ {
            DifficultyLevel::Beginner
        } else if s == "intermediate"@ {
            DifficultyLevel::Intermediate
        } else if s == "advanced"@ {
            DifficultyLevel::Advanced
        } else {
            DifficultyLevel::AllLevels
        }
    }

    /// `k` is the kind that the stored name `stored` reads as: the one its
    /// lowercase form names, so that every stored name reads back as its own
    /// kind and an ASCII name reads through its ASCII lowercase form.
    pub open spec fn read_as(stored: Seq<char>, k: Self) -> bool {
        &&& k == Self::from_lowercase(lowercase_of(stored))
        &&& (all_ascii(stored) ==> k == Self::from_lowercase(ascii_lowercase(stored)))
        &&& forall|x: Self| stored == x.name() ==> k == x
    }

    /// Every stored name is ASCII, already lowercase, and parses back to its level.
    pub proof fn lemma_name_parses_back(self)
        ensures
            all_ascii(self.name()),
            ascii_lowercase(self.name()) == self.name(),
            Self::from_lowercase(self.name()) == self,
    {
        reveal_strlit("beginner");
        reveal_strlit("intermediate");
        reveal_strlit("advanced");
        reveal_strlit("all_levels");
        assert("beginner"@[0] != "advanced"@[0]);
        assert(ascii_lowercase(self.name()) =~= self.name());
    }

    /// The stored name of the level.
    pub fn to_string(&self) -> (s: String)
        ensures
            s@ == self.name(),
    {
        match self {
            DifficultyLevel::Beginner => owned("beginner"),
            DifficultyLevel::Intermediate => owned("intermediate"),
            DifficultyLevel::Advanced => owned("advanced"),
            DifficultyLevel::AllLevels => owned("all_levels"),
        }
    }
}

impl Default for DifficultyLevel {
    fn default() -> (r: Self)
        ensures
            r == DifficultyLevel::AllLevels,
    {
        DifficultyLevel::AllLevels
    }
}

impl From<String> for DifficultyLevel {
    /// Reads a stored name, ignoring case; other names give `AllLevels`.
    fn from(s: String) -> (r: Self)
        ensures
            r == Self::from_lowercase(lowercase_of(s@)),
            all_ascii(s@) ==> r == Self::from_lowercase(ascii_lowercase(s@)),
            forall|x: Self| s@ == x.name() ==> r == x,
    {
        let l = to_lowercase(s.as_str());
        proof {
            DifficultyLevel::Beginner.lemma_name_parses_back();
            DifficultyLevel::Intermediate.lemma_name_parses_back();
            DifficultyLevel::Advanced.lemma_name_parses_back();
            DifficultyLevel::AllLevels.lemma_name_parses_back();
        }
        if str_eq(l.as_str(), "beginner") {
            DifficultyLevel::Beginner
        } else if str_eq(l.as_str(), "intermediate") {
            DifficultyLevel::Intermediate
        } else if str_eq(l.as_str(), "advanced") {
            DifficultyLevel::Advanced
        } else {
            DifficultyLevel::AllLevels
        }
    }
}

impl FromSpecImpl<String> for DifficultyLevel {
    open spec fn obeys_from_spec() -> bool {
        true
    }

    open spec fn from_spec(v: String) -> Self {
        Self::from_lowercase(lowercase_of(v@))
    }
}

/// Whether a course still takes participants.
#[derive(Debug, Clone, Copy, PartialEq, Eq, Structural)]
pub enum CourseStatus {
    Active,
    Cancelled,
    Completed,
    Full,
}

impl CourseStatus {
    /// The name under which a status is stored.
    pub open spec fn name(self) -> Seq<char> {
        match self {
            CourseStatus::Active => "active"@,
            CourseStatus::Cancelled => "cancelled"@,
            CourseStatus::Completed => "completed"@,
            CourseStatus::Full => "full"@,
        }
    }

    /// The status that a lowercased stored name stands for; other names give `Active`.
    pub open spec fn from_lowercase(s: Seq<char>) -> Self {
        if s == "active"@ {
            CourseStatus::Active
        } else if s == "cancelled"@ {
            CourseStatus::Cancelled
        } else if s == "completed"@ {
            CourseStatus::Completed
        } else if s == "full"@ {
            CourseStatus::Full
        } else {
            CourseStatus::Active
        }
    }

    /// `k` is the kind that the stored name `stored` reads as: the one its
    /// lowercase form names, so that every stored name reads back as its own
    /// kind and an ASCII name reads through its ASCII lowercase form.
    pub open spec fn read_as(stored: Seq<char>, k: Self) -> bool {
        &&& k == Self::from_lowercase(lowercase_of(stored))
        &&& (all_ascii(stored) ==> k == Self::from_lowercase(ascii_lowercase(stored)))
        &&& forall|x: Self| stored == x.name() ==> k == x
    }

    /// Every stored name is ASCII, already lowercase, and parses back to its status.
    pub proof fn lemma_name_parses_back(self)
        ensures
            all_ascii(self.name()),
            ascii_lowercase(self.name()) == self.name(),
            Self::from_lowercase(self.name()) == self,
    {
        reveal_strlit("active");
        reveal_strlit("cancelled");
        reveal_strlit("completed");
        reveal_strlit("full");
        assert("cancelled"@[1] != "completed"@[1]);
        assert(ascii_lowercase(self.name()) =~= self.name());
    }

    /// The stored name of the status.
    pub fn to_string(&self) -> (s: String)
        ensures
            s@ == self.name(),
    {
        match self {
            CourseStatus::Active => owned("active"),
            CourseStatus::Cancelled => owned("cancelled"),
            CourseStatus::Completed => owned("completed"),
            CourseStatus::Full => owned("full"),
        }
    }
}

impl Default for CourseStatus {
    fn default() -> (r: Self)
        ensures
            r == CourseStatus::Active,
    {
        CourseStatus::Active
    }
}

impl From<String> for CourseStatus {
    /// Reads a stored name, ignoring case; other names give `Active`.
    fn from(s: String) -> (r: Self)
        ensures
            r == Self::from_lowercase(lowercase_of(s@)),
            all_ascii(s@) ==> r == Self::from_lowercase(ascii_lowercase(s@)),
            forall|x: Self| s@ == x.name() ==> r == x,
    {
        let l = to_lowercase(s.as_str());
        proof {
            CourseStatus::Active.lemma_name_parses_back();
            CourseStatus::Cancelled.lemma_name_parses_back();
            CourseStatus::Completed.lemma_name_parses_back();
            CourseStatus::Full.lemma_name_parses_back();
        }
        if str_eq(l.as_str(), "active") {
            CourseStatus::Active
        } else if str_eq(l.as_str(), "cancelled") {
            CourseStatus::Cancelled
        } else if str_eq(l.as_str(), "completed") {
            CourseStatus::Completed
        } else if str_eq(l.as_str(), "full") {
            CourseStatus::Full
        } else {
            CourseStatus::Active
        }
    }
}

impl FromSpecImpl<String> for CourseStatus {
    open spec fn obeys_from_spec() -> bool {
        true
    }

    open spec fn from_spec(v: String) -> Self {
        Self::from_lowercase(lowercase_of(v@))
    }
}


/// A course as it is stored; its kinds are kept as their names.
#[derive(Debug, Clone)]
pub struct Course<P> {
    pub id: String,
    pub name: String,
    pub description: Option<String>,
    pub course_type: String,
    pub difficulty_level: String,
    pub instructor_id: Option<String>,
    pub max_capacity: i32,
    pub current_enrollment: i32,
    pub duration_minutes: i32,
    pub price: P,
    pub status: String,
    pub created_at: String,
    pub updated_at: String,
}

/// A course as it is shown to clients.
#[derive(Debug, Clone)]
pub struct CourseResponse<P> {
    pub id: String,
    pub name: String,
    pub description: Option<String>,
    pub course_type: CourseType,
    pub difficulty_level: DifficultyLevel,
    pub instructor_id: Option<String>,
    pub instructor_name: Option<String>,
    pub max_capacity: i32,
    pub current_enrollment: i32,
    pub available_spots: i32,
    pub duration_minutes: i32,
    pub price: P,
    pub status: CourseStatus,
    pub created_at: String,
    pub updated_at: String,
}

impl<P> CourseResponse<P> {
    /// How a stored course is shown: kinds are read back ignoring case, the free
    /// places are computed and the instructor's name is left to be filled in.
    pub open spec fn shown(c: Course<P>) -> Self {
        CourseResponse {
            id: c.id,
            name: c.name,
            description: c.description,
            course_type: CourseType::from_lowercase(lowercase_of(c.course_type@)),
            difficulty_level: DifficultyLevel::from_lowercase(lowercase_of(c.difficulty_level@)),
            instructor_id: c.instructor_id,
            instructor_name: None,
            max_capacity: c.max_capacity,
            current_enrollment: c.current_enrollment,
            available_spots: open_seats(c.max_capacity, c.current_enrollment),
            duration_minutes: c.duration_minutes,
            price: c.price,
            status: CourseStatus::from_lowercase(lowercase_of(c.status@)),
            created_at: c.created_at,
            updated_at: c.updated_at,
        }
    }

    /// The kinds that a shown course carries are the ones its stored names read as.
    pub open spec fn reads_kinds(r: Self, c: Course<P>) -> bool {
        &&& CourseType::read_as(c.course_type@, r.course_type)
        &&& DifficultyLevel::read_as(c.difficulty_level@, r.difficulty_level)
        &&& CourseStatus::read_as(c.status@, r.status)
    }
}

impl<P> From<Course<P>> for CourseResponse<P> {
    /// Shows a stored course.
    fn from(c: Course<P>) -> (r: Self)
        ensures
            r == Self::shown(c),
            Self::reads_kinds(r, c),
    {
        let available = available_spots(c.max_capacity, c.current_enrollment);
        CourseResponse {
            id: c.id,
            name: c.name,
            description: c.description,
            course_type: CourseType::from(c.course_type),
            difficulty_level: DifficultyLevel::from(c.difficulty_level),
            instructor_id: c.instructor_id,
            instructor_name: None,
            max_capacity: c.max_capacity,
            current_enrollment: c.current_enrollment,
            available_spots: available,
            duration_minutes: c.duration_minutes,
            price: c.price,
            status: CourseStatus::from(c.status),
            created_at: c.created_at,
            updated_at: c.updated_at,
        }
    }
}

impl<P> FromSpecImpl<Course<P>> for CourseResponse<P> {
    open spec fn obeys_from_spec() -> bool {
        true
    }

    open spec fn from_spec(c: Course<P>) -> Self {
        Self::shown(c)
    }
}

/// What an instructor or administrator sends to add a course.
#[derive(Debug, Clone)]
pub struct CreateCourseRequest<P> {
    pub name: String,
    pub description: Option<String>,
    pub course_type: CourseType,
    pub difficulty_level: Option<DifficultyLevel>,
    pub instructor_id: Option<String>,
    pub max_capacity: i32,
    pub duration_minutes: i32,
    pub price: P,
}

/// What an instructor or administrator sends to change a course; absent fields stay.
#[derive(Debug, Clone)]
pub struct UpdateCourseRequest<P> {
    pub name: Option<String>,
    pub description: Option<String>,
    pub course_type: Option<CourseType>,
    pub difficulty_level: Option<DifficultyLevel>,
    pub instructor_id: Option<String>,
    pub max_capacity: Option<i32>,
    pub duration_minutes: Option<i32>,
    pub price: Option<P>,
    pub status: Option<CourseStatus>,
}

/// One page of courses.
#[derive(Debug, Clone)]
pub struct CourseListResponse<P> {
    pub courses: Vec<CourseResponse<P>>,
    pub total: i64,
    pub page: i64,
    pub per_page: i64,
}

/// The report lines for a new course: a name, room for at least one
/// participant, at least fifteen minutes, and a price that is not negative.
pub open spec fn create_course_failures<P>(req: CreateCourseRequest<P>, price_negative: bool) -> Seq<
    Seq<char>,
> {
    line_if(
        !length_within(req.name@, Some(1), None),
        failure_line("name"@, "Course name is required"@),
    ) + line_if(
        req.max_capacity < 1,
        failure_line("max_capacity"@, "Max capacity must be at least 1"@),
    ) + line_if(
        req.duration_minutes < 15,
        failure_line("duration_minutes"@, "Duration must be at least 15 minutes"@),
    ) + line_if(price_negative, failure_line("price"@, "Price cannot be negative"@))
}

impl<P> CreateCourseRequest<P> {
    /// Checks the request's fields; `price_negative` tells whether its price is below zero.
    pub fn validate(&self, price_negative: bool) -> (r: Result<(), AppError>)
        ensures
            reports(r, create_course_failures(*self, price_negative)),
    {
        let mut lines: Vec<String> = Vec::new();
        let name_ok = length_ok(self.name.as_str(), Some(1), None);
        note_if(&mut lines, !name_ok, "name", "Course name is required");
        note_if(&mut lines, self.max_capacity < 1, "max_capacity", "Max capacity must be at least 1");
        note_if(
            &mut lines,
            self.duration_minutes < 15,
            "duration_minutes",
            "Duration must be at least 15 minutes",
        );
        note_if(&mut lines, price_negative, "price", "Price cannot be negative");
        finish(lines)
    }
}

/// The report lines for a course change: a new capacity must be at least one,
/// a new duration at least fifteen minutes, and a new price not negative.
pub open spec fn update_course_failures<P>(req: UpdateCourseRequest<P>, price_negative: bool) -> Seq<
    Seq<char>,
> {
    line_if(
        req.max_capacity matches Some(c) && c < 1,
        failure_line("max_capacity"@, "Max capacity must be at least 1"@),
    ) + line_if(
        req.duration_minutes matches Some(d) && d < 15,
        failure_line("duration_minutes"@, "Duration must be at least 15 minutes"@),
    ) + line_if(
        req.price is Some && price_negative,
        failure_line("price"@, "Price cannot be negative"@),
    )
}

impl<P> UpdateCourseRequest<P> {
    /// Checks the request's fields; `price_negative` tells whether its price, if any, is below zero.
    pub fn validate(&self, price_negative: bool) -> (r: Result<(), AppError>)
        ensures
            reports(r, update_course_failures(*self, price_negative)),
    {
        let mut lines: Vec<String> = Vec::new();
        let small = match self.max_capacity {
            Some(c) => c < 1,
            None => false,
        };
        note_if(&mut lines, small, "max_capacity", "Max capacity must be at least 1");
        let short = match self.duration_minutes {
            Some(d) => d < 15,
            None => false,
        };
        note_if(&mut lines, short, "duration_minutes", "Duration must be at least 15 minutes");
        let negative = self.price.is_some() && price_negative;
        note_if(&mut lines, negative, "price", "Price cannot be negative");
        finish(lines)
    }
}

/// `c` is the course that `req` creates, given its identifier and the time of
/// writing: nobody enrolled yet, active, for all levels unless a level is given.
pub open spec fn created_course<P>(c: Course<P>, req: CreateCourseRequest<P>, id: String, now: String) -> bool {
    &&& c.id == id
    &&& c.name == req.name
    &&& c.description == req.description
    &&& c.course_type@ == req.course_type.name()
    &&& c.difficulty_level@ == or_else(req.difficulty_level, DifficultyLevel::AllLevels).name()
    &&& c.instructor_id == req.instructor_id
    &&& c.max_capacity == req.max_capacity
    &&& c.current_enrollment == 0
    &&& c.duration_minutes == req.duration_minutes
    &&& c.price == req.price
    &&& c.status@ == CourseStatus::Active.name()
    &&& c.created_at == now
    &&& c.updated_at == now
}

/// The course that `req` creates, with the given identifier and time.
pub fn build_course<P: Copy>(req: &CreateCourseRequest<P>, id: String, now: String) -> (c: Course<P>)
    ensures
        created_course(c, *req, id, now),
{
    let level = match req.difficulty_level {
        Some(d) => d,
        None => DifficultyLevel::AllLevels,
    };
    Course {
        id,
        name: req.name.clone(),
        description: clone_opt(&req.description),
        course_type: req.course_type.to_string(),
        difficulty_level: level.to_string(),
        instructor_id: clone_opt(&req.instructor_id),
        max_capacity: req.max_capacity,
        current_enrollment: 0,
        duration_minutes: req.duration_minutes,
        price: req.price,
        status: CourseStatus::Active.to_string(),
        created_at: now.clone(),
        updated_at: now,
    }
}

/// A new course for `req` under a fresh identifier, stamped with the current time.
pub fn new_course<P: Copy>(req: &CreateCourseRequest<P>) -> (c: Course<P>)
    ensures
        is_hyphenated_uuid(c.id@),
        created_course(c, *req, c.id, c.created_at),
{
    let id = new_record_id();
    let now = now_rfc3339();
    build_course(req, id, now)
}

/// `r` is `existing` after `req` is applied at time `now`: every field that the
/// request carries replaces the stored one and the others stay.
pub open spec fn updated_course<P>(
    r: Course<P>,
    existing: Course<P>,
    req: UpdateCourseRequest<P>,
    now: String,
) -> bool {
    &&& r.id == existing.id
    &&& r.name == or_else(req.name, existing.name)
    &&& r.description == (match req.description {
        Some(d) => Some(d),
        None => existing.description,
    })
    &&& (match req.course_type {
        Some(t) => r.course_type@ == t.name(),
        None => r.course_type == existing.course_type,
    })
    &&& (match req.difficulty_level {
        Some(d) => r.difficulty_level@ == d.name(),
        None => r.difficulty_level == existing.difficulty_level,
    })
    &&& r.instructor_id == (match req.instructor_id {
        Some(i) => Some(i),
        None => existing.instructor_id,
    })
    &&& r.max_capacity == or_else(req.max_capacity, existing.max_capacity)
    &&& r.current_enrollment == existing.current_enrollment
    &&& r.duration_minutes == or_else(req.duration_minutes, existing.duration_minutes)
    &&& r.price == or_else(req.price, existing.price)
    &&& (match req.status {
        Some(s) => r.status@ == s.name(),
        None => r.status == existing.status,
    })
    &&& r.created_at == existing.created_at
    &&& r.updated_at == now
}

/// Applies a change request to a stored course at time `now`.
pub fn merge_course_update<P: Copy>(existing: Course<P>, req: &UpdateCourseRequest<P>, now: String) -> (r:
    Course<P>)
    ensures
        updated_course(r, existing, *req, now),
{
    Course {
        id: existing.id,
        name: match &req.name {
            Some(n) => n.clone(),
            None => existing.name,
        },
        description: match &req.description {
            Some(d) => Some(d.clone()),
            None => existing.description,
        },
        course_type: match req.course_type {
            Some(t) => t.to_string(),
            None => existing.course_type,
        },
        difficulty_level: match req.difficulty_level {
            Some(d) => d.to_string(),
            None => existing.difficulty_level,
        },
        instructor_id: match &req.instructor_id {
            Some(i) => Some(i.clone()),
            None => existing.instructor_id,
        },
        max_capacity: match req.max_capacity {
            Some(c) => c,
            None => existing.max_capacity,
        },
        current_enrollment: existing.current_enrollment,
        duration_minutes: match req.duration_minutes {
            Some(d) => d,
            None => existing.duration_minutes,
        },
        price: match req.price {
            Some(p) => p,
            None => existing.price,
        },
        status: match req.status {
            Some(s) => s.to_string(),
            None => existing.status,
        },
        created_at: existing.created_at,
        updated_at: now,
    }
}

/// Applies a change request to a stored course, stamped with the current time.
pub fn apply_course_update<P: Copy>(existing: Course<P>, req: &UpdateCourseRequest<P>) -> (r: Course<P>)
    ensures
        updated_course(r, existing, *req, r.updated_at),
{
    let now = now_rfc3339();
    merge_course_update(existing, req, now)
}

/// Whether a change request carries no change at all.
pub open spec fn is_empty_course_update<P>(req: UpdateCourseRequest<P>) -> bool {
    req.name is None && req.description is None && req.course_type is None
        && req.difficulty_level is None && req.instructor_id is None && req.max_capacity is None
        && req.duration_minutes is None && req.price is None && req.status is None
}

/// A change request that carries nothing changes nothing but the time of the
/// course's last change.
pub proof fn law_empty_course_update<P>(
    r: Course<P>,
    existing: Course<P>,
    req: UpdateCourseRequest<P>,
    now: String,
)
    requires
        updated_course(r, existing, req, now),
        is_empty_course_update(req),
    ensures
        r == (Course { updated_at: now, ..existing }),
{
}


/// Validation accepts the request exactly when no field fails its rule, and
/// the report of a failed validation lists the line of every field that fails.
pub proof fn law_course_validation<P>(req: CreateCourseRequest<P>, price_negative: bool, r: Result<(), AppError>)
    requires
        reports(r, create_course_failures(req, price_negative)),
    ensures
        r is Ok <==> (!(req.name@.len() < 1) && !(req.max_capacity < 1) && !(req.duration_minutes < 15) && !(price_negative)),
        (req.name@.len() < 1) ==> lists_line(r, failure_line("name"@, "Course name is required"@)),
        (req.max_capacity < 1) ==> lists_line(r, failure_line("max_capacity"@, "Max capacity must be at least 1"@)),
        (req.duration_minutes < 15) ==> lists_line(r, failure_line("duration_minutes"@, "Duration must be at least 15 minutes"@)),
        (price_negative) ==> lists_line(r, failure_line("price"@, "Price cannot be negative"@)),
{
    lemma_line_if_contains(!length_within(req.name@, Some(1), None), failure_line("name"@, "Course name is required"@));
    lemma_line_if_contains(req.max_capacity < 1, failure_line("max_capacity"@, "Max capacity must be at least 1"@));
    lemma_line_if_contains(req.duration_minutes < 15, failure_line("duration_minutes"@, "Duration must be at least 15 minutes"@));
    lemma_line_if_contains(price_negative, failure_line("price"@, "Price cannot be negative"@));
    lemma_concat_contains(line_if(!length_within(req.name@, Some(1), None), failure_line("name"@, "Course name is required"@)), line_if(req.max_capacity < 1, failure_line("max_capacity"@, "Max capacity must be at least 1"@)), failure_line("name"@, "Course name is required"@));
    lemma_concat_contains(line_if(!length_within(req.name@, Some(1), None), failure_line("name"@, "Course name is required"@)) + line_if(req.max_capacity < 1, failure_line("max_capacity"@, "Max capacity must be at least 1"@)), line_if(req.duration_minutes < 15, failure_line("duration_minutes"@, "Duration must be at least 15 minutes"@)), failure_line("name"@, "Course name is required"@));
    lemma_concat_contains(line_if(!length_within(req.name@, Some(1), None), failure_line("name"@, "Course name is required"@)) + line_if(req.max_capacity < 1, failure_line("max_capacity"@, "Max capacity must be at least 1"@)) + line_if(req.duration_minutes < 15, failure_line("duration_minutes"@, "Duration must be at least 15 minutes"@)), line_if(price_negative, failure_line("price"@, "Price cannot be negative"@)), failure_line("name"@, "Course name is required"@));
    lemma_concat_contains(line_if(!length_within(req.name@, Some(1), None), failure_line("name"@, "Course name is required"@)), line_if(req.max_capacity < 1, failure_line("max_capacity"@, "Max capacity must be at least 1"@)), failure_line("max_capacity"@, "Max capacity must be at least 1"@));
    lemma_concat_contains(line_if(!length_within(req.name@, Some(1), None), failure_line("name"@, "Course name is required"@)) + line_if(req.max_capacity < 1, failure_line("max_capacity"@, "Max capacity must be at least 1"@)), line_if(req.duration_minutes < 15, failure_line("duration_minutes"@, "Duration must be at least 15 minutes"@)), failure_line("max_capacity"@, "Max capacity must be at least 1"@));
    lemma_concat_contains(line_if(!length_within(req.name@, Some(1), None), failure_line("name"@, "Course name is required"@)) + line_if(req.max_capacity < 1, failure_line("max_capacity"@, "Max capacity must be at least 1"@)) + line_if(req.duration_minutes < 15, failure_line("duration_minutes"@, "Duration must be at least 15 minutes"@)), line_if(price_negative, failure_line("price"@, "Price cannot be negative"@)), failure_line("max_capacity"@, "Max capacity must be at least 1"@));
    lemma_concat_contains(line_if(!length_within(req.name@, Some(1), None), failure_line("name"@, "Course name is required"@)), line_if(req.max_capacity < 1, failure_line("max_capacity"@, "Max capacity must be at least 1"@)), failure_line("duration_minutes"@, "Duration must be at least 15 minutes"@));
    lemma_concat_contains(line_if(!length_within(req.name@, Some(1), None), failure_line("name"@, "Course name is required"@)) + line_if(req.max_capacity < 1, failure_line("max_capacity"@, "Max capacity must be at least 1"@)), line_if(req.duration_minutes < 15, failure_line("duration_minutes"@, "Duration must be at least 15 minutes"@)), failure_line("duration_minutes"@, "Duration must be at least 15 minutes"@));
    lemma_concat_contains(line_if(!length_within(req.name@, Some(1), None), failure_line("name"@, "Course name is required"@)) + line_if(req.max_capacity < 1, failure_line("max_capacity"@, "Max capacity must be at least 1"@)) + line_if(req.duration_minutes < 15, failure_line("duration_minutes"@, "Duration must be at least 15 minutes"@)), line_if(price_negative, failure_line("price"@, "Price cannot be negative"@)), failure_line("duration_minutes"@, "Duration must be at least 15 minutes"@));
    lemma_concat_contains(line_if(!length_within(req.name@, Some(1), None), failure_line("name"@, "Course name is required"@)), line_if(req.max_capacity < 1, failure_line("max_capacity"@, "Max capacity must be at least 1"@)), failure_line("price"@, "Price cannot be negative"@));
    lemma_concat_contains(line_if(!length_within(req.name@, Some(1), None), failure_line("name"@, "Course name is required"@)) + line_if(req.max_capacity < 1, failure_line("max_capacity"@, "Max capacity must be at least 1"@)), line_if(req.duration_minutes < 15, failure_line("duration_minutes"@, "Duration must be at least 15 minutes"@)), failure_line("price"@, "Price cannot be negative"@));
    lemma_concat_contains(line_if(!length_within(req.name@, Some(1), None), failure_line("name"@, "Course name is required"@)) + line_if(req.max_capacity < 1, failure_line("max_capacity"@, "Max capacity must be at least 1"@)) + line_if(req.duration_minutes < 15, failure_line("duration_minutes"@, "Duration must be at least 15 minutes"@)), line_if(price_negative, failure_line("price"@, "Price cannot be negative"@)), failure_line("price"@, "Price cannot be negative"@));
    assert(create_course_failures(req, price_negative) == line_if(!length_within(req.name@, Some(1), None), failure_line("name"@, "Course name is required"@)) + line_if(req.max_capacity < 1, failure_line("max_capacity"@, "Max capacity must be at least 1"@)) + line_if(req.duration_minutes < 15, failure_line("duration_minutes"@, "Duration must be at least 15 minutes"@)) + line_if(price_negative, failure_line("price"@, "Price cannot be negative"@)));
    if !length_within(req.name@, Some(1), None) {
        lemma_reported_line(r, create_course_failures(req, price_negative), failure_line("name"@, "Course name is required"@));
    }
    if req.max_capacity < 1 {
        lemma_reported_line(r, create_course_failures(req, price_negative), failure_line("max_capacity"@, "Max capacity must be at least 1"@));
    }
    if req.duration_minutes < 15 {
        lemma_reported_line(r, create_course_failures(req, price_negative), failure_line("duration_minutes"@, "Duration must be at least 15 minutes"@));
    }
    if price_negative {
        lemma_reported_line(r, create_course_failures(req, price_negative), failure_line("price"@, "Price cannot be negative"@));
    }
}

/// Validation accepts the request exactly when no field fails its rule, and
/// the report of a failed validation lists the line of every field that fails.
pub proof fn law_course_update_validation<P>(req: UpdateCourseRequest<P>, price_negative: bool, r: Result<(), AppError>)
    requires
        reports(r, update_course_failures(req, price_negative)),
    ensures
        r is Ok <==> (!(req.max_capacity matches Some(c) && c < 1) && !(req.duration_minutes matches Some(d) && d < 15) && !(req.price is Some && price_negative)),
        (req.max_capacity matches Some(c) && c < 1) ==> lists_line(r, failure_line("max_capacity"@, "Max capacity must be at least 1"@)),
        (req.duration_minutes matches Some(d) && d < 15) ==> lists_line(r, failure_line("duration_minutes"@, "Duration must be at least 15 minutes"@)),
        (req.price is Some && price_negative) ==> lists_line(r, failure_line("price"@, "Price cannot be negative"@)),
{
    lemma_line_if_contains(req.max_capacity matches Some(c) && c < 1, failure_line("max_capacity"@, "Max capacity must be at least 1"@));
    lemma_line_if_contains(req.duration_minutes matches Some(d) && d < 15, failure_line("duration_minutes"@, "Duration must be at least 15 minutes"@));
    lemma_line_if_contains(req.price is Some && price_negative, failure_line("price"@, "Price cannot be negative"@));
    lemma_concat_contains(line_if(req.max_capacity matches Some(c) && c < 1, failure_line("max_capacity"@, "Max capacity must be at least 1"@)), line_if(req.duration_minutes matches Some(d) && d < 15, failure_line("duration_minutes"@, "Duration must be at least 15 minutes"@)), failure_line("max_capacity"@, "Max capacity must be at least 1"@));
    lemma_concat_contains(line_if(req.max_capacity matches Some(c) && c < 1, failure_line("max_capacity"@, "Max capacity must be at least 1"@)) + line_if(req.duration_minutes matches Some(d) && d < 15, failure_line("duration_minutes"@, "Duration must be at least 15 minutes"@)), line_if(req.price is Some && price_negative, failure_line("price"@, "Price cannot be negative"@)), failure_line("max_capacity"@, "Max capacity must be at least 1"@));
    lemma_concat_contains(line_if(req.max_capacity matches Some(c) && c < 1, failure_line("max_capacity"@, "Max capacity must be at least 1"@)), line_if(req.duration_minutes matches Some(d) && d < 15, failure_line("duration_minutes"@, "Duration must be at least 15 minutes"@)), failure_line("duration_minutes"@, "Duration must be at least 15 minutes"@));
    lemma_concat_contains(line_if(req.max_capacity matches Some(c) && c < 1, failure_line("max_capacity"@, "Max capacity must be at least 1"@)) + line_if(req.duration_minutes matches Some(d) && d < 15, failure_line("duration_minutes"@, "Duration must be at least 15 minutes"@)), line_if(req.price is Some && price_negative, failure_line("price"@, "Price cannot be negative"@)), failure_line("duration_minutes"@, "Duration must be at least 15 minutes"@));
    lemma_concat_contains(line_if(req.max_capacity matches Some(c) && c < 1, failure_line("max_capacity"@, "Max capacity must be at least 1"@)), line_if(req.duration_minutes matches Some(d) && d < 15, failure_line("duration_minutes"@, "Duration must be at least 15 minutes"@)), failure_line("price"@, "Price cannot be negative"@));
    lemma_concat_contains(line_if(req.max_capacity matches Some(c) && c < 1, failure_line("max_capacity"@, "Max capacity must be at least 1"@)) + line_if(req.duration_minutes matches Some(d) && d < 15, failure_line("duration_minutes"@, "Duration must be at least 15 minutes"@)), line_if(req.price is Some && price_negative, failure_line("price"@, "Price cannot be negative"@)), failure_line("price"@, "Price cannot be negative"@));
    assert(update_course_failures(req, price_negative) == line_if(req.max_capacity matches Some(c) && c < 1, failure_line("max_capacity"@, "Max capacity must be at least 1"@)) + line_if(req.duration_minutes matches Some(d) && d < 15, failure_line("duration_minutes"@, "Duration must be at least 15 minutes"@)) + line_if(req.price is Some && price_negative, failure_line("price"@, "Price cannot be negative"@)));
    if req.max_capacity matches Some(c) && c < 1 {
        lemma_reported_line(r, update_course_failures(req, price_negative), failure_line("max_capacity"@, "Max capacity must be at least 1"@));
    }
    if req.duration_minutes matches Some(d) && d < 15 {
        lemma_reported_line(r, update_course_failures(req, price_negative), failure_line("duration_minutes"@, "Duration must be at least 15 minutes"@));
    }
    if req.price is Some && price_negative {
        lemma_reported_line(r, update_course_failures(req, price_negative), failure_line("price"@, "Price cannot be negative"@));
    }
}


/// Updating a course sets every field that the request gives to the given
/// value, keeps every field that it leaves out, never touches the fields that
/// a request cannot change, and stamps the time of the change.
pub proof fn law_course_update_fields<P>(r: Course<P>, existing: Course<P>, req: UpdateCourseRequest<P>, now: String)
    requires
        updated_course(r, existing, req, now),
    ensures
        req.name matches Some(v) ==> r.name == v,
        req.name is None ==> r.name == existing.name,
        req.description matches Some(v) ==> r.description == Some(v),
        req.description is None ==> r.description == existing.description,
        req.course_type matches Some(k) ==> r.course_type@ == k.name(),
        req.course_type is None ==> r.course_type == existing.course_type,
        req.difficulty_level matches Some(k) ==> r.difficulty_level@ == k.name(),
        req.difficulty_level is None ==> r.difficulty_level == existing.difficulty_level,
        req.instructor_id matches Some(v) ==> r.instructor_id == Some(v),
        req.instructor_id is None ==> r.instructor_id == existing.instructor_id,
        req.max_capacity matches Some(v) ==> r.max_capacity == v,
        req.max_capacity is None ==> r.max_capacity == existing.max_capacity,
        req.duration_minutes matches Some(v) ==> r.duration_minutes == v,
        req.duration_minutes is None ==> r.duration_minutes == existing.duration_minutes,
        req.price matches Some(v) ==> r.price == v,
        req.price is None ==> r.price == existing.price,
        req.status matches Some(k) ==> r.status@ == k.name(),
        req.status is None ==> r.status == existing.status,
        r.id == existing.id,
        r.current_enrollment == existing.current_enrollment,
        r.created_at == existing.created_at,
        r.updated_at == now,
{
}


/// A new course keeps what the request gives, has nobody enrolled yet, is
/// active, and is for all levels unless a level is given.
pub proof fn law_new_course_defaults<P>(c: Course<P>, req: CreateCourseRequest<P>, id: String, now: String)
    requires
        created_course(c, req, id, now),
    ensures
        c.id == id,
        c.name == req.name,
        c.description == req.description,
        c.course_type@ == req.course_type.name(),
        req.difficulty_level is None ==> c.difficulty_level@ == "all_levels"@,
        req.difficulty_level matches Some(d) ==> c.difficulty_level@ == d.name(),
        c.instructor_id == req.instructor_id,
        c.max_capacity == req.max_capacity,
        c.current_enrollment == 0,
        c.duration_minutes == req.duration_minutes,
        c.price == req.price,
        c.status@ == "active"@,
        c.created_at == now,
        c.updated_at == now,
{
}


/// A course is shown as it is stored: every stored field is passed on
/// unchanged, the kinds are the ones their stored names read as, and what the
/// store does not hold is left to be filled in.
pub proof fn law_course_shown_as_stored<P>(r: CourseResponse<P>, c: Course<P>)
    requires
        r == CourseResponse::shown(c),
        CourseResponse::reads_kinds(r, c),
    ensures
        r.id == c.id,
        r.name == c.name,
        r.description == c.description,
        all_ascii(c.course_type@) ==> r.course_type == CourseType::from_lowercase(ascii_lowercase(c.course_type@)),
        forall|k: CourseType| c.course_type@ == k.name() ==> r.course_type == k,
        all_ascii(c.difficulty_level@) ==> r.difficulty_level == DifficultyLevel::from_lowercase(ascii_lowercase(c.difficulty_level@)),
        forall|k: DifficultyLevel| c.difficulty_level@ == k.name() ==> r.difficulty_level == k,
        r.instructor_id == c.instructor_id,
        r.instructor_name is None,
        r.max_capacity == c.max_capacity,
        r.current_enrollment == c.current_enrollment,
        i32::MIN <= c.max_capacity - c.current_enrollment <= i32::MAX ==> r.available_spots == c.max_capacity - c.current_enrollment,
        r.duration_minutes == c.duration_minutes,
        r.price == c.price,
        all_ascii(c.status@) ==> r.status == CourseStatus::from_lowercase(ascii_lowercase(c.status@)),
        forall|k: CourseStatus| c.status@ == k.name() ==> r.status == k,
        r.created_at == c.created_at,
        r.updated_at == c.updated_at,
{
}


/// Every course type is stored under its snake-case name, and every stored
/// name reads back as the kind it names.
pub proof fn law_course_type_names()
    ensures
        CourseType::GroupClass.name() == "group_class"@,
        CourseType::PersonalTraining.name() == "personal_training"@,
        CourseType::OpenGym.name() == "open_gym"@,
        CourseType::Workshop.name() == "workshop"@,
        CourseType::Competition.name() == "competition"@,
        forall|k: CourseType| #[trigger] CourseType::from_lowercase(k.name()) == k,
{
    CourseType::GroupClass.lemma_name_parses_back();
    CourseType::PersonalTraining.lemma_name_parses_back();
    CourseType::OpenGym.lemma_name_parses_back();
    CourseType::Workshop.lemma_name_parses_back();
    CourseType::Competition.lemma_name_parses_back();
    reveal_strlit("group_class");
    reveal_strlit("personal_training");
    reveal_strlit("open_gym");
    reveal_strlit("workshop");
    reveal_strlit("competition");
    assert forall|k: CourseType| #[trigger] CourseType::from_lowercase(k.name()) == k by {
        k.lemma_name_parses_back();
    }
}

/// Every difficulty level is stored under its snake-case name, and every stored
/// name reads back as the kind it names.
pub proof fn law_difficulty_level_names()
    ensures
        DifficultyLevel::Beginner.name() == "beginner"@,
        DifficultyLevel::Intermediate.name() == "intermediate"@,
        DifficultyLevel::Advanced.name() == "advanced"@,
        DifficultyLevel::AllLevels.name() == "all_levels"@,
        forall|k: DifficultyLevel| #[trigger] DifficultyLevel::from_lowercase(k.name()) == k,
{
    DifficultyLevel::Beginner.lemma_name_parses_back();
    DifficultyLevel::Intermediate.lemma_name_parses_back();
    DifficultyLevel::Advanced.lemma_name_parses_back();
    DifficultyLevel::AllLevels.lemma_name_parses_back();
    reveal_strlit("beginner");
    reveal_strlit("intermediate");
    reveal_strlit("advanced");
    reveal_strlit("all_levels");
    assert forall|k: DifficultyLevel| #[trigger] DifficultyLevel::from_lowercase(k.name()) == k by {
        k.lemma_name_parses_back();
    }
}

/// Every course status is stored under its snake-case name, and every stored
/// name reads back as the kind it names.
pub proof fn law_course_status_names()
    ensures
        CourseStatus::Active.name() == "active"@,
        CourseStatus::Cancelled.name() == "cancelled"@,
        CourseStatus::Completed.name() == "completed"@,
        CourseStatus::Full.name() == "full"@,
        forall|k: CourseStatus| #[trigger] CourseStatus::from_lowercase(k.name()) == k,
{
    CourseStatus::Active.lemma_name_parses_back();
    CourseStatus::Cancelled.lemma_name_parses_back();
    CourseStatus::Completed.lemma_name_parses_back();
    CourseStatus::Full.lemma_name_parses_back();
    reveal_strlit("active");
    reveal_strlit("cancelled");
    reveal_strlit("completed");
    reveal_strlit("full");
    assert forall|k: CourseStatus| #[trigger] CourseStatus::from_lowercase(k.name()) == k by {
        k.lemma_name_parses_back();
    }
}

} // verus!
