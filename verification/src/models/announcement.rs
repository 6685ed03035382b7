//! Announcements that the gym publishes to its members and staff.
use vstd::prelude::*;
use vstd::std_specs::convert::FromSpecImpl;
use crate::error::AppError;
use crate::ids::{is_hyphenated_uuid, new_record_id, now_rfc3339};
use crate::text::{
    all_ascii, ascii_lowercase, clone_opt, lowercase_of, or_else, owned, str_eq, to_lowercase,
};
use crate::validation::{
    finish, length_ok, length_within, line_if, failure_line, note_if, reports, lists_line, lemma_reported_line, lemma_line_if_contains, lemma_concat_contains,
};

verus! {

/// How urgent an announcement is.
#[derive(Debug, Clone, Copy, PartialEq, Eq, Structural)]
pub enum AnnouncementPriority {
    Low,
    Normal,
    High,
    Urgent,
}

impl AnnouncementPriority {
    /// The name under which a priority is stored.
    pub open spec fn name(self) -> Seq<char> {
        match self {
            AnnouncementPriority::Low => "low"@,
            AnnouncementPriority::Normal => "normal"@,
            AnnouncementPriority::High => "high"@,
            AnnouncementPriority::Urgent => "urgent"@,
        }
    }

    /// The priority that a lowercased stored name stands for; unknown names are normal.
    pub open spec fn from_lowercase(s: Seq<char>) -> Self {
        if s == "low"@ {
            AnnouncementPriority::Low
        } else if s == "high"@ {
            AnnouncementPriority::High
        } else if s == "urgent"@ {
            AnnouncementPriority::Urgent
        } else {
            AnnouncementPriority::Normal
        }
    }

    /// `k` is the kind that the stored name `stored` reads as: the one its
    /// lowercase form names, so that every stored name reads back as its own
    /// kind and an ASCII name reads through its ASCII lowercase form.
    pub open spec fn read_as(stored: Seq<char>, k: Self) -> bool {
        &&& k == Self::from_lowercase(lowercase_of(stored))
        &&& (all_ascii(stored) ==> k == Self::from_lowercase(ascii_lowercase(stored)))
        &&& forall|x: Self| stored == x.name() ==> k == x
    }

    /// Every stored name is ASCII, already lowercase, and parses back to its priority.
    pub proof fn lemma_name_parses_back(self)
        ensures
            all_ascii(self.name()),
            ascii_lowercase(self.name()) == self.name(),
            Self::from_lowercase(self.name()) == self,
    {
        reveal_strlit("low");
        reveal_strlit("normal");
        reveal_strlit("high");
        reveal_strlit("urgent");
        assert("normal"@[0] != "urgent"@[0]);
        assert(ascii_lowercase(self.name()) =~= self.name());
    }

    /// The stored name of the priority.
    pub fn to_string(&self) -> (s: String)
        ensures
            s@ == self.name(),
    {
        match self {
            AnnouncementPriority::Low => owned("low"),
            AnnouncementPriority::Normal => owned("normal"),
            AnnouncementPriority::High => owned("high"),
            AnnouncementPriority::Urgent => owned("urgent"),
        }
    }
}

impl Default for AnnouncementPriority {
    fn default() -> (r: Self)
        ensures
            r == AnnouncementPriority::Normal,
    {
        AnnouncementPriority::Normal
    }
}

impl From<String> for AnnouncementPriority {
    /// Reads a stored name, ignoring case; unknown names give `Normal`.
    fn from(s: String) -> (r: Self)
        ensures
            r == Self::from_lowercase(lowercase_of(s@)),
            all_ascii(s@) ==> r == Self::from_lowercase(ascii_lowercase(s@)),
            forall|x: Self| s@ == x.name() ==> r == x,
    {
        let l = to_lowercase(s.as_str());
        proof {
            AnnouncementPriority::Low.lemma_name_parses_back();
            AnnouncementPriority::Normal.lemma_name_parses_back();
            AnnouncementPriority::High.lemma_name_parses_back();
            AnnouncementPriority::Urgent.lemma_name_parses_back();
        }
        if str_eq(l.as_str(), "low") {
            AnnouncementPriority::Low
        } else if str_eq(l.as_str(), "high") {
            AnnouncementPriority::High
        } else if str_eq(l.as_str(), "urgent") {
            AnnouncementPriority::Urgent
        } else {
            AnnouncementPriority::Normal
        }
    }
}

impl FromSpecImpl<String> for AnnouncementPriority {
    open spec fn obeys_from_spec() -> bool {
        true
    }

    open spec fn from_spec(v: String) -> Self {
        Self::from_lowercase(lowercase_of(v@))
    }
}

/// Where an announcement is in its life: being written, visible, or withdrawn.
#[derive(Debug, Clone, Copy, PartialEq, Eq, Structural)]
pub enum AnnouncementStatus {
    Draft,
    Published,
    Archived,
}

impl AnnouncementStatus {
    /// The name under which a status is stored.
    pub open spec fn name(self) -> Seq<char> {
        match self {
            AnnouncementStatus::Draft => "draft"@,
            AnnouncementStatus::Published => "published"@,
            AnnouncementStatus::Archived => "archived"@,
        }
    }

    /// The status that a lowercased stored name stands for; unknown names are drafts.
    pub open spec fn from_lowercase(s: Seq<char>) -> Self {
        if s == "published"@ {
            AnnouncementStatus::Published
        } else if s == "archived"@ {
            AnnouncementStatus::Archived
        } else {
            AnnouncementStatus::Draft
        }
    }

    /// `k` is the kind that the stored name `stored` reads as: the one its
    /// lowercase form names, so that every stored name reads back as its own
    /// kind and an ASCII name reads through its ASCII lowercase form.
    pub open spec fn read_as(stored: Seq<char>, k: Self) -> bool {
        &&& k == Self::from_lowercase(lowercase_of(stored))
        &&& (all_ascii(stored) ==> k == Self::from_lowercase(ascii_lowercase(stored)))
        &&& forall|x: Self| stored == x.name() ==> k == x
    }

    /// Every stored name is ASCII, already lowercase, and parses back to its status.
    pub proof fn lemma_name_parses_back(self)
        ensures
            all_ascii(self.name()),
            ascii_lowercase(self.name()) == self.name(),
            Self::from_lowercase(self.name()) == self,
    {
        reveal_strlit("draft");
        reveal_strlit("published");
        reveal_strlit("archived");
        assert(ascii_lowercase(self.name()) =~= self.name());
    }

    /// The stored name of the status.
    pub fn to_string(&self) -> (s: String)
        ensures
            s@ == self.name(),
    {
        match self {
            AnnouncementStatus::Draft => owned("draft"),
            AnnouncementStatus::Published => owned("published"),
            AnnouncementStatus::Archived => owned("archived"),
        }
    }
}

impl Default for AnnouncementStatus {
    fn default() -> (r: Self)
        ensures
            r == AnnouncementStatus::Draft,
    {
        AnnouncementStatus::Draft
    }
}

impl From<String> for AnnouncementStatus {
    /// Reads a stored name, ignoring case; unknown names give `Draft`.
    fn from(s: String) -> (r: Self)
        ensures
            r == Self::from_lowercase(lowercase_of(s@)),
            all_ascii(s@) ==> r == Self::from_lowercase(ascii_lowercase(s@)),
            forall|x: Self| s@ == x.name() ==> r == x,
    {
        let l = to_lowercase(s.as_str());
        proof {
            AnnouncementStatus::Draft.lemma_name_parses_back();
            AnnouncementStatus::Published.lemma_name_parses_back();
            AnnouncementStatus::Archived.lemma_name_parses_back();
        }
        if str_eq(l.as_str(), "published") {
            AnnouncementStatus::Published
        } else if str_eq(l.as_str(), "archived") {
            AnnouncementStatus::Archived
        } else {
            AnnouncementStatus::Draft
        }
    }
}

impl FromSpecImpl<String> for AnnouncementStatus {
    open spec fn obeys_from_spec() -> bool {
        true
    }

    open spec fn from_spec(v: String) -> Self {
        Self::from_lowercase(lowercase_of(v@))
    }
}

/// Who an announcement is meant for.
#[derive(Debug, Clone, Copy, PartialEq, Eq, Structural)]
pub enum TargetAudience {
    All,
    Members,
    Instructors,
    Staff,
}

impl TargetAudience {
    /// The name under which an audience is stored.
    pub open spec fn name(self) -> Seq<char> {
        match self {
            TargetAudience::All => "all"@,
            TargetAudience::Members => "members"@,
            TargetAudience::Instructors => "instructors"@,
            TargetAudience::Staff => "staff"@,
        }
    }

    /// The audience that a lowercased stored name stands for; unknown names mean everyone.
    pub open spec fn from_lowercase(s: Seq<char>) -> Self {
        if s == "members"@ {
            TargetAudience::Members
        } else if s == "instructors"@ {
            TargetAudience::Instructors
        } else if s == "staff"@ {
            TargetAudience::Staff
        } else {
            TargetAudience::All
        }
    }

    /// `k` is the kind that the stored name `stored` reads as: the one its
    /// lowercase form names, so that every stored name reads back as its own
    /// kind and an ASCII name reads through its ASCII lowercase form.
    pub open spec fn read_as(stored: Seq<char>, k: Self) -> bool {
        &&& k == Self::from_lowercase(lowercase_of(stored))
        &&& (all_ascii(stored) ==> k == Self::from_lowercase(ascii_lowercase(stored)))
        &&& forall|x: Self| stored == x.name() ==> k == x
    }

    /// Every stored name is ASCII, already lowercase, and parses back to its audience.
    pub proof fn lemma_name_parses_back(self)
        ensures
            all_ascii(self.name()),
            ascii_lowercase(self.name()) == self.name(),
            Self::from_lowercase(self.name()) == self,
    {
        reveal_strlit("all");
        reveal_strlit("members");
        reveal_strlit("instructors");
        reveal_strlit("staff");
        assert(ascii_lowercase(self.name()) =~= self.name());
    }

    /// The stored name of the audience.
    pub fn to_string(&self) -> (s: String)
        ensures
            s@ == self.name(),
    {
        match self {
            TargetAudience::All => owned("all"),
            TargetAudience::Members => owned("members"),
            TargetAudience::Instructors => owned("instructors"),
            TargetAudience::Staff => owned("staff"),
        }
    }
}

impl Default for TargetAudience {
    fn default() -> (r: Self)
        ensures
            r == TargetAudience::All,
    {
        TargetAudience::All
    }
}

impl From<String> for TargetAudience {
    /// Reads a stored name, ignoring case; unknown names give `All`.
    fn from(s: String) -> (r: Self)
        ensures
            r == Self::from_lowercase(lowercase_of(s@)),
            all_ascii(s@) ==> r == Self::from_lowercase(ascii_lowercase(s@)),
            forall|x: Self| s@ == x.name() ==> r == x,
    {
        let l = to_lowercase(s.as_str());
        proof {
            TargetAudience::All.lemma_name_parses_back();
            TargetAudience::Members.lemma_name_parses_back();
            TargetAudience::Instructors.lemma_name_parses_back();
            TargetAudience::Staff.lemma_name_parses_back();
        }
        if str_eq(l.as_str(), "members") {
            TargetAudience::Members
        } else if str_eq(l.as_str(), "instructors") {
            TargetAudience::Instructors
        } else if str_eq(l.as_str(), "staff") {
            TargetAudience::Staff
        } else {
            TargetAudience::All
        }
    }
}

impl FromSpecImpl<String> for TargetAudience {
    open spec fn obeys_from_spec() -> bool {
        true
    }

    open spec fn from_spec(v: String) -> Self {
        Self::from_lowercase(lowercase_of(v@))
    }
}

/// An announcement as it is stored: its kinds are kept as their names.
#[derive(Debug, Clone)]
pub struct Announcement {
    pub id: String,
    pub title: String,
    pub content: String,
    pub priority: String,
    pub status: String,
    pub target_audience: String,
    pub author_id: String,
    pub publish_date: Option<String>,
    pub expiry_date: Option<String>,
    pub is_pinned: bool,
    pub created_at: String,
    pub updated_at: String,
}

/// An announcement as it is shown to clients, with its kinds read back.
#[derive(Debug, Clone)]
pub struct AnnouncementResponse {
    pub id: String,
    pub title: String,
    pub content: String,
    pub priority: AnnouncementPriority,
    pub status: AnnouncementStatus,
    pub target_audience: TargetAudience,
    pub author_id: String,
    pub publish_date: Option<String>,
    pub expiry_date: Option<String>,
    pub is_pinned: bool,
    pub created_at: String,
    pub updated_at: String,
}

impl From<Announcement> for AnnouncementResponse {
    /// Shows a stored announcement; kinds are read back ignoring case.
    fn from(a: Announcement) -> (r: Self)
        ensures
            r == Self::shown(a),
            Self::reads_kinds(r, a),
    {
        AnnouncementResponse {
            id: a.id,
            title: a.title,
            content: a.content,
            priority: AnnouncementPriority::from(a.priority),
            status: AnnouncementStatus::from(a.status),
            target_audience: TargetAudience::from(a.target_audience),
            author_id: a.author_id,
            publish_date: a.publish_date,
            expiry_date: a.expiry_date,
            is_pinned: a.is_pinned,
            created_at: a.created_at,
            updated_at: a.updated_at,
        }
    }
}

impl FromSpecImpl<Announcement> for AnnouncementResponse {
    open spec fn obeys_from_spec() -> bool {
        true
    }

    open spec fn from_spec(a: Announcement) -> Self {
        Self::shown(a)
    }
}

impl AnnouncementResponse {
    /// How a stored announcement is shown: kinds are read back ignoring case.
    pub open spec fn shown(a: Announcement) -> Self {
        AnnouncementResponse {
            id: a.id,
            title: a.title,
            content: a.content,
            priority: AnnouncementPriority::from_lowercase(lowercase_of(a.priority@)),
            status: AnnouncementStatus::from_lowercase(lowercase_of(a.status@)),
            target_audience: TargetAudience::from_lowercase(lowercase_of(a.target_audience@)),
            author_id: a.author_id,
            publish_date: a.publish_date,
            expiry_date: a.expiry_date,
            is_pinned: a.is_pinned,
            created_at: a.created_at,
            updated_at: a.updated_at,
        }
    }

    /// The kinds that a shown announcement carries are the ones its stored names read as.
    pub open spec fn reads_kinds(r: Self, a: Announcement) -> bool {
        &&& AnnouncementPriority::read_as(a.priority@, r.priority)
        &&& AnnouncementStatus::read_as(a.status@, r.status)
        &&& TargetAudience::read_as(a.target_audience@, r.target_audience)
    }
}

/// What an administrator sends to write a new announcement.
#[derive(Debug, Clone)]
pub struct CreateAnnouncementRequest {
    pub title: String,
    pub content: String,
    pub priority: Option<AnnouncementPriority>,
    pub target_audience: Option<TargetAudience>,
    pub publish_date: Option<String>,
    pub expiry_date: Option<String>,
    pub is_pinned: Option<bool>,
    pub publish_immediately: Option<bool>,
}

/// What an administrator sends to change an announcement; absent fields stay as they are.
#[derive(Debug, Clone)]
pub struct UpdateAnnouncementRequest {
    pub title: Option<String>,
    pub content: Option<String>,
    pub priority: Option<AnnouncementPriority>,
    pub status: Option<AnnouncementStatus>,
    pub target_audience: Option<TargetAudience>,
    pub publish_date: Option<String>,
    pub expiry_date: Option<String>,
    pub is_pinned: Option<bool>,
}

/// One page of announcements.
#[derive(Debug, Clone)]
pub struct AnnouncementListResponse {
    pub announcements: Vec<AnnouncementResponse>,
    pub total: i64,
    pub page: i64,
    pub per_page: i64,
}

/// Filters for listing announcements.
#[derive(Debug, Clone)]
pub struct AnnouncementQuery {
    pub status: Option<String>,
    pub priority: Option<String>,
    pub target_audience: Option<String>,
    pub pinned_only: Option<bool>,
}

/// The report lines for a new announcement: the title must have 1 to 200
/// characters and the content at least one.
pub open spec fn create_announcement_failures(req: CreateAnnouncementRequest) -> Seq<Seq<char>> {
    line_if(
        !length_within(req.title@, Some(1), Some(200)),
        failure_line("title"@, "Title must be between 1 and 200 characters"@),
    ) + line_if(
        !length_within(req.content@, Some(1), None),
        failure_line("content"@, "Content is required"@),
    )
}

impl CreateAnnouncementRequest {
    /// Checks the request's fields.
    pub fn validate(&self) -> (r: Result<(), AppError>)
        ensures
            reports(r, create_announcement_failures(*self)),
    {
        let mut lines: Vec<String> = Vec::new();
        let title_ok = length_ok(self.title.as_str(), Some(1), Some(200));
        note_if(&mut lines, !title_ok, "title", "Title must be between 1 and 200 characters");
        let content_ok = length_ok(self.content.as_str(), Some(1), None);
        note_if(&mut lines, !content_ok, "content", "Content is required");
        finish(lines)
    }
}

/// `a` is the announcement that `req` creates for `author_id`, given its
/// identifier and the time of writing: unset kinds take their defaults, and
/// only an immediate publication is published, dated at once.
pub open spec fn created_announcement(
    a: Announcement,
    req: CreateAnnouncementRequest,
    author_id: Seq<char>,
    id: String,
    now: String,
) -> bool {
    let immediate = or_else(req.publish_immediately, false);
    &&& a.id == id
    &&& a.title == req.title
    &&& a.content == req.content
    &&& a.priority@ == or_else(req.priority, AnnouncementPriority::Normal).name()
    &&& a.status@ == (if immediate {
        AnnouncementStatus::Published
    } else {
        AnnouncementStatus::Draft
    }).name()
    &&& a.target_audience@ == or_else(req.target_audience, TargetAudience::All).name()
    &&& a.author_id@ == author_id
    &&& a.publish_date == (if immediate {
        Some(now)
    } else {
        req.publish_date
    })
    &&& a.expiry_date == req.expiry_date
    &&& a.is_pinned == or_else(req.is_pinned, false)
    &&& a.created_at == now
    &&& a.updated_at == now
}

/// The announcement that `req` creates, with the given identifier and time.
pub fn build_announcement(
    req: &CreateAnnouncementRequest,
    author_id: &str,
    id: String,
    now: String,
) -> (a: Announcement)
    ensures
        created_announcement(a, *req, author_id@, id, now),
{
    let priority = match req.priority {
        Some(p) => p,
        None => AnnouncementPriority::Normal,
    };
    let audience = match req.target_audience {
        Some(t) => t,
        None => TargetAudience::All,
    };
    let immediate = match req.publish_immediately {
        Some(b) => b,
        None => false,
    };
    let status = if immediate {
        AnnouncementStatus::Published
    } else {
        AnnouncementStatus::Draft
    };
    let publish_date = if immediate {
        Some(now.clone())
    } else {
        clone_opt(&req.publish_date)
    };
    Announcement {
        id,
        title: req.title.clone(),
        content: req.content.clone(),
        priority: priority.to_string(),
        status: status.to_string(),
        target_audience: audience.to_string(),
        author_id: owned(author_id),
        publish_date,
        expiry_date: clone_opt(&req.expiry_date),
        is_pinned: match req.is_pinned {
            Some(b) => b,
            None => false,
        },
        created_at: now.clone(),
        updated_at: now,
    }
}

/// A new announcement for `req`, under a fresh identifier and stamped with the current time.
pub fn new_announcement(req: &CreateAnnouncementRequest, author_id: &str) -> (a: Announcement)
    ensures
        is_hyphenated_uuid(a.id@),
        created_announcement(a, *req, author_id@, a.id, a.created_at),
{
    let id = new_record_id();
    let now = now_rfc3339();
    build_announcement(req, author_id, id, now)
}

/// `r` is `existing` after `req` is applied at time `now`: every field that the
/// request carries replaces the stored one, the others stay, and the publication
/// date becomes `now` when the status turns to published.
pub open spec fn updated_announcement(
    r: Announcement,
    existing: Announcement,
    req: UpdateAnnouncementRequest,
    now: String,
) -> bool {
    let status = match req.status {
        Some(s) => s.name(),
        None => existing.status@,
    };
    &&& r.id == existing.id
    &&& r.title == or_else(req.title, existing.title)
    &&& r.content == or_else(req.content, existing.content)
    &&& (match req.priority {
        Some(p) => r.priority@ == p.name(),
        None => r.priority == existing.priority,
    })
    &&& r.status@ == status
    &&& (req.status is None ==> r.status == existing.status)
    &&& (match req.target_audience {
        Some(t) => r.target_audience@ == t.name(),
        None => r.target_audience == existing.target_audience,
    })
    &&& r.author_id == existing.author_id
    &&& r.publish_date == (if status == "published"@ && existing.status@ != "published"@ {
        Some(now)
    } else {
        match req.publish_date {
            Some(d) => Some(d),
            None => existing.publish_date,
        }
    })
    &&& r.expiry_date == (match req.expiry_date {
        Some(d) => Some(d),
        None => existing.expiry_date,
    })
    &&& r.is_pinned == or_else(req.is_pinned, existing.is_pinned)
    &&& r.created_at == existing.created_at
    &&& r.updated_at == now
}

/// Applies a change request to a stored announcement at time `now`.
pub fn merge_announcement_update(
    existing: Announcement,
    req: &UpdateAnnouncementRequest,
    now: String,
) -> (r: Announcement)
    ensures
        updated_announcement(r, existing, *req, now),
{
    let title = match &req.title {
        Some(t) => t.clone(),
        None => existing.title,
    };
    let content = match &req.content {
        Some(c) => c.clone(),
        None => existing.content,
    };
    let priority = match req.priority {
        Some(p) => p.to_string(),
        None => existing.priority,
    };
    let status = match req.status {
        Some(s) => s.to_string(),
        None => existing.status.clone(),
    };
    let target_audience = match req.target_audience {
        Some(t) => t.to_string(),
        None => existing.target_audience,
    };
    let requested_date = match &req.publish_date {
        Some(d) => Some(d.clone()),
        None => existing.publish_date,
    };
    let expiry_date = match &req.expiry_date {
        Some(d) => Some(d.clone()),
        None => existing.expiry_date,
    };
    let is_pinned = match req.is_pinned {
        Some(b) => b,
        None => existing.is_pinned,
    };
    let becomes_published = str_eq(status.as_str(), "published") && !str_eq(
        existing.status.as_str(),
        "published",
    );
    let publish_date = if becomes_published {
        Some(now.clone())
    } else {
        requested_date
    };
    Announcement {
        id: existing.id,
        title,
        content,
        priority,
        status,
        target_audience,
        author_id: existing.author_id,
        publish_date,
        expiry_date,
        is_pinned,
        created_at: existing.created_at,
        updated_at: now,
    }
}

/// Applies a change request to a stored announcement, stamped with the current time.
pub fn apply_announcement_update(existing: Announcement, req: &UpdateAnnouncementRequest) -> (r:
    Announcement)
    ensures
        updated_announcement(r, existing, *req, r.updated_at),
{
    let now = now_rfc3339();
    merge_announcement_update(existing, req, now)
}

/// `r` is `existing` published at time `now`: its status is published, its
/// publication is dated `now`, and nothing else changes but the time of change.
pub open spec fn published_announcement(r: Announcement, existing: Announcement, now: String) -> bool {
    &&& r.status@ == AnnouncementStatus::Published.name()
    &&& r == (Announcement { status: r.status, publish_date: Some(now), updated_at: now, ..existing })
}

/// Publishes a stored announcement at time `now`.
pub fn publish_announcement_at(existing: Announcement, now: String) -> (r: Announcement)
    ensures
        published_announcement(r, existing, now),
{
    Announcement {
        status: AnnouncementStatus::Published.to_string(),
        publish_date: Some(now.clone()),
        updated_at: now,
        ..existing
    }
}


/// Publishes a stored announcement now.
pub fn publish_announcement(existing: Announcement) -> (r: Announcement)
    ensures
        published_announcement(r, existing, r.updated_at),
{
    publish_announcement_at(existing, now_rfc3339())
}

/// `r` is `existing` archived at time `now`: only its status and the time of change differ.
pub open spec fn archived_announcement(r: Announcement, existing: Announcement, now: String) -> bool {
    &&& r.status@ == AnnouncementStatus::Archived.name()
    &&& r == (Announcement { status: r.status, updated_at: now, ..existing })
}

/// Archives a stored announcement at time `now`.
pub fn archive_announcement_at(existing: Announcement, now: String) -> (r: Announcement)
    ensures
        archived_announcement(r, existing, now),
{
    Announcement { status: AnnouncementStatus::Archived.to_string(), updated_at: now, ..existing }
}


/// Archives a stored announcement now.
pub fn archive_announcement(existing: Announcement) -> (r: Announcement)
    ensures
        archived_announcement(r, existing, r.updated_at),
{
    archive_announcement_at(existing, now_rfc3339())
}

/// Whether a change request carries no change at all.
pub open spec fn is_empty_announcement_update(req: UpdateAnnouncementRequest) -> bool {
    req.title is None && req.content is None && req.priority is None && req.status is None && req.target_audience is None && req.publish_date is None && req.expiry_date is None && req.is_pinned is None
}

/// A change request that carries nothing changes nothing but the time of the
/// announcement's last change.
pub proof fn law_empty_announcement_update(r: Announcement, existing: Announcement, req: UpdateAnnouncementRequest, now: String)
    requires
        updated_announcement(r, existing, req, now),
        is_empty_announcement_update(req),
    ensures
        r == (Announcement { updated_at: now, ..existing }),
{
}

/// An update that turns an announcement to published dates its publication at
/// the time of the update; an update of an announcement that already is
/// published keeps its date unless it sets one.
pub proof fn law_announcement_publication_date(
    r: Announcement,
    existing: Announcement,
    req: UpdateAnnouncementRequest,
    now: String,
)
    requires
        updated_announcement(r, existing, req, now),
    ensures
        r.status@ == "published"@ && existing.status@ != "published"@ ==> r.publish_date == Some(now),
        existing.status@ == "published"@ && req.publish_date is None ==> r.publish_date
            == existing.publish_date,
{
}



/// Validation accepts the request exactly when no field fails its rule, and
/// the report of a failed validation lists the line of every field that fails.
pub proof fn law_announcement_validation(req: CreateAnnouncementRequest, r: Result<(), AppError>)
    requires
        reports(r, create_announcement_failures(req)),
    ensures
        r is Ok <==> (!(!(1 <= req.title@.len() <= 200)) && !(req.content@.len() < 1)),
        (!(1 <= req.title@.len() <= 200)) ==> lists_line(r, failure_line("title"@, "Title must be between 1 and 200 characters"@)),
        (req.content@.len() < 1) ==> lists_line(r, failure_line("content"@, "Content is required"@)),
{
    lemma_line_if_contains(!length_within(req.title@, Some(1), Some(200)), failure_line("title"@, "Title must be between 1 and 200 characters"@));
    lemma_line_if_contains(!length_within(req.content@, Some(1), None), failure_line("content"@, "Content is required"@));
    lemma_concat_contains(line_if(!length_within(req.title@, Some(1), Some(200)), failure_line("title"@, "Title must be between 1 and 200 characters"@)), line_if(!length_within(req.content@, Some(1), None), failure_line("content"@, "Content is required"@)), failure_line("title"@, "Title must be between 1 and 200 characters"@));
    lemma_concat_contains(line_if(!length_within(req.title@, Some(1), Some(200)), failure_line("title"@, "Title must be between 1 and 200 characters"@)), line_if(!length_within(req.content@, Some(1), None), failure_line("content"@, "Content is required"@)), failure_line("content"@, "Content is required"@));
    assert(create_announcement_failures(req) == line_if(!length_within(req.title@, Some(1), Some(200)), failure_line("title"@, "Title must be between 1 and 200 characters"@)) + line_if(!length_within(req.content@, Some(1), None), failure_line("content"@, "Content is required"@)));
    if !length_within(req.title@, Some(1), Some(200)) {
        lemma_reported_line(r, create_announcement_failures(req), failure_line("title"@, "Title must be between 1 and 200 characters"@));
    }
    if !length_within(req.content@, Some(1), None) {
        lemma_reported_line(r, create_announcement_failures(req), failure_line("content"@, "Content is required"@));
    }
}


/// Updating a announcement sets every field that the request gives to the given
/// value, keeps every field that it leaves out, never touches the fields that
/// a request cannot change, and stamps the time of the change.
pub proof fn law_announcement_update_fields(r: Announcement, existing: Announcement, req: UpdateAnnouncementRequest, now: String)
    requires
        updated_announcement(r, existing, req, now),
    ensures
        req.title matches Some(v) ==> r.title == v,
        req.title is None ==> r.title == existing.title,
        req.content matches Some(v) ==> r.content == v,
        req.content is None ==> r.content == existing.content,
        req.priority matches Some(k) ==> r.priority@ == k.name(),
        req.priority is None ==> r.priority == existing.priority,
        req.status matches Some(k) ==> r.status@ == k.name(),
        req.status is None ==> r.status == existing.status,
        req.target_audience matches Some(k) ==> r.target_audience@ == k.name(),
        req.target_audience is None ==> r.target_audience == existing.target_audience,
        req.expiry_date matches Some(v) ==> r.expiry_date == Some(v),
        req.expiry_date is None ==> r.expiry_date == existing.expiry_date,
        req.is_pinned matches Some(v) ==> r.is_pinned == v,
        req.is_pinned is None ==> r.is_pinned == existing.is_pinned,
        !(r.status@ == "published"@ && existing.status@ != "published"@) ==> (req.publish_date matches Some(d) ==> r.publish_date == Some(d)),
        req.publish_date is None && !(r.status@ == "published"@ && existing.status@ != "published"@) ==> r.publish_date == existing.publish_date,
        r.id == existing.id,
        r.author_id == existing.author_id,
        r.created_at == existing.created_at,
        r.updated_at == now,
{
}


/// A new announcement keeps what the request gives and fills the rest with
/// fixed defaults: normal priority, for everyone, not pinned; it is a draft
/// with the requested publication date unless it is published at once, and
/// then it is published and dated at its creation.
pub proof fn law_new_announcement_defaults(
    a: Announcement,
    req: CreateAnnouncementRequest,
    author_id: Seq<char>,
    id: String,
    now: String,
)
    requires
        created_announcement(a, req, author_id, id, now),
    ensures
        a.id == id,
        a.title == req.title,
        a.content == req.content,
        a.author_id@ == author_id,
        req.priority is None ==> a.priority@ == "normal"@,
        req.priority matches Some(p) ==> a.priority@ == p.name(),
        req.target_audience is None ==> a.target_audience@ == "all"@,
        req.target_audience matches Some(t) ==> a.target_audience@ == t.name(),
        req.is_pinned is None ==> !a.is_pinned,
        req.is_pinned matches Some(b) ==> a.is_pinned == b,
        req.publish_immediately != Some(true) ==> a.status@ == "draft"@ && a.publish_date
            == req.publish_date,
        req.publish_immediately == Some(true) ==> a.status@ == "published"@ && a.publish_date
            == Some(now),
        a.expiry_date == req.expiry_date,
        a.created_at == now,
        a.updated_at == now,
{
}


/// Publishing an announcement makes it published and dated now, and changes nothing
/// else but the time of change.
pub proof fn law_publishing_announcement(r: Announcement, existing: Announcement, now: String)
    requires
        published_announcement(r, existing, now),
    ensures
        r.id == existing.id,
        r.title == existing.title,
        r.content == existing.content,
        r.priority == existing.priority,
        r.status@ == "published"@,
        r.target_audience == existing.target_audience,
        r.author_id == existing.author_id,
        r.publish_date == Some(now),
        r.expiry_date == existing.expiry_date,
        r.is_pinned == existing.is_pinned,
        r.created_at == existing.created_at,
        r.updated_at == now,
{
}


/// Archiving an announcement makes it archived, keeps its publication date and
/// everything else, and stamps the time of change.
pub proof fn law_archiving_announcement(r: Announcement, existing: Announcement, now: String)
    requires
        archived_announcement(r, existing, now),
    ensures
        r.id == existing.id,
        r.title == existing.title,
        r.content == existing.content,
        r.priority == existing.priority,
        r.status@ == "archived"@,
        r.target_audience == existing.target_audience,
        r.author_id == existing.author_id,
        r.publish_date == existing.publish_date,
        r.expiry_date == existing.expiry_date,
        r.is_pinned == existing.is_pinned,
        r.created_at == existing.created_at,
        r.updated_at == now,
{
}


/// A announcement is shown as it is stored: every stored field is passed on
/// unchanged, the kinds are the ones their stored names read as, and what the
/// store does not hold is left to be filled in.
pub proof fn law_announcement_shown_as_stored(r: AnnouncementResponse, a: Announcement)
    requires
        r == AnnouncementResponse::shown(a),
        AnnouncementResponse::reads_kinds(r, a),
    ensures
        r.id == a.id,
        r.title == a.title,
        r.content == a.content,
        all_ascii(a.priority@) ==> r.priority == AnnouncementPriority::from_lowercase(ascii_lowercase(a.priority@)),
        forall|k: AnnouncementPriority| a.priority@ == k.name() ==> r.priority == k,
        all_ascii(a.status@) ==> r.status == AnnouncementStatus::from_lowercase(ascii_lowercase(a.status@)),
        forall|k: AnnouncementStatus| a.status@ == k.name() ==> r.status == k,
        all_ascii(a.target_audience@) ==> r.target_audience == TargetAudience::from_lowercase(ascii_lowercase(a.target_audience@)),
        forall|k: TargetAudience| a.target_audience@ == k.name() ==> r.target_audience == k,
        r.author_id == a.author_id,
        r.publish_date == a.publish_date,
        r.expiry_date == a.expiry_date,
        r.is_pinned == a.is_pinned,
        r.created_at == a.created_at,
        r.updated_at == a.updated_at,
{
}


/// Every announcement priority is stored under its snake-case name, and every stored
/// name reads back as the kind it names.
pub proof fn law_announcement_priority_names()
    ensures
        AnnouncementPriority::Low.name() == "low"@,
        AnnouncementPriority::Normal.name() == "normal"@,
        AnnouncementPriority::High.name() == "high"@,
        AnnouncementPriority::Urgent.name() == "urgent"@,
        forall|k: AnnouncementPriority| #[trigger] AnnouncementPriority::from_lowercase(k.name()) == k,
{
    AnnouncementPriority::Low.lemma_name_parses_back();
    AnnouncementPriority::Normal.lemma_name_parses_back();
    AnnouncementPriority::High.lemma_name_parses_back();
    AnnouncementPriority::Urgent.lemma_name_parses_back();
    reveal_strlit("low");
    reveal_strlit("normal");
    reveal_strlit("high");
    reveal_strlit("urgent");
    assert forall|k: AnnouncementPriority| #[trigger] AnnouncementPriority::from_lowercase(k.name()) == k by {
        k.lemma_name_parses_back();
    }
}

/// Every announcement status is stored under its snake-case name, and every stored
/// name reads back as the kind it names.
pub proof fn law_announcement_status_names()
    ensures
        AnnouncementStatus::Draft.name() == "draft"@,
        AnnouncementStatus::Published.name() == "published"@,
        AnnouncementStatus::Archived.name() == "archived"@,
        forall|k: AnnouncementStatus| #[trigger] AnnouncementStatus::from_lowercase(k.name()) == k,
{
    AnnouncementStatus::Draft.lemma_name_parses_back();
    AnnouncementStatus::Published.lemma_name_parses_back();
    AnnouncementStatus::Archived.lemma_name_parses_back();
    reveal_strlit("draft");
    reveal_strlit("published");
    reveal_strlit("archived");
    assert forall|k: AnnouncementStatus| #[trigger] AnnouncementStatus::from_lowercase(k.name()) == k by {
        k.lemma_name_parses_back();
    }
}

/// Every target audience is stored under its snake-case name, and every stored
/// name reads back as the kind it names.
pub proof fn law_target_audience_names()
    ensures
        TargetAudience::All.name() == "all"@,
        TargetAudience::Members.name() == "members"@,
        TargetAudience::Instructors.name() == "instructors"@,
        TargetAudience::Staff.name() == "staff"@,
        forall|k: TargetAudience| #[trigger] TargetAudience::from_lowercase(k.name()) == k,
{
    TargetAudience::All.lemma_name_parses_back();
    TargetAudience::Members.lemma_name_parses_back();
    TargetAudience::Instructors.lemma_name_parses_back();
    TargetAudience::Staff.lemma_name_parses_back();
    reveal_strlit("all");
    reveal_strlit("members");
    reveal_strlit("instructors");
    reveal_strlit("staff");
    assert forall|k: TargetAudience| #[trigger] TargetAudience::from_lowercase(k.name()) == k by {
        k.lemma_name_parses_back();
    }
}

} // verus!
