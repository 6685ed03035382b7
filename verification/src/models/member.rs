//! Members' accounts: who they are, their standing and their role.
use vstd::prelude::*;
use vstd::std_specs::convert::FromSpecImpl;
use crate::error::AppError;
use crate::ids::{is_hyphenated_uuid, new_record_id, now_rfc3339, today_and_days_later, days_later};
use crate::models::membership_plan::PlanDuration;
use crate::text::{
    all_ascii, ascii_lowercase, clone_opt, lowercase_of, or_else, owned, str_eq, to_lowercase,
};
use crate::validation::{
    email_accepted, email_ok, failure_line, finish, length_ok, length_within, line_if, note_if, reports, lists_line, lemma_reported_line, lemma_line_if_contains, lemma_concat_contains,
};

verus! {

/// The standing of a member's account.
#[derive(Debug, Clone, Copy, PartialEq, Eq, Structural)]
pub enum MemberStatus {
    Active,
    Inactive,
    Suspended,
    Expired,
}

impl MemberStatus {
    /// The name under which a status is stored.
    pub open spec fn name(self) -> Seq<char> {
        match self {
            MemberStatus::Active => "active"@,
            MemberStatus::Inactive => "inactive"@,
            MemberStatus::Suspended => "suspended"@,
            MemberStatus::Expired => "expired"@,
        }
    }

    /// The status that a lowercased stored name stands for; other names give `Inactive`.
    pub open spec fn from_lowercase(s: Seq<char>) -> Self {
        if s == "active"@ {
            MemberStatus::Active
        } else if s == "inactive"@ {
            MemberStatus::Inactive
        } else if s == "suspended"@ {
            MemberStatus::Suspended
        } else if s == "expired"@ {
            MemberStatus::Expired
        } else {
            MemberStatus::Inactive
        }
    }

    /// `k` is the kind that the stored name `stored` reads as: the one its
    /// lowercase form names, so that every stored name reads back as its own
    /// kind and an ASCII name reads through its ASCII lowercase form.
    pub open spec fn read_as(stored: Seq<char>, k: Self) -> bool {
        &&& k == Self::from_lowercase(lowercase_of(stored))
        &&& (all_ascii(stored) ==> k == Self::from_lowercase(ascii_lowercase(stored)))
        &&& forall|x: Self| stored == x.name() ==> k == x
    }

    /// Every stored name is ASCII, already lowercase, and parses back to its status.
    pub proof fn lemma_name_parses_back(self)
        ensures
            all_ascii(self.name()),
            ascii_lowercase(self.name()) == self.name(),
            Self::from_lowercase(self.name()) == self,
    {
        reveal_strlit("active");
        reveal_strlit("inactive");
        reveal_strlit("suspended");
        reveal_strlit("expired");
        assert(ascii_lowercase(self.name()) =~= self.name());
    }

    /// The stored name of the status.
    pub fn to_string(&self) -> (s: String)
        ensures
            s@ == self.name(),
    {
        match self {
            MemberStatus::Active => owned("active"),
            MemberStatus::Inactive => owned("inactive"),
            MemberStatus::Suspended => owned("suspended"),
            MemberStatus::Expired => owned("expired"),
        }
    }
}

impl Default for MemberStatus {
    fn default() -> (r: Self)
        ensures
            r == MemberStatus::Active,
    {
        MemberStatus::Active
    }
}

impl From<String> for MemberStatus {
    /// Reads a stored name, ignoring case; other names give `Inactive`.
    fn from(s: String) -> (r: Self)
        ensures
            r == Self::from_lowercase(lowercase_of(s@)),
            all_ascii(s@) ==> r == Self::from_lowercase(ascii_lowercase(s@)),
            forall|x: Self| s@ == x.name() ==> r == x,
    {
        let l = to_lowercase(s.as_str());
        proof {
            MemberStatus::Active.lemma_name_parses_back();
            MemberStatus::Inactive.lemma_name_parses_back();
            MemberStatus::Suspended.lemma_name_parses_back();
            MemberStatus::Expired.lemma_name_parses_back();
        }
        if str_eq(l.as_str(), "active") {
            MemberStatus::Active
        } else if str_eq(l.as_str(), "inactive") {
            MemberStatus::Inactive
        } else if str_eq(l.as_str(), "suspended") {
            MemberStatus::Suspended
        } else if str_eq(l.as_str(), "expired") {
            MemberStatus::Expired
        } else {
            MemberStatus::Inactive
        }
    }
}

impl FromSpecImpl<String> for MemberStatus {
    open spec fn obeys_from_spec() -> bool {
        true
    }

    open spec fn from_spec(v: String) -> Self {
        Self::from_lowercase(lowercase_of(v@))
    }
}

/// What a member may do in the service.
#[derive(Debug, Clone, Copy, PartialEq, Eq, Structural)]
pub enum MemberRole {
    Member,
    Admin,
    Instructor,
}

impl MemberRole {
    /// The name under which a role is stored.
    pub open spec fn name(self) -> Seq<char> {
        match self {
            MemberRole::Member => "member"@,
            MemberRole::Admin => "admin"@,
            MemberRole::Instructor => "instructor"@,
        }
    }

    /// The role that a lowercased stored name stands for; other names give `Member`.
    pub open spec fn from_lowercase(s: Seq<char>) -> Self {
        if s == "admin"@ {
            MemberRole::Admin
        } else if s == "instructor"@ {
            MemberRole::Instructor
        } else {
            MemberRole::Member
        }
    }

    /// `k` is the kind that the stored name `stored` reads as: the one its
    /// lowercase form names, so that every stored name reads back as its own
    /// kind and an ASCII name reads through its ASCII lowercase form.
    pub open spec fn read_as(stored: Seq<char>, k: Self) -> bool {
        &&& k == Self::from_lowercase(lowercase_of(stored))
        &&& (all_ascii(stored) ==> k == Self::from_lowercase(ascii_lowercase(stored)))
        &&& forall|x: Self| stored == x.name() ==> k == x
    }

    /// Every stored name is ASCII, already lowercase, and parses back to its role.
    pub proof fn lemma_name_parses_back(self)
        ensures
            all_ascii(self.name()),
            ascii_lowercase(self.name()) == self.name(),
            Self::from_lowercase(self.name()) == self,
    {
        reveal_strlit("member");
        reveal_strlit("admin");
        reveal_strlit("instructor");
        assert(ascii_lowercase(self.name()) =~= self.name());
    }

    /// The stored name of the role.
    pub fn to_string(&self) -> (s: String)
        ensures
            s@ == self.name(),
    {
        match self {
            MemberRole::Member => owned("member"),
            MemberRole::Admin => owned("admin"),
            MemberRole::Instructor => owned("instructor"),
        }
    }
}

impl Default for MemberRole {
    fn default() -> (r: Self)
        ensures
            r == MemberRole::Member,
    {
        MemberRole::Member
    }
}

impl From<String> for MemberRole {
    /// Reads a stored name, ignoring case; other names give `Member`.
    fn from(s: String) -> (r: Self)
        ensures
            r == Self::from_lowercase(lowercase_of(s@)),
            all_ascii(s@) ==> r == Self::from_lowercase(ascii_lowercase(s@)),
            forall|x: Self| s@ == x.name() ==> r == x,
    {
        let l = to_lowercase(s.as_str());
        proof {
            MemberRole::Member.lemma_name_parses_back();
            MemberRole::Admin.lemma_name_parses_back();
            MemberRole::Instructor.lemma_name_parses_back();
        }
        if str_eq(l.as_str(), "admin") {
            MemberRole::Admin
        } else if str_eq(l.as_str(), "instructor") {
            MemberRole::Instructor
        } else {
            MemberRole::Member
        }
    }
}

impl FromSpecImpl<String> for MemberRole {
    open spec fn obeys_from_spec() -> bool {
        true
    }

    open spec fn from_spec(v: String) -> Self {
        Self::from_lowercase(lowercase_of(v@))
    }
}


/// A member's account as it is stored; status and role are kept as their names.
#[derive(Debug, Clone)]
pub struct Member {
    pub id: String,
    pub email: String,
    pub password_hash: String,
    pub first_name: String,
    pub last_name: String,
    pub phone: Option<String>,
    pub date_of_birth: Option<String>,
    pub emergency_contact_name: Option<String>,
    pub emergency_contact_phone: Option<String>,
    pub status: String,
    pub role: String,
    pub membership_plan_id: Option<String>,
    pub membership_start_date: Option<String>,
    pub membership_end_date: Option<String>,
    pub created_at: String,
    pub updated_at: String,
}

/// A member's account as it is shown; the password hash is never shown.
#[derive(Debug, Clone)]
pub struct MemberResponse {
    pub id: String,
    pub email: String,
    pub first_name: String,
    pub last_name: String,
    pub phone: Option<String>,
    pub date_of_birth: Option<String>,
    pub emergency_contact_name: Option<String>,
    pub emergency_contact_phone: Option<String>,
    pub status: MemberStatus,
    pub role: MemberRole,
    pub membership_plan_id: Option<String>,
    pub membership_start_date: Option<String>,
    pub membership_end_date: Option<String>,
    pub created_at: String,
    pub updated_at: String,
}

impl MemberResponse {
    /// How a stored account is shown: status and role are read back ignoring case.
    pub open spec fn shown(m: Member) -> Self {
        MemberResponse {
            id: m.id,
            email: m.email,
            first_name: m.first_name,
            last_name: m.last_name,
            phone: m.phone,
            date_of_birth: m.date_of_birth,
            emergency_contact_name: m.emergency_contact_name,
            emergency_contact_phone: m.emergency_contact_phone,
            status: MemberStatus::from_lowercase(lowercase_of(m.status@)),
            role: MemberRole::from_lowercase(lowercase_of(m.role@)),
            membership_plan_id: m.membership_plan_id,
            membership_start_date: m.membership_start_date,
            membership_end_date: m.membership_end_date,
            created_at: m.created_at,
            updated_at: m.updated_at,
        }
    }

    /// The kinds that a shown account carries are the ones its stored names read as.
    pub open spec fn reads_kinds(r: Self, m: Member) -> bool {
        &&& MemberStatus::read_as(m.status@, r.status)
        &&& MemberRole::read_as(m.role@, r.role)
    }
}

impl From<Member> for MemberResponse {
    /// Shows a stored account.
    fn from(m: Member) -> (r: Self)
        ensures
            r == Self::shown(m),
            Self::reads_kinds(r, m),
    {
        MemberResponse {
            id: m.id,
            email: m.email,
            first_name: m.first_name,
            last_name: m.last_name,
            phone: m.phone,
            date_of_birth: m.date_of_birth,
            emergency_contact_name: m.emergency_contact_name,
            emergency_contact_phone: m.emergency_contact_phone,
            status: MemberStatus::from(m.status),
            role: MemberRole::from(m.role),
            membership_plan_id: m.membership_plan_id,
            membership_start_date: m.membership_start_date,
            membership_end_date: m.membership_end_date,
            created_at: m.created_at,
            updated_at: m.updated_at,
        }
    }
}

impl FromSpecImpl<Member> for MemberResponse {
    open spec fn obeys_from_spec() -> bool {
        true
    }

    open spec fn from_spec(m: Member) -> Self {
        Self::shown(m)
    }
}

/// What someone sends to open an account.
#[derive(Debug, Clone)]
pub struct CreateMemberRequest {
    pub email: String,
    pub password: String,
    pub first_name: String,
    pub last_name: String,
    pub phone: Option<String>,
    pub date_of_birth: Option<String>,
    pub emergency_contact_name: Option<String>,
    pub emergency_contact_phone: Option<String>,
}

/// What is sent to change an account; absent fields stay as they are.
#[derive(Debug, Clone)]
pub struct UpdateMemberRequest {
    pub email: Option<String>,
    pub first_name: Option<String>,
    pub last_name: Option<String>,
    pub phone: Option<String>,
    pub date_of_birth: Option<String>,
    pub emergency_contact_name: Option<String>,
    pub emergency_contact_phone: Option<String>,
    pub status: Option<MemberStatus>,
}

/// What an administrator sends to give a member a plan.
#[derive(Debug, Clone)]
pub struct AssignMembershipRequest {
    pub membership_plan_id: String,
}

/// What a member sends to sign in.
#[derive(Debug, Clone)]
pub struct LoginRequest {
    pub email: String,
    pub password: String,
}

/// The answer to a successful sign-in or registration.
#[derive(Debug, Clone)]
pub struct LoginResponse {
    pub token: String,
    pub member: MemberResponse,
}

/// One page of accounts.
#[derive(Debug, Clone)]
pub struct MemberListResponse {
    pub members: Vec<MemberResponse>,
    pub total: i64,
    pub page: i64,
    pub per_page: i64,
}

/// The report lines for a registration: a well-formed email, a password of at
/// least six characters, and both names.
pub open spec fn create_member_failures(req: CreateMemberRequest) -> Seq<Seq<char>> {
    line_if(!email_accepted(req.email@), failure_line("email"@, "Invalid email format"@))
        + line_if(
        !length_within(req.password@, Some(6), None),
        failure_line("password"@, "Password must be at least 6 characters"@),
    ) + line_if(
        !length_within(req.first_name@, Some(1), None),
        failure_line("first_name"@, "First name is required"@),
    ) + line_if(
        !length_within(req.last_name@, Some(1), None),
        failure_line("last_name"@, "Last name is required"@),
    )
}

impl CreateMemberRequest {
    /// Checks the request's fields.
    pub fn validate(&self) -> (r: Result<(), AppError>)
        ensures
            reports(r, create_member_failures(*self)),
    {
        let mut lines: Vec<String> = Vec::new();
        let email_valid = email_ok(self.email.as_str());
        note_if(&mut lines, !email_valid, "email", "Invalid email format");
        let password_ok = length_ok(self.password.as_str(), Some(6), None);
        note_if(&mut lines, !password_ok, "password", "Password must be at least 6 characters");
        let first_ok = length_ok(self.first_name.as_str(), Some(1), None);
        note_if(&mut lines, !first_ok, "first_name", "First name is required");
        let last_ok = length_ok(self.last_name.as_str(), Some(1), None);
        note_if(&mut lines, !last_ok, "last_name", "Last name is required");
        finish(lines)
    }
}

/// The report lines for an account change: a new email must be well-formed.
pub open spec fn update_member_failures(req: UpdateMemberRequest) -> Seq<Seq<char>> {
    line_if(
        req.email matches Some(e) && !email_accepted(e@),
        failure_line("email"@, "Invalid email format"@),
    )
}

impl UpdateMemberRequest {
    /// Checks the request's fields.
    pub fn validate(&self) -> (r: Result<(), AppError>)
        ensures
            reports(r, update_member_failures(*self)),
    {
        let mut lines: Vec<String> = Vec::new();
        let bad = match &self.email {
            Some(e) => !email_ok(e.as_str()),
            None => false,
        };
        note_if(&mut lines, bad, "email", "Invalid email format");
        finish(lines)
    }
}

/// The report lines for a sign-in: the email must be well-formed.
pub open spec fn login_failures(req: LoginRequest) -> Seq<Seq<char>> {
    line_if(!email_accepted(req.email@), failure_line("email"@, "Invalid email format"@))
}

impl LoginRequest {
    /// Checks the request's fields.
    pub fn validate(&self) -> (r: Result<(), AppError>)
        ensures
            reports(r, login_failures(*self)),
    {
        let mut lines: Vec<String> = Vec::new();
        let email_valid = email_ok(self.email.as_str());
        note_if(&mut lines, !email_valid, "email", "Invalid email format");
        finish(lines)
    }
}

/// Refuses a registration under an email address that an account already uses.
pub fn check_email_unused(email_taken: bool) -> (r: Result<(), AppError>)
    ensures
        r is Ok <==> !email_taken,
        r matches Err(e) ==> e is ConflictError && e.detail() == "Email already registered"@,
{
    if email_taken {
        Err(AppError::ConflictError(owned("Email already registered")))
    } else {
        Ok(())
    }
}

/// `m` is the account that `req` opens with the given password hash, given
/// its identifier and the time of registration: an active plain member without a plan.
pub open spec fn created_member(
    m: Member,
    req: CreateMemberRequest,
    password_hash: Seq<char>,
    id: String,
    now: String,
) -> bool {
    &&& m.id == id
    &&& m.email == req.email
    &&& m.password_hash@ == password_hash
    &&& m.first_name == req.first_name
    &&& m.last_name == req.last_name
    &&& m.phone == req.phone
    &&& m.date_of_birth == req.date_of_birth
    &&& m.emergency_contact_name == req.emergency_contact_name
    &&& m.emergency_contact_phone == req.emergency_contact_phone
    &&& m.status@ == MemberStatus::Active.name()
    &&& m.role@ == MemberRole::Member.name()
    &&& m.membership_plan_id is None
    &&& m.membership_start_date is None
    &&& m.membership_end_date is None
    &&& m.created_at == now
    &&& m.updated_at == now
}

/// The account that `req` opens, with the given identifier and time.
pub fn build_member(req: &CreateMemberRequest, password_hash: &str, id: String, now: String) -> (m:
    Member)
    ensures
        created_member(m, *req, password_hash@, id, now),
{
    Member {
        id,
        email: req.email.clone(),
        password_hash: owned(password_hash),
        first_name: req.first_name.clone(),
        last_name: req.last_name.clone(),
        phone: clone_opt(&req.phone),
        date_of_birth: clone_opt(&req.date_of_birth),
        emergency_contact_name: clone_opt(&req.emergency_contact_name),
        emergency_contact_phone: clone_opt(&req.emergency_contact_phone),
        status: MemberStatus::Active.to_string(),
        role: MemberRole::Member.to_string(),
        membership_plan_id: None,
        membership_start_date: None,
        membership_end_date: None,
        created_at: now.clone(),
        updated_at: now,
    }
}

/// A new account for `req` under a fresh identifier, stamped with the current time.
pub fn new_member(req: &CreateMemberRequest, password_hash: &str) -> (m: Member)
    ensures
        is_hyphenated_uuid(m.id@),
        created_member(m, *req, password_hash@, m.id, m.created_at),
{
    let id = new_record_id();
    let now = now_rfc3339();
    build_member(req, password_hash, id, now)
}

/// `r` is `existing` after `req` is applied at time `now`: every field that the
/// request carries replaces the stored one and the others stay.
pub open spec fn updated_member(r: Member, existing: Member, req: UpdateMemberRequest, now: String) -> bool {
    &&& r.id == existing.id
    &&& r.email == or_else(req.email, existing.email)
    &&& r.password_hash == existing.password_hash
    &&& r.first_name == or_else(req.first_name, existing.first_name)
    &&& r.last_name == or_else(req.last_name, existing.last_name)
    &&& r.phone == (match req.phone {
        Some(p) => Some(p),
        None => existing.phone,
    })
    &&& r.date_of_birth == (match req.date_of_birth {
        Some(d) => Some(d),
        None => existing.date_of_birth,
    })
    &&& r.emergency_contact_name == (match req.emergency_contact_name {
        Some(n) => Some(n),
        None => existing.emergency_contact_name,
    })
    &&& r.emergency_contact_phone == (match req.emergency_contact_phone {
        Some(p) => Some(p),
        None => existing.emergency_contact_phone,
    })
    &&& (match req.status {
        Some(s) => r.status@ == s.name(),
        None => r.status == existing.status,
    })
    &&& r.role == existing.role
    &&& r.membership_plan_id == existing.membership_plan_id
    &&& r.membership_start_date == existing.membership_start_date
    &&& r.membership_end_date == existing.membership_end_date
    &&& r.created_at == existing.created_at
    &&& r.updated_at == now
}

/// Applies a change request to a stored account at time `now`.
pub fn merge_member_update(existing: Member, req: &UpdateMemberRequest, now: String) -> (r: Member)
    ensures
        updated_member(r, existing, *req, now),
{
    Member {
        id: existing.id,
        email: match &req.email {
            Some(e) => e.clone(),
            None => existing.email,
        },
        password_hash: existing.password_hash,
        first_name: match &req.first_name {
            Some(n) => n.clone(),
            None => existing.first_name,
        },
        last_name: match &req.last_name {
            Some(n) => n.clone(),
            None => existing.last_name,
        },
        phone: match &req.phone {
            Some(p) => Some(p.clone()),
            None => existing.phone,
        },
        date_of_birth: match &req.date_of_birth {
            Some(d) => Some(d.clone()),
            None => existing.date_of_birth,
        },
        emergency_contact_name: match &req.emergency_contact_name {
            Some(n) => Some(n.clone()),
            None => existing.emergency_contact_name,
        },
        emergency_contact_phone: match &req.emergency_contact_phone {
            Some(p) => Some(p.clone()),
            None => existing.emergency_contact_phone,
        },
        status: match req.status {
            Some(s) => s.to_string(),
            None => existing.status,
        },
        role: existing.role,
        membership_plan_id: existing.membership_plan_id,
        membership_start_date: existing.membership_start_date,
        membership_end_date: existing.membership_end_date,
        created_at: existing.created_at,
        updated_at: now,
    }
}

/// Applies a change request to a stored account, stamped with the current time.
pub fn apply_member_update(existing: Member, req: &UpdateMemberRequest) -> (r: Member)
    ensures
        updated_member(r, existing, *req, r.updated_at),
{
    let now = now_rfc3339();
    merge_member_update(existing, req, now)
}

/// The first and last date of a membership starting today under a plan whose
/// stored duration is `plan_duration`: the last date lies as many days after
/// the first as the plan covers, so a per-session plan starts and ends today.
pub fn membership_period(plan_duration: String) -> (r: (String, String))
    ensures
        r.1@ == days_later(
            r.0@,
            PlanDuration::from_lowercase(lowercase_of(plan_duration@)).spec_days() as int,
        ),
        PlanDuration::from_lowercase(lowercase_of(plan_duration@)).spec_days() == 0 ==> r.0@ == r.1@,
{
    let duration = PlanDuration::from(plan_duration);
    let days = duration.days();
    today_and_days_later(days as i64)
}

/// `r` is `existing` given the plan `plan_id` from `start_date` to `end_date`
/// at time `now`: the plan and its dates are recorded, the account becomes
/// active, and nothing else changes but the time of change.
pub open spec fn assigned_membership(
    r: Member,
    existing: Member,
    plan_id: Seq<char>,
    start_date: String,
    end_date: String,
    now: String,
) -> bool {
    &&& r.status@ == MemberStatus::Active.name()
    &&& r.membership_plan_id matches Some(p) && p@ == plan_id
    &&& r == (Member {
        status: r.status,
        membership_plan_id: r.membership_plan_id,
        membership_start_date: Some(start_date),
        membership_end_date: Some(end_date),
        updated_at: now,
        ..existing
    })
}

/// Gives a stored account a plan over the given dates, at time `now`.
pub fn assign_membership_at(
    existing: Member,
    plan_id: &str,
    start_date: String,
    end_date: String,
    now: String,
) -> (r: Member)
    ensures
        assigned_membership(r, existing, plan_id@, start_date, end_date, now),
{
    Member {
        status: MemberStatus::Active.to_string(),
        membership_plan_id: Some(owned(plan_id)),
        membership_start_date: Some(start_date),
        membership_end_date: Some(end_date),
        updated_at: now,
        ..existing
    }
}


/// Gives a stored account a plan over the given dates, now.
pub fn assign_membership(existing: Member, plan_id: &str, start_date: String, end_date: String) -> (r:
    Member)
    ensures
        assigned_membership(r, existing, plan_id@, start_date, end_date, r.updated_at),
{
    assign_membership_at(existing, plan_id, start_date, end_date, now_rfc3339())
}

/// `r` is `existing` given the role `role` at time `now`: only the role and the
/// time of change differ.
pub open spec fn role_changed(r: Member, existing: Member, role: MemberRole, now: String) -> bool {
    &&& r.role@ == role.name()
    &&& r == (Member { role: r.role, updated_at: now, ..existing })
}

/// Gives a stored account another role at time `now`.
pub fn change_role_at(existing: Member, role: MemberRole, now: String) -> (r: Member)
    ensures
        role_changed(r, existing, role, now),
{
    Member { role: role.to_string(), updated_at: now, ..existing }
}


/// Gives a stored account another role, now.
pub fn update_member_role(existing: Member, role: MemberRole) -> (r: Member)
    ensures
        role_changed(r, existing, role, r.updated_at),
{
    change_role_at(existing, role, now_rfc3339())
}

/// Whether a change request carries no change at all.
pub open spec fn is_empty_member_update(req: UpdateMemberRequest) -> bool {
    req.email is None && req.first_name is None && req.last_name is None && req.phone is None && req.date_of_birth is None && req.emergency_contact_name is None && req.emergency_contact_phone is None && req.status is None
}

/// A change request that carries nothing changes nothing but the time of the
/// account's last change.
pub proof fn law_empty_member_update(r: Member, existing: Member, req: UpdateMemberRequest, now: String)
    requires
        updated_member(r, existing, req, now),
        is_empty_member_update(req),
    ensures
        r == (Member { updated_at: now, ..existing }),
{
}



/// Validation accepts the request exactly when no field fails its rule, and
/// the report of a failed validation lists the line of every field that fails.
pub proof fn law_registration_validation(req: CreateMemberRequest, r: Result<(), AppError>)
    requires
        reports(r, create_member_failures(req)),
    ensures
        r is Ok <==> (!(!email_accepted(req.email@)) && !(req.password@.len() < 6) && !(req.first_name@.len() < 1) && !(req.last_name@.len() < 1)),
        (!email_accepted(req.email@)) ==> lists_line(r, failure_line("email"@, "Invalid email format"@)),
        (req.password@.len() < 6) ==> lists_line(r, failure_line("password"@, "Password must be at least 6 characters"@)),
        (req.first_name@.len() < 1) ==> lists_line(r, failure_line("first_name"@, "First name is required"@)),
        (req.last_name@.len() < 1) ==> lists_line(r, failure_line("last_name"@, "Last name is required"@)),
{
    lemma_line_if_contains(!email_accepted(req.email@), failure_line("email"@, "Invalid email format"@));
    lemma_line_if_contains(!length_within(req.password@, Some(6), None), failure_line("password"@, "Password must be at least 6 characters"@));
    lemma_line_if_contains(!length_within(req.first_name@, Some(1), None), failure_line("first_name"@, "First name is required"@));
    lemma_line_if_contains(!length_within(req.last_name@, Some(1), None), failure_line("last_name"@, "Last name is required"@));
    lemma_concat_contains(line_if(!email_accepted(req.email@), failure_line("email"@, "Invalid email format"@)), line_if(!length_within(req.password@, Some(6), None), failure_line("password"@, "Password must be at least 6 characters"@)), failure_line("email"@, "Invalid email format"@));
    lemma_concat_contains(line_if(!email_accepted(req.email@), failure_line("email"@, "Invalid email format"@)) + line_if(!length_within(req.password@, Some(6), None), failure_line("password"@, "Password must be at least 6 characters"@)), line_if(!length_within(req.first_name@, Some(1), None), failure_line("first_name"@, "First name is required"@)), failure_line("email"@, "Invalid email format"@));
    lemma_concat_contains(line_if(!email_accepted(req.email@), failure_line("email"@, "Invalid email format"@)) + line_if(!length_within(req.password@, Some(6), None), failure_line("password"@, "Password must be at least 6 characters"@)) + line_if(!length_within(req.first_name@, Some(1), None), failure_line("first_name"@, "First name is required"@)), line_if(!length_within(req.last_name@, Some(1), None), failure_line("last_name"@, "Last name is required"@)), failure_line("email"@, "Invalid email format"@));
    lemma_concat_contains(line_if(!email_accepted(req.email@), failure_line("email"@, "Invalid email format"@)), line_if(!length_within(req.password@, Some(6), None), failure_line("password"@, "Password must be at least 6 characters"@)), failure_line("password"@, "Password must be at least 6 characters"@));
    lemma_concat_contains(line_if(!email_accepted(req.email@), failure_line("email"@, "Invalid email format"@)) + line_if(!length_within(req.password@, Some(6), None), failure_line("password"@, "Password must be at least 6 characters"@)), line_if(!length_within(req.first_name@, Some(1), None), failure_line("first_name"@, "First name is required"@)), failure_line("password"@, "Password must be at least 6 characters"@));
    lemma_concat_contains(line_if(!email_accepted(req.email@), failure_line("email"@, "Invalid email format"@)) + line_if(!length_within(req.password@, Some(6), None), failure_line("password"@, "Password must be at least 6 characters"@)) + line_if(!length_within(req.first_name@, Some(1), None), failure_line("first_name"@, "First name is required"@)), line_if(!length_within(req.last_name@, Some(1), None), failure_line("last_name"@, "Last name is required"@)), failure_line("password"@, "Password must be at least 6 characters"@));
    lemma_concat_contains(line_if(!email_accepted(req.email@), failure_line("email"@, "Invalid email format"@)), line_if(!length_within(req.password@, Some(6), None), failure_line("password"@, "Password must be at least 6 characters"@)), failure_line("first_name"@, "First name is required"@));
    lemma_concat_contains(line_if(!email_accepted(req.email@), failure_line("email"@, "Invalid email format"@)) + line_if(!length_within(req.password@, Some(6), None), failure_line("password"@, "Password must be at least 6 characters"@)), line_if(!length_within(req.first_name@, Some(1), None), failure_line("first_name"@, "First name is required"@)), failure_line("first_name"@, "First name is required"@));
    lemma_concat_contains(line_if(!email_accepted(req.email@), failure_line("email"@, "Invalid email format"@)) + line_if(!length_within(req.password@, Some(6), None), failure_line("password"@, "Password must be at least 6 characters"@)) + line_if(!length_within(req.first_name@, Some(1), None), failure_line("first_name"@, "First name is required"@)), line_if(!length_within(req.last_name@, Some(1), None), failure_line("last_name"@, "Last name is required"@)), failure_line("first_name"@, "First name is required"@));
    lemma_concat_contains(line_if(!email_accepted(req.email@), failure_line("email"@, "Invalid email format"@)), line_if(!length_within(req.password@, Some(6), None), failure_line("password"@, "Password must be at least 6 characters"@)), failure_line("last_name"@, "Last name is required"@));
    lemma_concat_contains(line_if(!email_accepted(req.email@), failure_line("email"@, "Invalid email format"@)) + line_if(!length_within(req.password@, Some(6), None), failure_line("password"@, "Password must be at least 6 characters"@)), line_if(!length_within(req.first_name@, Some(1), None), failure_line("first_name"@, "First name is required"@)), failure_line("last_name"@, "Last name is required"@));
    lemma_concat_contains(line_if(!email_accepted(req.email@), failure_line("email"@, "Invalid email format"@)) + line_if(!length_within(req.password@, Some(6), None), failure_line("password"@, "Password must be at least 6 characters"@)) + line_if(!length_within(req.first_name@, Some(1), None), failure_line("first_name"@, "First name is required"@)), line_if(!length_within(req.last_name@, Some(1), None), failure_line("last_name"@, "Last name is required"@)), failure_line("last_name"@, "Last name is required"@));
    assert(create_member_failures(req) == line_if(!email_accepted(req.email@), failure_line("email"@, "Invalid email format"@)) + line_if(!length_within(req.password@, Some(6), None), failure_line("password"@, "Password must be at least 6 characters"@)) + line_if(!length_within(req.first_name@, Some(1), None), failure_line("first_name"@, "First name is required"@)) + line_if(!length_within(req.last_name@, Some(1), None), failure_line("last_name"@, "Last name is required"@)));
    if !email_accepted(req.email@) {
        lemma_reported_line(r, create_member_failures(req), failure_line("email"@, "Invalid email format"@));
    }
    if !length_within(req.password@, Some(6), None) {
        lemma_reported_line(r, create_member_failures(req), failure_line("password"@, "Password must be at least 6 characters"@));
    }
    if !length_within(req.first_name@, Some(1), None) {
        lemma_reported_line(r, create_member_failures(req), failure_line("first_name"@, "First name is required"@));
    }
    if !length_within(req.last_name@, Some(1), None) {
        lemma_reported_line(r, create_member_failures(req), failure_line("last_name"@, "Last name is required"@));
    }
}

/// Validation accepts the request exactly when no field fails its rule, and
/// the report of a failed validation lists the line of every field that fails.
pub proof fn law_member_update_validation(req: UpdateMemberRequest, r: Result<(), AppError>)
    requires
        reports(r, update_member_failures(req)),
    ensures
        r is Ok <==> (!(req.email matches Some(e) && !email_accepted(e@))),
        (req.email matches Some(e) && !email_accepted(e@)) ==> lists_line(r, failure_line("email"@, "Invalid email format"@)),
{
    lemma_line_if_contains(req.email matches Some(e) && !email_accepted(e@), failure_line("email"@, "Invalid email format"@));
    assert(update_member_failures(req) == line_if(req.email matches Some(e) && !email_accepted(e@), failure_line("email"@, "Invalid email format"@)));
    if req.email matches Some(e) && !email_accepted(e@) {
        lemma_reported_line(r, update_member_failures(req), failure_line("email"@, "Invalid email format"@));
    }
}

/// Validation accepts the request exactly when no field fails its rule, and
/// the report of a failed validation lists the line of every field that fails.
pub proof fn law_login_validation(req: LoginRequest, r: Result<(), AppError>)
    requires
        reports(r, login_failures(req)),
    ensures
        r is Ok <==> (!(!email_accepted(req.email@))),
        (!email_accepted(req.email@)) ==> lists_line(r, failure_line("email"@, "Invalid email format"@)),
{
    lemma_line_if_contains(!email_accepted(req.email@), failure_line("email"@, "Invalid email format"@));
    assert(login_failures(req) == line_if(!email_accepted(req.email@), failure_line("email"@, "Invalid email format"@)));
    if !email_accepted(req.email@) {
        lemma_reported_line(r, login_failures(req), failure_line("email"@, "Invalid email format"@));
    }
}


/// Updating a account sets every field that the request gives to the given
/// value, keeps every field that it leaves out, never touches the fields that
/// a request cannot change, and stamps the time of the change.
pub proof fn law_member_update_fields(r: Member, existing: Member, req: UpdateMemberRequest, now: String)
    requires
        updated_member(r, existing, req, now),
    ensures
        req.email matches Some(v) ==> r.email == v,
        req.email is None ==> r.email == existing.email,
        req.first_name matches Some(v) ==> r.first_name == v,
        req.first_name is None ==> r.first_name == existing.first_name,
        req.last_name matches Some(v) ==> r.last_name == v,
        req.last_name is None ==> r.last_name == existing.last_name,
        req.phone matches Some(v) ==> r.phone == Some(v),
        req.phone is None ==> r.phone == existing.phone,
        req.date_of_birth matches Some(v) ==> r.date_of_birth == Some(v),
        req.date_of_birth is None ==> r.date_of_birth == existing.date_of_birth,
        req.emergency_contact_name matches Some(v) ==> r.emergency_contact_name == Some(v),
        req.emergency_contact_name is None ==> r.emergency_contact_name == existing.emergency_contact_name,
        req.emergency_contact_phone matches Some(v) ==> r.emergency_contact_phone == Some(v),
        req.emergency_contact_phone is None ==> r.emergency_contact_phone == existing.emergency_contact_phone,
        req.status matches Some(k) ==> r.status@ == k.name(),
        req.status is None ==> r.status == existing.status,
        r.id == existing.id,
        r.password_hash == existing.password_hash,
        r.role == existing.role,
        r.membership_plan_id == existing.membership_plan_id,
        r.membership_start_date == existing.membership_start_date,
        r.membership_end_date == existing.membership_end_date,
        r.created_at == existing.created_at,
        r.updated_at == now,
{
}


/// A new account keeps what the registration gives, stores the password only
/// as its hash, and is an active plain member without a plan.
pub proof fn law_new_member_defaults(
    m: Member,
    req: CreateMemberRequest,
    password_hash: Seq<char>,
    id: String,
    now: String,
)
    requires
        created_member(m, req, password_hash, id, now),
    ensures
        m.id == id,
        m.email == req.email,
        m.password_hash@ == password_hash,
        m.first_name == req.first_name,
        m.last_name == req.last_name,
        m.phone == req.phone,
        m.date_of_birth == req.date_of_birth,
        m.emergency_contact_name == req.emergency_contact_name,
        m.emergency_contact_phone == req.emergency_contact_phone,
        m.status@ == "active"@,
        m.role@ == "member"@,
        m.membership_plan_id is None,
        m.membership_start_date is None,
        m.membership_end_date is None,
        m.created_at == now,
        m.updated_at == now,
{
}


/// Giving a member a plan records the plan and its dates and makes the account
/// active, and changes nothing else but the time of change.
pub proof fn law_assigning_membership(r: Member, existing: Member, plan_id: Seq<char>, start_date: String, end_date: String, now: String)
    requires
        assigned_membership(r, existing, plan_id, start_date, end_date, now),
    ensures
        r.id == existing.id,
        r.email == existing.email,
        r.password_hash == existing.password_hash,
        r.first_name == existing.first_name,
        r.last_name == existing.last_name,
        r.phone == existing.phone,
        r.date_of_birth == existing.date_of_birth,
        r.emergency_contact_name == existing.emergency_contact_name,
        r.emergency_contact_phone == existing.emergency_contact_phone,
        r.status@ == "active"@,
        r.role == existing.role,
        r.membership_plan_id matches Some(p) && p@ == plan_id,
        r.membership_start_date == Some(start_date),
        r.membership_end_date == Some(end_date),
        r.created_at == existing.created_at,
        r.updated_at == now,
{
}


/// Changing a member's role sets that role and changes nothing else but the time of
/// change.
pub proof fn law_changing_role(r: Member, existing: Member, role: MemberRole, now: String)
    requires
        role_changed(r, existing, role, now),
    ensures
        r.id == existing.id,
        r.email == existing.email,
        r.password_hash == existing.password_hash,
        r.first_name == existing.first_name,
        r.last_name == existing.last_name,
        r.phone == existing.phone,
        r.date_of_birth == existing.date_of_birth,
        r.emergency_contact_name == existing.emergency_contact_name,
        r.emergency_contact_phone == existing.emergency_contact_phone,
        r.status == existing.status,
        r.role@ == role.name(),
        r.membership_plan_id == existing.membership_plan_id,
        r.membership_start_date == existing.membership_start_date,
        r.membership_end_date == existing.membership_end_date,
        r.created_at == existing.created_at,
        r.updated_at == now,
{
}


/// A account is shown as it is stored: every stored field is passed on
/// unchanged, the kinds are the ones their stored names read as, and what the
/// store does not hold is left to be filled in.
pub proof fn law_account_shown_as_stored(r: MemberResponse, m: Member)
    requires
        r == MemberResponse::shown(m),
        MemberResponse::reads_kinds(r, m),
    ensures
        r.id == m.id,
        r.email == m.email,
        r.first_name == m.first_name,
        r.last_name == m.last_name,
        r.phone == m.phone,
        r.date_of_birth == m.date_of_birth,
        r.emergency_contact_name == m.emergency_contact_name,
        r.emergency_contact_phone == m.emergency_contact_phone,
        all_ascii(m.status@) ==> r.status == MemberStatus::from_lowercase(ascii_lowercase(m.status@)),
        forall|k: MemberStatus| m.status@ == k.name() ==> r.status == k,
        all_ascii(m.role@) ==> r.role == MemberRole::from_lowercase(ascii_lowercase(m.role@)),
        forall|k: MemberRole| m.role@ == k.name() ==> r.role == k,
        r.membership_plan_id == m.membership_plan_id,
        r.membership_start_date == m.membership_start_date,
        r.membership_end_date == m.membership_end_date,
        r.created_at == m.created_at,
        r.updated_at == m.updated_at,
{
}


/// Every member status is stored under its snake-case name, and every stored
/// name reads back as the kind it names.
pub proof fn law_member_status_names()
    ensures
        MemberStatus::Active.name() == "active"@,
        MemberStatus::Inactive.name() == "inactive"@,
        MemberStatus::Suspended.name() == "suspended"@,
        MemberStatus::Expired.name() == "expired"@,
        forall|k: MemberStatus| #[trigger] MemberStatus::from_lowercase(k.name()) == k,
{
    MemberStatus::Active.lemma_name_parses_back();
    MemberStatus::Inactive.lemma_name_parses_back();
    MemberStatus::Suspended.lemma_name_parses_back();
    MemberStatus::Expired.lemma_name_parses_back();
    reveal_strlit("active");
    reveal_strlit("inactive");
    reveal_strlit("suspended");
    reveal_strlit("expired");
    assert forall|k: MemberStatus| #[trigger] MemberStatus::from_lowercase(k.name()) == k by {
        k.lemma_name_parses_back();
    }
}

/// Every member role is stored under its snake-case name, and every stored
/// name reads back as the kind it names.
pub proof fn law_member_role_names()
    ensures
        MemberRole::Member.name() == "member"@,
        MemberRole::Admin.name() == "admin"@,
        MemberRole::Instructor.name() == "instructor"@,
        forall|k: MemberRole| #[trigger] MemberRole::from_lowercase(k.name()) == k,
{
    MemberRole::Member.lemma_name_parses_back();
    MemberRole::Admin.lemma_name_parses_back();
    MemberRole::Instructor.lemma_name_parses_back();
    reveal_strlit("member");
    reveal_strlit("admin");
    reveal_strlit("instructor");
    assert forall|k: MemberRole| #[trigger] MemberRole::from_lowercase(k.name()) == k by {
        k.lemma_name_parses_back();
    }
}

} // verus!
