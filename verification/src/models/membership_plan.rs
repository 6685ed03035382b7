//! Membership plans: what a purchase includes and how long it lasts. Prices are
//! carried as they come (`P`), never computed with.
use vstd::prelude::*;
use vstd::std_specs::convert::FromSpecImpl;
use crate::error::AppError;
use crate::ids::{is_hyphenated_uuid, new_record_id, now_rfc3339};
use crate::text::{
    all_ascii, ascii_lowercase, clone_opt, lowercase_of, or_else, owned, str_eq, to_lowercase,
};
use crate::validation::{
    failure_line, finish, length_ok, length_within, line_if, note_if, reports, lists_line, lemma_reported_line, lemma_line_if_contains, lemma_concat_contains,
};

verus! {

/// How long one purchase of a membership plan lasts.
#[derive(Debug, Clone, Copy, PartialEq, Eq, Structural)]
pub enum PlanDuration {
    Monthly,
    Quarterly,
    SemiAnnual,
    Annual,
    PerSession,
}

impl PlanDuration {
    /// The name under which a duration is stored.
    pub open spec fn name(self) -> Seq<char> {
        match self {
            PlanDuration::Monthly => "monthly"@,
            PlanDuration::Quarterly => "quarterly"@,
            PlanDuration::SemiAnnual => "semi_annual"@,
            PlanDuration::Annual => "annual"@,
            PlanDuration::PerSession => "per_session"@,
        }
    }

    /// The duration that a lowercased stored name stands for; other names give `Monthly`.
    pub open spec fn from_lowercase(s: Seq<char>) -> Self {
        if s == "monthly"@ {
            PlanDuration::Monthly
        } else if s == "quarterly"@ {
            PlanDuration::Quarterly
        } else if s == "semi_annual"@ {
            PlanDuration::SemiAnnual
        } else if s == "annual"@ {
            PlanDuration::Annual
        } else if s == "per_session"@ {
            PlanDuration::PerSession
        } else {
            PlanDuration::Monthly
        }
    }

    /// `k` is the kind that the stored name `stored` reads as: the one its
    /// lowercase form names, so that every stored name reads back as its own
    /// kind and an ASCII name reads through its ASCII lowercase form.
    pub open spec fn read_as(stored: Seq<char>, k: Self) -> bool {
        &&& k == Self::from_lowercase(lowercase_of(stored))
        &&& (all_ascii(stored) ==> k == Self::from_lowercase(ascii_lowercase(stored)))
        &&& forall|x: Self| stored == x.name() ==> k == x
    }

    /// Every stored name is ASCII, already lowercase, and parses back to its duration.
    pub proof fn lemma_name_parses_back(self)
        ensures
            all_ascii(self.name()),
            ascii_lowercase(self.name()) == self.name(),
            Self::from_lowercase(self.name()) == self,
    {
        reveal_strlit("monthly");
        reveal_strlit("quarterly");
        reveal_strlit("semi_annual");
        reveal_strlit("annual");
        reveal_strlit("per_session");
        assert("semi_annual"@[0] != "per_session"@[0]);
        assert(ascii_lowercase(self.name()) =~= self.name());
    }

    /// The stored name of the duration.
    pub fn to_string(&self) -> (s: String)
        ensures
            s@ == self.name(),
    {
        match self {
            PlanDuration::Monthly => owned("monthly"),
            PlanDuration::Quarterly => owned("quarterly"),
            PlanDuration::SemiAnnual => owned("semi_annual"),
            PlanDuration::Annual => owned("annual"),
            PlanDuration::PerSession => owned("per_session"),
        }
    }
}

impl Default for PlanDuration {
    fn default() -> (r: Self)
        ensures
            r == PlanDuration::Monthly,
    {
        PlanDuration::Monthly
    }
}

impl From<String> for PlanDuration {
    /// Reads a stored name, ignoring case; other names give `Monthly`.
    fn from(s: String) -> (r: Self)
        ensures
            r == Self::from_lowercase(lowercase_of(s@)),
            all_ascii(s@) ==> r == Self::from_lowercase(ascii_lowercase(s@)),
            forall|x: Self| s@ == x.name() ==> r == x,
    {
        let l = to_lowercase(s.as_str());
        proof {
            PlanDuration::Monthly.lemma_name_parses_back();
            PlanDuration::Quarterly.lemma_name_parses_back();
            PlanDuration::SemiAnnual.lemma_name_parses_back();
            PlanDuration::Annual.lemma_name_parses_back();
            PlanDuration::PerSession.lemma_name_parses_back();
        }
        if str_eq(l.as_str(), "monthly") {
            PlanDuration::Monthly
        } else if str_eq(l.as_str(), "quarterly") {
            PlanDuration::Quarterly
        } else if str_eq(l.as_str(), "semi_annual") {
            PlanDuration::SemiAnnual
        } else if str_eq(l.as_str(), "annual") {
            PlanDuration::Annual
        } else if str_eq(l.as_str(), "per_session") {
            PlanDuration::PerSession
        } else {
            PlanDuration::Monthly
        }
    }
}

impl FromSpecImpl<String> for PlanDuration {
    open spec fn obeys_from_spec() -> bool {
        true
    }

    open spec fn from_spec(v: String) -> Self {
        Self::from_lowercase(lowercase_of(v@))
    }
}


impl PlanDuration {
    /// The number of days that one purchase of the plan covers; per-session plans cover none.
    pub open spec fn spec_days(self) -> i32 {
        match self {
            PlanDuration::Monthly => 30,
            PlanDuration::Quarterly => 90,
            PlanDuration::SemiAnnual => 180,
            PlanDuration::Annual => 365,
            PlanDuration::PerSession => 0,
        }
    }

    /// The number of days that one purchase of the plan covers.
    pub fn days(&self) -> (d: i32)
        ensures
            d == self.spec_days(),
    {
        match self {
            PlanDuration::Monthly => 30,
            PlanDuration::Quarterly => 90,
            PlanDuration::SemiAnnual => 180,
            PlanDuration::Annual => 365,
            PlanDuration::PerSession => 0,
        }
    }
}

/// Longer plans never cover fewer days than shorter ones.
pub proof fn law_plan_days_grow_with_duration()
    ensures
        PlanDuration::PerSession.spec_days() < PlanDuration::Monthly.spec_days(),
        PlanDuration::Monthly.spec_days() < PlanDuration::Quarterly.spec_days(),
        PlanDuration::Quarterly.spec_days() < PlanDuration::SemiAnnual.spec_days(),
        PlanDuration::SemiAnnual.spec_days() < PlanDuration::Annual.spec_days(),
{
}

/// A plan as it is stored; its duration is kept as its name.
#[derive(Debug, Clone)]
pub struct MembershipPlan<P> {
    pub id: String,
    pub name: String,
    pub description: Option<String>,
    pub duration: String,
    pub price: P,
    pub max_bookings_per_week: Option<i32>,
    pub max_bookings_per_month: Option<i32>,
    pub includes_personal_training: bool,
    pub personal_training_sessions: i32,
    pub is_active: bool,
    pub created_at: String,
    pub updated_at: String,
}

/// A plan as it is shown to clients, with the days it covers.
#[derive(Debug, Clone)]
pub struct MembershipPlanResponse<P> {
    pub id: String,
    pub name: String,
    pub description: Option<String>,
    pub duration: PlanDuration,
    pub duration_days: i32,
    pub price: P,
    pub max_bookings_per_week: Option<i32>,
    pub max_bookings_per_month: Option<i32>,
    pub includes_personal_training: bool,
    pub personal_training_sessions: i32,
    pub is_active: bool,
    pub created_at: String,
    pub updated_at: String,
}

impl<P> MembershipPlanResponse<P> {
    /// How a stored plan is shown: its duration is read back ignoring case,
    /// together with the days that it covers.
    pub open spec fn shown(p: MembershipPlan<P>) -> Self {
        let duration = PlanDuration::from_lowercase(lowercase_of(p.duration@));
        MembershipPlanResponse {
            id: p.id,
            name: p.name,
            description: p.description,
            duration,
            duration_days: duration.spec_days(),
            price: p.price,
            max_bookings_per_week: p.max_bookings_per_week,
            max_bookings_per_month: p.max_bookings_per_month,
            includes_personal_training: p.includes_personal_training,
            personal_training_sessions: p.personal_training_sessions,
            is_active: p.is_active,
            created_at: p.created_at,
            updated_at: p.updated_at,
        }
    }

    /// The kinds that a shown plan carries are the ones its stored names read as.
    pub open spec fn reads_kinds(r: Self, p: MembershipPlan<P>) -> bool {
        &&& PlanDuration::read_as(p.duration@, r.duration)
    }
}

impl<P> From<MembershipPlan<P>> for MembershipPlanResponse<P> {
    /// Shows a stored plan.
    fn from(p: MembershipPlan<P>) -> (r: Self)
        ensures
            r == Self::shown(p),
            Self::reads_kinds(r, p),
    {
        let duration = PlanDuration::from(p.duration);
        MembershipPlanResponse {
            id: p.id,
            name: p.name,
            description: p.description,
            duration_days: duration.days(),
            duration,
            price: p.price,
            max_bookings_per_week: p.max_bookings_per_week,
            max_bookings_per_month: p.max_bookings_per_month,
            includes_personal_training: p.includes_personal_training,
            personal_training_sessions: p.personal_training_sessions,
            is_active: p.is_active,
            created_at: p.created_at,
            updated_at: p.updated_at,
        }
    }
}

impl<P> FromSpecImpl<MembershipPlan<P>> for MembershipPlanResponse<P> {
    open spec fn obeys_from_spec() -> bool {
        true
    }

    open spec fn from_spec(p: MembershipPlan<P>) -> Self {
        Self::shown(p)
    }
}

/// What an administrator sends to offer a new plan.
#[derive(Debug, Clone)]
pub struct CreateMembershipPlanRequest<P> {
    pub name: String,
    pub description: Option<String>,
    pub duration: PlanDuration,
    pub price: P,
    pub max_bookings_per_week: Option<i32>,
    pub max_bookings_per_month: Option<i32>,
    pub includes_personal_training: Option<bool>,
    pub personal_training_sessions: Option<i32>,
}

/// What an administrator sends to change a plan; absent fields stay as they are.
#[derive(Debug, Clone)]
pub struct UpdateMembershipPlanRequest<P> {
    pub name: Option<String>,
    pub description: Option<String>,
    pub duration: Option<PlanDuration>,
    pub price: Option<P>,
    pub max_bookings_per_week: Option<i32>,
    pub max_bookings_per_month: Option<i32>,
    pub includes_personal_training: Option<bool>,
    pub personal_training_sessions: Option<i32>,
    pub is_active: Option<bool>,
}

/// All plans on offer.
#[derive(Debug, Clone)]
pub struct MembershipPlanListResponse<P> {
    pub plans: Vec<MembershipPlanResponse<P>>,
    pub total: i64,
}

/// The report lines for a new plan: a name and a price that is not negative.
pub open spec fn create_plan_failures<P>(req: CreateMembershipPlanRequest<P>, price_negative: bool) -> Seq<
    Seq<char>,
> {
    line_if(
        !length_within(req.name@, Some(1), None),
        failure_line("name"@, "Plan name is required"@),
    ) + line_if(price_negative, failure_line("price"@, "Price cannot be negative"@))
}

impl<P> CreateMembershipPlanRequest<P> {
    /// Checks the request's fields; `price_negative` tells whether its price is below zero.
    pub fn validate(&self, price_negative: bool) -> (r: Result<(), AppError>)
        ensures
            reports(r, create_plan_failures(*self, price_negative)),
    {
        let mut lines: Vec<String> = Vec::new();
        let name_ok = length_ok(self.name.as_str(), Some(1), None);
        note_if(&mut lines, !name_ok, "name", "Plan name is required");
        note_if(&mut lines, price_negative, "price", "Price cannot be negative");
        finish(lines)
    }
}

/// `p` is the plan that `req` creates, given its identifier and the time of
/// writing: active, and without personal training unless the request says otherwise.
pub open spec fn created_plan<P>(
    p: MembershipPlan<P>,
    req: CreateMembershipPlanRequest<P>,
    id: String,
    now: String,
) -> bool {
    &&& p.id == id
    &&& p.name == req.name
    &&& p.description == req.description
    &&& p.duration@ == req.duration.name()
    &&& p.price == req.price
    &&& p.max_bookings_per_week == req.max_bookings_per_week
    &&& p.max_bookings_per_month == req.max_bookings_per_month
    &&& p.includes_personal_training == or_else(req.includes_personal_training, false)
    &&& p.personal_training_sessions == or_else(req.personal_training_sessions, 0)
    &&& p.is_active
    &&& p.created_at == now
    &&& p.updated_at == now
}

/// The plan that `req` creates, with the given identifier and time.
pub fn build_membership_plan<P: Copy>(
    req: &CreateMembershipPlanRequest<P>,
    id: String,
    now: String,
) -> (p: MembershipPlan<P>)
    ensures
        created_plan(p, *req, id, now),
{
    MembershipPlan {
        id,
        name: req.name.clone(),
        description: clone_opt(&req.description),
        duration: req.duration.to_string(),
        price: req.price,
        max_bookings_per_week: req.max_bookings_per_week,
        max_bookings_per_month: req.max_bookings_per_month,
        includes_personal_training: match req.includes_personal_training {
            Some(b) => b,
            None => false,
        },
        personal_training_sessions: match req.personal_training_sessions {
            Some(n) => n,
            None => 0,
        },
        is_active: true,
        created_at: now.clone(),
        updated_at: now,
    }
}

/// A new plan for `req` under a fresh identifier, stamped with the current time.
pub fn new_membership_plan<P: Copy>(req: &CreateMembershipPlanRequest<P>) -> (p: MembershipPlan<P>)
    ensures
        is_hyphenated_uuid(p.id@),
        created_plan(p, *req, p.id, p.created_at),
{
    let id = new_record_id();
    let now = now_rfc3339();
    build_membership_plan(req, id, now)
}

/// `r` is `existing` after `req` is applied at time `now`: every field that the
/// request carries replaces the stored one and the others stay.
pub open spec fn updated_plan<P>(
    r: MembershipPlan<P>,
    existing: MembershipPlan<P>,
    req: UpdateMembershipPlanRequest<P>,
    now: String,
) -> bool {
    &&& r.id == existing.id
    &&& r.name == or_else(req.name, existing.name)
    &&& r.description == (match req.description {
        Some(d) => Some(d),
        None => existing.description,
    })
    &&& (match req.duration {
        Some(d) => r.duration@ == d.name(),
        None => r.duration == existing.duration,
    })
    &&& r.price == or_else(req.price, existing.price)
    &&& r.max_bookings_per_week == (match req.max_bookings_per_week {
        Some(n) => Some(n),
        None => existing.max_bookings_per_week,
    })
    &&& r.max_bookings_per_month == (match req.max_bookings_per_month {
        Some(n) => Some(n),
        None => existing.max_bookings_per_month,
    })
    &&& r.includes_personal_training == or_else(
        req.includes_personal_training,
        existing.includes_personal_training,
    )
    &&& r.personal_training_sessions == or_else(
        req.personal_training_sessions,
        existing.personal_training_sessions,
    )
    &&& r.is_active == or_else(req.is_active, existing.is_active)
    &&& r.created_at == existing.created_at
    &&& r.updated_at == now
}

/// Applies a change request to a stored plan at time `now`.
pub fn merge_membership_plan_update<P: Copy>(
    existing: MembershipPlan<P>,
    req: &UpdateMembershipPlanRequest<P>,
    now: String,
) -> (r: MembershipPlan<P>)
    ensures
        updated_plan(r, existing, *req, now),
{
    MembershipPlan {
        id: existing.id,
        name: match &req.name {
            Some(n) => n.clone(),
            None => existing.name,
        },
        description: match &req.description {
            Some(d) => Some(d.clone()),
            None => existing.description,
        },
        duration: match req.duration {
            Some(d) => d.to_string(),
            None => existing.duration,
        },
        price: match req.price {
            Some(p) => p,
            None => existing.price,
        },
        max_bookings_per_week: match req.max_bookings_per_week {
            Some(n) => Some(n),
            None => existing.max_bookings_per_week,
        },
        max_bookings_per_month: match req.max_bookings_per_month {
            Some(n) => Some(n),
            None => existing.max_bookings_per_month,
        },
        includes_personal_training: match req.includes_personal_training {
            Some(b) => b,
            None => existing.includes_personal_training,
        },
        personal_training_sessions: match req.personal_training_sessions {
            Some(n) => n,
            None => existing.personal_training_sessions,
        },
        is_active: match req.is_active {
            Some(b) => b,
            None => existing.is_active,
        },
        created_at: existing.created_at,
        updated_at: now,
    }
}

/// Applies a change request to a stored plan, stamped with the current time.
pub fn apply_membership_plan_update<P: Copy>(
    existing: MembershipPlan<P>,
    req: &UpdateMembershipPlanRequest<P>,
) -> (r: MembershipPlan<P>)
    ensures
        updated_plan(r, existing, *req, r.updated_at),
{
    let now = now_rfc3339();
    merge_membership_plan_update(existing, req, now)
}

/// All plans on offer, shown one by one, and how many there are.
pub fn plan_list<P>(rows: Vec<MembershipPlan<P>>) -> (r: MembershipPlanListResponse<P>)
    ensures
        r.plans@ == rows@.map_values(|p: MembershipPlan<P>| MembershipPlanResponse::shown(p)),
        forall|i: int| 0 <= i < rows@.len() ==> MembershipPlanResponse::reads_kinds(#[trigger] r.plans@[i], rows@[i]),
        r.total == rows@.len() as i64,
{
    let total = rows.len() as i64;
    let mut plans: Vec<MembershipPlanResponse<P>> = Vec::new();
    for p in it: rows.into_iter()
        invariant
            plans@ == it.seq().take(it.index() as int).map_values(
                |p: MembershipPlan<P>| MembershipPlanResponse::shown(p),
            ),
            forall|j: int| 0 <= j < it.index() ==> MembershipPlanResponse::reads_kinds(#[trigger] plans@[j], it.seq()[j]),
    {
        plans.push(MembershipPlanResponse::from(p));
        proof {
            assert(it.seq().take(it.index() as int + 1) =~= it.seq().take(it.index() as int).push(p));
        }
        assert(plans@ =~= it.seq().take(it.index() as int + 1).map_values(
            |p: MembershipPlan<P>| MembershipPlanResponse::shown(p),
        ));
    }
    MembershipPlanListResponse { plans, total }
}

/// Whether a change request carries no change at all.
pub open spec fn is_empty_plan_update<P>(req: UpdateMembershipPlanRequest<P>) -> bool {
    req.name is None && req.description is None && req.duration is None && req.price is None
        && req.max_bookings_per_week is None && req.max_bookings_per_month is None
        && req.includes_personal_training is None && req.personal_training_sessions is None
        && req.is_active is None
}

/// A change request that carries nothing changes nothing but the time of the
/// plan's last change.
pub proof fn law_empty_plan_update<P>(
    r: MembershipPlan<P>,
    existing: MembershipPlan<P>,
    req: UpdateMembershipPlanRequest<P>,
    now: String,
)
    requires
        updated_plan(r, existing, req, now),
        is_empty_plan_update(req),
    ensures
        r == (MembershipPlan { updated_at: now, ..existing }),
{
}


/// Validation accepts the request exactly when no field fails its rule, and
/// the report of a failed validation lists the line of every field that fails.
pub proof fn law_plan_validation<P>(req: CreateMembershipPlanRequest<P>, price_negative: bool, r: Result<(), AppError>)
    requires
        reports(r, create_plan_failures(req, price_negative)),
    ensures
        r is Ok <==> (!(req.name@.len() < 1) && !(price_negative)),
        (req.name@.len() < 1) ==> lists_line(r, failure_line("name"@, "Plan name is required"@)),
        (price_negative) ==> lists_line(r, failure_line("price"@, "Price cannot be negative"@)),
{
    lemma_line_if_contains(!length_within(req.name@, Some(1), None), failure_line("name"@, "Plan name is required"@));
    lemma_line_if_contains(price_negative, failure_line("price"@, "Price cannot be negative"@));
    lemma_concat_contains(line_if(!length_within(req.name@, Some(1), None), failure_line("name"@, "Plan name is required"@)), line_if(price_negative, failure_line("price"@, "Price cannot be negative"@)), failure_line("name"@, "Plan name is required"@));
    lemma_concat_contains(line_if(!length_within(req.name@, Some(1), None), failure_line("name"@, "Plan name is required"@)), line_if(price_negative, failure_line("price"@, "Price cannot be negative"@)), failure_line("price"@, "Price cannot be negative"@));
    assert(create_plan_failures(req, price_negative) == line_if(!length_within(req.name@, Some(1), None), failure_line("name"@, "Plan name is required"@)) + line_if(price_negative, failure_line("price"@, "Price cannot be negative"@)));
    if !length_within(req.name@, Some(1), None) {
        lemma_reported_line(r, create_plan_failures(req, price_negative), failure_line("name"@, "Plan name is required"@));
    }
    if price_negative {
        lemma_reported_line(r, create_plan_failures(req, price_negative), failure_line("price"@, "Price cannot be negative"@));
    }
}


/// Updating a plan sets every field that the request gives to the given
/// value, keeps every field that it leaves out, never touches the fields that
/// a request cannot change, and stamps the time of the change.
pub proof fn law_plan_update_fields<P>(r: MembershipPlan<P>, existing: MembershipPlan<P>, req: UpdateMembershipPlanRequest<P>, now: String)
    requires
        updated_plan(r, existing, req, now),
    ensures
        req.name matches Some(v) ==> r.name == v,
        req.name is None ==> r.name == existing.name,
        req.description matches Some(v) ==> r.description == Some(v),
        req.description is None ==> r.description == existing.description,
        req.duration matches Some(k) ==> r.duration@ == k.name(),
        req.duration is None ==> r.duration == existing.duration,
        req.price matches Some(v) ==> r.price == v,
        req.price is None ==> r.price == existing.price,
        req.max_bookings_per_week matches Some(v) ==> r.max_bookings_per_week == Some(v),
        req.max_bookings_per_week is None ==> r.max_bookings_per_week == existing.max_bookings_per_week,
        req.max_bookings_per_month matches Some(v) ==> r.max_bookings_per_month == Some(v),
        req.max_bookings_per_month is None ==> r.max_bookings_per_month == existing.max_bookings_per_month,
        req.includes_personal_training matches Some(v) ==> r.includes_personal_training == v,
        req.includes_personal_training is None ==> r.includes_personal_training == existing.includes_personal_training,
        req.personal_training_sessions matches Some(v) ==> r.personal_training_sessions == v,
        req.personal_training_sessions is None ==> r.personal_training_sessions == existing.personal_training_sessions,
        req.is_active matches Some(v) ==> r.is_active == v,
        req.is_active is None ==> r.is_active == existing.is_active,
        r.id == existing.id,
        r.created_at == existing.created_at,
        r.updated_at == now,
{
}


/// A new plan keeps what the request gives, is on offer, and includes no
/// personal training unless the request says otherwise.
pub proof fn law_new_plan_defaults<P>(p: MembershipPlan<P>, req: CreateMembershipPlanRequest<P>, id: String, now: String)
    requires
        created_plan(p, req, id, now),
    ensures
        p.id == id,
        p.name == req.name,
        p.description == req.description,
        p.duration@ == req.duration.name(),
        p.price == req.price,
        p.max_bookings_per_week == req.max_bookings_per_week,
        p.max_bookings_per_month == req.max_bookings_per_month,
        req.includes_personal_training is None ==> !p.includes_personal_training,
        req.includes_personal_training matches Some(b) ==> p.includes_personal_training == b,
        req.personal_training_sessions is None ==> p.personal_training_sessions == 0,
        req.personal_training_sessions matches Some(n) ==> p.personal_training_sessions == n,
        p.is_active,
        p.created_at == now,
        p.updated_at == now,
{
}


/// A plan is shown as it is stored: every stored field is passed on
/// unchanged, the kinds are the ones their stored names read as, and what the
/// store does not hold is left to be filled in.
pub proof fn law_plan_shown_as_stored<P>(r: MembershipPlanResponse<P>, p: MembershipPlan<P>)
    requires
        r == MembershipPlanResponse::shown(p),
        MembershipPlanResponse::reads_kinds(r, p),
    ensures
        r.id == p.id,
        r.name == p.name,
        r.description == p.description,
        all_ascii(p.duration@) ==> r.duration == PlanDuration::from_lowercase(ascii_lowercase(p.duration@)),
        forall|k: PlanDuration| p.duration@ == k.name() ==> r.duration == k,
        r.duration_days == r.duration.spec_days(),
        r.price == p.price,
        r.max_bookings_per_week == p.max_bookings_per_week,
        r.max_bookings_per_month == p.max_bookings_per_month,
        r.includes_personal_training == p.includes_personal_training,
        r.personal_training_sessions == p.personal_training_sessions,
        r.is_active == p.is_active,
        r.created_at == p.created_at,
        r.updated_at == p.updated_at,
{
}


/// Every plan duration is stored under its snake-case name, and every stored
/// name reads back as the kind it names.
pub proof fn law_plan_duration_names()
    ensures
        PlanDuration::Monthly.name() == "monthly"@,
        PlanDuration::Quarterly.name() == "quarterly"@,
        PlanDuration::SemiAnnual.name() == "semi_annual"@,
        PlanDuration::Annual.name() == "annual"@,
        PlanDuration::PerSession.name() == "per_session"@,
        forall|k: PlanDuration| #[trigger] PlanDuration::from_lowercase(k.name()) == k,
{
    PlanDuration::Monthly.lemma_name_parses_back();
    PlanDuration::Quarterly.lemma_name_parses_back();
    PlanDuration::SemiAnnual.lemma_name_parses_back();
    PlanDuration::Annual.lemma_name_parses_back();
    PlanDuration::PerSession.lemma_name_parses_back();
    reveal_strlit("monthly");
    reveal_strlit("quarterly");
    reveal_strlit("semi_annual");
    reveal_strlit("annual");
    reveal_strlit("per_session");
    assert forall|k: PlanDuration| #[trigger] PlanDuration::from_lowercase(k.name()) == k by {
        k.lemma_name_parses_back();
    }
}

} // verus!
