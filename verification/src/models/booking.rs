//! Members' places in scheduled sessions, and the rules for taking and giving them up.
use vstd::prelude::*;
use vstd::std_specs::convert::FromSpecImpl;
use vstd::string::StringExecFns;
use crate::error::AppError;
use crate::ids::{is_hyphenated_uuid, new_record_id, now_rfc3339};
use crate::models::schedule::{has_room, schedule_has_room, CourseSchedule};
use crate::text::{
    all_ascii, ascii_lowercase, clone_opt, decimal, i32_to_string, lowercase_of, or_else, owned,
    str_eq, to_lowercase,
};

verus! {

/// The state of a member's place in a class.
#[derive(Debug, Clone, Copy, PartialEq, Eq, Structural)]
pub enum BookingStatus {
    Confirmed,
    Cancelled,
    Completed,
    NoShow,
    Waitlisted,
}

impl BookingStatus {
    /// The name under which a status is stored.
    pub open spec fn name(self) -> Seq<char> {
        match self {
            BookingStatus::Confirmed => "confirmed"@,
            BookingStatus::Cancelled => "cancelled"@,
            BookingStatus::Completed => "completed"@,
            BookingStatus::NoShow => "no_show"@,
            BookingStatus::Waitlisted => "waitlisted"@,
        }
    }

    /// The status that a lowercased stored name stands for; other names give `Confirmed`.
    pub open spec fn from_lowercase(s: Seq<char>) -> Self {
        if s == "confirmed"@ {
            BookingStatus::Confirmed
        } else if s == "cancelled"@ {
            BookingStatus::Cancelled
        } else if s == "completed"@ {
            BookingStatus::Completed
        } else if s == "no_show"@ {
            BookingStatus::NoShow
        } else if s == "waitlisted"@ {
            BookingStatus::Waitlisted
        } else {
            BookingStatus::Confirmed
        }
    }

    /// `k` is the kind that the stored name `stored` reads as: the one its
    /// lowercase form names, so that every stored name reads back as its own
    /// kind and an ASCII name reads through its ASCII lowercase form.
    pub open spec fn read_as(stored: Seq<char>, k: Self) -> bool {
        &&& k == Self::from_lowercase(lowercase_of(stored))
        &&& (all_ascii(stored) ==> k == Self::from_lowercase(ascii_lowercase(stored)))
        &&& forall|x: Self| stored == x.name() ==> k == x
    }

    /// Every stored name is ASCII, already lowercase, and parses back to its status.
    pub proof fn lemma_name_parses_back(self)
        ensures
            all_ascii(self.name()),
            ascii_lowercase(self.name()) == self.name(),
            Self::from_lowercase(self.name()) == self,
    {
        reveal_strlit("confirmed");
        reveal_strlit("cancelled");
        reveal_strlit("completed");
        reveal_strlit("no_show");
        reveal_strlit("waitlisted");
        assert("confirmed"@[1] != "cancelled"@[1]);
        assert("confirmed"@[2] != "completed"@[2]);
        assert("cancelled"@[1] != "completed"@[1]);
        assert(ascii_lowercase(self.name()) =~= self.name());
    }

    /// The stored name of the status.
    pub fn to_string(&self) -> (s: String)
        ensures
            s@ == self.name(),
    {
        match self {
            BookingStatus::Confirmed => owned("confirmed"),
            BookingStatus::Cancelled => owned("cancelled"),
            BookingStatus::Completed => owned("completed"),
            BookingStatus::NoShow => owned("no_show"),
            BookingStatus::Waitlisted => owned("waitlisted"),
        }
    }
}

impl Default for BookingStatus {
    fn default() -> (r: Self)
        ensures
            r == BookingStatus::Confirmed,
    {
        BookingStatus::Confirmed
    }
}

impl From<String> for BookingStatus {
    /// Reads a stored name, ignoring case; other names give `Confirmed`.
    fn from(s: String) -> (r: Self)
        ensures
            r == Self::from_lowercase(lowercase_of(s@)),
            all_ascii(s@) ==> r == Self::from_lowercase(ascii_lowercase(s@)),
            forall|x: Self| s@ == x.name() ==> r == x,
    {
        let l = to_lowercase(s.as_str());
        proof {
            BookingStatus::Confirmed.lemma_name_parses_back();
            BookingStatus::Cancelled.lemma_name_parses_back();
            BookingStatus::Completed.lemma_name_parses_back();
            BookingStatus::NoShow.lemma_name_parses_back();
            BookingStatus::Waitlisted.lemma_name_parses_back();
        }
        if str_eq(l.as_str(), "confirmed") {
            BookingStatus::Confirmed
        } else if str_eq(l.as_str(), "cancelled") {
            BookingStatus::Cancelled
        } else if str_eq(l.as_str(), "completed") {
            BookingStatus::Completed
        } else if str_eq(l.as_str(), "no_show") {
            BookingStatus::NoShow
        } else if str_eq(l.as_str(), "waitlisted") {
            BookingStatus::Waitlisted
        } else {
            BookingStatus::Confirmed
        }
    }
}

impl FromSpecImpl<String> for BookingStatus {
    open spec fn obeys_from_spec() -> bool {
        true
    }

    open spec fn from_spec(v: String) -> Self {
        Self::from_lowercase(lowercase_of(v@))
    }
}


/// A booking as it is stored; its status is kept as its name.
#[derive(Debug, Clone)]
pub struct Booking {
    pub id: String,
    pub member_id: String,
    pub schedule_id: String,
    pub status: String,
    pub waitlist_position: Option<i32>,
    pub booked_at: String,
    pub cancelled_at: Option<String>,
    pub cancellation_reason: Option<String>,
    pub attended: bool,
    pub notes: Option<String>,
    pub created_at: String,
    pub updated_at: String,
}

/// A booking as it is shown to clients.
#[derive(Debug, Clone)]
pub struct BookingResponse {
    pub id: String,
    pub member_id: String,
    pub member_name: Option<String>,
    pub schedule_id: String,
    pub course_name: Option<String>,
    pub scheduled_date: Option<String>,
    pub start_time: Option<String>,
    pub end_time: Option<String>,
    pub instructor_name: Option<String>,
    pub status: BookingStatus,
    pub waitlist_position: Option<i32>,
    pub booked_at: String,
    pub cancelled_at: Option<String>,
    pub cancellation_reason: Option<String>,
    pub attended: bool,
    pub notes: Option<String>,
    pub created_at: String,
    pub updated_at: String,
}

impl BookingResponse {
    /// How a stored booking is shown: the status is read back ignoring case and
    /// the details of member and session are left to be filled in.
    pub open spec fn shown(b: Booking) -> Self {
        BookingResponse {
            id: b.id,
            member_id: b.member_id,
            member_name: None,
            schedule_id: b.schedule_id,
            course_name: None,
            scheduled_date: None,
            start_time: None,
            end_time: None,
            instructor_name: None,
            status: BookingStatus::from_lowercase(lowercase_of(b.status@)),
            waitlist_position: b.waitlist_position,
            booked_at: b.booked_at,
            cancelled_at: b.cancelled_at,
            cancellation_reason: b.cancellation_reason,
            attended: b.attended,
            notes: b.notes,
            created_at: b.created_at,
            updated_at: b.updated_at,
        }
    }

    /// The kinds that a shown booking carries are the ones its stored names read as.
    pub open spec fn reads_kinds(r: Self, b: Booking) -> bool {
        &&& BookingStatus::read_as(b.status@, r.status)
    }
}

impl From<Booking> for BookingResponse {
    /// Shows a stored booking.
    fn from(b: Booking) -> (r: Self)
        ensures
            r == Self::shown(b),
            Self::reads_kinds(r, b),
    {
        BookingResponse {
            id: b.id,
            member_id: b.member_id,
            member_name: None,
            schedule_id: b.schedule_id,
            course_name: None,
            scheduled_date: None,
            start_time: None,
            end_time: None,
            instructor_name: None,
            status: BookingStatus::from(b.status),
            waitlist_position: b.waitlist_position,
            booked_at: b.booked_at,
            cancelled_at: b.cancelled_at,
            cancellation_reason: b.cancellation_reason,
            attended: b.attended,
            notes: b.notes,
            created_at: b.created_at,
            updated_at: b.updated_at,
        }
    }
}

impl FromSpecImpl<Booking> for BookingResponse {
    open spec fn obeys_from_spec() -> bool {
        true
    }

    open spec fn from_spec(b: Booking) -> Self {
        Self::shown(b)
    }
}

/// What a member sends to book a session.
#[derive(Debug, Clone)]
pub struct CreateBookingRequest {
    pub schedule_id: String,
    pub notes: Option<String>,
}

/// What a member may send along when cancelling.
#[derive(Debug, Clone)]
pub struct CancelBookingRequest {
    pub reason: Option<String>,
}

/// What staff send to change a booking; absent fields stay as they are.
#[derive(Debug, Clone)]
pub struct UpdateBookingRequest {
    pub status: Option<BookingStatus>,
    pub attended: Option<bool>,
    pub notes: Option<String>,
}

/// Filters and page for listing bookings.
#[derive(Debug, Clone)]
pub struct BookingQuery {
    pub member_id: Option<String>,
    pub schedule_id: Option<String>,
    pub status: Option<String>,
    pub date_from: Option<String>,
    pub date_to: Option<String>,
    pub page: Option<i64>,
    pub per_page: Option<i64>,
}

/// One page of bookings.
#[derive(Debug, Clone)]
pub struct BookingListResponse {
    pub bookings: Vec<BookingResponse>,
    pub total: i64,
    pub page: i64,
    pub per_page: i64,
}

/// The waiting list of a session.
#[derive(Debug, Clone)]
pub struct WaitlistResponse {
    pub schedule_id: String,
    pub waitlist: Vec<WaitlistEntry>,
}

/// One member waiting for a seat.
#[derive(Debug, Clone)]
pub struct WaitlistEntry {
    pub booking_id: String,
    pub member_id: String,
    pub member_name: String,
    pub position: i32,
    pub booked_at: String,
}

/// `b` is the booking that `member_id` makes with `req`, in the given status
/// and waiting position, given its identifier and the time of booking.
pub open spec fn created_booking(
    b: Booking,
    member_id: Seq<char>,
    req: CreateBookingRequest,
    status: BookingStatus,
    waitlist_position: Option<i32>,
    id: String,
    now: String,
) -> bool {
    &&& b.id == id
    &&& b.member_id@ == member_id
    &&& b.schedule_id == req.schedule_id
    &&& b.status@ == status.name()
    &&& b.waitlist_position == waitlist_position
    &&& b.booked_at == now
    &&& b.cancelled_at is None
    &&& b.cancellation_reason is None
    &&& !b.attended
    &&& b.notes == req.notes
    &&& b.created_at == now
    &&& b.updated_at == now
}

/// The booking that `member_id` makes with `req`, with the given identifier and time.
pub fn build_booking(
    member_id: &str,
    req: &CreateBookingRequest,
    status: BookingStatus,
    waitlist_position: Option<i32>,
    id: String,
    now: String,
) -> (b: Booking)
    ensures
        created_booking(b, member_id@, *req, status, waitlist_position, id, now),
{
    Booking {
        id,
        member_id: owned(member_id),
        schedule_id: req.schedule_id.clone(),
        status: status.to_string(),
        waitlist_position,
        booked_at: now.clone(),
        cancelled_at: None,
        cancellation_reason: None,
        attended: false,
        notes: clone_opt(&req.notes),
        created_at: now.clone(),
        updated_at: now,
    }
}

/// A new booking under a fresh identifier, stamped with the current time.
pub fn new_booking(
    member_id: &str,
    req: &CreateBookingRequest,
    status: BookingStatus,
    waitlist_position: Option<i32>,
) -> (b: Booking)
    ensures
        is_hyphenated_uuid(b.id@),
        created_booking(b, member_id@, *req, status, waitlist_position, b.id, b.created_at),
{
    let id = new_record_id();
    let now = now_rfc3339();
    build_booking(member_id, req, status, waitlist_position, id, now)
}

/// `r` is `existing` after `req` is applied at time `now`.
pub open spec fn updated_booking(
    r: Booking,
    existing: Booking,
    req: UpdateBookingRequest,
    now: String,
) -> bool {
    &&& r.id == existing.id
    &&& r.member_id == existing.member_id
    &&& r.schedule_id == existing.schedule_id
    &&& (match req.status {
        Some(s) => r.status@ == s.name(),
        None => r.status == existing.status,
    })
    &&& r.waitlist_position == existing.waitlist_position
    &&& r.booked_at == existing.booked_at
    &&& r.cancelled_at == existing.cancelled_at
    &&& r.cancellation_reason == existing.cancellation_reason
    &&& r.attended == or_else(req.attended, existing.attended)
    &&& r.notes == (match req.notes {
        Some(n) => Some(n),
        None => existing.notes,
    })
    &&& r.created_at == existing.created_at
    &&& r.updated_at == now
}

/// Applies a change request to a stored booking at time `now`.
pub fn merge_booking_update(existing: Booking, req: &UpdateBookingRequest, now: String) -> (r:
    Booking)
    ensures
        updated_booking(r, existing, *req, now),
{
    Booking {
        id: existing.id,
        member_id: existing.member_id,
        schedule_id: existing.schedule_id,
        status: match req.status {
            Some(s) => s.to_string(),
            None => existing.status,
        },
        waitlist_position: existing.waitlist_position,
        booked_at: existing.booked_at,
        cancelled_at: existing.cancelled_at,
        cancellation_reason: existing.cancellation_reason,
        attended: match req.attended {
            Some(a) => a,
            None => existing.attended,
        },
        notes: match &req.notes {
            Some(n) => Some(n.clone()),
            None => existing.notes,
        },
        created_at: existing.created_at,
        updated_at: now,
    }
}

/// Applies a change request to a stored booking, stamped with the current time.
pub fn apply_booking_update(existing: Booking, req: &UpdateBookingRequest) -> (r: Booking)
    ensures
        updated_booking(r, existing, *req, r.updated_at),
{
    let now = now_rfc3339();
    merge_booking_update(existing, req, now)
}

/// The next place on a session's waiting list: one past the highest taken place, or the first.
pub fn next_waitlist_position(highest: Option<i32>) -> (p: i32)
    requires
        highest != Some(i32::MAX),
    ensures
        p == or_else(highest, 0) + 1,
{
    match highest {
        Some(h) => h + 1,
        None => 1,
    }
}

/// Refuses a booking once a member has used up the bookings that the plan allows
/// in the current week.
pub fn check_weekly_limit(max_weekly: i32, booked_this_week: i32) -> (r: Result<(), AppError>)
    ensures
        r is Ok <==> booked_this_week < max_weekly,
        r matches Err(e) ==> e is ValidationError && e.detail()
            == "You have reached your weekly booking limit"@,
{
    if booked_this_week >= max_weekly {
        Err(AppError::ValidationError(owned("You have reached your weekly booking limit")))
    } else {
        Ok(())
    }
}

/// Refuses a booking once a member has used up the bookings that the plan allows
/// in the current month.
pub fn check_monthly_limit(max_monthly: i32, booked_this_month: i32) -> (r: Result<(), AppError>)
    ensures
        r is Ok <==> booked_this_month < max_monthly,
        r matches Err(e) ==> e is ValidationError && e.detail()
            == "You have reached your monthly booking limit"@,
{
    if booked_this_month >= max_monthly {
        Err(AppError::ValidationError(owned("You have reached your monthly booking limit")))
    } else {
        Ok(())
    }
}

/// Refuses a second active booking of the same member for the same session.
pub fn check_not_booked_yet(already_booked: bool) -> (r: Result<(), AppError>)
    ensures
        r is Ok <==> !already_booked,
        r matches Err(e) ==> e is ConflictError && e.detail()
            == "You already have a booking for this class"@,
{
    if already_booked {
        Err(AppError::ConflictError(owned("You already have a booking for this class")))
    } else {
        Ok(())
    }
}

/// How a new booking is placed in a session.
#[derive(Debug, Clone)]
pub struct BookingPlan {
    /// Confirmed when a seat is free, waitlisted otherwise.
    pub status: BookingStatus,
    /// The place on the waiting list, for a waitlisted booking.
    pub waitlist_position: Option<i32>,
    /// Whether the booking takes one of the session's seats.
    pub takes_seat: bool,
    /// What the member is told.
    pub message: String,
}

/// `p` places a booking in session `s`: confirmed, taking a seat, while one is
/// free; otherwise waitlisted at `next_position`.
pub open spec fn planned_booking(p: BookingPlan, s: CourseSchedule, next_position: Option<i32>) -> bool {
    if has_room(s) {
        &&& p.status == BookingStatus::Confirmed
        &&& p.waitlist_position is None
        &&& p.takes_seat
        &&& p.message@ == "Booking confirmed"@
    } else {
        &&& p.status == BookingStatus::Waitlisted
        &&& p.waitlist_position == next_position
        &&& !p.takes_seat
        &&& p.message@ == "Added to waitlist at position "@ + decimal(next_position->0 as int)
    }
}

/// Decides how a new booking is placed in session `s`; `next_position` is the
/// next free place on its waiting list, needed only when the session is full.
pub fn plan_booking(s: &CourseSchedule, next_position: Option<i32>) -> (p: BookingPlan)
    requires
        !has_room(*s) ==> next_position is Some,
    ensures
        planned_booking(p, *s, next_position),
{
    if schedule_has_room(s) {
        BookingPlan {
            status: BookingStatus::Confirmed,
            waitlist_position: None,
            takes_seat: true,
            message: owned("Booking confirmed"),
        }
    } else {
        let position = match next_position {
            Some(p) => p,
            None => 0,
        };
        BookingPlan {
            status: BookingStatus::Waitlisted,
            waitlist_position: next_position,
            takes_seat: false,
            message: owned("Added to waitlist at position ").concat(i32_to_string(position).as_str()),
        }
    }
}

/// A booking only takes a seat while one is free, so bookings never fill a
/// session beyond its capacity.
pub proof fn law_booking_respects_capacity(p: BookingPlan, s: CourseSchedule, next_position: Option<i32>)
    requires
        planned_booking(p, s, next_position),
    ensures
        p.takes_seat ==> s.current_enrollment + 1 <= s.max_capacity,
        p.takes_seat <==> p.status == BookingStatus::Confirmed,
{
}

/// Whether a booking holds a seat that its cancellation frees: it is stored as confirmed.
pub open spec fn holds_seat(b: Booking) -> bool {
    b.status@ == "confirmed"@
}

/// Whether cancelling the booking frees a seat (and so lets the waiting list move up).
pub fn frees_seat_on_cancel(b: &Booking) -> (r: bool)
    ensures
        r == holds_seat(*b),
{
    str_eq(b.status.as_str(), "confirmed")
}

/// `r` is `existing` cancelled at time `now` for `reason`: cancelled, with the
/// time and reason of the cancellation recorded, and nothing else changed but
/// the time of change.
pub open spec fn cancelled_booking(
    r: Booking,
    existing: Booking,
    reason: Option<String>,
    now: String,
) -> bool {
    &&& r.status@ == BookingStatus::Cancelled.name()
    &&& r == (Booking {
        status: r.status,
        cancelled_at: Some(now),
        cancellation_reason: reason,
        updated_at: now,
        ..existing
    })
}

/// Cancels a stored booking at time `now`, recording the reason given.
pub fn cancel_booking_at(existing: Booking, reason: Option<String>, now: String) -> (r: Booking)
    ensures
        cancelled_booking(r, existing, reason, now),
{
    Booking {
        status: BookingStatus::Cancelled.to_string(),
        cancelled_at: Some(now.clone()),
        cancellation_reason: reason,
        updated_at: now,
        ..existing
    }
}


/// Cancels a stored booking now, recording the reason given.
pub fn cancel_booking(existing: Booking, reason: Option<String>) -> (r: Booking)
    ensures
        cancelled_booking(r, existing, reason, r.updated_at),
{
    cancel_booking_at(existing, reason, now_rfc3339())
}

/// `r` is `existing` moved up from the waiting list at time `now`: confirmed,
/// off the waiting list, and nothing else changed but the time of change.
pub open spec fn promoted_booking(r: Booking, existing: Booking, now: String) -> bool {
    &&& r.status@ == BookingStatus::Confirmed.name()
    &&& r == (Booking { status: r.status, waitlist_position: None, updated_at: now, ..existing })
}

/// Moves a waitlisted booking up to a confirmed seat at time `now`.
pub fn promote_booking_at(existing: Booking, now: String) -> (r: Booking)
    ensures
        promoted_booking(r, existing, now),
{
    Booking {
        status: BookingStatus::Confirmed.to_string(),
        waitlist_position: None,
        updated_at: now,
        ..existing
    }
}


/// Moves a waitlisted booking up to a confirmed seat now.
pub fn promote_from_waitlist(existing: Booking) -> (r: Booking)
    ensures
        promoted_booking(r, existing, r.updated_at),
{
    promote_booking_at(existing, now_rfc3339())
}

/// A promoted booking holds a seat, which a later cancellation frees again;
/// a cancelled booking holds none.
pub proof fn law_promotion_and_cancellation_seats(
    promoted: Booking,
    waiting: Booking,
    cancelled: Booking,
    booking: Booking,
    reason: Option<String>,
    now: String,
)
    requires
        promoted_booking(promoted, waiting, now),
        cancelled_booking(cancelled, booking, reason, now),
    ensures
        holds_seat(promoted),
        !holds_seat(cancelled),
{
    reveal_strlit("confirmed");
    reveal_strlit("cancelled");
    assert("confirmed"@[1] != "cancelled"@[1]);
}

/// Seats are counted consistently: a booking that took a seat when it was made
/// is exactly one that frees a seat when it is cancelled before any change.
pub proof fn law_seat_taken_is_seat_freed(
    p: BookingPlan,
    s: CourseSchedule,
    next_position: Option<i32>,
    b: Booking,
    member_id: Seq<char>,
    req: CreateBookingRequest,
    id: String,
    now: String,
)
    requires
        planned_booking(p, s, next_position),
        created_booking(b, member_id, req, p.status, p.waitlist_position, id, now),
    ensures
        p.takes_seat <==> holds_seat(b),
{
    reveal_strlit("confirmed");
    reveal_strlit("waitlisted");
    assert("confirmed"@[0] != "waitlisted"@[0]);
}

/// One seat for a booking that holds one, none for another.
pub open spec fn seat_of(b: Booking) -> int {
    if holds_seat(b) {
        1
    } else {
        0
    }
}

/// The number of bookings of `bs` that hold a seat: what a session's
/// enrollment counts.
pub open spec fn seats_held(bs: Seq<Booking>) -> int
    decreases bs.len(),
{
    if bs.len() == 0 {
        0
    } else {
        seats_held(bs.drop_last()) + seat_of(bs.last())
    }
}

/// Replacing one booking changes the seats held by the difference of the two.
pub proof fn lemma_seats_held_update(bs: Seq<Booking>, i: int, x: Booking)
    requires
        0 <= i < bs.len(),
    ensures
        seats_held(bs.update(i, x)) == seats_held(bs) - seat_of(bs[i]) + seat_of(x),
    decreases bs.len(),
{
    let u = bs.update(i, x);
    if i == bs.len() - 1 {
        assert(u.drop_last() =~= bs.drop_last());
    } else {
        lemma_seats_held_update(bs.drop_last(), i, x);
        assert(u.drop_last() =~= bs.drop_last().update(i, x));
        assert(u.last() == bs.last());
    }
}

/// How much a new booking placed by `p` adds to its session's enrollment.
pub fn seat_change_on_booking(p: &BookingPlan) -> (d: i32)
    ensures
        d == (if p.takes_seat {
            1int
        } else {
            0int
        }),
{
    if p.takes_seat {
        1
    } else {
        0
    }
}

/// What cancelling a booking does to its session's seats.
#[derive(Debug, Clone)]
pub struct CancellationSteps {
    /// How much the session's enrollment changes.
    pub seat_change: i32,
    /// Whether the first member on the waiting list moves up into the freed seat.
    pub promote_first_waiting: bool,
}

/// Decides what cancelling `b` does to its session's seats: a booking that
/// held a seat gives it back, and the first member waiting is moved up into
/// it; any other booking changes nothing.
pub fn cancellation_steps(b: &Booking) -> (c: CancellationSteps)
    ensures
        c.seat_change == -seat_of(*b),
        c.promote_first_waiting == holds_seat(*b),
{
    if frees_seat_on_cancel(b) {
        CancellationSteps { seat_change: -1, promote_first_waiting: true }
    } else {
        CancellationSteps { seat_change: 0, promote_first_waiting: false }
    }
}

/// How much moving a waiting booking up adds to its session's enrollment.
pub fn seat_change_on_promotion() -> (d: i32)
    ensures
        d == 1,
{
    1
}

/// A session's enrollment keeps counting the bookings that hold a seat when a
/// new booking is added with the change `seat_change_on_booking` gives.
pub proof fn law_new_booking_keeps_seat_count(
    enrollment: int,
    bs: Seq<Booking>,
    p: BookingPlan,
    s: CourseSchedule,
    next_position: Option<i32>,
    b: Booking,
    member_id: Seq<char>,
    req: CreateBookingRequest,
    id: String,
    now: String,
)
    requires
        enrollment == seats_held(bs),
        planned_booking(p, s, next_position),
        created_booking(b, member_id, req, p.status, p.waitlist_position, id, now),
    ensures
        enrollment + (if p.takes_seat {
            1int
        } else {
            0int
        }) == seats_held(bs.push(b)),
{
    law_seat_taken_is_seat_freed(p, s, next_position, b, member_id, req, id, now);
    assert(bs.push(b).drop_last() =~= bs);
}

/// A session's enrollment keeps counting the bookings that hold a seat through
/// a cancellation: cancelling the booking at `i` with the change that
/// `cancellation_steps` gives, and then, when it says so, moving up the
/// waiting booking at `j` with the change `seat_change_on_promotion` gives.
pub proof fn law_cancellation_keeps_seat_count(
    enrollment: int,
    bs: Seq<Booking>,
    i: int,
    cancelled: Booking,
    reason: Option<String>,
    now: String,
    j: int,
    promoted: Booking,
)
    requires
        enrollment == seats_held(bs),
        0 <= i < bs.len(),
        cancelled_booking(cancelled, bs[i], reason, now),
        0 <= j < bs.len(),
        j != i,
        !holds_seat(bs[j]),
        promoted_booking(promoted, bs[j], now),
    ensures
        enrollment - seat_of(bs[i]) == seats_held(bs.update(i, cancelled)),
        holds_seat(bs[i]) ==> enrollment - seat_of(bs[i]) + 1 == seats_held(
            bs.update(i, cancelled).update(j, promoted),
        ),
{
    reveal_strlit("confirmed");
    reveal_strlit("cancelled");
    assert("confirmed"@[1] != "cancelled"@[1]);
    lemma_seats_held_update(bs, i, cancelled);
    let bs1 = bs.update(i, cancelled);
    assert(bs1[j] == bs[j]);
    lemma_seats_held_update(bs1, j, promoted);
}

/// Whether a change request carries no change at all.
pub open spec fn is_empty_booking_update(req: UpdateBookingRequest) -> bool {
    req.status is None && req.attended is None && req.notes is None
}

/// A change request that carries nothing changes nothing but the time of the
/// booking's last change.
pub proof fn law_empty_booking_update(r: Booking, existing: Booking, req: UpdateBookingRequest, now: String)
    requires
        updated_booking(r, existing, req, now),
        is_empty_booking_update(req),
    ensures
        r == (Booking { updated_at: now, ..existing }),
{
}



/// Updating a booking sets every field that the request gives to the given
/// value, keeps every field that it leaves out, never touches the fields that
/// a request cannot change, and stamps the time of the change.
pub proof fn law_booking_update_fields(r: Booking, existing: Booking, req: UpdateBookingRequest, now: String)
    requires
        updated_booking(r, existing, req, now),
    ensures
        req.status matches Some(k) ==> r.status@ == k.name(),
        req.status is None ==> r.status == existing.status,
        req.attended matches Some(v) ==> r.attended == v,
        req.attended is None ==> r.attended == existing.attended,
        req.notes matches Some(v) ==> r.notes == Some(v),
        req.notes is None ==> r.notes == existing.notes,
        r.id == existing.id,
        r.member_id == existing.member_id,
        r.schedule_id == existing.schedule_id,
        r.waitlist_position == existing.waitlist_position,
        r.booked_at == existing.booked_at,
        r.cancelled_at == existing.cancelled_at,
        r.cancellation_reason == existing.cancellation_reason,
        r.created_at == existing.created_at,
        r.updated_at == now,
{
}


/// A new booking belongs to the member and session it was made for, in the
/// status and waiting place that it was placed with, not yet attended nor
/// cancelled.
pub proof fn law_new_booking_defaults(
    b: Booking,
    member_id: Seq<char>,
    req: CreateBookingRequest,
    status: BookingStatus,
    waitlist_position: Option<i32>,
    id: String,
    now: String,
)
    requires
        created_booking(b, member_id, req, status, waitlist_position, id, now),
    ensures
        b.id == id,
        b.member_id@ == member_id,
        b.schedule_id == req.schedule_id,
        b.status@ == status.name(),
        b.waitlist_position == waitlist_position,
        !b.attended,
        b.cancelled_at is None,
        b.cancellation_reason is None,
        b.notes == req.notes,
        b.booked_at == now,
        b.created_at == now,
        b.updated_at == now,
{
}


/// Cancelling a booking makes it cancelled, records when and why, and changes
/// nothing else but the time of change.
pub proof fn law_cancelling_booking(r: Booking, existing: Booking, reason: Option<String>, now: String)
    requires
        cancelled_booking(r, existing, reason, now),
    ensures
        r.id == existing.id,
        r.member_id == existing.member_id,
        r.schedule_id == existing.schedule_id,
        r.status@ == "cancelled"@,
        r.waitlist_position == existing.waitlist_position,
        r.booked_at == existing.booked_at,
        r.cancelled_at == Some(now),
        r.cancellation_reason == reason,
        r.attended == existing.attended,
        r.notes == existing.notes,
        r.created_at == existing.created_at,
        r.updated_at == now,
{
}


/// Moving a booking up from the waiting list confirms it and takes it off the list,
/// and changes nothing else but the time of change.
pub proof fn law_promoting_booking(r: Booking, existing: Booking, now: String)
    requires
        promoted_booking(r, existing, now),
    ensures
        r.id == existing.id,
        r.member_id == existing.member_id,
        r.schedule_id == existing.schedule_id,
        r.status@ == "confirmed"@,
        r.waitlist_position is None,
        r.booked_at == existing.booked_at,
        r.cancelled_at == existing.cancelled_at,
        r.cancellation_reason == existing.cancellation_reason,
        r.attended == existing.attended,
        r.notes == existing.notes,
        r.created_at == existing.created_at,
        r.updated_at == now,
{
}


/// A booking is shown as it is stored: every stored field is passed on
/// unchanged, the kinds are the ones their stored names read as, and what the
/// store does not hold is left to be filled in.
pub proof fn law_booking_shown_as_stored(r: BookingResponse, b: Booking)
    requires
        r == BookingResponse::shown(b),
        BookingResponse::reads_kinds(r, b),
    ensures
        r.id == b.id,
        r.member_id == b.member_id,
        r.member_name is None,
        r.schedule_id == b.schedule_id,
        r.course_name is None,
        r.scheduled_date is None,
        r.start_time is None,
        r.end_time is None,
        r.instructor_name is None,
        all_ascii(b.status@) ==> r.status == BookingStatus::from_lowercase(ascii_lowercase(b.status@)),
        forall|k: BookingStatus| b.status@ == k.name() ==> r.status == k,
        r.waitlist_position == b.waitlist_position,
        r.booked_at == b.booked_at,
        r.cancelled_at == b.cancelled_at,
        r.cancellation_reason == b.cancellation_reason,
        r.attended == b.attended,
        r.notes == b.notes,
        r.created_at == b.created_at,
        r.updated_at == b.updated_at,
{
}


/// A booking is confirmed in a free seat while the session has one, and is put
/// on the waiting list at the next place otherwise, and the member is told which.
pub proof fn law_booking_placement(p: BookingPlan, s: CourseSchedule, next_position: Option<i32>)
    requires
        planned_booking(p, s, next_position),
    ensures
        s.current_enrollment < s.max_capacity ==> p.status == BookingStatus::Confirmed
            && p.waitlist_position is None && p.takes_seat && p.message@ == "Booking confirmed"@,
        s.current_enrollment >= s.max_capacity ==> p.status == BookingStatus::Waitlisted
            && p.waitlist_position == next_position && !p.takes_seat && p.message@
            == "Added to waitlist at position "@ + decimal(next_position->0 as int),
{
}


/// Every booking status is stored under its snake-case name, and every stored
/// name reads back as the kind it names.
pub proof fn law_booking_status_names()
    ensures
        BookingStatus::Confirmed.name() == "confirmed"@,
        BookingStatus::Cancelled.name() == "cancelled"@,
        BookingStatus::Completed.name() == "completed"@,
        BookingStatus::NoShow.name() == "no_show"@,
        BookingStatus::Waitlisted.name() == "waitlisted"@,
        forall|k: BookingStatus| #[trigger] BookingStatus::from_lowercase(k.name()) == k,
{
    BookingStatus::Confirmed.lemma_name_parses_back();
    BookingStatus::Cancelled.lemma_name_parses_back();
    BookingStatus::Completed.lemma_name_parses_back();
    BookingStatus::NoShow.lemma_name_parses_back();
    BookingStatus::Waitlisted.lemma_name_parses_back();
    reveal_strlit("confirmed");
    reveal_strlit("cancelled");
    reveal_strlit("completed");
    reveal_strlit("no_show");
    reveal_strlit("waitlisted");
    assert forall|k: BookingStatus| #[trigger] BookingStatus::from_lowercase(k.name()) == k by {
        k.lemma_name_parses_back();
    }
}

} // verus!
