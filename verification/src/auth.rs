//! Who is calling: bearer tokens, their claims, passwords and the access rules.
use vstd::prelude::*;
use vstd::string::StrSliceExecFns;
use crate::error::AppError;
use crate::ids::now_and_hours_later;
use crate::models::member::MemberRole;
use crate::text::{lowercase_of, owned, str_eq};

verus! {

/// What a signed token says about its holder.
#[derive(Debug, Clone)]
pub struct Claims {
    /// The member's identifier.
    pub sub: String,
    pub email: String,
    /// The name of the member's role.
    pub role: String,
    /// When the token stops being valid, in seconds since the Unix epoch.
    pub exp: i64,
    /// When the token was issued, in seconds since the Unix epoch.
    pub iat: i64,
}

/// The member on whose behalf a request is made.
#[derive(Debug, Clone)]
pub struct AuthenticatedUser {
    pub id: String,
    pub email: String,
    pub role: MemberRole,
}

/// The token in an `Authorization` header: what follows `Bearer `, if the header starts so.
pub open spec fn bearer_token(header: Seq<char>) -> Option<Seq<char>> {
    if header.len() >= 7 && header.take(7) == "Bearer "@ {
        Some(header.skip(7))
    } else {
        None
    }
}

/// Takes the token out of an `Authorization` header of the form `Bearer <token>`.
pub fn extract_token_from_header(auth_header: &str) -> (r: Option<&str>)
    ensures
        match bearer_token(auth_header@) {
            Some(t) => r matches Some(s) && s@ == t,
            None => r is None,
        },
{
    let n = auth_header.unicode_len();
    if n < 7 {
        return None;
    }
    let head = auth_header.substring_char(0, 7);
    if str_eq(head, "Bearer ") {
        Some(auth_header.substring_char(7, n))
    } else {
        None
    }
}

/// The token that a request carries, given its `Authorization` header if it has
/// a readable one: a missing header and one without the bearer form are refused.
pub fn token_from_auth_header(header: Option<&str>) -> (r: Result<&str, AppError>)
    ensures
        match header {
            None => r matches Err(e) && e is AuthenticationError && e.detail()
                == "Missing authorization header"@,
            Some(h) => match bearer_token(h@) {
                Some(t) => r matches Ok(s) && s@ == t,
                None => r matches Err(e) && e is AuthenticationError && e.detail()
                    == "Invalid authorization header format"@,
            },
        },
{
    match header {
        None => Err(AppError::AuthenticationError(owned("Missing authorization header"))),
        Some(h) => match extract_token_from_header(h) {
            Some(t) => Ok(t),
            None => Err(AppError::AuthenticationError(owned("Invalid authorization header format"))),
        },
    }
}

/// `u` is the caller that the claims `c` describe: the member they name, with
/// the role read back from its name ignoring case.
pub open spec fn caller_of(u: AuthenticatedUser, c: Claims) -> bool {
    &&& u.id == c.sub
    &&& u.email == c.email
    &&& u.role == MemberRole::from_lowercase(lowercase_of(c.role@))
    &&& forall|r: MemberRole| c.role@ == r.name() ==> u.role == r
}

/// The caller that a valid token's claims describe; the role is read back ignoring case.
pub fn user_from_claims(claims: Claims) -> (u: AuthenticatedUser)
    ensures
        caller_of(u, claims),
{
    AuthenticatedUser { id: claims.sub, email: claims.email, role: MemberRole::from(claims.role) }
}

/// The claims `c` are issued to the member `member_id` with the given email and role.
pub open spec fn issued_to(c: Claims, member_id: Seq<char>, email: Seq<char>, role: MemberRole) -> bool {
    &&& c.sub@ == member_id
    &&& c.email@ == email
    &&& c.role@ == role.name()
}

/// The claims of a token issued to a member at `issued_at` and valid until `expires_at`.
pub fn build_claims(
    member_id: &str,
    email: &str,
    role: &MemberRole,
    issued_at: i64,
    expires_at: i64,
) -> (c: Claims)
    ensures
        issued_to(c, member_id@, email@, *role),
        c.iat == issued_at,
        c.exp == expires_at,
{
    Claims {
        sub: owned(member_id),
        email: owned(email),
        role: role.to_string(),
        exp: expires_at,
        iat: issued_at,
    }
}

/// The claims of a token issued now to a member, valid for `lifetime_hours` hours.
pub fn issue_claims(member_id: &str, email: &str, role: &MemberRole, lifetime_hours: i64) -> (c: Claims)
    requires
        -2_000_000_000 <= lifetime_hours <= 2_000_000_000,
    ensures
        issued_to(c, member_id@, email@, *role),
        c.exp == c.iat + lifetime_hours * 3600,
{
    let (issued_at, expires_at) = now_and_hours_later(lifetime_hours);
    build_claims(member_id, email, role, issued_at, expires_at)
}

/// Whether the caller is an administrator.
pub open spec fn is_admin(u: AuthenticatedUser) -> bool {
    u.role == MemberRole::Admin
}

/// Whether the caller is an instructor or an administrator.
pub open spec fn is_staff(u: AuthenticatedUser) -> bool {
    u.role == MemberRole::Admin || u.role == MemberRole::Instructor
}

/// Lets only administrators through.
pub fn require_admin(user: &AuthenticatedUser) -> (r: Result<(), AppError>)
    ensures
        r is Ok <==> is_admin(*user),
        r matches Err(e) ==> e is AuthorizationError && e.detail() == "Admin access required"@,
{
    if user.role != MemberRole::Admin {
        return Err(AppError::AuthorizationError(owned("Admin access required")));
    }
    Ok(())
}

/// Lets only instructors and administrators through.
pub fn require_instructor_or_admin(user: &AuthenticatedUser) -> (r: Result<(), AppError>)
    ensures
        r is Ok <==> is_staff(*user),
        r matches Err(e) ==> e is AuthorizationError && e.detail()
            == "Instructor or admin access required"@,
{
    if user.role != MemberRole::Admin && user.role != MemberRole::Instructor {
        return Err(AppError::AuthorizationError(owned("Instructor or admin access required")));
    }
    Ok(())
}

/// Whether the caller is the member with identifier `member_id`.
pub open spec fn is_self(u: AuthenticatedUser, member_id: Seq<char>) -> bool {
    u.id@ == member_id
}

/// Refuses with an authorization error carrying `msg` unless `allowed`.
fn allow_if(allowed: bool, msg: &str) -> (r: Result<(), AppError>)
    ensures
        r is Ok <==> allowed,
        r matches Err(e) ==> e is AuthorizationError && e.detail() == msg@,
{
    if allowed {
        Ok(())
    } else {
        Err(AppError::AuthorizationError(owned(msg)))
    }
}

/// Members see their own account; administrators see every account.
pub fn check_can_view_member(user: &AuthenticatedUser, member_id: &str) -> (r: Result<(), AppError>)
    ensures
        r is Ok <==> is_self(*user, member_id@) || is_admin(*user),
        r matches Err(e) ==> e is AuthorizationError && e.detail()
            == "Not authorized to view this member"@,
{
    let own = str_eq(user.id.as_str(), member_id);
    allow_if(own || user.role == MemberRole::Admin, "Not authorized to view this member")
}

/// Members change their own account and administrators every account; only
/// administrators may change an account's status.
pub fn check_can_update_member(
    user: &AuthenticatedUser,
    member_id: &str,
    changes_status: bool,
) -> (r: Result<(), AppError>)
    ensures
        r is Ok <==> (is_self(*user, member_id@) || is_admin(*user)) && (!changes_status
            || is_admin(*user)),
        !(is_self(*user, member_id@) || is_admin(*user)) ==> (r matches Err(e)
            && e is AuthorizationError && e.detail() == "Not authorized to update this member"@),
        is_self(*user, member_id@) && !is_admin(*user) && changes_status ==> (r matches Err(e)
            && e is AuthorizationError && e.detail() == "Only admins can change member status"@),
{
    let own = str_eq(user.id.as_str(), member_id);
    let admin = user.role == MemberRole::Admin;
    allow_if(own || admin, "Not authorized to update this member")?;
    allow_if(!changes_status || admin, "Only admins can change member status")
}

/// Members see their own bookings; administrators see every member's.
pub fn check_can_view_member_bookings(user: &AuthenticatedUser, member_id: &str) -> (r: Result<
    (),
    AppError,
>)
    ensures
        r is Ok <==> is_self(*user, member_id@) || is_admin(*user),
        r matches Err(e) ==> e is AuthorizationError && e.detail()
            == "Not authorized to view this member's bookings"@,
{
    let own = str_eq(user.id.as_str(), member_id);
    allow_if(own || user.role == MemberRole::Admin, "Not authorized to view this member's bookings")
}

/// Members see their own bookings; instructors and administrators see every booking.
pub fn check_can_view_booking(user: &AuthenticatedUser, booking_member_id: &str) -> (r: Result<
    (),
    AppError,
>)
    ensures
        r is Ok <==> is_self(*user, booking_member_id@) || is_staff(*user),
        r matches Err(e) ==> e is AuthorizationError && e.detail()
            == "Not authorized to view this booking"@,
{
    let own = str_eq(user.id.as_str(), booking_member_id);
    allow_if(
        own || user.role == MemberRole::Admin || user.role == MemberRole::Instructor,
        "Not authorized to view this booking",
    )
}

/// Members cancel their own bookings; administrators cancel any booking.
pub fn check_can_cancel_booking(user: &AuthenticatedUser, booking_member_id: &str) -> (r: Result<
    (),
    AppError,
>)
    ensures
        r is Ok <==> is_self(*user, booking_member_id@) || is_admin(*user),
        r matches Err(e) ==> e is AuthorizationError && e.detail()
            == "Not authorized to cancel this booking"@,
{
    let own = str_eq(user.id.as_str(), booking_member_id);
    allow_if(own || user.role == MemberRole::Admin, "Not authorized to cancel this booking")
}

/// A token names the member it was issued to: the caller read from its claims
/// has that member's identifier, email and role.
pub proof fn law_token_names_its_member(
    c: Claims,
    u: AuthenticatedUser,
    member_id: Seq<char>,
    email: Seq<char>,
    role: MemberRole,
)
    requires
        issued_to(c, member_id, email, role),
        caller_of(u, c),
    ensures
        u.id@ == member_id,
        u.email@ == email,
        u.role == role,
{
}

/// Every administrator is also staff.
pub proof fn law_admins_are_staff(u: AuthenticatedUser)
    ensures
        is_admin(u) ==> is_staff(u),
{
}

/// What `bcrypt::verify` answers for a password and a stored hash: whether they
/// match, or nothing when the hash cannot be read.
pub uninterp spec fn bcrypt_verdict(password: Seq<char>, hash: Seq<char>) -> Option<bool>;

#[verifier::external_type_specification]
#[verifier::external_body]
pub struct ExBcryptError(bcrypt::BcryptError);

/// Hashes a password with `bcrypt::hash` at `bcrypt::DEFAULT_COST` and a random salt.
/// Trusted: a hash that comes back verifies against the same password
/// (`verify` recomputes the hash with the salt and cost stored in it); the
/// salt itself is left open.
#[verifier::external_body]
fn bcrypt_hash(password: &str) -> (r: Result<String, bcrypt::BcryptError>)
    ensures
        r matches Ok(h) ==> bcrypt_verdict(password@, h@) == Some(true),
{
    bcrypt::hash(password, bcrypt::DEFAULT_COST)
}

/// Checks a password against a stored hash with `bcrypt::verify`.
/// Trusted: the outcome is what `bcrypt_verdict` names; an unreadable hash is an error.
#[verifier::external_body]
fn bcrypt_verify(password: &str, hash: &str) -> (r: Result<bool, bcrypt::BcryptError>)
    ensures
        match r {
            Ok(b) => bcrypt_verdict(password@, hash@) == Some(b),
            Err(_) => bcrypt_verdict(password@, hash@) is None,
        },
{
    bcrypt::verify(password, hash)
}

/// The text of a bcrypt error, from its `Display`. Nothing is stated of it.
#[verifier::external_body]
fn bcrypt_error_text(e: &bcrypt::BcryptError) -> (s: String) {
    e.to_string()
}

/// What becomes of the result of hashing a new account's password: the hash is
/// kept, and a failure of the hashing is an internal error.
pub fn hashed_password_outcome(r: Result<String, bcrypt::BcryptError>) -> (o: Result<String, AppError>)
    ensures
        match r {
            Ok(h) => o matches Ok(k) && k == h,
            Err(_) => o matches Err(e) && e is InternalError,
        },
{
    match r {
        Ok(h) => Ok(h),
        Err(e) => Err(AppError::InternalError(bcrypt_error_text(&e))),
    }
}

/// Hashes the password of a new account; a failure of the hashing is an internal error.
pub fn hash_new_password(password: &str) -> (r: Result<String, AppError>)
    ensures
        r matches Ok(h) ==> bcrypt_verdict(password@, h@) == Some(true),
        r matches Err(e) ==> e is InternalError,
{
    hashed_password_outcome(bcrypt_hash(password))
}

/// What becomes of the result of checking a sign-in password: a match lets the
/// member in, a mismatch is refused as invalid credentials, and a hash that
/// cannot be read is an internal error.
pub fn login_outcome(r: Result<bool, bcrypt::BcryptError>) -> (o: Result<(), AppError>)
    ensures
        match r {
            Ok(true) => o is Ok,
            Ok(false) => o matches Err(e) && e is AuthenticationError && e.detail() == "Invalid credentials"@,
            Err(_) => o matches Err(e) && e is InternalError,
        },
{
    match r {
        Ok(true) => Ok(()),
        Ok(false) => Err(invalid_credentials()),
        Err(e) => Err(AppError::InternalError(bcrypt_error_text(&e))),
    }
}

/// Checks a sign-in password against the account's hash: a wrong password is
/// refused as invalid credentials, an unreadable hash is an internal error.
pub fn verify_login_password(password: &str, password_hash: &str) -> (r: Result<(), AppError>)
    ensures
        r is Ok <==> bcrypt_verdict(password@, password_hash@) == Some(true),
        bcrypt_verdict(password@, password_hash@) == Some(false) ==> (r matches Err(e)
            && e is AuthenticationError && e.detail() == "Invalid credentials"@),
        bcrypt_verdict(password@, password_hash@) is None ==> (r matches Err(e)
            && e is InternalError),
{
    login_outcome(bcrypt_verify(password, password_hash))
}

/// The answer to a sign-in under an unknown email or with a wrong password.
pub fn invalid_credentials() -> (e: AppError)
    ensures
        e is AuthenticationError,
        e.detail() == "Invalid credentials"@,
{
    AppError::AuthenticationError(owned("Invalid credentials"))
}

/// A password that was hashed at registration is accepted at sign-in.
pub proof fn law_registered_password_signs_in(password: Seq<char>, hash: Seq<char>)
    requires
        bcrypt_verdict(password, hash) == Some(true),
    ensures
        bcrypt_verdict(password, hash) != Some(false),
        bcrypt_verdict(password, hash) is Some,
{
}


/// Only administrators are administrators, and staff are the instructors and
/// administrators; a token is read from a header that starts with `Bearer `
/// as everything after that prefix, and no other header carries one.
pub proof fn law_roles_and_bearer_tokens(u: AuthenticatedUser, header: Seq<char>)
    ensures
        is_admin(u) <==> u.role == MemberRole::Admin,
        is_staff(u) <==> (u.role == MemberRole::Admin || u.role == MemberRole::Instructor),
        header.len() >= 7 && header.take(7) == "Bearer "@ ==> bearer_token(header) == Some(header.skip(7)),
        !(header.len() >= 7 && header.take(7) == "Bearer "@) ==> bearer_token(header) is None,
{
}

} // verus!
