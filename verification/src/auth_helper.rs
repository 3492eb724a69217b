//! Who a request comes from, and what that lets it reach.

use vstd::prelude::*;

use crate::reply::Reply;
use crate::text::{opt_text, trimmed};
use crate::time::{later, utc_now, Timestamp};

verus! {

/// The ladder of roles. Reporters are users, handlers are staff, auditors are
/// supervisors and compliance leads are administrators.
#[derive(Clone, Copy, Debug, PartialEq, Eq, Structural)]
pub enum Role {
    User,
    Staff,
    Supervisor,
    Administrator,
    Developer,
}

/// The rung of a role on the ladder.
pub open spec fn rung(role: Role) -> int {
    match role {
        Role::User => 0,
        Role::Staff => 1,
        Role::Supervisor => 2,
        Role::Administrator => 3,
        Role::Developer => 4,
    }
}

/// Whether one role may do whatever another may.
pub open spec fn includes(role: Role, other: Role) -> bool {
    rung(role) >= rung(other)
}

/// `rustio_admin::auth::Role::includes`: a role may do whatever a role on the
/// same or a lower rung may.
#[verifier::external_body]
pub(crate) fn role_includes(role: Role, other: Role) -> (r: bool)
    ensures
        r == includes(role, other),
{
    let held = match role {
        Role::User => rustio_admin::auth::Role::User,
        Role::Staff => rustio_admin::auth::Role::Staff,
        Role::Supervisor => rustio_admin::auth::Role::Supervisor,
        Role::Administrator => rustio_admin::auth::Role::Administrator,
        Role::Developer => rustio_admin::auth::Role::Developer,
    };
    let asked = match other {
        Role::User => rustio_admin::auth::Role::User,
        Role::Staff => rustio_admin::auth::Role::Staff,
        Role::Supervisor => rustio_admin::auth::Role::Supervisor,
        Role::Administrator => rustio_admin::auth::Role::Administrator,
        Role::Developer => rustio_admin::auth::Role::Developer,
    };
    held.includes(asked)
}

/// The user that a live session belongs to.
pub struct Identity {
    pub user_id: i64,
    pub email: String,
    pub role: Role,
    pub is_active: bool,
}

/// Outcome of a role check.
pub enum AccessGuard {
    /// The caller has the required role; the identity is the session's user.
    Allow(Identity),
    /// The caller is sent elsewhere: to the login page without a live session,
    /// to the landing page with a role that does not suffice.
    Redirect(Reply),
}

pub const LOGIN_PATH: &'static str = "/admin/login";

pub const LANDING_PATH: &'static str = "/admin";

/// The length of the part of a cookie header before its first semicolon.
pub open spec fn cookie_len(header: Seq<char>) -> nat
    decreases header.len(),
{
    if header.len() == 0 || header.first() == ';' {
        0
    } else {
        1 + cookie_len(header.drop_first())
    }
}

/// The value of the session cookie: of the parts between semicolons, with the
/// white space around each taken away, the first that begins with
/// `rustio_session=`.
pub open spec fn session_cookie(header: Seq<char>) -> Option<Seq<char>>
    decreases header.len(),
{
    let end = cookie_len(header) as int;
    let part = trimmed(header.take(end));
    let prefix = "rustio_session="@;
    if prefix.is_prefix_of(part) {
        Some(part.skip(prefix.len() as int))
    } else if end < header.len() {
        session_cookie(header.skip(end + 1))
    } else {
        None
    }
}

/// `rustio_admin::auth::session_token_from_cookie` picks the session token out
/// of a cookie header.
pub assume_specification[ rustio_admin::auth::session_token_from_cookie ](
    cookie_header: &str,
) -> (r: Option<String>)
    ensures
        r is Some <==> session_cookie(cookie_header@) is Some,
        r matches Some(token) ==> session_cookie(cookie_header@) == Some(token@),
;

/// The session token that a cookie header holds, if there is one.
pub open spec fn cookie_token(cookie: Option<Seq<char>>) -> Option<Seq<char>> {
    match cookie {
        Some(header) => session_cookie(header),
        None => None,
    }
}

/// The session token of a request, if its cookie header holds one.
pub fn session_token(cookie: Option<&str>) -> (r: Option<String>)
    ensures
        opt_text(r) == cookie_token(
            match cookie {
                Some(header) => Some(header@),
                None => None,
            },
        ),
{
    match cookie {
        Some(header) => rustio_admin::auth::session_token_from_cookie(header),
        None => None,
    }
}

/// Whether a session's user may pass a gate for a role.
pub open spec fn admitted(identity: Identity, min_role: Role) -> bool {
    identity.is_active && includes(identity.role, min_role)
}

/// Where a request is sent that may not pass a gate for a role: to the login
/// page without a session or with a user that was deactivated, to the landing
/// page with a role that does not suffice.
pub open spec fn refusal(session: Option<Identity>, min_role: Role) -> Option<Seq<char>> {
    match session {
        Some(identity) => if admitted(identity, min_role) {
            None
        } else if identity.is_active {
            Some(LANDING_PATH@)
        } else {
            Some(LOGIN_PATH@)
        },
        None => Some(LOGIN_PATH@),
    }
}

/// Decides what a request may reach from the user that its session belongs to.
pub fn require_role(session: Option<Identity>, min_role: Role) -> (r: AccessGuard)
    ensures
        match refusal(session, min_role) {
            None => r == AccessGuard::Allow(session->0),
            Some(path) => r matches AccessGuard::Redirect(reply) && reply.is_redirect(path),
        },
{
    match session {
        None => AccessGuard::Redirect(Reply::redirect(LOGIN_PATH)),
        Some(identity) => {
            if !identity.is_active {
                AccessGuard::Redirect(Reply::redirect(LOGIN_PATH))
            } else if !role_includes(identity.role, min_role) {
                AccessGuard::Redirect(Reply::redirect(LANDING_PATH))
            } else {
                AccessGuard::Allow(identity)
            }
        },
    }
}

/// Whether a session whose elevation lasts to a stored instant is elevated now.
pub open spec fn elevated(elevated_until: Option<(int, int)>, now: (int, int)) -> bool {
    match elevated_until {
        Some(until) => later(until, now),
        None => false,
    }
}

/// The end of an elevation, if one is stored.
pub open spec fn end_of(elevated_until: Option<Timestamp>) -> Option<(int, int)> {
    match elevated_until {
        Some(until) => Some(until@),
        None => None,
    }
}

/// Whether a session is elevated at a given instant: the end of its elevation
/// is stored, and lies in the future.
pub fn is_elevated_at(elevated_until: &Option<Timestamp>, now: &Timestamp) -> (r: bool)
    ensures
        r == elevated(end_of(*elevated_until), now@),
{
    match elevated_until {
        Some(until) => until.is_after(now),
        None => false,
    }
}

/// Whether a session has re-authenticated within the window that ends at the
/// stored instant, by the clock of the machine. Where no end is stored, or it lies
/// in 1969 or before, the session is not elevated whatever the clock says.
pub fn is_session_elevated(elevated_until: Option<Timestamp>) -> (r: bool)
    ensures
        r ==> elevated(end_of(elevated_until), (0, 0)),
{
    let now = utc_now();
    is_elevated_at(&elevated_until, &now)
}

/// A role admits whoever holds it to everything that a role it includes is
/// admitted to.
pub proof fn law_roles_are_a_ladder(higher: Identity, lower: Identity, min_role: Role)
    requires
        includes(higher.role, lower.role),
        higher.is_active,
        admitted(lower, min_role),
    ensures
        admitted(higher, min_role),
{
}

/// A gate for compliance leads lets administrators and developers through, a gate
/// for auditors supervisors too, and a gate for handlers everyone but users; no
/// gate lets a deactivated user through.
pub proof fn law_role_floors(identity: Identity)
    ensures
        admitted(identity, Role::Administrator) <==> identity.is_active && (identity.role
            == Role::Administrator || identity.role == Role::Developer),
        admitted(identity, Role::Supervisor) <==> identity.is_active && identity.role != Role::User
            && identity.role != Role::Staff,
        admitted(identity, Role::Staff) <==> identity.is_active && identity.role != Role::User,
{
}

/// A gate lets through whoever is active and has the role that it asks for or one
/// above it, under their own identity. Without a session, or deactivated, a caller
/// is sent to the login page, and with a lower role to the landing page.
pub proof fn law_refusals(session: Option<Identity>, min_role: Role)
    ensures
        session is None ==> refusal(session, min_role) == Some("/admin/login"@),
        session matches Some(caller) ==> (!caller.is_active ==> refusal(session, min_role) == Some(
            "/admin/login"@,
        )),
        session matches Some(caller) ==> (caller.is_active ==> refusal(session, min_role)
            == if reaches(caller.role, min_role) {
            None
        } else {
            Some("/admin"@)
        }),
{
}

/// Whether a role is another or stands above it on the ladder.
pub open spec fn reaches(role: Role, other: Role) -> bool {
    match other {
        Role::User => true,
        Role::Staff => role != Role::User,
        Role::Supervisor => role != Role::User && role != Role::Staff,
        Role::Administrator => role == Role::Administrator || role == Role::Developer,
        Role::Developer => role == Role::Developer,
    }
}

/// The token of a request is the one in its cookie header, and there is none
/// without a header.
pub proof fn law_token_is_the_one_in_the_cookie(header: Seq<char>)
    ensures
        cookie_token(Some(header)) == session_cookie(header),
        cookie_token(None) is None,
{
}

/// A session is elevated up to the instant that is stored and not from then on,
/// to the nanosecond; where none is stored it never is.
pub proof fn law_elevation_lasts_to_its_end(until: (int, int), now: (int, int))
    ensures
        elevated(Some(until), now) <==> now.0 < until.0 || (now.0 == until.0 && now.1 < until.1),
        !elevated(None, now),
{
}

/// An elevation that has run out stays so.
pub proof fn law_elevation_runs_out(
    elevated_until: Option<(int, int)>,
    now: (int, int),
    afterwards: (int, int),
)
    requires
        !elevated(elevated_until, now),
        !later(now, afterwards),
    ensures
        !elevated(elevated_until, afterwards),
{
}

}
