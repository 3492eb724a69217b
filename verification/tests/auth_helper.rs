use lursystem::auth_helper::{
    is_elevated_at, is_session_elevated, require_role, session_token, AccessGuard, Identity, Role,
};
use lursystem::reply::Reply;
use lursystem::time::Timestamp;

const ROLES: [Role; 5] = [
    Role::User,
    Role::Staff,
    Role::Supervisor,
    Role::Administrator,
    Role::Developer,
];

fn user(role: Role, is_active: bool) -> Identity {
    Identity {
        user_id: 1,
        email: "user@example.com".to_string(),
        role,
        is_active,
    }
}

fn sent_to(guard: AccessGuard) -> String {
    match guard {
        AccessGuard::Redirect(Reply::Redirect { location }) => location,
        _ => panic!("let in"),
    }
}

#[test]
fn roles_are_a_ladder() {
    for (held, role) in ROLES.iter().enumerate() {
        for (asked, min_role) in ROLES.iter().enumerate() {
            match require_role(Some(user(*role, true)), *min_role) {
                AccessGuard::Allow(identity) => {
                    assert!(held >= asked);
                    assert_eq!(identity.user_id, 1);
                    assert_eq!(identity.email, "user@example.com");
                }
                AccessGuard::Redirect(Reply::Redirect { location }) => {
                    assert!(held < asked);
                    assert_eq!(location, "/admin");
                }
                AccessGuard::Redirect(_) => panic!("a page"),
            }
        }
    }
}

#[test]
fn without_a_live_user_the_way_leads_to_the_login() {
    for role in ROLES {
        assert_eq!(sent_to(require_role(None, role)), "/admin/login");
        assert_eq!(
            sent_to(require_role(Some(user(role, false)), Role::User)),
            "/admin/login"
        );
    }
}

#[test]
fn session_tokens_come_from_the_cookie() {
    assert_eq!(session_token(None), None);
    assert_eq!(session_token(Some("")), None);
    assert_eq!(session_token(Some("theme=dark")), None);
    assert_eq!(
        session_token(Some("rustio_session=abc")).as_deref(),
        Some("abc")
    );
    assert_eq!(
        session_token(Some("theme=dark;  rustio_session=a=b ; rustio_session=later")).as_deref(),
        Some("a=b")
    );
    assert_eq!(session_token(Some("rustio_session=")).as_deref(), Some(""));
    assert_eq!(session_token(Some("xrustio_session=abc")), None);
}

#[test]
fn elevation_ends_at_its_instant() {
    let at = |secs: i64, nanos: u32| Timestamp::new(secs, nanos).unwrap();
    assert!(!is_elevated_at(&None, &at(0, 0)));
    assert!(is_elevated_at(&Some(at(100, 1)), &at(100, 0)));
    assert!(!is_elevated_at(&Some(at(100, 0)), &at(100, 0)));
    assert!(!is_elevated_at(&Some(at(100, 999)), &at(101, 0)));
    assert!(is_elevated_at(&Some(at(101, 0)), &at(100, 999)));
}

#[test]
fn elevation_by_the_clock() {
    let now = chrono::Utc::now().timestamp();
    assert!(!is_session_elevated(None));
    assert!(!is_session_elevated(Timestamp::new(-1, 0)));
    assert!(!is_session_elevated(Timestamp::new(now - 1, 0)));
    assert!(is_session_elevated(Timestamp::new(now + 600, 0)));
}
