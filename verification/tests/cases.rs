use lursystem::auth_helper::{Identity, Role};
use lursystem::handlers::cases::{
    case_access, case_detail_reply, forbidden, history_query, not_found, operator_css, render_detail,
    show_case_detail, ActionRow, CaseAccess, CaseDetail, CaseRow, ReportRow,
};
use lursystem::models::Value;
use lursystem::reply::Reply;
use lursystem::time::Timestamp;

fn detail_page(assignee_html: &str, reporter_html: &str, history_html: &str) -> String {
    format!(
        r#"<!doctype html>
<html lang="sv">
<head>
<meta charset="utf-8">
<meta name="viewport" content="width=device-width, initial-scale=1">
<title>Ärende #{case_id} — Lursystem</title>
<style>{css}</style>
</head>
<body>
<header class="lur-op-header">
  <div class="lur-op-shell">
    <span class="lur-op-brand">Lursystem · Operatörsgränssnitt</span>
    <span class="lur-op-actor">Inloggad som <strong>{actor_email}</strong>
      · <a href="/admin/triage">Triage</a>
      · <a href="/admin">Adminpanel</a>
      · <a href="/admin/logout">Logga ut</a></span>
  </div>
</header>

<main class="lur-op-shell lur-op-detail">
  <div class="lur-detail-titlebar">
    <h1 class="lur-op-title">Ärende #{case_id}</h1>
    <span class="lur-status-pill lur-status-{case_status}">{case_status_label}</span>
  </div>

  <section class="lur-section">
    <h2>Metadata</h2>
    <dl class="lur-dl">
      <dt>Rapport</dt><dd>#{report_id}</dd>
      <dt>Allvarlighetsgrad</dt><dd>{severity_label}</dd>
      <dt>Kanal</dt><dd>{channel_label}</dd>
      <dt>Inlämnad</dt><dd>{submitted_at}</dd>
      <dt>Öppnad</dt><dd>{opened_at}</dd>
      <dt>Tilldelad</dt><dd>{assignee_html}</dd>
    </dl>
  </section>

  <section class="lur-section">
    <h2>Reportern</h2>
    {reporter_html}
  </section>

  <section class="lur-section">
    <h2>Sammanfattning</h2>
    <p class="lur-report-summary">{summary}</p>
  </section>

  <section class="lur-section">
    <h2>Beskrivning</h2>
    <pre class="lur-report-body">{body}</pre>
  </section>

  <section class="lur-section">
    <h2>Historik</h2>
    {history_html}
  </section>

  <section class="lur-section">
    <h2>Åtgärder</h2>
    <p class="lur-muted">Statusändringar, anteckningar och tilldelningar — kommande
    funktion (Phase 3c).</p>
  </section>
</main>
</body>
</html>
"#,
        case_id = 21,
        css = operator_css(),
        actor_email = "lead@example.com",
        case_status = "inv&lt;",
        case_status_label = "Okänd",
        report_id = 8,
        severity_label = "Kritisk",
        channel_label = "Personlig",
        submitted_at = "2026-05-11 09:30",
        opened_at = "2026-05-12 00:00",
        assignee_html = assignee_html,
        reporter_html = reporter_html,
        summary = "Bribes &amp; gifts",
        body = "line &lt;1&gt;\nline 2",
        history_html = history_html,
    )
}

fn missing_page() -> String {
    format!(
        r#"<!doctype html>
<html lang="sv">
<head>
<meta charset="utf-8">
<title>Ärende saknas — Lursystem</title>
<style>{css}</style>
</head>
<body>
<main class="lur-op-shell">
  <h1 class="lur-op-title">Ärende saknas</h1>
  <p class="lur-muted">Det finns inget ärende med den ID:n.</p>
  <p><a href="/admin/triage">← Tillbaka till triage</a></p>
</main>
</body>
</html>
"#,
        css = operator_css(),
    )
}

fn forbidden_page() -> String {
    format!(
        r#"<!doctype html>
<html lang="sv">
<head>
<meta charset="utf-8">
<title>Åtkomst nekad — Lursystem</title>
<style>{css}</style>
</head>
<body>
<main class="lur-op-shell">
  <h1 class="lur-op-title">Åtkomst nekad</h1>
  <p class="lur-muted">Det här ärendet är tilldelat någon annan.</p>
  <p><a href="/admin">← Tillbaka</a></p>
</main>
</body>
</html>
"#,
        css = operator_css(),
    )
}

fn history_item(action_label: &str, actor: &str, when: &str, note_html: &str) -> String {
    format!(
        r#"<li class="lur-history-item">
  <div class="lur-history-head">
    <span class="lur-history-action">{action_label}</span>
    <span class="lur-history-meta">{actor} · {when}</span>
  </div>
  {note_html}
</li>"#,
        action_label = action_label,
        actor = actor,
        when = when,
        note_html = note_html,
    )
}

const NO_ASSIGNEE: &str = r#"<em class="lur-muted">Ingen tilldelad</em>"#;

const EMAIL_GIVEN: &str = r#"<div class="lur-reporter-state">
  <span class="lur-pill lur-pill-warn">E-post angiven</span>
  <p>Reporterns e-post finns lagrad men visas inte här. För att
  läsa identiteten krävs en formell identitetsupplysning som
  loggas i ärendet (kommande funktion — Phase 4).</p>
</div>"#;

const ANONYMOUS: &str = r#"<div class="lur-reporter-state">
  <span class="lur-pill lur-pill-neutral">Anonym rapport</span>
  <p>Reportern har inte angett någon e-postadress. Det finns
  ingen identitet att läsa.</p>
</div>"#;

const NO_HISTORY: &str = r#"<p class="lur-muted">Inga åtgärder registrerade.</p>"#;

const HISTORY_OPEN: &str = r#"<ul class="lur-history">"#;

fn case(assignee_id: Option<i64>) -> CaseRow {
    CaseRow {
        id: 21,
        report_id: 8,
        assignee_id,
        status: "inv<".to_string(),
        opened_at: Timestamp::new(1778544000, 0).unwrap(),
        closed_at: None,
    }
}

fn report(has_email: bool) -> ReportRow {
    ReportRow {
        summary: "Bribes & gifts".to_string(),
        body: "line <1>\nline 2".to_string(),
        severity: "critical".to_string(),
        channel: "in_person".to_string(),
        has_email,
        submitted_at: Timestamp::new(1778491859, 999_999_999).unwrap(),
    }
}

fn action(action_type: &str, note: &str) -> ActionRow {
    ActionRow {
        action_type: action_type.to_string(),
        note: note.to_string(),
        created_at: Timestamp::new(1778491859, 0).unwrap(),
        actor_email: "a<b>@example.com".to_string(),
    }
}

fn user(role: Role) -> Identity {
    Identity {
        user_id: 5,
        email: "lead@example.com".to_string(),
        role,
        is_active: true,
    }
}

fn page(reply: Reply) -> (u16, String) {
    match reply {
        Reply::Html { status, body } => (status, body),
        Reply::Redirect { .. } => panic!("a redirect"),
    }
}

#[test]
fn case_page_of_an_anonymous_report() {
    assert_eq!(
        render_detail("lead@example.com", &case(None), &report(false), None, &[]),
        detail_page(NO_ASSIGNEE, ANONYMOUS, NO_HISTORY)
    );
}

#[test]
fn case_page_with_history() {
    let actions = [action("note_added", "x < y"), action("case_opened", "")];
    let history = format!(
        "{}{}{}</ul>",
        HISTORY_OPEN,
        history_item(
            "Anteckning tillagd",
            "a&lt;b&gt;@example.com",
            "2026-05-11 09:30",
            &format!(
                r#"<p class="lur-history-note">{}</p>"#,
                "x &lt; y"
            )
        ),
        history_item("Ärende öppnat", "a&lt;b&gt;@example.com", "2026-05-11 09:30", ""),
    );
    let expected = detail_page(
        &format!(
            r#"<strong>{}</strong>"#,
            "h&amp;r@example.com"
        ),
        EMAIL_GIVEN,
        &history,
    );
    let reply = case_detail_reply(
        "lead@example.com",
        &case(Some(5)),
        &report(true),
        Some("h&r@example.com"),
        &actions,
    );
    assert_eq!(page(reply), (200, expected));
}

#[test]
fn case_page_never_names_the_reporter() {
    // The row that the page is made from has no place for an address: with and
    // without one the pages differ in the one line that says so.
    let with = render_detail("l", &case(None), &report(true), None, &[]);
    let without = render_detail("l", &case(None), &report(false), None, &[]);
    assert_ne!(with, without);
    assert_eq!(with.replace(EMAIL_GIVEN, ANONYMOUS), without);
}

#[test]
fn case_that_is_missing() {
    assert_eq!(page(not_found()), (404, missing_page()));
    match case_access(&user(Role::Administrator), None) {
        CaseAccess::Answer(reply) => assert_eq!(page(reply), (404, missing_page())),
        CaseAccess::LoadDetail { .. } => panic!("no case"),
    }
}

#[test]
fn case_of_someone_else() {
    assert_eq!(page(forbidden()), (403, forbidden_page()));
    for role in [Role::Staff, Role::Supervisor] {
        for assignee in [None, Some(6)] {
            match case_access(&user(role), Some(case(assignee))) {
                CaseAccess::Answer(reply) => assert_eq!(page(reply), (403, forbidden_page())),
                CaseAccess::LoadDetail { .. } => panic!("let in"),
            }
        }
    }
}

#[test]
fn case_that_may_be_seen() {
    for role in [Role::Staff, Role::Supervisor, Role::Administrator, Role::Developer] {
        assert!(matches!(
            case_access(&user(role), Some(case(Some(5)))),
            CaseAccess::LoadDetail { .. }
        ));
    }
    for role in [Role::Administrator, Role::Developer] {
        for assignee in [None, Some(6)] {
            assert!(matches!(
                case_access(&user(role), Some(case(assignee))),
                CaseAccess::LoadDetail { .. }
            ));
        }
    }
}

#[test]
fn case_page_is_for_staff() {
    match show_case_detail(Some(user(Role::User))) {
        CaseDetail::Answer(Reply::Redirect { location }) => assert_eq!(location, "/admin"),
        _ => panic!("let in"),
    }
    match show_case_detail(None) {
        CaseDetail::Answer(Reply::Redirect { location }) => assert_eq!(location, "/admin/login"),
        _ => panic!("let in"),
    }
    match show_case_detail(Some(user(Role::Staff))) {
        CaseDetail::LoadCase(actor) => assert_eq!(actor.user_id, 5),
        CaseDetail::Answer(_) => panic!("kept out"),
    }
}

#[test]
fn case_history_statement() {
    let query = history_query(21);
    assert_eq!(
        query.sql,
        "SELECT ca.action_type, ca.note, ca.created_at, \
         COALESCE(u.email, '<deleted user>') AS actor_email \
         FROM case_actions ca LEFT JOIN rustio_users u ON u.id = ca.actor_id \
         WHERE ca.case_id = $1 ORDER BY ca.created_at DESC"
    );
    assert!(matches!(query.binds[..], [Value::I64(21)]));
}
