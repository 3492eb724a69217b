use lursystem::auth_helper::{Identity, Role};
use lursystem::handlers::triage::{
    csrf_token_from, do_open_case, id_from_path, operator_css, render_queue, show_triage_queue,
    triage_queue_reply, OpenCaseAction, OpenCaseEvent, OpenCaseState, QueueRow, TriageQueue,
};
use lursystem::models::Value;
use lursystem::reply::Reply;
use lursystem::time::Timestamp;

fn queue_page(actor_email_escaped: &str, table_html: &str) -> String {
    format!(
        r#"<!doctype html>
<html lang="sv">
<head>
<meta charset="utf-8">
<meta name="viewport" content="width=device-width, initial-scale=1">
<title>Triagekö — Lursystem</title>
<style>{css}</style>
</head>
<body>
<header class="lur-op-header">
  <div class="lur-op-shell">
    <span class="lur-op-brand">Lursystem · Operatörsgränssnitt</span>
    <span class="lur-op-actor">Inloggad som <strong>{actor_email_escaped}</strong> · <a href="/admin">Adminpanel</a> · <a href="/admin/logout">Logga ut</a></span>
  </div>
</header>

<main class="lur-op-shell">
  <h1 class="lur-op-title">Triagekö</h1>
  <p class="lur-op-intro">
    Rapporter som väntar på första bedömning. Öppna ett ärende
    för att starta utredningsflödet — rapportens status flyttas
    från <em>Mottagen</em> till <em>Under granskning</em> och
    ett <code>case_action</code>-spår skapas.
  </p>

  {table_html}
</main>
</body>
</html>
"#,
        actor_email_escaped = actor_email_escaped,
        table_html = table_html,
        css = operator_css(),
    )
}

fn queue_row(id: i64, date: &str, sev: &str, sev_label: &str, channel_label: &str, summary: &str, csrf: &str) -> String {
    format!(
        r#"<tr>
  <td class="lur-mono">#{id}</td>
  <td>{date}</td>
  <td><span class="lur-sev-{sev}">{sev_label}</span></td>
  <td>{channel_label}</td>
  <td>{summary}</td>
  <td class="lur-col-action">
    <form method="post" action="/admin/triage/{id}/open-case">
      <input type="hidden" name="_csrf" value="{csrf}">
      <button type="submit">Öppna ärende</button>
    </form>
  </td>
</tr>
"#,
        id = id,
        date = date,
        sev = sev,
        sev_label = sev_label,
        channel_label = channel_label,
        summary = summary,
        csrf = csrf,
    )
}

const EMPTY: &str = r#"<p class="lur-empty">Inga rapporter i kö.</p>"#;

const TABLE: &str = r#"<table class="lur-queue">
<thead>
<tr>
  <th>ID</th>
  <th>Inlämnad</th>
  <th>Allvarlighetsgrad</th>
  <th>Kanal</th>
  <th>Sammanfattning</th>
  <th class="lur-col-action">Åtgärd</th>
</tr>
</thead>
<tbody>
"#;

fn row(id: i64, summary: &str) -> QueueRow {
    QueueRow {
        id,
        summary: summary.to_string(),
        severity: "high".to_string(),
        channel: "phone".to_string(),
        submitted_at: Timestamp::new(1778491859, 0).unwrap(),
    }
}

fn lead() -> Identity {
    Identity {
        user_id: 3,
        email: "lead@example.com".to_string(),
        role: Role::Administrator,
        is_active: true,
    }
}

fn location(reply: Reply) -> String {
    match reply {
        Reply::Html { .. } => panic!("a page"),
        Reply::Redirect { location } => location,
    }
}

#[test]
fn queue_without_reports() {
    assert_eq!(
        render_queue("token", "lead@example.com", &[]),
        queue_page("lead@example.com", EMPTY)
    );
}

#[test]
fn queue_with_reports() {
    let rows = [row(1, "Kickbacks <in> purchasing"), row(2, "Second")];
    let table = format!(
        "{}{}{}</tbody>\n</table>",
        TABLE,
        queue_row(
            1,
            "2026-05-11 09:30",
            "high",
            "Hög",
            "Telefon",
            "Kickbacks &lt;in&gt; purchasing",
            "t&amp;k"
        ),
        queue_row(2, "2026-05-11 09:30", "high", "Hög", "Telefon", "Second", "t&amp;k"),
    );
    assert_eq!(
        render_queue("t&k", "lead@example.com", &rows),
        queue_page("lead@example.com", &table)
    );
    match triage_queue_reply("t&k", "lead@example.com", &rows) {
        Reply::Html { status, body } => {
            assert_eq!(status, 200);
            assert_eq!(body, queue_page("lead@example.com", &table));
        }
        Reply::Redirect { .. } => panic!("a redirect"),
    }
}

#[test]
fn queue_cuts_long_summaries() {
    let fits = "å".repeat(80);
    let long = "å".repeat(81);
    let page = render_queue("t", "l", &[row(1, &fits)]);
    assert!(page.contains(&fits));
    assert!(!page.contains('…'));
    let page = render_queue("t", "l", &[row(1, &long)]);
    assert!(page.contains(&format!("{}…", "å".repeat(77))));
    assert!(!page.contains(&"å".repeat(78)));
}

#[test]
fn queue_is_for_leads() {
    match show_triage_queue(Some(lead())) {
        TriageQueue::LoadQueue { actor, query } => {
            assert_eq!(actor.email, "lead@example.com");
            assert_eq!(
                query.sql,
                "SELECT id, summary, severity, channel, submitted_at FROM reports \
                 WHERE status = $1 ORDER BY submitted_at ASC"
            );
            assert_eq!(query.binds.len(), 1);
            assert!(matches!(&query.binds[0], Value::Text(text) if text == "intake"));
        }
        TriageQueue::Answer(_) => panic!("kept out"),
    }
    for role in [Role::User, Role::Staff, Role::Supervisor] {
        match show_triage_queue(Some(Identity { role, ..lead() })) {
            TriageQueue::LoadQueue { .. } => panic!("let in"),
            TriageQueue::Answer(reply) => assert_eq!(location(reply), "/admin"),
        }
    }
    match show_triage_queue(None) {
        TriageQueue::LoadQueue { .. } => panic!("let in"),
        TriageQueue::Answer(reply) => assert_eq!(location(reply), "/admin/login"),
    }
}

#[test]
fn csrf_token_defaults_to_empty() {
    assert_eq!(csrf_token_from(Some("abc".to_string())), "abc");
    assert_eq!(csrf_token_from(None), "");
}

#[test]
fn path_ids() {
    assert_eq!(id_from_path(Some("42")), 42);
    assert_eq!(id_from_path(Some("+42")), 42);
    assert_eq!(id_from_path(Some("-1")), -1);
    assert_eq!(id_from_path(Some("9223372036854775807")), i64::MAX);
    assert_eq!(id_from_path(Some("9223372036854775808")), 0);
    assert_eq!(id_from_path(Some("4x")), 0);
    assert_eq!(id_from_path(Some("")), 0);
    assert_eq!(id_from_path(None), 0);
}

fn run(report_id: i64, events: Vec<OpenCaseEvent>) -> Vec<OpenCaseAction> {
    let mut state = OpenCaseState::Start;
    let mut actions = Vec::new();
    for event in events {
        let (next, action) = do_open_case(report_id, state, event);
        state = next;
        actions.push(action);
    }
    actions
}

fn status(text: &str) -> OpenCaseEvent {
    OpenCaseEvent::ReportStatus(Some(text.to_string()))
}

#[test]
fn opening_a_case_writes_everything() {
    let actions = run(
        11,
        vec![
            OpenCaseEvent::Session(Some(lead())),
            status("intake"),
            OpenCaseEvent::CaseWritten(90),
            OpenCaseEvent::ReportMoved,
            OpenCaseEvent::HistoryWritten,
            OpenCaseEvent::Committed,
        ],
    );
    let mut actions = actions.into_iter();
    assert!(matches!(
        actions.next(),
        Some(OpenCaseAction::ReadReport { report_id: 11 })
    ));
    match actions.next() {
        Some(OpenCaseAction::WriteCase(case)) => {
            assert_eq!(case.report_id, 11);
            assert_eq!(case.status, "triage");
        }
        _ => panic!("no case"),
    }
    match actions.next() {
        Some(OpenCaseAction::MoveReport { report_id, status }) => {
            assert_eq!(report_id, 11);
            assert_eq!(status, "triage");
        }
        _ => panic!("the report stays"),
    }
    match actions.next() {
        Some(OpenCaseAction::WriteHistory(entry)) => {
            assert_eq!(entry.case_id, 90);
            assert_eq!(entry.actor_id, 3);
            assert_eq!(entry.action_type, "case_opened");
            assert_eq!(entry.note, "Opened from report #11");
        }
        _ => panic!("no entry"),
    }
    assert!(matches!(actions.next(), Some(OpenCaseAction::Commit)));
    match actions.next() {
        Some(OpenCaseAction::Answer(reply)) => assert_eq!(location(reply), "/admin/triage"),
        _ => panic!("no answer"),
    }
    assert!(actions.next().is_none());
}

#[test]
fn opening_a_case_is_for_leads() {
    let staff = Identity {
        role: Role::Staff,
        ..lead()
    };
    match run(11, vec![OpenCaseEvent::Session(Some(staff))]).remove(0) {
        OpenCaseAction::Answer(reply) => assert_eq!(location(reply), "/admin"),
        _ => panic!("let in"),
    }
}

#[test]
fn opening_a_case_for_an_unknown_report() {
    let events = vec![
        OpenCaseEvent::Session(Some(lead())),
        OpenCaseEvent::ReportStatus(None),
    ];
    match run(11, events).remove(1) {
        OpenCaseAction::Answer(reply) => {
            assert_eq!(location(reply), "/admin/triage?error=unknown")
        }
        _ => panic!("no answer"),
    }
}

#[test]
fn opening_a_case_a_second_time() {
    for text in ["triage", "investigating", "Intake", ""] {
        let events = vec![OpenCaseEvent::Session(Some(lead())), status(text)];
        match run(11, events).remove(1) {
            OpenCaseAction::Answer(reply) => {
                assert_eq!(location(reply), "/admin/triage?error=race")
            }
            _ => panic!("no answer"),
        }
    }
}

#[test]
fn opening_a_case_gives_up_on_events_out_of_order() {
    let events = vec![OpenCaseEvent::CaseWritten(1), OpenCaseEvent::Committed];
    for action in run(11, events) {
        assert!(matches!(action, OpenCaseAction::Fail(_)));
    }
}
