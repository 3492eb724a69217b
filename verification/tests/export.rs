use lursystem::auth_helper::{Identity, Role};
use lursystem::handlers::export::{
    bad_request, content_disposition, do_export, export_payload, export_plan, export_query, html_escape,
    payload_at, seal, sign, signing_key, CaseActionRow, CaseRow, DisclosureRow, ExportPlan,
    ExportRequest, ExportRows, ReportRow,
};
use lursystem::models::Value;
use lursystem::reply::{Fault, Reply};
use lursystem::statement::Statement;
use lursystem::time::Timestamp;

fn bad_request_page(message: &str) -> String {
    format!(
        r#"<!doctype html>
<html lang="sv"><head><meta charset="utf-8">
<title>Felaktig exportbegäran — Lursystem</title>
<style>
body {{ font-family: -apple-system, BlinkMacSystemFont, "Segoe UI", Roboto, sans-serif;
       background: #f4f6f7; color: #1c2326; margin: 0; padding: 40px; }}
main {{ max-width: 640px; margin: 0 auto; background: #fff; border: 1px solid #dde3e6;
       padding: 28px 32px; }}
h1 {{ font-size: 22px; margin: 0 0 16px; }}
p  {{ font-size: 14px; line-height: 1.6; color: #3a464d; }}
a  {{ color: #0a6e62; }}
</style></head>
<body>
<main>
<h1>Felaktig exportbegäran</h1>
<p>{}</p>
<p><a href="/admin/audit">← Tillbaka till granskningsloggen</a></p>
</main>
</body></html>"#,
        message,
    )
}

const BAD_FROM: &str = "Saknar eller ogiltigt &#39;from&#39;-datum (förväntat YYYY-MM-DD).";

const BAD_TO: &str = "Saknar eller ogiltigt &#39;to&#39;-datum (förväntat YYYY-MM-DD).";

const REVERSED: &str = "&#39;to&#39;-datumet måste vara samma eller efter &#39;from&#39;.";

const TOO_WIDE: &str = "Datumintervallet är för stort. Max omkring 14 månader per export.";

fn auditor() -> Identity {
    Identity {
        user_id: 9,
        email: "auditor@example.com".to_string(),
        role: Role::Supervisor,
        is_active: true,
    }
}

fn at(secs: i64) -> Timestamp {
    Timestamp::new(secs, 0).unwrap()
}

fn request(query: &str) -> ExportRequest {
    match do_export(Some(auditor()), query) {
        ExportPlan::LoadRows(request) => request,
        _ => panic!("refused: {}", query),
    }
}

fn refused(query: &str) -> String {
    match do_export(Some(auditor()), query) {
        ExportPlan::Answer(Reply::Html { status, body }) => {
            assert_eq!(status, 400);
            body
        }
        _ => panic!("not refused: {}", query),
    }
}

fn rows() -> ExportRows {
    ExportRows {
        reports: vec![ReportRow {
            id: 1,
            status: "triage".to_string(),
            severity: "low".to_string(),
            channel: "web".to_string(),
            summary: "Bribes".to_string(),
            body: Some("What happened".to_string()),
            submitted_at: at(1775001600),
        }],
        cases: vec![
            CaseRow {
                id: 2,
                report_id: 1,
                assignee_id: None,
                status: "triage".to_string(),
                opened_at: at(1775001601),
                closed_at: None,
            },
            CaseRow {
                id: 3,
                report_id: 1,
                assignee_id: Some(4),
                status: "resolved".to_string(),
                opened_at: at(1775001602),
                closed_at: Some(at(1775001700)),
            },
        ],
        case_actions: Vec::<CaseActionRow>::new(),
        disclosures: vec![DisclosureRow {
            id: 5,
            case_id: 2,
            requested_by: 7,
            requested_by_email: "lead@example.com".to_string(),
            reason: "asked to be called".to_string(),
            disclosed_at: at(1775001650),
            correlation_id: None,
        }],
    }
}

#[test]
fn export_error_page() {
    assert_eq!(html_escape("<'&'>\""), "&lt;&#39;&amp;&#39;&gt;&quot;");
    match bad_request("a < b") {
        Reply::Html { status, body } => {
            assert_eq!(status, 400);
            assert_eq!(body, bad_request_page("a &lt; b"));
        }
        Reply::Redirect { .. } => panic!("a redirect"),
    }
}

#[test]
fn export_is_for_auditors_and_above() {
    let query = "from=2026-04-01&to=2026-06-30";
    for role in [Role::User, Role::Staff] {
        match do_export(Some(Identity { role, ..auditor() }), query) {
            ExportPlan::Answer(Reply::Redirect { location }) => assert_eq!(location, "/admin"),
            _ => panic!("let in"),
        }
    }
    for role in [Role::Supervisor, Role::Administrator, Role::Developer] {
        assert!(matches!(
            do_export(Some(Identity { role, ..auditor() }), query),
            ExportPlan::LoadRows(_)
        ));
    }
    match do_export(None, query) {
        ExportPlan::Answer(Reply::Redirect { location }) => assert_eq!(location, "/admin/login"),
        _ => panic!("let in"),
    }
}

#[test]
fn export_of_a_quarter() {
    let request = request("from=2026-04-01&to=2026-06-30");
    assert_eq!(request.actor.user_id, 9);
    assert_eq!(request.from_ts.unix_seconds(), 1775001600);
    assert_eq!(request.from_ts.subsec_nanos(), 0);
    assert_eq!(request.to_ts_exclusive.unix_seconds(), 1782864000);
    assert_eq!(
        content_disposition(&request),
        "attachment; filename=\"lursystem-audit-20260401-to-20260630.json\""
    );
}

#[test]
fn export_of_one_day() {
    let request = request("from=1970-01-01&to=1970-01-01");
    assert_eq!((request.from_day, request.to_day), (0, 0));
    assert_eq!(request.from_ts.unix_seconds(), 0);
    assert_eq!(request.to_ts_exclusive.unix_seconds(), 86400);
}

#[test]
fn export_ranges_that_adjoin() {
    let first = request("from=2026-01-01&to=2026-03-31");
    let second = request("from=2026-04-01&to=2026-06-30");
    assert_eq!(
        first.to_ts_exclusive.unix_seconds(),
        second.from_ts.unix_seconds()
    );
}

#[test]
fn export_dates_that_are_wrong() {
    assert_eq!(refused(""), bad_request_page(BAD_FROM));
    assert_eq!(refused("from=&to=2026-04-01"), bad_request_page(BAD_FROM));
    assert_eq!(refused("from=2026-02-30&to=x"), bad_request_page(BAD_FROM));
    assert_eq!(refused("from=2026-04-01"), bad_request_page(BAD_TO));
    assert_eq!(
        refused("from=2026-04-01&to=01-04-2026"),
        bad_request_page(BAD_TO)
    );
    assert_eq!(
        refused("from=2026-04-02&to=2026-04-01"),
        bad_request_page(REVERSED)
    );
}

#[test]
fn export_ranges_that_are_too_wide() {
    let widest = request("from=1970-01-01&to=1971-03-11");
    assert_eq!(widest.to_day, 434);
    assert_eq!(
        refused("from=1970-01-01&to=1971-03-12"),
        bad_request_page(TOO_WIDE)
    );
}

#[test]
fn export_to_the_end_of_time() {
    let last = chrono::NaiveDate::MAX.to_epoch_days();
    match export_plan(auditor(), Some(last), Some(last)) {
        ExportPlan::Fail(Fault::BadRequest(text)) => {
            assert_eq!(text, "to-datumet är otillräckligt för att räkna ut nästa dag")
        }
        _ => panic!("no fault"),
    }
    assert!(matches!(
        export_plan(auditor(), Some(last - 1), Some(last - 1)),
        ExportPlan::LoadRows(_)
    ));
}

#[test]
fn export_payload_of_some_rows() {
    let request = request("from=2026-04-01&to=2026-06-30");
    let payload = payload_at(&request, at(1783000000), Some("corr-1".to_string()), rows());
    assert_eq!(payload.v, 1);
    assert_eq!(payload.metadata.system, "lursystem");
    assert_eq!(payload.metadata.generated_at.unix_seconds(), 1783000000);
    assert_eq!(payload.metadata.generated_by, "auditor@example.com");
    assert_eq!(payload.metadata.generated_by_user_id, 9);
    assert_eq!(payload.metadata.range_from, "2026-04-01");
    assert_eq!(payload.metadata.range_to, "2026-06-30");
    assert_eq!(payload.metadata.correlation_id.as_deref(), Some("corr-1"));
    assert_eq!(payload.metadata.counts.reports, 1);
    assert_eq!(payload.metadata.counts.cases, 2);
    assert_eq!(payload.metadata.counts.case_actions, 0);
    assert_eq!(payload.metadata.counts.disclosures, 1);
    assert_eq!(payload.reports[0].summary, "Bribes");
    assert_eq!(payload.cases[1].assignee_id, Some(4));
    assert_eq!(payload.disclosures[0].reason, "asked to be called");
}

#[test]
fn export_payload_carries_the_time() {
    let request = request("from=2026-04-01&to=2026-06-30");
    let before = chrono::Utc::now().timestamp();
    let payload = export_payload(&request, None, rows());
    let after = chrono::Utc::now().timestamp();
    let made = payload.metadata.generated_at.unix_seconds();
    assert!(before <= made && made <= after);
    assert_eq!(payload.metadata.correlation_id, None);
}

#[test]
fn export_needs_a_secret() {
    match signing_key(None) {
        Err(Fault::Internal(text)) => assert_eq!(
            text,
            "RUSTIO_SECRET_KEY must be set for compliance export signing"
        ),
        _ => panic!("signed"),
    }
    match signing_key(Some("x".repeat(31))) {
        Err(Fault::Internal(text)) => assert_eq!(
            text,
            "RUSTIO_SECRET_KEY too short (<32 bytes); refusing to sign export"
        ),
        _ => panic!("signed"),
    }
    assert!(matches!(signing_key(Some("x".repeat(32))), Ok(key) if key == "x".repeat(32)));
    assert!(matches!(signing_key(Some("å".repeat(16))), Ok(_)));
}

#[test]
fn export_signature_of_a_known_message() {
    // HMAC-SHA256 with the key "key" of "The quick brown fox jumps over the lazy dog" is
    // f7bc83f430538424b13298e6aa6fb143ef4d59a14946175997479dbc2d1a3cd8.
    let signature = match sign("key", b"The quick brown fox jumps over the lazy dog") {
        Ok(signature) => signature,
        Err(_) => panic!("not signed"),
    };
    assert_eq!(signature.algorithm, "HMAC-SHA256");
    assert_eq!(signature.scope, "payload (compact serde_json encoding)");
    assert_eq!(signature.value, "97yD9DBThCSxMpjmqm+xQ+9NWaFJRhdZl0edvC0aPNg=");
}

#[test]
fn export_signature_tells_messages_apart() {
    let value = |key: &str, message: &[u8]| match sign(key, message) {
        Ok(signature) => signature.value,
        Err(_) => panic!("not signed"),
    };
    assert_eq!(value("k", b"payload"), value("k", b"payload"));
    assert_ne!(value("k", b"payload"), value("k", b"Payload"));
    assert_ne!(value("k", b"payload"), value("l", b"payload"));
}

#[test]
fn export_is_sealed_with_its_signature() {
    let request = request("from=2026-04-01&to=2026-06-30");
    let payload = payload_at(&request, at(1783000000), None, rows());
    let signed = match seal(payload, "key", b"The quick brown fox jumps over the lazy dog") {
        Ok(signed) => signed,
        Err(_) => panic!("not signed"),
    };
    assert_eq!(signed.payload.metadata.counts.cases, 2);
    assert_eq!(
        signed.signature.value,
        "97yD9DBThCSxMpjmqm+xQ+9NWaFJRhdZl0edvC0aPNg="
    );
}

#[test]
fn export_shows_bodies_to_leads_alone() {
    for (role, body) in [
        (Role::Supervisor, None),
        (Role::Administrator, Some("What happened")),
        (Role::Developer, Some("What happened")),
    ] {
        let plan = do_export(
            Some(Identity { role, ..auditor() }),
            "from=2026-04-01&to=2026-06-30",
        );
        let request = match plan {
            ExportPlan::LoadRows(request) => request,
            _ => panic!("refused"),
        };
        let payload = payload_at(&request, at(1783000000), None, rows());
        assert_eq!(payload.reports.len(), 1);
        assert_eq!(payload.reports[0].body.as_deref(), body);
        assert_eq!(payload.reports[0].written_body(), body.unwrap_or(""));
        assert_eq!(payload.reports[0].summary, "Bribes");
        assert_eq!(payload.reports[0].status, "triage");
        assert_eq!(payload.reports[0].submitted_at.unix_seconds(), 1775001600);
    }
}

#[test]
fn export_statements() {
    let query = export_query(&request("from=2026-04-01&to=2026-06-30"));
    let statement = |statement: &Statement, sql: &str| {
        assert_eq!(statement.sql, sql);
        assert_eq!(statement.binds.len(), 2);
        assert!(matches!(&statement.binds[0], Value::DateTime(t) if t.unix_seconds() == 1775001600));
        assert!(matches!(&statement.binds[1], Value::DateTime(t) if t.unix_seconds() == 1782864000));
    };
    statement(
        &query.reports,
        "SELECT id, status, severity, channel, summary, body, submitted_at FROM reports \
         WHERE submitted_at >= $1 AND submitted_at < $2 ORDER BY id ASC",
    );
    statement(
        &query.cases,
        "SELECT id, report_id, assignee_id, status, opened_at, closed_at FROM cases \
         WHERE opened_at >= $1 AND opened_at < $2 ORDER BY id ASC",
    );
    statement(
        &query.case_actions,
        "SELECT ca.id, ca.case_id, ca.actor_id, COALESCE(u.email, '<deleted>') AS actor_email, \
         ca.action_type, ca.note, ca.created_at, ca.correlation_id \
         FROM case_actions ca LEFT JOIN rustio_users u ON u.id = ca.actor_id \
         WHERE ca.created_at >= $1 AND ca.created_at < $2 ORDER BY ca.id ASC",
    );
    statement(
        &query.disclosures,
        "SELECT d.id, d.case_id, d.requested_by, COALESCE(u.email, '<deleted>') AS \
         requested_by_email, d.reason, d.disclosed_at, d.correlation_id \
         FROM disclosures d LEFT JOIN rustio_users u ON u.id = d.requested_by \
         WHERE d.disclosed_at >= $1 AND d.disclosed_at < $2 ORDER BY d.id ASC",
    );
}
