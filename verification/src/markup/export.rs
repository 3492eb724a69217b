//! The fixed text of the export page, and of the statements behind an export.

use vstd::prelude::*;

verus! {

// The statements.

pub const REPORT_COLUMNS: &'static str = "id, status, severity, channel, summary, body, submitted_at";

pub const REPORT_SOURCE: &'static str = "reports";

pub const CASE_COLUMNS: &'static str = "id, report_id, assignee_id, status, opened_at, closed_at";

pub const CASE_SOURCE: &'static str = "cases";

pub const CASE_ACTION_COLUMNS: &'static str = "ca.id, ca.case_id, ca.actor_id, COALESCE(u.email, '<deleted>') AS actor_email, ca.action_type, ca.note, ca.created_at, ca.correlation_id";

pub const CASE_ACTION_SOURCE: &'static str = "case_actions ca LEFT JOIN rustio_users u ON u.id = ca.actor_id";

pub const DISCLOSURE_COLUMNS: &'static str = "d.id, d.case_id, d.requested_by, COALESCE(u.email, '<deleted>') AS requested_by_email, d.reason, d.disclosed_at, d.correlation_id";

pub const DISCLOSURE_SOURCE: &'static str = "disclosures d LEFT JOIN rustio_users u ON u.id = d.requested_by";

// The page for a request that cannot be served, in pieces that each reach to the
// value that follows it.

pub const BAD_REQUEST_TO_MESSAGE: &'static str = r#"<!doctype html>
<html lang="sv"><head><meta charset="utf-8">
<title>Felaktig exportbegäran — Lursystem</title>
<style>
body { font-family: -apple-system, BlinkMacSystemFont, "Segoe UI", Roboto, sans-serif;
       background: #f4f6f7; color: #1c2326; margin: 0; padding: 40px; }
main { max-width: 640px; margin: 0 auto; background: #fff; border: 1px solid #dde3e6;
       padding: 28px 32px; }
h1 { font-size: 22px; margin: 0 0 16px; }
p  { font-size: 14px; line-height: 1.6; color: #3a464d; }
a  { color: #0a6e62; }
</style></head>
<body>
<main>
<h1>Felaktig exportbegäran</h1>
<p>"#;

pub const BAD_REQUEST_END: &'static str = r#"</p>
<p><a href="/admin/audit">← Tillbaka till granskningsloggen</a></p>
</main>
</body></html>"#;

// What is wrong with a request.

pub const INVALID_FROM: &'static str = "Saknar eller ogiltigt 'from'-datum (förväntat YYYY-MM-DD).";

pub const INVALID_TO: &'static str = "Saknar eller ogiltigt 'to'-datum (förväntat YYYY-MM-DD).";

pub const TO_BEFORE_FROM: &'static str = "'to'-datumet måste vara samma eller efter 'from'.";

pub const TOO_WIDE: &'static str = "Datumintervallet är för stort. Max omkring 14 månader per export.";

pub const NO_NEXT_DAY: &'static str = "to-datumet är otillräckligt för att räkna ut nästa dag";

pub const NO_SECRET: &'static str = "RUSTIO_SECRET_KEY must be set for compliance export signing";

pub const SHORT_SECRET: &'static str = "RUSTIO_SECRET_KEY too short (<32 bytes); refusing to sign export";

}
