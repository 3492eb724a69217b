//! The fixed text of the case pages, in pieces that each reach to the value that
//! follows it.

use vstd::prelude::*;

verus! {

// The page of a case.

pub const PAGE_TO_CASE_ID: &'static str = r#"<!doctype html>
<html lang="sv">
<head>
<meta charset="utf-8">
<meta name="viewport" content="width=device-width, initial-scale=1">
<title>Ärende #"#;

pub const PAGE_TO_CSS: &'static str = r#" — Lursystem</title>
<style>"#;

pub const PAGE_TO_ACTOR: &'static str = r#"</style>
</head>
<body>
<header class="lur-op-header">
  <div class="lur-op-shell">
    <span class="lur-op-brand">Lursystem · Operatörsgränssnitt</span>
    <span class="lur-op-actor">Inloggad som <strong>"#;

pub const PAGE_TO_CASE_ID_2: &'static str = r#"</strong>
      · <a href="/admin/triage">Triage</a>
      · <a href="/admin">Adminpanel</a>
      · <a href="/admin/logout">Logga ut</a></span>
  </div>
</header>

<main class="lur-op-shell lur-op-detail">
  <div class="lur-detail-titlebar">
    <h1 class="lur-op-title">Ärende #"#;

pub const PAGE_TO_STATUS: &'static str = r#"</h1>
    <span class="lur-status-pill lur-status-"#;

pub const PAGE_TO_STATUS_LABEL: &'static str = r#"">"#;

pub const PAGE_TO_REPORT_ID: &'static str = r#"</span>
  </div>

  <section class="lur-section">
    <h2>Metadata</h2>
    <dl class="lur-dl">
      <dt>Rapport</dt><dd>#"#;

pub const PAGE_TO_SEVERITY: &'static str = r#"</dd>
      <dt>Allvarlighetsgrad</dt><dd>"#;

pub const PAGE_TO_CHANNEL: &'static str = r#"</dd>
      <dt>Kanal</dt><dd>"#;

pub const PAGE_TO_SUBMITTED_AT: &'static str = r#"</dd>
      <dt>Inlämnad</dt><dd>"#;

pub const PAGE_TO_OPENED_AT: &'static str = r#"</dd>
      <dt>Öppnad</dt><dd>"#;

pub const PAGE_TO_ASSIGNEE: &'static str = r#"</dd>
      <dt>Tilldelad</dt><dd>"#;

pub const PAGE_TO_REPORTER: &'static str = r#"</dd>
    </dl>
  </section>

  <section class="lur-section">
    <h2>Reportern</h2>
    "#;

pub const PAGE_TO_SUMMARY: &'static str = r#"
  </section>

  <section class="lur-section">
    <h2>Sammanfattning</h2>
    <p class="lur-report-summary">"#;

pub const PAGE_TO_BODY: &'static str = r#"</p>
  </section>

  <section class="lur-section">
    <h2>Beskrivning</h2>
    <pre class="lur-report-body">"#;

pub const PAGE_TO_HISTORY: &'static str = r#"</pre>
  </section>

  <section class="lur-section">
    <h2>Historik</h2>
    "#;

pub const PAGE_END: &'static str = r#"
  </section>

  <section class="lur-section">
    <h2>Åtgärder</h2>
    <p class="lur-muted">Statusändringar, anteckningar och tilldelningar — kommande
    funktion (Phase 3c).</p>
  </section>
</main>
</body>
</html>
"#;

// Who the case is assigned to.

pub const ASSIGNEE_TO_EMAIL: &'static str = "<strong>";

pub const ASSIGNEE_END: &'static str = "</strong>";

pub const NO_ASSIGNEE: &'static str = r#"<em class="lur-muted">Ingen tilldelad</em>"#;

// What is known of the reporter's identity.

pub const EMAIL_GIVEN: &'static str = r#"<div class="lur-reporter-state">
  <span class="lur-pill lur-pill-warn">E-post angiven</span>
  <p>Reporterns e-post finns lagrad men visas inte här. För att
  läsa identiteten krävs en formell identitetsupplysning som
  loggas i ärendet (kommande funktion — Phase 4).</p>
</div>"#;

pub const ANONYMOUS: &'static str = r#"<div class="lur-reporter-state">
  <span class="lur-pill lur-pill-neutral">Anonym rapport</span>
  <p>Reportern har inte angett någon e-postadress. Det finns
  ingen identitet att läsa.</p>
</div>"#;

// The history.

pub const NO_HISTORY: &'static str = r#"<p class="lur-muted">Inga åtgärder registrerade.</p>"#;

pub const HISTORY_OPEN: &'static str = r#"<ul class="lur-history">"#;

pub const ITEM_TO_ACTION: &'static str = r#"<li class="lur-history-item">
  <div class="lur-history-head">
    <span class="lur-history-action">"#;

pub const ITEM_TO_ACTOR: &'static str = r#"</span>
    <span class="lur-history-meta">"#;

pub const ITEM_TO_WHEN: &'static str = " · ";

pub const ITEM_TO_NOTE: &'static str = r#"</span>
  </div>
  "#;

pub const ITEM_END: &'static str = r#"
</li>"#;

pub const NOTE_TO_TEXT: &'static str = r#"<p class="lur-history-note">"#;

pub const NOTE_END: &'static str = "</p>";

pub const HISTORY_END: &'static str = "</ul>";

// The page for a case that does not exist.

pub const NOT_FOUND_TO_CSS: &'static str = r#"<!doctype html>
<html lang="sv">
<head>
<meta charset="utf-8">
<title>Ärende saknas — Lursystem</title>
<style>"#;

pub const NOT_FOUND_END: &'static str = r#"</style>
</head>
<body>
<main class="lur-op-shell">
  <h1 class="lur-op-title">Ärende saknas</h1>
  <p class="lur-muted">Det finns inget ärende med den ID:n.</p>
  <p><a href="/admin/triage">← Tillbaka till triage</a></p>
</main>
</body>
</html>
"#;

// The page for a case that is assigned to someone else.

pub const FORBIDDEN_TO_CSS: &'static str = r#"<!doctype html>
<html lang="sv">
<head>
<meta charset="utf-8">
<title>Åtkomst nekad — Lursystem</title>
<style>"#;

pub const FORBIDDEN_END: &'static str = r#"</style>
</head>
<body>
<main class="lur-op-shell">
  <h1 class="lur-op-title">Åtkomst nekad</h1>
  <p class="lur-muted">Det här ärendet är tilldelat någon annan.</p>
  <p><a href="/admin">← Tillbaka</a></p>
</main>
</body>
</html>
"#;

/// The style sheet of the page.
pub const OPERATOR_CSS: &'static str = r#"
:root { color-scheme: light; }
* { box-sizing: border-box; }
body {
  margin: 0;
  font-family: -apple-system, BlinkMacSystemFont, "Segoe UI", Roboto, sans-serif;
  background: #f4f6f7;
  color: #1c2326;
  font-size: 14px;
  line-height: 1.5;
}
.lur-op-header {
  background: #0e1f1e;
  color: #d9e3e1;
  border-bottom: 1px solid #0a1716;
}
.lur-op-shell {
  max-width: 1100px;
  margin: 0 auto;
  padding: 14px 28px;
  display: flex;
  align-items: center;
  justify-content: space-between;
  font-size: 13px;
}
.lur-op-brand {
  font-weight: 600;
  letter-spacing: 0.02em;
}
.lur-op-actor a {
  color: #6dd6c4;
  text-decoration: none;
  margin-left: 4px;
}
.lur-op-actor a:hover { text-decoration: underline; }
main.lur-op-shell {
  display: block;
  background: transparent;
  padding-top: 32px;
  padding-bottom: 96px;
}
main.lur-op-detail { max-width: 880px; }
.lur-detail-titlebar {
  display: flex;
  align-items: center;
  gap: 16px;
  margin: 0 0 32px;
}
.lur-op-title {
  font-size: 26px;
  font-weight: 600;
  margin: 0;
  letter-spacing: -0.01em;
}
.lur-section {
  background: #ffffff;
  border: 1px solid #dde3e6;
  padding: 24px 28px;
  margin-bottom: 16px;
}
.lur-section h2 {
  font-size: 13px;
  text-transform: uppercase;
  letter-spacing: 0.06em;
  color: #5d6a72;
  font-weight: 600;
  margin: 0 0 16px;
}
.lur-dl {
  display: grid;
  grid-template-columns: 200px 1fr;
  gap: 8px 16px;
  margin: 0;
}
.lur-dl dt {
  color: #5d6a72;
  font-size: 13px;
}
.lur-dl dd {
  margin: 0;
  font-weight: 500;
}
.lur-muted {
  color: #5d6a72;
}
.lur-reporter-state p {
  margin: 12px 0 0;
  font-size: 13px;
  color: #5d6a72;
  max-width: 580px;
}
.lur-pill {
  display: inline-block;
  font-size: 12px;
  font-weight: 600;
  padding: 3px 10px;
  border-radius: 10px;
}
.lur-pill-neutral { background: #eef2f3; color: #5d6a72; }
.lur-pill-warn    { background: #fcf6e3; color: #6d5108; }
.lur-status-pill {
  display: inline-block;
  font-size: 12px;
  font-weight: 600;
  padding: 4px 14px;
  border-radius: 12px;
}
.lur-status-intake        { background: #eef2f3; color: #5d6a72; }
.lur-status-triage        { background: #e0eef9; color: #1c4a78; }
.lur-status-investigating { background: #fcf6e3; color: #6d5108; }
.lur-status-resolved      { background: #ecf6f3; color: #0a6e62; }
.lur-status-archived      { background: #eaeef0; color: #444b50; }
.lur-report-summary {
  margin: 0;
  font-weight: 500;
  font-size: 15px;
}
.lur-report-body {
  margin: 0;
  font-family: inherit;
  white-space: pre-wrap;
  word-wrap: break-word;
  font-size: 14px;
  line-height: 1.6;
  background: #fafbfc;
  padding: 16px;
  border-radius: 2px;
  max-height: 480px;
  overflow: auto;
}
.lur-history { list-style: none; margin: 0; padding: 0; }
.lur-history-item {
  padding: 14px 0;
  border-bottom: 1px solid #eef2f3;
}
.lur-history-item:last-child { border-bottom: 0; }
.lur-history-head {
  display: flex;
  align-items: baseline;
  gap: 12px;
}
.lur-history-action {
  font-weight: 600;
  font-size: 14px;
}
.lur-history-meta {
  color: #5d6a72;
  font-size: 12px;
}
.lur-history-note {
  margin: 6px 0 0;
  color: #1c2326;
  font-size: 13px;
}
a { color: #0a6e62; }
"#;

}
