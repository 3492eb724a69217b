//! The fixed text of the triage queue, in pieces that each reach to the value that
//! follows it.

use vstd::prelude::*;

verus! {

// The page.

pub const PAGE_TO_CSS: &'static str = r#"<!doctype html>
<html lang="sv">
<head>
<meta charset="utf-8">
<meta name="viewport" content="width=device-width, initial-scale=1">
<title>Triagekö — Lursystem</title>
<style>"#;

pub const PAGE_TO_ACTOR: &'static str = r#"</style>
</head>
<body>
<header class="lur-op-header">
  <div class="lur-op-shell">
    <span class="lur-op-brand">Lursystem · Operatörsgränssnitt</span>
    <span class="lur-op-actor">Inloggad som <strong>"#;

pub const PAGE_TO_TABLE: &'static str = r#"</strong> · <a href="/admin">Adminpanel</a> · <a href="/admin/logout">Logga ut</a></span>
  </div>
</header>

<main class="lur-op-shell">
  <h1 class="lur-op-title">Triagekö</h1>
  <p class="lur-op-intro">
    Rapporter som väntar på första bedömning. Öppna ett ärende
    för att starta utredningsflödet — rapportens status flyttas
    från <em>Mottagen</em> till <em>Under granskning</em> och
    ett <code>case_action</code>-spår skapas.
  </p>

  "#;

pub const PAGE_END: &'static str = r#"
</main>
</body>
</html>
"#;

// The table of reports.

pub const EMPTY_QUEUE: &'static str = r#"<p class="lur-empty">Inga rapporter i kö.</p>"#;

pub const TABLE_OPEN: &'static str = r#"<table class="lur-queue">
<thead>
<tr>
  <th>ID</th>
  <th>Inlämnad</th>
  <th>Allvarlighetsgrad</th>
  <th>Kanal</th>
  <th>Sammanfattning</th>
  <th class="lur-col-action">Åtgärd</th>
</tr>
</thead>
<tbody>
"#;

pub const ROW_TO_ID: &'static str = r#"<tr>
  <td class="lur-mono">#"#;

pub const ROW_TO_DATE: &'static str = r#"</td>
  <td>"#;

pub const ROW_TO_SEVERITY_CLASS: &'static str = r#"</td>
  <td><span class="lur-sev-"#;

pub const ROW_TO_SEVERITY: &'static str = r#"">"#;

pub const ROW_TO_CHANNEL: &'static str = r#"</span></td>
  <td>"#;

pub const ROW_TO_SUMMARY: &'static str = r#"</td>
  <td>"#;

pub const ROW_TO_ID_2: &'static str = r#"</td>
  <td class="lur-col-action">
    <form method="post" action="/admin/triage/"#;

pub const ROW_TO_CSRF: &'static str = r#"/open-case">
      <input type="hidden" name="_csrf" value=""#;

pub const ROW_END: &'static str = r#"">
      <button type="submit">Öppna ärende</button>
    </form>
  </td>
</tr>
"#;

pub const TABLE_END: &'static str = r#"</tbody>
</table>"#;

/// The style sheet of the page.
pub const OPERATOR_CSS: &'static str = r#"
:root { color-scheme: light; }
* { box-sizing: border-box; }
body {
  margin: 0;
  font-family: -apple-system, BlinkMacSystemFont, "Segoe UI", Roboto, sans-serif;
  background: #f4f6f7;
  color: #1c2326;
  font-size: 14px;
  line-height: 1.5;
}
.lur-op-header {
  background: #0e1f1e;
  color: #d9e3e1;
  border-bottom: 1px solid #0a1716;
}
.lur-op-shell {
  max-width: 1100px;
  margin: 0 auto;
  padding: 14px 28px;
  display: flex;
  align-items: center;
  justify-content: space-between;
  font-size: 13px;
}
.lur-op-brand {
  font-weight: 600;
  letter-spacing: 0.02em;
}
.lur-op-actor a {
  color: #6dd6c4;
  text-decoration: none;
  margin-left: 4px;
}
.lur-op-actor a:hover { text-decoration: underline; }
main.lur-op-shell {
  display: block;
  background: transparent;
  padding-top: 32px;
  padding-bottom: 96px;
}
.lur-op-title {
  font-size: 26px;
  font-weight: 600;
  margin: 0 0 8px;
  letter-spacing: -0.01em;
}
.lur-op-intro {
  color: #5d6a72;
  margin: 0 0 24px;
  font-size: 14px;
  max-width: 640px;
}
.lur-op-intro em {
  font-style: normal;
  font-weight: 600;
  color: #1c2326;
}
.lur-op-intro code {
  font-family: "SF Mono", "JetBrains Mono", Consolas, monospace;
  font-size: 13px;
  background: #eaeef0;
  padding: 1px 6px;
  border-radius: 2px;
}
.lur-empty {
  background: #ffffff;
  border: 1px solid #dde3e6;
  padding: 32px;
  text-align: center;
  color: #5d6a72;
}
.lur-queue {
  width: 100%;
  border-collapse: collapse;
  background: #ffffff;
  border: 1px solid #dde3e6;
}
.lur-queue th,
.lur-queue td {
  padding: 12px 16px;
  text-align: left;
  vertical-align: top;
  border-bottom: 1px solid #eef2f3;
}
.lur-queue th {
  background: #fafbfc;
  font-size: 12px;
  font-weight: 600;
  text-transform: uppercase;
  letter-spacing: 0.04em;
  color: #5d6a72;
}
.lur-queue tbody tr:last-child td { border-bottom: 0; }
.lur-mono {
  font-family: "SF Mono", "JetBrains Mono", Consolas, monospace;
  color: #5d6a72;
}
.lur-col-action {
  width: 1%;
  white-space: nowrap;
}
.lur-col-action button {
  background: #0f8c7e;
  color: #ffffff;
  border: 0;
  padding: 8px 16px;
  font: inherit;
  font-size: 13px;
  font-weight: 600;
  cursor: pointer;
  border-radius: 2px;
}
.lur-col-action button:hover { background: #0a6e62; }
.lur-sev-low,
.lur-sev-medium,
.lur-sev-high,
.lur-sev-critical {
  display: inline-block;
  font-size: 12px;
  font-weight: 600;
  padding: 2px 8px;
  border-radius: 10px;
}
.lur-sev-low      { background: #eef2f3; color: #5d6a72; }
.lur-sev-medium   { background: #fcf6e3; color: #6d5108; }
.lur-sev-high     { background: #fde5d0; color: #7d3a14; }
.lur-sev-critical { background: #fde0de; color: #832723; }
"#;

}
