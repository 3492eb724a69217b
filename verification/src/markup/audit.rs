//! The fixed text of the audit log, in pieces that each reach to the value that
//! follows it.

use vstd::prelude::*;

verus! {

// The statements.

pub const LOG_COLUMNS: &'static str = "ca.id, ca.case_id, ca.action_type, ca.note, ca.created_at, ca.correlation_id, COALESCE(u.email, '<deleted>') AS actor_email, c.status AS case_status";

pub const LOG_SOURCE: &'static str = "case_actions ca LEFT JOIN rustio_users u ON u.id = ca.actor_id JOIN cases c ON c.id = ca.case_id ";

// The page.

pub const PAGE_TO_CSS: &'static str = r#"<!doctype html>
<html lang="sv">
<head>
<meta charset="utf-8">
<meta name="viewport" content="width=device-width, initial-scale=1">
<title>Granskningslogg — Lursystem</title>
<style>"#;

pub const PAGE_TO_ACTOR: &'static str = r#"</style>
</head>
<body>
<header class="lur-op-header">
  <div class="lur-op-shell">
    <span class="lur-op-brand">Lursystem · Granskningsläge</span>
    <span class="lur-op-actor">Inloggad som <strong>"#;

pub const PAGE_TO_TOTAL_LABEL: &'static str = r#"</strong>
      · <a href="/admin/triage">Triage</a>
      · <a href="/admin">Adminpanel</a>
      · <a href="/admin/logout">Logga ut</a></span>
  </div>
</header>

<main class="lur-op-shell lur-op-audit">
  <div class="lur-audit-titlebar">
    <h1 class="lur-op-title">Granskningslogg</h1>
    <span class="lur-audit-total">"#;

pub const PAGE_TO_CHIPS: &'static str = r#"</span>
  </div>
  <p class="lur-lede">Oåterkallelig kronologisk logg över varje
  åtgärd i ärendehanteringen. Filtrera nedan. Klicka på en
  korrelations-ID för att se alla händelser från samma HTTP-anrop.</p>

  "#;

pub const PAGE_TO_FILTER_FORM: &'static str = r#"

  <section class="lur-section">
    <h2>Filter</h2>
    "#;

pub const PAGE_TO_ROWS: &'static str = r#"
  </section>

  <section class="lur-section">
    <h2>Händelser</h2>
    "#;

pub const PAGE_TO_PAGINATION: &'static str = r#"
    "#;

pub const PAGE_END: &'static str = r#"
  </section>
</main>
</body>
</html>
"#;

// The row of chips, one for each filter that is set.

pub const CHIP_ROW_TO_CHIPS: &'static str = r#"<div class="lur-chip-row">"#;

pub const CHIP_ROW_END: &'static str = "</div>";

pub const CHIP_OPEN: &'static str = r#"<a class="lur-chip" href=""#;

pub const CORRELATION_CHIP_OPEN: &'static str = r#"<a class="lur-chip lur-chip-corr" href=""#;

pub const CHIP_TO_LABEL: &'static str = r#"">"#;

pub const CHIP_TO_VALUE: &'static str = ": <strong>";

pub const CHIP_TO_NUMBER: &'static str = ": <strong>#";

pub const CHIP_END: &'static str = "</strong> ✕</a>";

// The filter form.

pub const FORM_TO_ACTION_OPTIONS: &'static str = r#"<form method="get" action="/admin/audit" class="lur-filter-form">
  <div class="lur-filter-grid">
    <label>Händelsetyp
      <select name="action_type">
        "#;

pub const FORM_TO_CORRELATION: &'static str = r#"
      </select>
    </label>
    <label>Korrelation
      <input type="text" name="correlation" value=""#;

pub const FORM_TO_ACTOR: &'static str = r#"" placeholder="t.ex. 9f3e…">
    </label>
    <label>Användare (e-post)
      <input type="text" name="actor" value=""#;

pub const FORM_TO_CASE: &'static str = r#"" placeholder="t.ex. lead@…">
    </label>
    <label>Ärende #
      <input type="number" name="case" value=""#;

pub const FORM_TO_SINCE: &'static str = r#"" min="1">
    </label>
    <label>Från datum
      <input type="date" name="since" value=""#;

pub const FORM_END: &'static str = r#"">
    </label>
  </div>
  <div class="lur-filter-actions">
    <a href="/admin/audit" class="lur-cancel">Rensa alla</a>
    <button type="submit">Tillämpa filter</button>
  </div>
</form>
"#;

pub const OPTION_TO_VALUE: &'static str = r#"<option value=""#;

pub const OPTION_TO_SELECTED: &'static str = r#"""#;

pub const OPTION_TO_LABEL: &'static str = ">";

pub const OPTION_END: &'static str = "</option>";

// The table of entries.

pub const NO_ROWS: &'static str = r#"<p class="lur-muted">Inga händelser matchar filtret.</p>"#;

pub const TABLE_OPEN: &'static str = r#"<table class="lur-audit-table">
  <thead>
    <tr>
      <th class="lur-col-when">Tidpunkt</th>
      <th class="lur-col-type">Händelse</th>
      <th class="lur-col-actor">Användare</th>
      <th class="lur-col-case">Ärende</th>
      <th class="lur-col-corr">Korrelation</th>
      <th class="lur-col-note">Detalj</th>
    </tr>
  </thead>
  <tbody>
"#;

pub const TABLE_END: &'static str = r#"  </tbody>
</table>
"#;

pub const ROW_TO_CLASS: &'static str = r#"    <tr class=""#;

pub const ROW_TO_WHEN: &'static str = r#"">
      <td class="lur-col-when">"#;

pub const ROW_TO_ACTION: &'static str = r#"</td>
      <td class="lur-col-type">"#;

pub const ROW_TO_ACTOR_LINK: &'static str = r#"</td>
      <td class="lur-col-actor"><a href="/admin/audit?actor="#;

pub const ROW_TO_ACTOR_NAME: &'static str = r#"">"#;

pub const ROW_TO_CASE_ID: &'static str = r#"</a></td>
      <td class="lur-col-case"><a href="/admin/cases/"#;

pub const ROW_TO_CASE_ID_2: &'static str = r#"/work">#"#;

pub const ROW_TO_STATUS: &'static str = r#"</a>
        <span class="lur-case-status lur-status-"#;

pub const ROW_TO_STATUS_LABEL: &'static str = r#"">"#;

pub const ROW_TO_CORRELATION: &'static str = r#"</span></td>
      <td class="lur-col-corr">"#;

pub const ROW_TO_NOTE: &'static str = r#"</td>
      <td class="lur-col-note">"#;

pub const ROW_END: &'static str = r#"</td>
    </tr>
"#;

pub const CORRELATION_TO_ENCODED: &'static str = r#"<a href="/admin/audit?correlation="#;

pub const CORRELATION_TO_ID: &'static str = r#"" class="lur-corr" title=""#;

pub const CORRELATION_TO_TEXT: &'static str = r#"">"#;

pub const CORRELATION_END: &'static str = "</a>";

pub const NO_CORRELATION: &'static str = r#"<span class="lur-muted">—</span>"#;

// The pager.

pub const PAGER_TO_PREVIOUS: &'static str = r#"<nav class="lur-pager">
  "#;

pub const PAGER_TO_CURRENT: &'static str = r#"
  <span class="lur-pager-status">Sida "#;

pub const PAGER_TO_PAGES: &'static str = " av ";

pub const PAGER_TO_NEXT: &'static str = r#"</span>
  "#;

pub const PAGER_END: &'static str = r#"
</nav>
"#;

pub const PREVIOUS_TO_LINK: &'static str = r#"<a class="lur-pager-link" href=""#;

pub const PREVIOUS_END: &'static str = r#"">← Föregående</a>"#;

pub const NO_PREVIOUS: &'static str = r#"<span class="lur-pager-disabled">← Föregående</span>"#;

pub const NEXT_TO_LINK: &'static str = r#"<a class="lur-pager-link" href=""#;

pub const NEXT_END: &'static str = r#"">Nästa →</a>"#;

pub const NO_NEXT: &'static str = r#"<span class="lur-pager-disabled">Nästa →</span>"#;

/// The style sheet of the page.
pub const OPERATOR_CSS: &'static str = r#"
:root { color-scheme: light; }
* { box-sizing: border-box; }
body {
  margin: 0;
  font-family: -apple-system, BlinkMacSystemFont, "Segoe UI", Roboto, sans-serif;
  background: #f4f6f7;
  color: #1c2326;
  font-size: 14px;
  line-height: 1.5;
}
.lur-op-header {
  background: #0e1f1e;
  color: #d9e3e1;
  border-bottom: 1px solid #0a1716;
}
.lur-op-shell {
  max-width: 1280px;
  margin: 0 auto;
  padding: 14px 28px;
  display: flex;
  align-items: center;
  justify-content: space-between;
  font-size: 13px;
}
.lur-op-brand {
  font-weight: 600;
  letter-spacing: 0.02em;
}
.lur-op-actor a {
  color: #6dd6c4;
  text-decoration: none;
  margin-left: 4px;
}
.lur-op-actor a:hover { text-decoration: underline; }
main.lur-op-shell {
  display: block;
  background: transparent;
  padding-top: 32px;
  padding-bottom: 96px;
}
main.lur-op-audit { max-width: 1280px; }
.lur-audit-titlebar {
  display: flex;
  align-items: baseline;
  gap: 16px;
  margin: 0 0 8px;
}
.lur-op-title {
  font-size: 26px;
  font-weight: 600;
  margin: 0;
  letter-spacing: -0.01em;
}
.lur-audit-total {
  font-size: 13px;
  color: #5d6a72;
  font-variant-numeric: tabular-nums;
}
.lur-lede {
  margin: 0 0 24px;
  font-size: 13px;
  color: #3a464d;
  max-width: 720px;
}
.lur-muted { color: #5d6a72; }
.lur-section {
  background: #ffffff;
  border: 1px solid #dde3e6;
  padding: 20px 24px;
  margin-bottom: 16px;
}
.lur-section h2 {
  font-size: 13px;
  text-transform: uppercase;
  letter-spacing: 0.06em;
  color: #5d6a72;
  font-weight: 600;
  margin: 0 0 16px;
}
.lur-chip-row {
  display: flex;
  flex-wrap: wrap;
  gap: 8px;
  margin: 0 0 16px;
}
.lur-chip {
  display: inline-flex;
  align-items: center;
  gap: 6px;
  padding: 4px 10px;
  background: #ecf6f3;
  border: 1px solid #b6dad1;
  color: #0a3d36 !important;
  font-size: 12px;
  text-decoration: none;
  border-radius: 14px;
  font-variant-numeric: tabular-nums;
}
.lur-chip:hover {
  background: #d8ece5;
}
.lur-chip strong { font-weight: 700; }
.lur-chip-corr {
  background: #fcf6e3;
  border-color: #e6d18a;
  color: #4a3a14 !important;
  font-family: ui-monospace, SFMono-Regular, Menlo, Consolas, monospace;
}
.lur-chip-corr:hover { background: #f6e8b8; }
.lur-filter-form { font-size: 13px; }
.lur-filter-grid {
  display: grid;
  grid-template-columns: repeat(auto-fit, minmax(180px, 1fr));
  gap: 14px 18px;
  margin-bottom: 16px;
}
.lur-filter-grid label {
  display: flex;
  flex-direction: column;
  font-size: 12px;
  color: #5d6a72;
  font-weight: 600;
  gap: 6px;
}
.lur-filter-grid select,
.lur-filter-grid input {
  padding: 7px 10px;
  border: 1px solid #c9d1d6;
  background: #fafbfc;
  font: inherit;
  font-size: 13px;
  color: #1c2326;
  border-radius: 2px;
}
.lur-filter-actions {
  display: flex;
  justify-content: flex-end;
  gap: 12px;
  align-items: center;
}
.lur-filter-actions button {
  background: #0f8c7e;
  color: #ffffff;
  border: 0;
  padding: 8px 18px;
  font: inherit;
  font-size: 13px;
  font-weight: 600;
  cursor: pointer;
  border-radius: 2px;
}
.lur-filter-actions button:hover { background: #0a6e62; }
.lur-cancel {
  color: #5d6a72;
  text-decoration: none;
  font-size: 12px;
}
.lur-cancel:hover { color: #0a6e62; text-decoration: underline; }
.lur-audit-table {
  width: 100%;
  border-collapse: collapse;
  font-size: 13px;
}
.lur-audit-table th {
  text-align: left;
  font-weight: 600;
  font-size: 11px;
  text-transform: uppercase;
  letter-spacing: 0.04em;
  color: #5d6a72;
  padding: 8px 10px;
  border-bottom: 1px solid #dde3e6;
}
.lur-audit-table td {
  padding: 10px 10px;
  border-bottom: 1px solid #eef2f3;
  vertical-align: top;
}
.lur-audit-row-disclose {
  background: #fcf6e3;
}
.lur-audit-row-disclose td { border-bottom-color: #e6d18a; }
.lur-col-when {
  white-space: nowrap;
  font-variant-numeric: tabular-nums;
  color: #5d6a72;
  font-family: ui-monospace, SFMono-Regular, Menlo, Consolas, monospace;
  font-size: 12px;
}
.lur-col-type { font-weight: 600; }
.lur-col-actor a {
  color: #0a6e62;
  text-decoration: none;
}
.lur-col-actor a:hover { text-decoration: underline; }
.lur-col-case a {
  color: #0a6e62;
  text-decoration: none;
  font-weight: 600;
}
.lur-col-case a:hover { text-decoration: underline; }
.lur-case-status {
  display: inline-block;
  font-size: 10px;
  font-weight: 600;
  padding: 2px 6px;
  border-radius: 8px;
  margin-left: 6px;
  vertical-align: middle;
}
.lur-status-intake        { background: #eef2f3; color: #5d6a72; }
.lur-status-triage        { background: #e0eef9; color: #1c4a78; }
.lur-status-investigating { background: #fcf6e3; color: #6d5108; }
.lur-status-resolved      { background: #ecf6f3; color: #0a6e62; }
.lur-status-archived      { background: #eaeef0; color: #444b50; }
.lur-corr {
  font-family: ui-monospace, SFMono-Regular, Menlo, Consolas, monospace;
  font-size: 12px;
  color: #4a3a14 !important;
  text-decoration: none;
}
.lur-corr:hover { text-decoration: underline; }
.lur-col-note { color: #1c2326; }
.lur-pager {
  margin-top: 20px;
  display: flex;
  align-items: center;
  justify-content: space-between;
  font-size: 13px;
}
.lur-pager-link {
  color: #0a6e62;
  text-decoration: none;
  font-weight: 600;
}
.lur-pager-link:hover { text-decoration: underline; }
.lur-pager-disabled { color: #b6c0c5; }
.lur-pager-status {
  color: #5d6a72;
  font-variant-numeric: tabular-nums;
}
a { color: #0a6e62; }
"#;

}
