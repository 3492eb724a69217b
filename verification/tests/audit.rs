use lursystem::auth_helper::{Identity, Role};
use lursystem::handlers::audit::{
    audit_log_reply, audit_query, clear_other, operator_css, render, render_filter_chips,
    render_filter_form, render_pagination, render_rows, show_audit_log, AuditFilters, AuditLog, AuditQuery,
    AuditRow, Filter,
};
use lursystem::models::Value;
use lursystem::reply::Reply;
use lursystem::time::Timestamp;

fn log_page(actor: &str, total_label: &str, chips_html: &str, filter_form_html: &str, rows_html: &str, pagination_html: &str) -> String {
    format!(
        r#"<!doctype html>
<html lang="sv">
<head>
<meta charset="utf-8">
<meta name="viewport" content="width=device-width, initial-scale=1">
<title>Granskningslogg — Lursystem</title>
<style>{css}</style>
</head>
<body>
<header class="lur-op-header">
  <div class="lur-op-shell">
    <span class="lur-op-brand">Lursystem · Granskningsläge</span>
    <span class="lur-op-actor">Inloggad som <strong>{actor}</strong>
      · <a href="/admin/triage">Triage</a>
      · <a href="/admin">Adminpanel</a>
      · <a href="/admin/logout">Logga ut</a></span>
  </div>
</header>

<main class="lur-op-shell lur-op-audit">
  <div class="lur-audit-titlebar">
    <h1 class="lur-op-title">Granskningslogg</h1>
    <span class="lur-audit-total">{total_label}</span>
  </div>
  <p class="lur-lede">Oåterkallelig kronologisk logg över varje
  åtgärd i ärendehanteringen. Filtrera nedan. Klicka på en
  korrelations-ID för att se alla händelser från samma HTTP-anrop.</p>

  {chips_html}

  <section class="lur-section">
    <h2>Filter</h2>
    {filter_form_html}
  </section>

  <section class="lur-section">
    <h2>Händelser</h2>
    {rows_html}
    {pagination_html}
  </section>
</main>
</body>
</html>
"#,
        actor = actor,
        total_label = total_label,
        chips_html = chips_html,
        filter_form_html = filter_form_html,
        rows_html = rows_html,
        pagination_html = pagination_html,
        css = operator_css(),
    )
}

fn form_html(action_options: &str, correlation: &str, actor: &str, case: &str, since: &str) -> String {
    format!(
        r#"<form method="get" action="/admin/audit" class="lur-filter-form">
  <div class="lur-filter-grid">
    <label>Händelsetyp
      <select name="action_type">
        {action_options}
      </select>
    </label>
    <label>Korrelation
      <input type="text" name="correlation" value="{correlation}" placeholder="t.ex. 9f3e…">
    </label>
    <label>Användare (e-post)
      <input type="text" name="actor" value="{actor}" placeholder="t.ex. lead@…">
    </label>
    <label>Ärende #
      <input type="number" name="case" value="{case}" min="1">
    </label>
    <label>Från datum
      <input type="date" name="since" value="{since}">
    </label>
  </div>
  <div class="lur-filter-actions">
    <a href="/admin/audit" class="lur-cancel">Rensa alla</a>
    <button type="submit">Tillämpa filter</button>
  </div>
</form>
"#,
        action_options = action_options,
        correlation = correlation,
        actor = actor,
        case = case,
        since = since,
    )
}

fn row_html(row_class: &str, type_label: &str, actor_enc: &str, actor: &str, case_status_raw: &str, case_status_label: &str, correlation_cell: &str, note_cell: &str) -> String {
    format!(
        r#"    <tr class="{row_class}">
      <td class="lur-col-when">{when}</td>
      <td class="lur-col-type">{type_label}</td>
      <td class="lur-col-actor"><a href="/admin/audit?actor={actor_enc}">{actor}</a></td>
      <td class="lur-col-case"><a href="/admin/cases/{case_id}/work">#{case_id}</a>
        <span class="lur-case-status lur-status-{case_status_raw}">{case_status_label}</span></td>
      <td class="lur-col-corr">{correlation_cell}</td>
      <td class="lur-col-note">{note_cell}</td>
    </tr>
"#,
        row_class = row_class,
        type_label = type_label,
        actor_enc = actor_enc,
        actor = actor,
        case_status_raw = case_status_raw,
        case_status_label = case_status_label,
        correlation_cell = correlation_cell,
        note_cell = note_cell,
        case_id = 21,
        when = "2026-05-11 09:30:59",
    )
}

fn pager_html(prev_html: &str, next_html: &str, current: i64, pages: i64) -> String {
    format!(
        r#"<nav class="lur-pager">
  {prev_html}
  <span class="lur-pager-status">Sida {current} av {pages}</span>
  {next_html}
</nav>
"#,
        prev_html = prev_html,
        next_html = next_html,
        current = current,
        pages = pages,
    )
}

const NO_ROWS: &str = r#"<p class="lur-muted">Inga händelser matchar filtret.</p>"#;

const TABLE: &str = r#"<table class="lur-audit-table">
  <thead>
    <tr>
      <th class="lur-col-when">Tidpunkt</th>
      <th class="lur-col-type">Händelse</th>
      <th class="lur-col-actor">Användare</th>
      <th class="lur-col-case">Ärende</th>
      <th class="lur-col-corr">Korrelation</th>
      <th class="lur-col-note">Detalj</th>
    </tr>
  </thead>
  <tbody>
"#;

fn no_filters() -> AuditFilters {
    AuditFilters::from_request("")
}

fn auditor() -> Identity {
    Identity {
        user_id: 9,
        email: "auditor@example.com".to_string(),
        role: Role::Supervisor,
        is_active: true,
    }
}

fn row(action_type: &str, note: &str, correlation_id: Option<&str>) -> AuditRow {
    AuditRow {
        id: 1,
        case_id: 21,
        action_type: action_type.to_string(),
        note: note.to_string(),
        created_at: Timestamp::new(1778491859, 0).unwrap(),
        correlation_id: correlation_id.map(|c| c.to_string()),
        actor_email: "a b@example.com".to_string(),
        case_status: "triage".to_string(),
    }
}

/// The limit and the offset, which come last.
fn window(query: &AuditQuery) -> (i64, i64) {
    let binds = &query.list.binds;
    match (&binds[binds.len() - 2], &binds[binds.len() - 1]) {
        (Value::I64(limit), Value::I64(offset)) => (*limit, *offset),
        _ => panic!("no window"),
    }
}

fn options(selected: &str) -> String {
    let mut out = String::new();
    for (value, label) in [
        ("", "Alla"),
        ("case_opened", "Ärende öppnat"),
        ("assigned", "Tilldelad"),
        ("reassigned", "Omtilldelad"),
        ("status_changed", "Status ändrad"),
        ("note_added", "Anteckning tillagd"),
        ("disclosure_consumed", "Identitet avslöjad"),
    ] {
        let mark = if value == selected { " selected" } else { "" };
        out.push_str(&format!(
            "<option value=\"{}\"{}>{}</option>",
            value, mark, label
        ));
    }
    out
}

#[test]
fn filters_come_from_the_query() {
    let filters = AuditFilters::from_request(
        "action_type=note_added&correlation=9f3e&actor=alice%40example.com&case=12\
         &since=2026-05-11&page=3",
    );
    assert_eq!(filters.action_type.as_deref(), Some("note_added"));
    assert_eq!(filters.correlation.as_deref(), Some("9f3e"));
    assert_eq!(filters.actor.as_deref(), Some("alice@example.com"));
    assert_eq!(filters.case_id, Some(12));
    assert_eq!(filters.since.as_ref().unwrap().unix_seconds(), 1778457600);
    assert_eq!(filters.page, 3);
}

#[test]
fn filters_that_are_empty_or_wrong_are_missing() {
    let filters =
        AuditFilters::from_request("action_type=&correlation=&actor=&case=x&since=today&page=x");
    assert_eq!(filters.action_type, None);
    assert_eq!(filters.correlation, None);
    assert_eq!(filters.actor, None);
    assert_eq!(filters.case_id, None);
    assert!(filters.since.is_none());
    assert_eq!(filters.page, 1);
}

#[test]
fn pages_are_clamped() {
    for (text, page) in [("0", 1), ("-5", 1), ("1", 1), ("200", 200), ("201", 200), ("", 1)] {
        let filters = AuditFilters::from_request(&format!("page={}", text));
        assert_eq!(filters.page, page);
    }
}

#[test]
fn filters_are_written_and_read_back() {
    let filters = AuditFilters::from_request(
        "action_type=note_added&correlation=9f3e+1&actor=a%26b%3D%40example.com&case=-12\
         &since=2026-05-11&page=7",
    );
    let query = filters.to_query_without_page();
    assert_eq!(
        query,
        "action_type=note_added&correlation=9f3e%201&actor=a%26b%3D@example.com&case=-12\
         &since=2026-05-11"
    );
    let again = AuditFilters::from_request(&query);
    assert_eq!(again.action_type, filters.action_type);
    assert_eq!(again.correlation, filters.correlation);
    assert_eq!(again.actor, filters.actor);
    assert_eq!(again.case_id, filters.case_id);
    assert_eq!(
        again.since.unwrap().unix_seconds(),
        filters.since.unwrap().unix_seconds()
    );
    assert_eq!(again.page, 1);
    assert_eq!(no_filters().to_query_without_page(), "");
}

#[test]
fn statements_without_filters() {
    let query = audit_query(&no_filters());
    assert_eq!(
        query.list.sql,
        "SELECT ca.id, ca.case_id, ca.action_type, ca.note, ca.created_at, ca.correlation_id, \
         COALESCE(u.email, '<deleted>') AS actor_email, c.status AS case_status \
         FROM case_actions ca LEFT JOIN rustio_users u ON u.id = ca.actor_id \
         JOIN cases c ON c.id = ca.case_id  ORDER BY ca.created_at DESC LIMIT $1 OFFSET $2"
    );
    assert_eq!(
        query.count.sql,
        "SELECT COUNT(*) FROM case_actions ca \
         LEFT JOIN rustio_users u ON u.id = ca.actor_id JOIN cases c ON c.id = ca.case_id "
    );
    assert!(query.count.binds.is_empty());
    assert_eq!(window(&query), (50, 0));
}

#[test]
fn statements_with_all_filters() {
    let filters = AuditFilters::from_request(
        "action_type=note_added&correlation=9f3e&actor=Alice&case=12&since=2026-05-11&page=4",
    );
    let query = audit_query(&filters);
    let condition = " WHERE ca.action_type = $1 AND ca.correlation_id = $2 \
                     AND LOWER(u.email) = LOWER($3) AND ca.case_id = $4 AND ca.created_at >= $5";
    assert!(query.list.sql.contains(condition));
    assert!(query.list.sql.ends_with(" LIMIT $6 OFFSET $7"));
    assert!(query.count.sql.ends_with(condition));
    assert_eq!(query.count.binds.len(), 5);
    assert!(matches!(&query.count.binds[0], Value::Text(text) if text == "note_added"));
    assert!(matches!(&query.count.binds[1], Value::Text(text) if text == "9f3e"));
    assert!(matches!(&query.count.binds[2], Value::Text(text) if text == "Alice"));
    assert!(matches!(&query.count.binds[3], Value::I64(12)));
    assert!(
        matches!(&query.count.binds[4], Value::DateTime(instant) if instant.unix_seconds() == 1778457600)
    );
    assert_eq!(window(&query), (50, 150));
    assert_eq!(query.list.binds.len(), 7);
    assert!(matches!(&query.list.binds[3], Value::I64(12)));
}

#[test]
fn statements_number_the_filters_that_are_set() {
    let query = audit_query(&AuditFilters::from_request("actor=Alice&since=2026-05-11"));
    assert!(query
        .count
        .sql
        .ends_with(" WHERE LOWER(u.email) = LOWER($1) AND ca.created_at >= $2"));
    assert!(query.list.sql.ends_with(" LIMIT $3 OFFSET $4"));
}

#[test]
fn chips_take_filters_away() {
    assert_eq!(render_filter_chips(&no_filters()), "");
    let filters = AuditFilters::from_request("action_type=note_added&case=12&page=3");
    assert_eq!(clear_other(&filters, Filter::ActionType), "/admin/audit?case=12");
    assert_eq!(
        clear_other(&filters, Filter::Actor),
        "/admin/audit?action_type=note_added&case=12"
    );
    assert_eq!(
        clear_other(&AuditFilters::from_request("case=12"), Filter::Case),
        "/admin/audit"
    );
    assert_eq!(
        render_filter_chips(&filters),
        "<div class=\"lur-chip-row\">\
         <a class=\"lur-chip\" href=\"/admin/audit?case=12\">Typ: \
         <strong>Anteckning tillagd</strong> ✕</a>\
         <a class=\"lur-chip\" href=\"/admin/audit?action_type=note_added\">Ärende: \
         <strong>#12</strong> ✕</a></div>"
    );
}

#[test]
fn chips_of_the_other_filters() {
    let filters = AuditFilters::from_request("correlation=a%3Cb&actor=x%26y&since=2026-05-11");
    assert_eq!(
        render_filter_chips(&filters),
        "<div class=\"lur-chip-row\">\
         <a class=\"lur-chip lur-chip-corr\" \
         href=\"/admin/audit?actor=x%26y&amp;since=2026-05-11\">Korrelation: \
         <strong>a&lt;b</strong> ✕</a>\
         <a class=\"lur-chip\" href=\"/admin/audit?correlation=a&lt;b&amp;since=2026-05-11\">\
         Användare: <strong>x&amp;y</strong> ✕</a>\
         <a class=\"lur-chip\" href=\"/admin/audit?correlation=a&lt;b&amp;actor=x%26y\">Från: \
         <strong>2026-05-11</strong> ✕</a></div>"
    );
}

#[test]
fn filter_form() {
    assert_eq!(
        render_filter_form(&no_filters()),
        form_html(&options(""), "", "", "", "")
    );
    let filters = AuditFilters::from_request(
        "action_type=note_added&correlation=a%22b&actor=x&case=12&since=2026-05-11",
    );
    assert_eq!(
        render_filter_form(&filters),
        form_html(&options("note_added"), "a&quot;b", "x", "12", "2026-05-11")
    );
    let unlisted = AuditFilters::from_request("action_type=document_uploaded");
    assert_eq!(
        render_filter_form(&unlisted),
        form_html(&options("document_uploaded"), "", "", "", "")
    );
}

#[test]
fn log_rows() {
    assert_eq!(render_rows(&[]), NO_ROWS);
    let rows = [
        row("note_added", "x < y", Some("9f3e1c2a-1111")),
        row("disclosure_consumed", "", None),
    ];
    let expected = format!(
        "{}{}{}  </tbody>\n</table>\n",
        TABLE,
        row_html(
            "lur-audit-row",
            "Anteckning tillagd",
            "a%20b@example.com",
            "a b@example.com",
            "triage",
            "Under granskning",
            "<a href=\"/admin/audit?correlation=9f3e1c2a-1111\" class=\"lur-corr\" \
             title=\"9f3e1c2a-1111\">9f3e1c2a…</a>",
            "x &lt; y"
        ),
        row_html(
            "lur-audit-row lur-audit-row-disclose",
            "Identitet avslöjad",
            "a%20b@example.com",
            "a b@example.com",
            "triage",
            "Under granskning",
            "<span class=\"lur-muted\">—</span>",
            ""
        ),
    );
    assert_eq!(render_rows(&rows), expected);
}

#[test]
fn log_rows_cut_long_notes() {
    let html = render_rows(&[row("note_added", &"å".repeat(160), None)]);
    assert!(html.contains(&format!(">{}<", "å".repeat(160))));
    let html = render_rows(&[row("note_added", &"å".repeat(161), None)]);
    assert!(html.contains(&format!(">{}…<", "å".repeat(160))));
}

#[test]
fn pager() {
    let before = "<span class=\"lur-pager-disabled\">← Föregående</span>";
    let after = "<span class=\"lur-pager-disabled\">Nästa →</span>";
    assert_eq!(render_pagination(&no_filters(), 0), "");
    assert_eq!(render_pagination(&no_filters(), 50), "");
    assert_eq!(
        render_pagination(&no_filters(), 51),
        pager_html(
            before,
            "<a class=\"lur-pager-link\" href=\"/admin/audit?page=2\">Nästa →</a>",
            1,
            2
        )
    );
    let second = AuditFilters::from_request("case=4&page=2");
    assert_eq!(
        render_pagination(&second, 101),
        pager_html(
            "<a class=\"lur-pager-link\" href=\"/admin/audit?case=4&amp;page=1\">← Föregående</a>",
            "<a class=\"lur-pager-link\" href=\"/admin/audit?case=4&amp;page=3\">Nästa →</a>",
            2,
            3
        )
    );
    assert_eq!(
        render_pagination(&AuditFilters::from_request("page=2"), 100),
        pager_html(
            "<a class=\"lur-pager-link\" href=\"/admin/audit?page=1\">← Föregående</a>",
            after,
            2,
            2
        )
    );
}

#[test]
fn log_page_of_some_rows() {
    let filters = AuditFilters::from_request("case=21");
    let rows = [row("note_added", "seen", None)];
    let expected = |total: i64, label: &str| {
        log_page(
            "a&amp;b",
            label,
            &render_filter_chips(&filters),
            &render_filter_form(&filters),
            &render_rows(&rows),
            &render_pagination(&filters, total),
        )
    };
    assert_eq!(render("a&b", &filters, 1, &rows), expected(1, "1 händelse"));
    assert_eq!(render("a&b", &filters, 0, &rows), expected(0, "0 händelser"));
    match audit_log_reply("a&b", &filters, 120, &rows) {
        Reply::Html { status, body } => {
            assert_eq!(status, 200);
            assert_eq!(body, expected(120, "120 händelser"));
        }
        Reply::Redirect { .. } => panic!("a redirect"),
    }
}

#[test]
fn log_is_for_auditors_and_above() {
    for role in [Role::User, Role::Staff] {
        match show_audit_log(Some(Identity { role, ..auditor() }), "") {
            AuditLog::Answer(Reply::Redirect { location }) => assert_eq!(location, "/admin"),
            _ => panic!("let in"),
        }
    }
    match show_audit_log(None, "") {
        AuditLog::Answer(Reply::Redirect { location }) => assert_eq!(location, "/admin/login"),
        _ => panic!("let in"),
    }
    for role in [Role::Supervisor, Role::Administrator, Role::Developer] {
        match show_audit_log(Some(Identity { role, ..auditor() }), "case=4&page=2") {
            AuditLog::Load {
                actor_email,
                filters,
                query,
            } => {
                assert_eq!(actor_email, "auditor@example.com");
                assert_eq!(filters.case_id, Some(4));
                assert_eq!(window(&query), (50, 50));
            }
            AuditLog::Answer(_) => panic!("kept out"),
        }
    }
}
