use lursystem::auth_helper::{Identity, Role};
use lursystem::form::urlencode;
use lursystem::handlers::disclosure::{
    check_reason, disclose_form_reply, do_disclose, form_target, judge_reason, not_found, operator_css,
    reason_from_field, render_anonymous_stub, render_form, render_result, show_disclose_form,
    DiscloseAction, DiscloseEvent, DiscloseState, FormTarget, ShowForm,
};
use lursystem::reply::Reply;

fn form_page(case_id: i64, actor: &str, csrf: &str, error_html: &str) -> String {
    format!(
        r#"<!doctype html>
<html lang="sv">
<head>
<meta charset="utf-8">
<meta name="viewport" content="width=device-width, initial-scale=1">
<title>Identitetsupplysning — Ärende #{case_id} — Lursystem</title>
<style>{css}</style>
</head>
<body>
<header class="lur-op-header">
  <div class="lur-op-shell">
    <span class="lur-op-brand">Lursystem · Operatörsgränssnitt</span>
    <span class="lur-op-actor">Inloggad som <strong>{actor}</strong>
      · <a href="/admin/cases/{case_id}/work">← Ärende #{case_id}</a>
      · <a href="/admin/logout">Logga ut</a></span>
  </div>
</header>

<main class="lur-op-shell lur-op-detail">
  <h1 class="lur-op-title">Begär identitetsupplysning</h1>
  <p class="lur-lede">Ärende #{case_id}. När du bekräftar nedan
  skrivs en oåterkallelig logg som kopplar dig till denna
  identitetsläsning. Reporterns e-postadress visas på följande
  sida.</p>

  <section class="lur-section lur-section-warn">
    <h2>Detta loggas oåterkalleligt</h2>
    <ul class="lur-warn-list">
      <li>Din användare (<strong>{actor}</strong>) registreras som
      den som begärt upplysningen.</li>
      <li>Motiveringen sparas ordagrant i loggen.</li>
      <li>Loggraden kan inte raderas. Tillsynsmyndigheten kan
      begära den vid revision.</li>
      <li>Visningen sker en gång. Om du behöver e-postadressen
      igen krävs en ny begäran med ny motivering — varje läsning
      loggas.</li>
    </ul>
  </section>

  {error_html}

  <section class="lur-section">
    <h2>Motivering</h2>
    <form method="post" action="/admin/cases/{case_id}/disclose" class="lur-disclose-form">
      <input type="hidden" name="_csrf" value="{csrf}">
      <label for="reason" class="lur-form-label">
        Ange varför du behöver läsa reporterns identitet
        (minst {REASON_MIN} tecken, högst {REASON_MAX}).
      </label>
      <textarea id="reason" name="reason" rows="6" required
                minlength="{REASON_MIN}" maxlength="{REASON_MAX}"
                placeholder="Exempel: Reportern har bett att bli kontaktad direkt enligt e-postsignatur i rapporten."></textarea>
      <div class="lur-form-actions">
        <a href="/admin/cases/{case_id}/work" class="lur-cancel">Avbryt</a>
        <button type="submit">Bekräfta och visa identitet</button>
      </div>
    </form>
  </section>
</main>
</body>
</html>
"#,
        case_id = case_id,
        actor = actor,
        csrf = csrf,
        error_html = error_html,
        REASON_MIN = 10,
        REASON_MAX = 1000,
        css = operator_css(),
    )
}

fn result_page(case_id: i64, actor: &str, email: &str, reason: &str) -> String {
    format!(
        r#"<!doctype html>
<html lang="sv">
<head>
<meta charset="utf-8">
<meta name="viewport" content="width=device-width, initial-scale=1">
<title>Identitet visad — Ärende #{case_id} — Lursystem</title>
<style>{css}</style>
</head>
<body>
<header class="lur-op-header">
  <div class="lur-op-shell">
    <span class="lur-op-brand">Lursystem · Operatörsgränssnitt</span>
    <span class="lur-op-actor">Inloggad som <strong>{actor}</strong>
      · <a href="/admin/cases/{case_id}/work">← Ärende #{case_id}</a>
      · <a href="/admin/logout">Logga ut</a></span>
  </div>
</header>

<main class="lur-op-shell lur-op-detail">
  <h1 class="lur-op-title">Identitet visad</h1>
  <p class="lur-lede">Ärende #{case_id}. Loggraden är skriven och
  kan inte ångras. Notera adressen nu — vid behov av ny visning
  krävs en ny begäran.</p>

  <section class="lur-section lur-section-disclose">
    <h2>Reporterns e-post</h2>
    <p class="lur-disclose-email">{email}</p>
  </section>

  <section class="lur-section">
    <h2>Loggad motivering</h2>
    <pre class="lur-disclose-reason">{reason}</pre>
  </section>

  <section class="lur-section">
    <h2>Vad händer nu</h2>
    <p>Händelsen <em>Identitet avslöjad</em> finns nu i ärendets
    historik på arbetsytan. Den kan granskas av revisor men inte
    raderas.</p>
    <p><a class="lur-cta" href="/admin/cases/{case_id}/work">→ Återgå till ärende #{case_id}</a></p>
  </section>
</main>
</body>
</html>
"#,
        case_id = case_id,
        actor = actor,
        email = email,
        reason = reason,
        css = operator_css(),
    )
}

fn anonymous_page(case_id: i64, actor: &str) -> String {
    format!(
        r#"<!doctype html>
<html lang="sv">
<head>
<meta charset="utf-8">
<meta name="viewport" content="width=device-width, initial-scale=1">
<title>Anonym rapport — Ärende #{case_id} — Lursystem</title>
<style>{css}</style>
</head>
<body>
<header class="lur-op-header">
  <div class="lur-op-shell">
    <span class="lur-op-brand">Lursystem · Operatörsgränssnitt</span>
    <span class="lur-op-actor">Inloggad som <strong>{actor}</strong>
      · <a href="/admin/cases/{case_id}/work">← Ärende #{case_id}</a>
      · <a href="/admin/logout">Logga ut</a></span>
  </div>
</header>

<main class="lur-op-shell lur-op-detail">
  <h1 class="lur-op-title">Anonym rapport</h1>
  <section class="lur-section">
    <p>Reportern har inte angett någon e-postadress. Det finns
    ingen identitet att avslöja för ärende #{case_id}.</p>
    <p><a class="lur-cta" href="/admin/cases/{case_id}/work">→ Återgå till ärendet</a></p>
  </section>
</main>
</body>
</html>
"#,
        case_id = case_id,
        actor = actor,
        css = operator_css(),
    )
}

fn missing_page() -> String {
    format!(
        r#"<!doctype html>
<html lang="sv">
<head>
<meta charset="utf-8">
<title>Ärende saknas — Lursystem</title>
<style>{css}</style>
</head>
<body>
<main class="lur-op-shell">
  <h1 class="lur-op-title">Ärende saknas</h1>
  <p class="lur-muted">Det finns inget ärende med den ID:n.</p>
  <p><a href="/admin/triage">← Tillbaka till triage</a></p>
</main>
</body>
</html>
"#,
        css = operator_css(),
    )
}

fn lead() -> Identity {
    Identity {
        user_id: 7,
        email: "lead@example.com".to_string(),
        role: Role::Administrator,
        is_active: true,
    }
}

fn with_role(role: Role) -> Identity {
    Identity { role, ..lead() }
}

fn page(reply: Reply) -> (u16, String) {
    match reply {
        Reply::Html { status, body } => (status, body),
        Reply::Redirect { .. } => panic!("a redirect"),
    }
}

fn location(reply: Reply) -> String {
    match reply {
        Reply::Html { .. } => panic!("a page"),
        Reply::Redirect { location } => location,
    }
}

fn answer(action: DiscloseAction) -> Reply {
    match action {
        DiscloseAction::Answer(reply) => reply,
        _ => panic!("no answer"),
    }
}

const TOO_SHORT: &str =
    "Ange en motivering på minst 10 tecken. Motiveringen är en regulatorisk del av loggen.";

const TOO_LONG: &str = "Motiveringen får vara högst 1000 tecken. Korta ned och försök igen.";

#[test]
fn disclosure_form_page() {
    assert_eq!(
        render_form(12, "a&b@example.com", "t\"k", None),
        form_page(12, "a&amp;b@example.com", "t&quot;k", "")
    );
    assert_eq!(
        render_form(-3, "lead@example.com", "token", Some("<fel>".to_string())),
        form_page(
            -3,
            "lead@example.com",
            "token",
            "<div class=\"lur-error\">&lt;fel&gt;</div>"
        )
    );
}

#[test]
fn disclosure_result_page() {
    assert_eq!(
        render_result(5, "lead@example.com", "<r>@example.com", "it's needed"),
        result_page(5, "lead@example.com", "&lt;r&gt;@example.com", "it&#39;s needed")
    );
}

#[test]
fn disclosure_anonymous_page() {
    assert_eq!(
        render_anonymous_stub(5, "l'ead@example.com"),
        anonymous_page(5, "l&#39;ead@example.com")
    );
}

#[test]
fn disclosure_of_a_missing_case() {
    assert_eq!(page(not_found()), (404, missing_page()));
}

#[test]
fn disclosure_reason_is_trimmed() {
    assert_eq!(reason_from_field(&None), "");
    assert_eq!(reason_from_field(&Some("  needed now\n".to_string())), "needed now");
    assert_eq!(reason_from_field(&Some(" \t ".to_string())), "");
}

#[test]
fn disclosure_reason_length_in_bytes() {
    assert_eq!(check_reason("123456789"), Some(TOO_SHORT.to_string()));
    assert_eq!(check_reason("1234567890"), None);
    // Five letters of two bytes each.
    assert_eq!(check_reason("ååååå"), None);
    assert_eq!(check_reason(&"x".repeat(1000)), None);
    assert_eq!(check_reason(&"x".repeat(1001)), Some(TOO_LONG.to_string()));
    assert_eq!(check_reason(&"å".repeat(501)), Some(TOO_LONG.to_string()));
}

#[test]
fn disclosure_form_is_for_leads() {
    for role in [Role::User, Role::Staff, Role::Supervisor] {
        match show_disclose_form(Some(with_role(role))) {
            ShowForm::Answer(reply) => assert_eq!(location(reply), "/admin"),
            ShowForm::LoadCase(_) => panic!("let in"),
        }
    }
    for role in [Role::Administrator, Role::Developer] {
        match show_disclose_form(Some(with_role(role))) {
            ShowForm::Answer(_) => panic!("kept out"),
            ShowForm::LoadCase(actor) => assert_eq!(actor.user_id, 7),
        }
    }
    match show_disclose_form(None) {
        ShowForm::Answer(reply) => assert_eq!(location(reply), "/admin/login"),
        ShowForm::LoadCase(_) => panic!("let in"),
    }
}

#[test]
fn disclosure_form_needs_something_to_disclose() {
    match form_target(9, "lead@example.com", None) {
        FormTarget::Answer(reply) => assert_eq!(page(reply), (404, missing_page())),
        FormTarget::CheckElevation => panic!("no case"),
    }
    match form_target(9, "lead@example.com", Some(false)) {
        FormTarget::Answer(reply) => {
            assert_eq!(page(reply), (200, anonymous_page(9, "lead@example.com")))
        }
        FormTarget::CheckElevation => panic!("nothing to disclose"),
    }
    assert!(matches!(
        form_target(9, "lead@example.com", Some(true)),
        FormTarget::CheckElevation
    ));
}

#[test]
fn disclosure_form_needs_elevation() {
    assert_eq!(
        location(disclose_form_reply(9, "lead@example.com", "token", false)),
        "/admin/reauth?return_to=/admin/cases/9/disclose"
    );
    assert_eq!(
        page(disclose_form_reply(9, "lead@example.com", "token", true)),
        (200, form_page(9, "lead@example.com", "token", ""))
    );
}

/// Feeds events to a disclosure until it is done, and gives the actions.
fn run(case_id: i64, events: Vec<DiscloseEvent>) -> Vec<DiscloseAction> {
    let mut state = DiscloseState::Start;
    let mut actions = Vec::new();
    for event in events {
        let (next, action) = do_disclose(case_id, state, event);
        state = next;
        actions.push(action);
    }
    actions
}

fn form(reason: &str) -> DiscloseEvent {
    DiscloseEvent::Form {
        body: format!("_csrf=token&reason={}", urlencode(reason)),
        csrf: "token".to_string(),
    }
}

#[test]
fn disclosure_shows_the_identity_once_it_is_on_record() {
    let actions = run(
        4,
        vec![
            DiscloseEvent::Session(Some(lead())),
            DiscloseEvent::Elevation(true),
            form("  the reporter asked to be called "),
            DiscloseEvent::CaseRead(Some(Some("tip@example.com".to_string()))),
            DiscloseEvent::DisclosureWritten,
            DiscloseEvent::HistoryWritten,
            DiscloseEvent::Committed,
        ],
    );
    assert_eq!(actions.len(), 7);
    let mut actions = actions.into_iter();
    assert!(matches!(actions.next(), Some(DiscloseAction::CheckElevation)));
    assert!(matches!(actions.next(), Some(DiscloseAction::ReadForm)));
    assert!(matches!(
        actions.next(),
        Some(DiscloseAction::ReadCase { case_id: 4 })
    ));
    match actions.next() {
        Some(DiscloseAction::WriteDisclosure(row)) => {
            assert_eq!(row.case_id, 4);
            assert_eq!(row.requested_by, 7);
            assert_eq!(row.reason, "the reporter asked to be called");
        }
        _ => panic!("no disclosure"),
    }
    match actions.next() {
        Some(DiscloseAction::WriteHistory(entry)) => {
            assert_eq!(entry.case_id, 4);
            assert_eq!(entry.actor_id, 7);
            assert_eq!(entry.action_type, "disclosure_consumed");
            assert_eq!(entry.note, "the reporter asked to be called");
        }
        _ => panic!("no entry"),
    }
    assert!(matches!(actions.next(), Some(DiscloseAction::Commit)));
    assert_eq!(
        page(answer(actions.next().unwrap())),
        (
            200,
            result_page(
                4,
                "lead@example.com",
                "tip@example.com",
                "the reporter asked to be called"
            )
        )
    );
}

#[test]
fn disclosure_is_refused_to_others() {
    let mut actions = run(4, vec![DiscloseEvent::Session(Some(with_role(Role::Staff)))]);
    assert_eq!(location(answer(actions.remove(0))), "/admin");
    let mut actions = run(4, vec![DiscloseEvent::Session(None)]);
    assert_eq!(location(answer(actions.remove(0))), "/admin/login");
    let inactive = Identity {
        is_active: false,
        ..lead()
    };
    let mut actions = run(4, vec![DiscloseEvent::Session(Some(inactive))]);
    assert_eq!(location(answer(actions.remove(0))), "/admin/login");
}

#[test]
fn disclosure_without_elevation_goes_to_reauth() {
    let mut actions = run(
        4,
        vec![
            DiscloseEvent::Session(Some(lead())),
            DiscloseEvent::Elevation(false),
        ],
    );
    assert_eq!(
        location(answer(actions.remove(1))),
        "/admin/reauth?return_to=/admin/cases/4/disclose"
    );
}

#[test]
fn disclosure_with_a_bad_reason_asks_again() {
    for (reason, message) in [("too short".to_string(), TOO_SHORT), ("x".repeat(1001), TOO_LONG)] {
        let mut actions = run(
            4,
            vec![
                DiscloseEvent::Session(Some(lead())),
                DiscloseEvent::Elevation(true),
                form(&reason),
            ],
        );
        let error = format!("<div class=\"lur-error\">{}</div>", message);
        assert_eq!(
            page(answer(actions.remove(2))),
            (200, form_page(4, "lead@example.com", "token", &error))
        );
    }
}

#[test]
fn disclosure_of_nothing_writes_nothing() {
    let start = || {
        vec![
            DiscloseEvent::Session(Some(lead())),
            DiscloseEvent::Elevation(true),
            form("reason enough"),
        ]
    };
    let mut events = start();
    events.push(DiscloseEvent::CaseRead(None));
    assert_eq!(page(answer(run(4, events).remove(3))), (404, missing_page()));
    let mut events = start();
    events.push(DiscloseEvent::CaseRead(Some(None)));
    assert_eq!(
        page(answer(run(4, events).remove(3))),
        (200, anonymous_page(4, "lead@example.com"))
    );
}

#[test]
fn disclosure_gives_up_on_events_out_of_order() {
    let mut actions = run(
        4,
        vec![DiscloseEvent::Committed, DiscloseEvent::Session(Some(lead()))],
    );
    assert!(matches!(actions.remove(1), DiscloseAction::Fail(_)));
    assert!(matches!(actions.remove(0), DiscloseAction::Fail(_)));
}

#[test]
fn disclosure_without_a_reason_field_asks_again() {
    let error = format!("<div class=\"lur-error\">{}</div>", TOO_SHORT);
    let expected = (200, form_page(4, "lead@example.com", "token", &error));
    let (_, action) = judge_reason(4, lead(), &None, "token");
    assert_eq!(page(answer(action)), expected);
    let mut actions = run(
        4,
        vec![
            DiscloseEvent::Session(Some(lead())),
            DiscloseEvent::Elevation(true),
            DiscloseEvent::Form {
                body: "motive=reason+enough".to_string(),
                csrf: "token".to_string(),
            },
        ],
    );
    assert_eq!(page(answer(actions.remove(2))), expected);
    let (state, action) = judge_reason(4, lead(), &Some(" reason enough ".to_string()), "token");
    assert!(matches!(action, DiscloseAction::ReadCase { case_id: 4 }));
    assert!(matches!(state, DiscloseState::ReadingCase { reason, .. } if reason == "reason enough"));
}
