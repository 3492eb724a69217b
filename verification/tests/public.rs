use lursystem::handlers::public::{
    check_submission, do_submit_report, generate_reporter_token, new_report, render_form,
    render_success, reporter_token, show_report_form, submit_fields, submit_report_reply, validate,
    ReportFields, SubmitReport,
};
use lursystem::reply::Reply;

fn form_page(csrf: &str, error_html: &str) -> String {
    format!(
        r#"<!doctype html>
<html lang="sv">
<head>
<meta charset="utf-8">
<meta name="viewport" content="width=device-width, initial-scale=1">
<title>Lämna en rapport — Lursystem</title>
<style>
  :root {{ color-scheme: light; }}
  * {{ box-sizing: border-box; }}
  body {{
    margin: 0;
    font-family: -apple-system, BlinkMacSystemFont, "Segoe UI", Roboto, sans-serif;
    background: #f4f6f7;
    color: #1c2326;
    font-size: 15px;
    line-height: 1.5;
  }}
  .lur-shell {{
    max-width: 640px;
    margin: 0 auto;
    padding: 48px 24px 96px;
  }}
  .lur-title {{
    font-size: 28px;
    font-weight: 600;
    margin: 0 0 12px;
    letter-spacing: -0.01em;
  }}
  .lur-intro {{
    color: #5d6a72;
    margin: 0 0 32px;
    font-size: 16px;
  }}
  .lur-error {{
    background: #fdecec;
    border-left: 3px solid #c8443d;
    padding: 12px 16px;
    margin-bottom: 24px;
    font-size: 14px;
  }}
  .lur-form {{
    background: #ffffff;
    border: 1px solid #dde3e6;
    padding: 32px;
  }}
  .lur-field {{
    margin-bottom: 24px;
  }}
  .lur-field:last-of-type {{
    margin-bottom: 32px;
  }}
  label {{
    display: block;
    font-weight: 600;
    margin-bottom: 6px;
    font-size: 14px;
  }}
  .lur-hint {{
    color: #5d6a72;
    font-size: 13px;
    margin: -2px 0 8px;
  }}
  input[type="text"],
  input[type="email"],
  textarea,
  select {{
    width: 100%;
    padding: 10px 12px;
    border: 1px solid #c9d1d6;
    background: #fafbfc;
    font: inherit;
    color: inherit;
    border-radius: 2px;
  }}
  textarea {{
    min-height: 180px;
    resize: vertical;
    font-family: inherit;
  }}
  input:focus,
  textarea:focus,
  select:focus {{
    outline: 2px solid #0f8c7e;
    outline-offset: -1px;
    border-color: #0f8c7e;
  }}
  button {{
    background: #0f8c7e;
    color: #ffffff;
    border: 0;
    padding: 12px 28px;
    font: inherit;
    font-weight: 600;
    cursor: pointer;
    border-radius: 2px;
  }}
  button:hover {{ background: #0a6e62; }}
  .lur-footer {{
    margin-top: 32px;
    font-size: 13px;
    color: #5d6a72;
  }}
</style>
</head>
<body>
<div class="lur-shell">
  <h1 class="lur-title">Lämna en rapport</h1>
  <p class="lur-intro">
    Den här kanalen är till för anställda och tidigare anställda
    som vill rapportera misstänkta missförhållanden. Inlämningar
    är konfidentiella och kan vara anonyma.
  </p>

  {error_html}

  <form method="post" action="/report/new" class="lur-form" autocomplete="off">
    <input type="hidden" name="_csrf" value="{csrf}">

    <div class="lur-field">
      <label for="lur-summary">Kort sammanfattning</label>
      <p class="lur-hint">En mening som beskriver vad rapporten gäller.</p>
      <input type="text" id="lur-summary" name="summary"
             required minlength="{SUMMARY_MIN}" maxlength="{SUMMARY_MAX}">
    </div>

    <div class="lur-field">
      <label for="lur-body">Beskrivning</label>
      <p class="lur-hint">Var så detaljerad du kan: vad hände, när, vilka var inblandade.</p>
      <textarea id="lur-body" name="body"
                required minlength="{BODY_MIN}" maxlength="{BODY_MAX}"></textarea>
    </div>

    <div class="lur-field">
      <label for="lur-severity">Allvarlighetsgrad</label>
      <select id="lur-severity" name="severity">
        <option value="low">Låg</option>
        <option value="medium" selected>Medel</option>
        <option value="high">Hög</option>
        <option value="critical">Kritisk</option>
      </select>
    </div>

    <div class="lur-field">
      <label for="lur-email">E-postadress (valfritt)</label>
      <p class="lur-hint">
        Anges endast om du vill kunna kontaktas. Lämna tomt för att
        rapportera helt anonymt.
      </p>
      <input type="email" id="lur-email" name="reporter_email" maxlength="254">
    </div>

    <input type="hidden" name="channel" value="web">

    <button type="submit">Skicka rapport</button>
  </form>

  <p class="lur-footer">
    Lursystem · Skyddat av lag (2021:890) om skydd för personer
    som rapporterar om missförhållanden.
  </p>
</div>
</body>
</html>
"#,
        csrf = csrf,
        error_html = error_html,
        SUMMARY_MIN = 5,
        SUMMARY_MAX = 200,
        BODY_MIN = 10,
        BODY_MAX = 50000,
    )
}

fn success_page(token: &str) -> String {
    format!(
        r#"<!doctype html>
<html lang="sv">
<head>
<meta charset="utf-8">
<meta name="viewport" content="width=device-width, initial-scale=1">
<title>Rapport mottagen — Lursystem</title>
<style>
  :root {{ color-scheme: light; }}
  * {{ box-sizing: border-box; }}
  body {{
    margin: 0;
    font-family: -apple-system, BlinkMacSystemFont, "Segoe UI", Roboto, sans-serif;
    background: #f4f6f7;
    color: #1c2326;
    font-size: 15px;
    line-height: 1.5;
  }}
  .lur-shell {{
    max-width: 640px;
    margin: 0 auto;
    padding: 48px 24px 96px;
  }}
  .lur-title {{
    font-size: 28px;
    font-weight: 600;
    margin: 0 0 12px;
    letter-spacing: -0.01em;
  }}
  .lur-intro {{
    color: #5d6a72;
    margin: 0 0 24px;
    font-size: 16px;
  }}
  .lur-success {{
    background: #ecf6f3;
    border-left: 3px solid #0f8c7e;
    padding: 16px 20px;
    margin-bottom: 32px;
    font-size: 15px;
  }}
  .lur-token-block {{
    background: #ffffff;
    border: 1px solid #dde3e6;
    padding: 24px 28px;
    margin-bottom: 24px;
  }}
  .lur-token-label {{
    font-weight: 600;
    font-size: 14px;
    margin-bottom: 8px;
  }}
  .lur-token {{
    font-family: "SF Mono", "JetBrains Mono", Consolas, monospace;
    font-size: 14px;
    background: #f4f6f7;
    padding: 12px 14px;
    word-break: break-all;
    border-radius: 2px;
  }}
  .lur-warning {{
    color: #4a3a14;
    background: #fcf6e3;
    border-left: 3px solid #c69a3a;
    padding: 14px 18px;
    margin-top: 32px;
    font-size: 14px;
  }}
  .lur-footer {{
    margin-top: 48px;
    font-size: 13px;
    color: #5d6a72;
  }}
</style>
</head>
<body>
<div class="lur-shell">
  <h1 class="lur-title">Rapport mottagen</h1>

  <div class="lur-success" role="status">
    Din rapport har tagits emot och kommer att granskas av
    en utredare. Behandlingen är konfidentiell.
  </div>

  <p class="lur-intro">
    Spara koden nedan. Den är ditt enda sätt att följa upp ärendet
    utan att lämna ut din identitet — vi visar den bara en gång.
  </p>

  <div class="lur-token-block">
    <div class="lur-token-label">Din uppföljningskod</div>
    <div class="lur-token">{token}</div>
  </div>

  <div class="lur-warning" role="note">
    Kopiera koden nu. Den visas inte igen och vi kan inte
    återskapa den.
  </div>

  <p class="lur-footer">
    Lursystem · Skyddat av lag (2021:890) om skydd för personer
    som rapporterar om missförhållanden.
  </p>
</div>
</body>
</html>
"#,
        token = token,
    )
}

fn page(reply: Reply) -> (u16, String) {
    match reply {
        Reply::Html { status, body } => (status, body),
        Reply::Redirect { .. } => panic!("a redirect"),
    }
}

fn banner(message: &str) -> String {
    format!("<div class=\"lur-error\" role=\"alert\">{}</div>", message)
}

fn fields(summary: &str, body: &str) -> ReportFields {
    ReportFields {
        summary: Some(summary.to_string()),
        body: Some(body.to_string()),
        severity: None,
        channel: None,
        reporter_email: None,
    }
}

fn problem(
    summary: &str,
    body: &str,
    severity: &str,
    channel: &str,
    email: Option<&str>,
) -> String {
    match validate(summary, body, severity, channel, &email.map(|e| e.to_string())) {
        Ok(()) => "".to_string(),
        Err(message) => message,
    }
}

#[test]
fn report_form_page() {
    assert_eq!(render_form("t\"k", None), form_page("t&quot;k", ""));
    assert_eq!(
        render_form("token", Some("a < b")),
        form_page("token", &banner("a &lt; b"))
    );
    assert_eq!(
        page(show_report_form("token")),
        (200, form_page("token", ""))
    );
}

#[test]
fn report_success_page() {
    assert_eq!(render_success("ab-_9"), success_page("ab-_9"));
    assert_eq!(render_success("<t>"), success_page("&lt;t&gt;"));
}

#[test]
fn report_lengths() {
    let body = "0123456789";
    assert_eq!(
        problem("abcd", body, "low", "web", None),
        "Summary must be at least 5 characters."
    );
    assert_eq!(problem("abcde", body, "low", "web", None), "");
    // Three letters, six bytes.
    assert_eq!(problem("ååå", body, "low", "web", None), "");
    assert_eq!(problem(&"a".repeat(200), body, "low", "web", None), "");
    assert_eq!(
        problem(&"a".repeat(201), body, "low", "web", None),
        "Summary must be no more than 200 characters."
    );
    assert_eq!(
        problem("abcde", "012345678", "low", "web", None),
        "Description must be at least 10 characters."
    );
    assert_eq!(problem("abcde", &"b".repeat(50_000), "low", "web", None), "");
    assert_eq!(
        problem("abcde", &"b".repeat(50_001), "low", "web", None),
        "Description must be no more than 50000 characters."
    );
}

#[test]
fn report_severities_and_channels() {
    let body = "0123456789";
    for severity in ["low", "medium", "high", "critical"] {
        assert_eq!(problem("abcde", body, severity, "web", None), "");
    }
    for severity in ["", "Low", "urgent"] {
        assert_eq!(problem("abcde", body, severity, "web", None), "Invalid severity.");
    }
    for channel in ["web", "phone", "in_person", "email"] {
        assert_eq!(problem("abcde", body, "low", channel, None), "");
    }
    for channel in ["", "WEB", "fax"] {
        assert_eq!(problem("abcde", body, "low", channel, None), "Invalid channel.");
    }
}

#[test]
fn report_addresses() {
    let body = "0123456789";
    assert_eq!(problem("abcde", body, "low", "web", Some("a@b")), "");
    assert_eq!(
        problem("abcde", body, "low", "web", Some("nobody")),
        "Email address looks invalid."
    );
    let longest = format!("{}@example.com", "x".repeat(242));
    assert_eq!(longest.len(), 254);
    assert_eq!(problem("abcde", body, "low", "web", Some(&longest)), "");
    let longer = format!("x{}", longest);
    assert_eq!(
        problem("abcde", body, "low", "web", Some(&longer)),
        "Email address looks invalid."
    );
}

#[test]
fn report_problems_come_in_order() {
    assert_eq!(
        problem("", "", "", "", Some("")),
        "Summary must be at least 5 characters."
    );
    assert_eq!(
        problem("abcde", "", "", "", Some("")),
        "Description must be at least 10 characters."
    );
    assert_eq!(
        problem("abcde", "0123456789", "", "", Some("")),
        "Invalid severity."
    );
    assert_eq!(
        problem("abcde", "0123456789", "low", "", Some("")),
        "Invalid channel."
    );
    assert_eq!(
        problem("abcde", "0123456789", "low", "web", Some("")),
        "Email address looks invalid."
    );
}

#[test]
fn report_fields_come_from_the_form() {
    let read = ReportFields::from_body(
        "summary=+Bribes+&body=%20what%20happened%20&severity=high&channel=phone\
         &reporter_email=+tip%40example.com+",
    );
    assert_eq!(read.summary.as_deref(), Some(" Bribes "));
    assert_eq!(read.channel.as_deref(), Some("phone"));
    let submission = read.read();
    assert_eq!(submission.summary, "Bribes");
    assert_eq!(submission.body, "what happened");
    assert_eq!(submission.severity, "high");
    assert_eq!(submission.channel, "phone");
    assert_eq!(submission.reporter_email.as_deref(), Some("tip@example.com"));
}

#[test]
fn report_fields_have_defaults() {
    let submission = ReportFields::from_body("").read();
    assert_eq!(submission.summary, "");
    assert_eq!(submission.body, "");
    assert_eq!(submission.severity, "medium");
    assert_eq!(submission.channel, "web");
    assert_eq!(submission.reporter_email, None);
    let blank = ReportFields::from_body("reporter_email=++&severity=");
    assert_eq!(blank.read().reporter_email, None);
    assert_eq!(blank.read().severity, "");
}

#[test]
fn report_that_is_wrong_is_answered_with_the_form() {
    let wrong = fields("abc", "0123456789");
    match submit_fields("token", &wrong) {
        SubmitReport::Answer(reply) => assert_eq!(
            page(reply),
            (
                200,
                form_page("token", &banner("Summary must be at least 5 characters."))
            )
        ),
        SubmitReport::StoreReport(_) => panic!("stored"),
    }
    // White space alone is no summary.
    match check_submission("token", &fields("          ", "0123456789")) {
        Err(reply) => assert_eq!(
            page(reply),
            (
                200,
                form_page("token", &banner("Summary must be at least 5 characters."))
            )
        ),
        Ok(_) => panic!("accepted"),
    }
}

#[test]
fn report_lands_in_intake() {
    let right = ReportFields {
        reporter_email: Some(" tip@example.com ".to_string()),
        ..fields("  Bribes in purchasing ", " 0123456789 ")
    };
    match submit_fields("token", &right) {
        SubmitReport::Answer(_) => panic!("refused"),
        SubmitReport::StoreReport(report) => {
            assert_eq!(report.summary, "Bribes in purchasing");
            assert_eq!(report.body, "0123456789");
            assert_eq!(report.severity, "medium");
            assert_eq!(report.channel, "web");
            assert_eq!(report.status, "intake");
            assert_eq!(report.reporter_email.as_deref(), Some("tip@example.com"));
            assert_eq!(report.reporter_token.len(), 43);
            assert_eq!(
                page(submit_report_reply(&report)),
                (200, success_page(&report.reporter_token))
            );
        }
    }
}

#[test]
fn report_row_of_a_submission() {
    let submission = match check_submission("token", &fields("Bribes", "0123456789")) {
        Ok(submission) => submission,
        Err(_) => panic!("refused"),
    };
    let report = new_report(submission, "tok".to_string());
    assert_eq!(report.summary, "Bribes");
    assert_eq!(report.status, "intake");
    assert_eq!(report.reporter_email, None);
    assert_eq!(report.reporter_token, "tok");
}

#[test]
fn reporter_tokens_of_known_bytes() {
    assert_eq!(
        reporter_token(&[0u8; 32]),
        "AAAAAAAAAAAAAAAAAAAAAAAAAAAAAAAAAAAAAAAAAAA"
    );
    assert_eq!(
        reporter_token(&[255u8; 32]),
        "__________________________________________8"
    );
    let counted: Vec<u8> = (0u8..32).collect();
    assert_eq!(
        reporter_token(&counted),
        "AAECAwQFBgcICQoLDA0ODxAREhMUFRYXGBkaGxwdHh8"
    );
}

#[test]
fn reporter_tokens_are_fresh() {
    let first = generate_reporter_token();
    let second = generate_reporter_token();
    for token in [&first, &second] {
        assert_eq!(token.chars().count(), 43);
        assert!(token
            .chars()
            .all(|c| c.is_ascii_alphanumeric() || c == '-' || c == '_'));
    }
    assert_ne!(first, second);
}

#[test]
fn report_comes_from_the_body_of_the_request() {
    let body = "summary=Bribes+in+purchasing&body=What%20happened&severity=high&_csrf=x";
    match do_submit_report("token", body) {
        SubmitReport::Answer(_) => panic!("refused"),
        SubmitReport::StoreReport(report) => {
            assert_eq!(report.summary, "Bribes in purchasing");
            assert_eq!(report.body, "What happened");
            assert_eq!(report.severity, "high");
            assert_eq!(report.channel, "web");
            assert_eq!(report.status, "intake");
            assert_eq!(report.reporter_email, None);
        }
    }
    match do_submit_report("token", "summary=Bribes&body=short") {
        SubmitReport::Answer(reply) => assert_eq!(
            page(reply),
            (
                200,
                form_page("token", &banner("Description must be at least 10 characters."))
            )
        ),
        SubmitReport::StoreReport(_) => panic!("stored"),
    }
}
