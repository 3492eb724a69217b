//! The fixed text of the public pages, in pieces that each reach to the value that
//! follows it.

use vstd::prelude::*;

verus! {

// The form for a report.

pub const FORM_TO_ERROR: &'static str = r#"<!doctype html>
<html lang="sv">
<head>
<meta charset="utf-8">
<meta name="viewport" content="width=device-width, initial-scale=1">
<title>Lämna en rapport — Lursystem</title>
<style>
  :root { color-scheme: light; }
  * { box-sizing: border-box; }
  body {
    margin: 0;
    font-family: -apple-system, BlinkMacSystemFont, "Segoe UI", Roboto, sans-serif;
    background: #f4f6f7;
    color: #1c2326;
    font-size: 15px;
    line-height: 1.5;
  }
  .lur-shell {
    max-width: 640px;
    margin: 0 auto;
    padding: 48px 24px 96px;
  }
  .lur-title {
    font-size: 28px;
    font-weight: 600;
    margin: 0 0 12px;
    letter-spacing: -0.01em;
  }
  .lur-intro {
    color: #5d6a72;
    margin: 0 0 32px;
    font-size: 16px;
  }
  .lur-error {
    background: #fdecec;
    border-left: 3px solid #c8443d;
    padding: 12px 16px;
    margin-bottom: 24px;
    font-size: 14px;
  }
  .lur-form {
    background: #ffffff;
    border: 1px solid #dde3e6;
    padding: 32px;
  }
  .lur-field {
    margin-bottom: 24px;
  }
  .lur-field:last-of-type {
    margin-bottom: 32px;
  }
  label {
    display: block;
    font-weight: 600;
    margin-bottom: 6px;
    font-size: 14px;
  }
  .lur-hint {
    color: #5d6a72;
    font-size: 13px;
    margin: -2px 0 8px;
  }
  input[type="text"],
  input[type="email"],
  textarea,
  select {
    width: 100%;
    padding: 10px 12px;
    border: 1px solid #c9d1d6;
    background: #fafbfc;
    font: inherit;
    color: inherit;
    border-radius: 2px;
  }
  textarea {
    min-height: 180px;
    resize: vertical;
    font-family: inherit;
  }
  input:focus,
  textarea:focus,
  select:focus {
    outline: 2px solid #0f8c7e;
    outline-offset: -1px;
    border-color: #0f8c7e;
  }
  button {
    background: #0f8c7e;
    color: #ffffff;
    border: 0;
    padding: 12px 28px;
    font: inherit;
    font-weight: 600;
    cursor: pointer;
    border-radius: 2px;
  }
  button:hover { background: #0a6e62; }
  .lur-footer {
    margin-top: 32px;
    font-size: 13px;
    color: #5d6a72;
  }
</style>
</head>
<body>
<div class="lur-shell">
  <h1 class="lur-title">Lämna en rapport</h1>
  <p class="lur-intro">
    Den här kanalen är till för anställda och tidigare anställda
    som vill rapportera misstänkta missförhållanden. Inlämningar
    är konfidentiella och kan vara anonyma.
  </p>

  "#;

pub const FORM_TO_CSRF: &'static str = r#"

  <form method="post" action="/report/new" class="lur-form" autocomplete="off">
    <input type="hidden" name="_csrf" value=""#;

pub const FORM_TO_SUMMARY_MIN: &'static str = r#"">

    <div class="lur-field">
      <label for="lur-summary">Kort sammanfattning</label>
      <p class="lur-hint">En mening som beskriver vad rapporten gäller.</p>
      <input type="text" id="lur-summary" name="summary"
             required minlength=""#;

pub const FORM_TO_SUMMARY_MAX: &'static str = r#"" maxlength=""#;

pub const FORM_TO_BODY_MIN: &'static str = r#"">
    </div>

    <div class="lur-field">
      <label for="lur-body">Beskrivning</label>
      <p class="lur-hint">Var så detaljerad du kan: vad hände, när, vilka var inblandade.</p>
      <textarea id="lur-body" name="body"
                required minlength=""#;

pub const FORM_TO_BODY_MAX: &'static str = r#"" maxlength=""#;

pub const FORM_END: &'static str = r#""></textarea>
    </div>

    <div class="lur-field">
      <label for="lur-severity">Allvarlighetsgrad</label>
      <select id="lur-severity" name="severity">
        <option value="low">Låg</option>
        <option value="medium" selected>Medel</option>
        <option value="high">Hög</option>
        <option value="critical">Kritisk</option>
      </select>
    </div>

    <div class="lur-field">
      <label for="lur-email">E-postadress (valfritt)</label>
      <p class="lur-hint">
        Anges endast om du vill kunna kontaktas. Lämna tomt för att
        rapportera helt anonymt.
      </p>
      <input type="email" id="lur-email" name="reporter_email" maxlength="254">
    </div>

    <input type="hidden" name="channel" value="web">

    <button type="submit">Skicka rapport</button>
  </form>

  <p class="lur-footer">
    Lursystem · Skyddat av lag (2021:890) om skydd för personer
    som rapporterar om missförhållanden.
  </p>
</div>
</body>
</html>
"#;

pub const ERROR_TO_MESSAGE: &'static str = r#"<div class="lur-error" role="alert">"#;

pub const ERROR_END: &'static str = "</div>";

// What is wrong with a report.

pub const SUMMARY_TOO_SHORT: &'static str = "Summary must be at least ";

pub const SUMMARY_TOO_LONG: &'static str = "Summary must be no more than ";

pub const BODY_TOO_SHORT: &'static str = "Description must be at least ";

pub const BODY_TOO_LONG: &'static str = "Description must be no more than ";

pub const CHARACTERS: &'static str = " characters.";

pub const INVALID_SEVERITY: &'static str = "Invalid severity.";

pub const INVALID_CHANNEL: &'static str = "Invalid channel.";

pub const INVALID_EMAIL: &'static str = "Email address looks invalid.";

// The page for a report that was received.

pub const SUCCESS_TO_TOKEN: &'static str = r#"<!doctype html>
<html lang="sv">
<head>
<meta charset="utf-8">
<meta name="viewport" content="width=device-width, initial-scale=1">
<title>Rapport mottagen — Lursystem</title>
<style>
  :root { color-scheme: light; }
  * { box-sizing: border-box; }
  body {
    margin: 0;
    font-family: -apple-system, BlinkMacSystemFont, "Segoe UI", Roboto, sans-serif;
    background: #f4f6f7;
    color: #1c2326;
    font-size: 15px;
    line-height: 1.5;
  }
  .lur-shell {
    max-width: 640px;
    margin: 0 auto;
    padding: 48px 24px 96px;
  }
  .lur-title {
    font-size: 28px;
    font-weight: 600;
    margin: 0 0 12px;
    letter-spacing: -0.01em;
  }
  .lur-intro {
    color: #5d6a72;
    margin: 0 0 24px;
    font-size: 16px;
  }
  .lur-success {
    background: #ecf6f3;
    border-left: 3px solid #0f8c7e;
    padding: 16px 20px;
    margin-bottom: 32px;
    font-size: 15px;
  }
  .lur-token-block {
    background: #ffffff;
    border: 1px solid #dde3e6;
    padding: 24px 28px;
    margin-bottom: 24px;
  }
  .lur-token-label {
    font-weight: 600;
    font-size: 14px;
    margin-bottom: 8px;
  }
  .lur-token {
    font-family: "SF Mono", "JetBrains Mono", Consolas, monospace;
    font-size: 14px;
    background: #f4f6f7;
    padding: 12px 14px;
    word-break: break-all;
    border-radius: 2px;
  }
  .lur-warning {
    color: #4a3a14;
    background: #fcf6e3;
    border-left: 3px solid #c69a3a;
    padding: 14px 18px;
    margin-top: 32px;
    font-size: 14px;
  }
  .lur-footer {
    margin-top: 48px;
    font-size: 13px;
    color: #5d6a72;
  }
</style>
</head>
<body>
<div class="lur-shell">
  <h1 class="lur-title">Rapport mottagen</h1>

  <div class="lur-success" role="status">
    Din rapport har tagits emot och kommer att granskas av
    en utredare. Behandlingen är konfidentiell.
  </div>

  <p class="lur-intro">
    Spara koden nedan. Den är ditt enda sätt att följa upp ärendet
    utan att lämna ut din identitet — vi visar den bara en gång.
  </p>

  <div class="lur-token-block">
    <div class="lur-token-label">Din uppföljningskod</div>
    <div class="lur-token">"#;

pub const SUCCESS_END: &'static str = r#"</div>
  </div>

  <div class="lur-warning" role="note">
    Kopiera koden nu. Den visas inte igen och vi kan inte
    återskapa den.
  </div>

  <p class="lur-footer">
    Lursystem · Skyddat av lag (2021:890) om skydd för personer
    som rapporterar om missförhållanden.
  </p>
</div>
</body>
</html>
"#;

}
