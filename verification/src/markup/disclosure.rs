//! The fixed text of the disclosure pages, in pieces that each reach to the value
//! that follows it.

use vstd::prelude::*;

verus! {

// The form that asks for the reason.

pub const FORM_TO_CASE_ID: &'static str = r#"<!doctype html>
<html lang="sv">
<head>
<meta charset="utf-8">
<meta name="viewport" content="width=device-width, initial-scale=1">
<title>Identitetsupplysning — Ärende #"#;

pub const FORM_TO_CSS: &'static str = r#" — Lursystem</title>
<style>"#;

pub const FORM_TO_ACTOR: &'static str = r#"</style>
</head>
<body>
<header class="lur-op-header">
  <div class="lur-op-shell">
    <span class="lur-op-brand">Lursystem · Operatörsgränssnitt</span>
    <span class="lur-op-actor">Inloggad som <strong>"#;

pub const FORM_TO_CASE_ID_2: &'static str = r#"</strong>
      · <a href="/admin/cases/"#;

pub const FORM_TO_CASE_ID_3: &'static str = r#"/work">← Ärende #"#;

pub const FORM_TO_CASE_ID_4: &'static str = r#"</a>
      · <a href="/admin/logout">Logga ut</a></span>
  </div>
</header>

<main class="lur-op-shell lur-op-detail">
  <h1 class="lur-op-title">Begär identitetsupplysning</h1>
  <p class="lur-lede">Ärende #"#;

pub const FORM_TO_ACTOR_2: &'static str = r#". När du bekräftar nedan
  skrivs en oåterkallelig logg som kopplar dig till denna
  identitetsläsning. Reporterns e-postadress visas på följande
  sida.</p>

  <section class="lur-section lur-section-warn">
    <h2>Detta loggas oåterkalleligt</h2>
    <ul class="lur-warn-list">
      <li>Din användare (<strong>"#;

pub const FORM_TO_ERROR: &'static str = r#"</strong>) registreras som
      den som begärt upplysningen.</li>
      <li>Motiveringen sparas ordagrant i loggen.</li>
      <li>Loggraden kan inte raderas. Tillsynsmyndigheten kan
      begära den vid revision.</li>
      <li>Visningen sker en gång. Om du behöver e-postadressen
      igen krävs en ny begäran med ny motivering — varje läsning
      loggas.</li>
    </ul>
  </section>

  "#;

pub const FORM_TO_CASE_ID_5: &'static str = r#"

  <section class="lur-section">
    <h2>Motivering</h2>
    <form method="post" action="/admin/cases/"#;

pub const FORM_TO_CSRF: &'static str = r#"/disclose" class="lur-disclose-form">
      <input type="hidden" name="_csrf" value=""#;

pub const FORM_TO_MIN: &'static str = r#"">
      <label for="reason" class="lur-form-label">
        Ange varför du behöver läsa reporterns identitet
        (minst "#;

pub const FORM_TO_MAX: &'static str = " tecken, högst ";

pub const FORM_TO_MIN_2: &'static str = r#").
      </label>
      <textarea id="reason" name="reason" rows="6" required
                minlength=""#;

pub const FORM_TO_MAX_2: &'static str = r#"" maxlength=""#;

pub const FORM_TO_CASE_ID_6: &'static str = r#""
                placeholder="Exempel: Reportern har bett att bli kontaktad direkt enligt e-postsignatur i rapporten."></textarea>
      <div class="lur-form-actions">
        <a href="/admin/cases/"#;

pub const FORM_END: &'static str = r#"/work" class="lur-cancel">Avbryt</a>
        <button type="submit">Bekräfta och visa identitet</button>
      </div>
    </form>
  </section>
</main>
</body>
</html>
"#;

pub const ERROR_TO_MESSAGE: &'static str = r#"<div class="lur-error">"#;

pub const ERROR_END: &'static str = "</div>";

// What is wrong with a reason.

pub const TOO_SHORT_TO_MIN: &'static str = "Ange en motivering på minst ";

pub const TOO_SHORT_END: &'static str = " tecken. Motiveringen är en regulatorisk del av loggen.";

pub const TOO_LONG_TO_MAX: &'static str = "Motiveringen får vara högst ";

pub const TOO_LONG_END: &'static str = " tecken. Korta ned och försök igen.";

// The page that shows the reporter's address.

pub const RESULT_TO_CASE_ID: &'static str = r#"<!doctype html>
<html lang="sv">
<head>
<meta charset="utf-8">
<meta name="viewport" content="width=device-width, initial-scale=1">
<title>Identitet visad — Ärende #"#;

pub const RESULT_TO_CSS: &'static str = r#" — Lursystem</title>
<style>"#;

pub const RESULT_TO_ACTOR: &'static str = r#"</style>
</head>
<body>
<header class="lur-op-header">
  <div class="lur-op-shell">
    <span class="lur-op-brand">Lursystem · Operatörsgränssnitt</span>
    <span class="lur-op-actor">Inloggad som <strong>"#;

pub const RESULT_TO_CASE_ID_2: &'static str = r#"</strong>
      · <a href="/admin/cases/"#;

pub const RESULT_TO_CASE_ID_3: &'static str = r#"/work">← Ärende #"#;

pub const RESULT_TO_CASE_ID_4: &'static str = r#"</a>
      · <a href="/admin/logout">Logga ut</a></span>
  </div>
</header>

<main class="lur-op-shell lur-op-detail">
  <h1 class="lur-op-title">Identitet visad</h1>
  <p class="lur-lede">Ärende #"#;

pub const RESULT_TO_REPORTER: &'static str = r#". Loggraden är skriven och
  kan inte ångras. Notera adressen nu — vid behov av ny visning
  krävs en ny begäran.</p>

  <section class="lur-section lur-section-disclose">
    <h2>Reporterns e-post</h2>
    <p class="lur-disclose-email">"#;

pub const RESULT_TO_REASON: &'static str = r#"</p>
  </section>

  <section class="lur-section">
    <h2>Loggad motivering</h2>
    <pre class="lur-disclose-reason">"#;

pub const RESULT_TO_CASE_ID_5: &'static str = r#"</pre>
  </section>

  <section class="lur-section">
    <h2>Vad händer nu</h2>
    <p>Händelsen <em>Identitet avslöjad</em> finns nu i ärendets
    historik på arbetsytan. Den kan granskas av revisor men inte
    raderas.</p>
    <p><a class="lur-cta" href="/admin/cases/"#;

pub const RESULT_TO_CASE_ID_6: &'static str = r#"/work">→ Återgå till ärende #"#;

pub const RESULT_END: &'static str = r#"</a></p>
  </section>
</main>
</body>
</html>
"#;

// The page for a report that was left without an address.

pub const STUB_TO_CASE_ID: &'static str = r#"<!doctype html>
<html lang="sv">
<head>
<meta charset="utf-8">
<meta name="viewport" content="width=device-width, initial-scale=1">
<title>Anonym rapport — Ärende #"#;

pub const STUB_TO_CSS: &'static str = r#" — Lursystem</title>
<style>"#;

pub const STUB_TO_ACTOR: &'static str = r#"</style>
</head>
<body>
<header class="lur-op-header">
  <div class="lur-op-shell">
    <span class="lur-op-brand">Lursystem · Operatörsgränssnitt</span>
    <span class="lur-op-actor">Inloggad som <strong>"#;

pub const STUB_TO_CASE_ID_2: &'static str = r#"</strong>
      · <a href="/admin/cases/"#;

pub const STUB_TO_CASE_ID_3: &'static str = r#"/work">← Ärende #"#;

pub const STUB_TO_CASE_ID_4: &'static str = r#"</a>
      · <a href="/admin/logout">Logga ut</a></span>
  </div>
</header>

<main class="lur-op-shell lur-op-detail">
  <h1 class="lur-op-title">Anonym rapport</h1>
  <section class="lur-section">
    <p>Reportern har inte angett någon e-postadress. Det finns
    ingen identitet att avslöja för ärende #"#;

pub const STUB_TO_CASE_ID_5: &'static str = r#".</p>
    <p><a class="lur-cta" href="/admin/cases/"#;

pub const STUB_END: &'static str = r#"/work">→ Återgå till ärendet</a></p>
  </section>
</main>
</body>
</html>
"#;

// The page for a case that does not exist.

pub const NOT_FOUND_TO_CSS: &'static str = r#"<!doctype html>
<html lang="sv">
<head>
<meta charset="utf-8">
<title>Ärende saknas — Lursystem</title>
<style>"#;

pub const NOT_FOUND_END: &'static str = r#"</style>
</head>
<body>
<main class="lur-op-shell">
  <h1 class="lur-op-title">Ärende saknas</h1>
  <p class="lur-muted">Det finns inget ärende med den ID:n.</p>
  <p><a href="/admin/triage">← Tillbaka till triage</a></p>
</main>
</body>
</html>
"#;

/// The style sheet of the page.
pub const OPERATOR_CSS: &'static str = r#"
:root { color-scheme: light; }
* { box-sizing: border-box; }
body {
  margin: 0;
  font-family: -apple-system, BlinkMacSystemFont, "Segoe UI", Roboto, sans-serif;
  background: #f4f6f7;
  color: #1c2326;
  font-size: 14px;
  line-height: 1.5;
}
.lur-op-header {
  background: #0e1f1e;
  color: #d9e3e1;
  border-bottom: 1px solid #0a1716;
}
.lur-op-shell {
  max-width: 1100px;
  margin: 0 auto;
  padding: 14px 28px;
  display: flex;
  align-items: center;
  justify-content: space-between;
  font-size: 13px;
}
.lur-op-brand {
  font-weight: 600;
  letter-spacing: 0.02em;
}
.lur-op-actor a {
  color: #6dd6c4;
  text-decoration: none;
  margin-left: 4px;
}
.lur-op-actor a:hover { text-decoration: underline; }
main.lur-op-shell {
  display: block;
  background: transparent;
  padding-top: 32px;
  padding-bottom: 96px;
}
main.lur-op-detail { max-width: 720px; }
.lur-op-title {
  font-size: 26px;
  font-weight: 600;
  margin: 0 0 8px;
  letter-spacing: -0.01em;
}
.lur-lede {
  margin: 0 0 28px;
  font-size: 14px;
  color: #3a464d;
  max-width: 620px;
}
.lur-muted { color: #5d6a72; }
.lur-section {
  background: #ffffff;
  border: 1px solid #dde3e6;
  padding: 24px 28px;
  margin-bottom: 16px;
}
.lur-section h2 {
  font-size: 13px;
  text-transform: uppercase;
  letter-spacing: 0.06em;
  color: #5d6a72;
  font-weight: 600;
  margin: 0 0 16px;
}
.lur-section-warn {
  background: #fdf8e8;
  border-color: #e6d18a;
}
.lur-section-warn h2 { color: #6d5108; }
.lur-warn-list {
  margin: 0;
  padding: 0 0 0 20px;
}
.lur-warn-list li {
  margin: 0 0 8px;
  font-size: 14px;
  color: #4a3a14;
}
.lur-warn-list li:last-child { margin-bottom: 0; }
.lur-error {
  background: #fbe7e2;
  border: 1px solid #d4604a;
  color: #6a1d10;
  padding: 14px 18px;
  font-size: 14px;
  margin-bottom: 16px;
  border-radius: 2px;
}
.lur-form-label {
  display: block;
  font-size: 13px;
  color: #3a464d;
  margin-bottom: 10px;
}
.lur-disclose-form textarea {
  width: 100%;
  padding: 10px 12px;
  border: 1px solid #c9d1d6;
  background: #fafbfc;
  font: inherit;
  font-size: 14px;
  color: inherit;
  border-radius: 2px;
  resize: vertical;
  min-height: 128px;
  margin-bottom: 16px;
}
.lur-form-actions {
  display: flex;
  gap: 12px;
  align-items: center;
  justify-content: flex-end;
}
.lur-form-actions button {
  background: #c69a3a;
  color: #ffffff;
  border: 0;
  padding: 10px 20px;
  font: inherit;
  font-size: 14px;
  font-weight: 600;
  cursor: pointer;
  border-radius: 2px;
}
.lur-form-actions button:hover { background: #a47e26; }
.lur-cancel {
  color: #5d6a72;
  text-decoration: none;
  font-size: 13px;
}
.lur-cancel:hover { color: #0a6e62; text-decoration: underline; }
.lur-section-disclose {
  background: #ecf6f3;
  border-color: #4ea99a;
}
.lur-section-disclose h2 { color: #0a6e62; }
.lur-disclose-email {
  margin: 0;
  font-family: ui-monospace, SFMono-Regular, Menlo, Consolas, monospace;
  font-size: 20px;
  font-weight: 600;
  color: #0a3d36;
  word-break: break-all;
  padding: 4px 0;
}
.lur-disclose-reason {
  margin: 0;
  font-family: inherit;
  white-space: pre-wrap;
  word-wrap: break-word;
  font-size: 14px;
  line-height: 1.6;
  background: #fafbfc;
  padding: 14px 16px;
  border-radius: 2px;
  border: 1px solid #eef2f3;
}
.lur-cta {
  display: inline-block;
  margin-top: 8px;
  color: #0a6e62;
  font-weight: 600;
  text-decoration: none;
}
.lur-cta:hover { text-decoration: underline; }
a { color: #0a6e62; }
"#;

}
