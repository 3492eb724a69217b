//! The public form, where reports come in without an account.
//!
//! A report that is accepted lands in `intake`. The reporter is shown a token
//! once, and may leave an address or stay anonymous.

use rustio_admin::FormData;
use vstd::prelude::*;
use vstd::utf8::encode_utf8;

use crate::encoding::{base64_url, encode_base64_url, random_bytes, sextet_count, url_safe};
use crate::form::{field, field_value, fields_of, query_text, readable, urlencoded_fields};
use crate::handlers::triage::{
    open_case_step, OpenCaseAction, OpenCaseEvent, OpenCaseState, INTAKE,
};
use crate::html::{escape, escaped};
use crate::labels::{channel_label, severity_label};
use crate::markup::public as markup;
use crate::records::NewReport;
use crate::reply::{Reply, OK};
use crate::text::{
    contains_char, decimal, decimal_text, opt_text, same_text, trim, trimmed,
};

verus! {

/// The bytes of a reporter token before they are written as text.
pub const REPORTER_TOKEN_BYTES: usize = 32;

/// The characters of a reporter token.
pub const REPORTER_TOKEN_CHARS: usize = 43;

/// The bytes that a summary has at least and at most.
pub const SUMMARY_MIN: usize = 5;

pub const SUMMARY_MAX: usize = 200;

/// The bytes that a description has at least and at most.
pub const BODY_MIN: usize = 10;

pub const BODY_MAX: usize = 50_000;

/// The bytes that an address has at most.
pub const EMAIL_MAX: usize = 254;

/// The severity and the channel of a form that names none.
pub const DEFAULT_SEVERITY: &'static str = "medium";

pub const DEFAULT_CHANNEL: &'static str = "web";

/// The severities that are accepted.
pub open spec fn is_severity(s: Seq<char>) -> bool {
    s == "low"@ || s == "medium"@ || s == "high"@ || s == "critical"@
}

/// The channels that are accepted.
pub open spec fn is_channel(s: Seq<char>) -> bool {
    s == "web"@ || s == "phone"@ || s == "in_person"@ || s == "email"@
}

/// The fields of the form as they were submitted.
pub struct ReportFields {
    pub summary: Option<String>,
    pub body: Option<String>,
    pub severity: Option<String>,
    pub channel: Option<String>,
    pub reporter_email: Option<String>,
}

/// What a form says of a report.
pub struct Submission {
    pub summary: String,
    pub body: String,
    pub severity: String,
    pub channel: String,
    pub reporter_email: Option<String>,
}

/// A `Submission` by the contents of its texts.
pub struct SubmissionView {
    pub summary: Seq<char>,
    pub body: Seq<char>,
    pub severity: Seq<char>,
    pub channel: Seq<char>,
    pub reporter_email: Option<Seq<char>>,
}

impl View for Submission {
    type V = SubmissionView;

    open spec fn view(&self) -> SubmissionView {
        SubmissionView {
            summary: self.summary@,
            body: self.body@,
            severity: self.severity@,
            channel: self.channel@,
            reporter_email: opt_text(self.reporter_email),
        }
    }
}

/// A field without the white space around it, or what stands for a field that
/// is missing.
pub open spec fn field_or(value: Option<Seq<char>>, default: Seq<char>) -> Seq<char> {
    match value {
        Some(text) => trimmed(text),
        None => trimmed(default),
    }
}

/// A field without the white space around it, if anything is left of it.
pub open spec fn optional_field(value: Option<Seq<char>>) -> Option<Seq<char>> {
    match value {
        Some(text) => if trimmed(text).len() > 0 {
            Some(trimmed(text))
        } else {
            None
        },
        None => None,
    }
}

impl ReportFields {
    /// What the fields say of the report.
    pub open spec fn submission(self) -> SubmissionView {
        SubmissionView {
            summary: field_or(opt_text(self.summary), ""@),
            body: field_or(opt_text(self.body), ""@),
            severity: field_or(opt_text(self.severity), DEFAULT_SEVERITY@),
            channel: field_or(opt_text(self.channel), DEFAULT_CHANNEL@),
            reporter_email: optional_field(opt_text(self.reporter_email)),
        }
    }

    /// Whether these are the fields of some names and values.
    pub open spec fn are(self, fields: Map<Seq<char>, Seq<char>>) -> bool {
        &&& opt_text(self.summary) == field(fields, "summary"@)
        &&& opt_text(self.body) == field(fields, "body"@)
        &&& opt_text(self.severity) == field(fields, "severity"@)
        &&& opt_text(self.channel) == field(fields, "channel"@)
        &&& opt_text(self.reporter_email) == field(fields, "reporter_email"@)
    }

    /// Reads the fields from the body of a request. From a body that was made of
    /// names and values, they are read back.
    pub fn from_body(body: &str) -> (r: ReportFields)
        ensures
            opt_text(r.summary) == field(urlencoded_fields(body@), "summary"@),
            opt_text(r.body) == field(urlencoded_fields(body@), "body"@),
            opt_text(r.severity) == field(urlencoded_fields(body@), "severity"@),
            opt_text(r.channel) == field(urlencoded_fields(body@), "channel"@),
            opt_text(r.reporter_email) == field(urlencoded_fields(body@), "reporter_email"@),
            forall|pairs: Seq<(Seq<char>, Seq<char>)>|
                #[trigger] query_text(pairs) == body@ && (forall|i: int|
                    0 <= i < pairs.len() ==> readable(#[trigger] pairs[i])) ==> r.are(
                    fields_of(pairs),
                ),
    {
        let form = FormData::from_urlencoded(body);
        ReportFields {
            summary: field_value(&form, "summary"),
            body: field_value(&form, "body"),
            severity: field_value(&form, "severity"),
            channel: field_value(&form, "channel"),
            reporter_email: field_value(&form, "reporter_email"),
        }
    }

    /// Takes what the fields say of the report: texts without the white space
    /// around them, `medium` and `web` where a severity or a channel is
    /// missing, and no address where the field is blank.
    pub fn read(&self) -> (r: Submission)
        ensures
            r@ == self.submission(),
    {
        let reporter_email = match &self.reporter_email {
            Some(text) => {
                let email = trim(text.as_str());
                if email.is_empty() {
                    None
                } else {
                    Some(email.to_string())
                }
            },
            None => None,
        };
        Submission {
            summary: trimmed_field(&self.summary, ""),
            body: trimmed_field(&self.body, ""),
            severity: trimmed_field(&self.severity, DEFAULT_SEVERITY),
            channel: trimmed_field(&self.channel, DEFAULT_CHANNEL),
            reporter_email,
        }
    }
}

fn trimmed_field(value: &Option<String>, default: &str) -> (r: String)
    ensures
        r@ == field_or(opt_text(*value), default@),
{
    match value {
        Some(text) => trim(text.as_str()).to_string(),
        None => trim(default).to_string(),
    }
}

/// A message that names a number of characters.
pub open spec fn length_message(start: Seq<char>, limit: int) -> Seq<char> {
    start + decimal(limit) + markup::CHARACTERS@
}

fn length_message_text(start: &str, limit: usize) -> (r: String)
    requires
        limit <= BODY_MAX,
    ensures
        r@ == length_message(start@, limit as int),
{
    let mut out = String::from_str(start);
    out.append(decimal_text(limit as i64).as_str());
    out.append(markup::CHARACTERS);
    out
}

/// The first thing that is wrong with a report, if anything is. Lengths are
/// counted in bytes.
pub open spec fn report_problem(s: SubmissionView) -> Option<Seq<char>> {
    if encode_utf8(s.summary).len() < SUMMARY_MIN {
        Some(length_message(markup::SUMMARY_TOO_SHORT@, SUMMARY_MIN as int))
    } else if encode_utf8(s.summary).len() > SUMMARY_MAX {
        Some(length_message(markup::SUMMARY_TOO_LONG@, SUMMARY_MAX as int))
    } else if encode_utf8(s.body).len() < BODY_MIN {
        Some(length_message(markup::BODY_TOO_SHORT@, BODY_MIN as int))
    } else if encode_utf8(s.body).len() > BODY_MAX {
        Some(length_message(markup::BODY_TOO_LONG@, BODY_MAX as int))
    } else if !is_severity(s.severity) {
        Some(markup::INVALID_SEVERITY@)
    } else if !is_channel(s.channel) {
        Some(markup::INVALID_CHANNEL@)
    } else {
        match s.reporter_email {
            Some(email) => if !email.contains('@') || encode_utf8(email).len() > EMAIL_MAX {
                Some(markup::INVALID_EMAIL@)
            } else {
                None
            },
            None => None,
        }
    }
}

/// Judges what a form says of a report.
pub fn validate(
    summary: &str,
    body: &str,
    severity: &str,
    channel: &str,
    reporter_email: &Option<String>,
) -> (r: Result<(), String>)
    ensures
        match report_problem(
            SubmissionView {
                summary: summary@,
                body: body@,
                severity: severity@,
                channel: channel@,
                reporter_email: opt_text(*reporter_email),
            },
        ) {
            Some(message) => r matches Err(text) && text@ == message,
            None => r is Ok,
        },
{
    if summary.as_bytes().len() < SUMMARY_MIN {
        return Err(length_message_text(markup::SUMMARY_TOO_SHORT, SUMMARY_MIN));
    }
    if summary.as_bytes().len() > SUMMARY_MAX {
        return Err(length_message_text(markup::SUMMARY_TOO_LONG, SUMMARY_MAX));
    }
    if body.as_bytes().len() < BODY_MIN {
        return Err(length_message_text(markup::BODY_TOO_SHORT, BODY_MIN));
    }
    if body.as_bytes().len() > BODY_MAX {
        return Err(length_message_text(markup::BODY_TOO_LONG, BODY_MAX));
    }
    if !same_text(severity, "low") && !same_text(severity, "medium") && !same_text(severity, "high")
        && !same_text(severity, "critical") {
        return Err(markup::INVALID_SEVERITY.to_string());
    }
    if !same_text(channel, "web") && !same_text(channel, "phone") && !same_text(
        channel,
        "in_person",
    ) && !same_text(channel, "email") {
        return Err(markup::INVALID_CHANNEL.to_string());
    }
    if let Some(email) = reporter_email {
        if !contains_char(email.as_str(), '@') || email.as_str().as_bytes().len() > EMAIL_MAX {
            return Err(markup::INVALID_EMAIL.to_string());
        }
    }
    Ok(())
}

/// The box that says what is wrong with the report.
pub open spec fn error_box(error: Option<Seq<char>>) -> Seq<char> {
    match error {
        Some(message) => markup::ERROR_TO_MESSAGE@
        + escaped(message)
        + markup::ERROR_END@,
        None => Seq::empty(),
    }
}

/// The page with the form.
pub open spec fn form_page(csrf: Seq<char>, error: Option<Seq<char>>) -> Seq<char> {
    markup::FORM_TO_ERROR@
        + error_box(error)
        + markup::FORM_TO_CSRF@
        + escaped(csrf)
        + markup::FORM_TO_SUMMARY_MIN@
        + decimal(SUMMARY_MIN as int)
        + markup::FORM_TO_SUMMARY_MAX@
        + decimal(SUMMARY_MAX as int)
        + markup::FORM_TO_BODY_MIN@
        + decimal(BODY_MIN as int)
        + markup::FORM_TO_BODY_MAX@
        + decimal(BODY_MAX as int)
        + markup::FORM_END@
}

/// The page for a report that was received, with the token.
pub open spec fn success_page(token: Seq<char>) -> Seq<char> {
    markup::SUCCESS_TO_TOKEN@
        + escaped(token)
        + markup::SUCCESS_END@
}

/// Renders the form.
pub fn render_form(csrf: &str, error: Option<&str>) -> (r: String)
    ensures
        r@ == form_page(
            csrf@,
            match error {
                Some(message) => Some(message@),
                None => None,
            },
        ),
{
    let error_html = match error {
        Some(message) => {
            let mut text = String::from_str(markup::ERROR_TO_MESSAGE);
            text.append(escape(message).as_str());
            text.append(markup::ERROR_END);
            text
        },
        None => String::new(),
    };
    let mut out = String::from_str(markup::FORM_TO_ERROR);
    out.append(error_html.as_str());
    out.append(markup::FORM_TO_CSRF);
    out.append(escape(csrf).as_str());
    out.append(markup::FORM_TO_SUMMARY_MIN);
    out.append(decimal_text(SUMMARY_MIN as i64).as_str());
    out.append(markup::FORM_TO_SUMMARY_MAX);
    out.append(decimal_text(SUMMARY_MAX as i64).as_str());
    out.append(markup::FORM_TO_BODY_MIN);
    out.append(decimal_text(BODY_MIN as i64).as_str());
    out.append(markup::FORM_TO_BODY_MAX);
    out.append(decimal_text(BODY_MAX as i64).as_str());
    out.append(markup::FORM_END);
    out
}

/// Renders the page for a report that was received.
pub fn render_success(token: &str) -> (r: String)
    ensures
        r@ == success_page(token@),
{
    let mut out = String::from_str(markup::SUCCESS_TO_TOKEN);
    out.append(escape(token).as_str());
    out.append(markup::SUCCESS_END);
    out
}

/// The token that some random bytes make.
pub fn reporter_token(bytes: &[u8]) -> (r: String)
    requires
        sextet_count(bytes@.len() as int) <= isize::MAX,
    ensures
        r@ == base64_url(bytes@),
{
    encode_base64_url(bytes)
}

/// Makes a new reporter token out of fresh random bytes.
pub fn generate_reporter_token() -> (r: String)
    ensures
        is_reporter_token(r@),
{
    let bytes = random_bytes(REPORTER_TOKEN_BYTES);
    assert(sextet_count(32) == 43) by (nonlinear_arith);
    reporter_token(bytes.as_slice())
}

/// Whether a text is the token of as many bytes as a reporter token has.
pub open spec fn is_reporter_token(token: Seq<char>) -> bool {
    exists|bytes: Seq<u8>|
        bytes.len() == REPORTER_TOKEN_BYTES && token == #[trigger] base64_url(bytes)
}

/// Whether a reply answers a request for the form.
pub open spec fn is_form_reply(csrf: Seq<char>, reply: Reply) -> bool {
    reply.is_page(OK, form_page(csrf, None))
}

/// Answers a request for the form.
pub fn show_report_form(csrf: &str) -> (r: Reply)
    ensures
        is_form_reply(csrf@, r),
{
    Reply::html(render_form(csrf, None))
}

/// Judges a form: what it says of the report, or the form once more with the
/// first thing that is wrong.
pub fn check_submission(csrf: &str, fields: &ReportFields) -> (r: Result<Submission, Reply>)
    ensures
        match report_problem(fields.submission()) {
            Some(message) => r matches Err(reply) && reply.is_page(
                OK,
                form_page(csrf@, Some(message)),
            ),
            None => r matches Ok(submission) && submission@ == fields.submission(),
        },
{
    let submission = fields.read();
    match validate(
        submission.summary.as_str(),
        submission.body.as_str(),
        submission.severity.as_str(),
        submission.channel.as_str(),
        &submission.reporter_email,
    ) {
        Err(message) => Err(Reply::html(render_form(csrf, Some(message.as_str())))),
        Ok(()) => Ok(submission),
    }
}

/// The row for a report that was accepted: the submission, in intake, with its
/// token.
pub open spec fn is_report_of(report: NewReport, s: SubmissionView, token: Seq<char>) -> bool {
    report.holds(s.summary, s.body, s.severity, s.channel, INTAKE@, s.reporter_email, token)
}

/// Makes the row for a report that was accepted.
pub fn new_report(submission: Submission, token: String) -> (r: NewReport)
    ensures
        is_report_of(r, submission@, token@),
{
    NewReport {
        summary: submission.summary,
        body: submission.body,
        severity: submission.severity,
        channel: submission.channel,
        status: INTAKE.to_string(),
        reporter_email: submission.reporter_email,
        reporter_token: token,
    }
}

/// What to do with a report that was submitted.
pub enum SubmitReport {
    /// Answer without writing anything.
    Answer(Reply),
    /// Write the report, and show its token.
    StoreReport(NewReport),
}

/// Whether a plan is the one for some submission: a report with anything wrong
/// is answered with the form and is not written; any other is written as it was
/// submitted, in intake, under a token.
pub open spec fn is_submit_plan(plan: SubmitReport, csrf: Seq<char>, s: SubmissionView) -> bool {
    match report_problem(s) {
        Some(message) => plan matches SubmitReport::Answer(reply) && reply.is_page(
            OK,
            form_page(csrf, Some(message)),
        ),
        None => plan matches SubmitReport::StoreReport(report) && is_report_of(
            report,
            s,
            report.reporter_token@,
        ) && is_reporter_token(report.reporter_token@),
    }
}

/// Processes the fields of a form.
pub fn submit_fields(csrf: &str, fields: &ReportFields) -> (r: SubmitReport)
    ensures
        is_submit_plan(r, csrf@, fields.submission()),
{
    match check_submission(csrf, fields) {
        Err(reply) => SubmitReport::Answer(reply),
        Ok(submission) => {
            let token = generate_reporter_token();
            SubmitReport::StoreReport(new_report(submission, token))
        },
    }
}

/// What the body of a request says of a report.
pub open spec fn body_submission(body: Seq<char>) -> SubmissionView {
    let fields = urlencoded_fields(body);
    SubmissionView {
        summary: field_or(field(fields, "summary"@), ""@),
        body: field_or(field(fields, "body"@), ""@),
        severity: field_or(field(fields, "severity"@), DEFAULT_SEVERITY@),
        channel: field_or(field(fields, "channel"@), DEFAULT_CHANNEL@),
        reporter_email: optional_field(field(fields, "reporter_email"@)),
    }
}

/// Processes the body of a request that submits the form.
pub fn do_submit_report(csrf: &str, body: &str) -> (r: SubmitReport)
    ensures
        is_submit_plan(r, csrf@, body_submission(body@)),
{
    let fields = ReportFields::from_body(body);
    submit_fields(csrf, &fields)
}

/// Whether a reply answers for a report that was written.
pub open spec fn is_success_reply(report: NewReport, reply: Reply) -> bool {
    reply.is_page(OK, success_page(report.reporter_token@))
}

/// Answers once a report was written: with its token, and nothing else of it.
pub fn submit_report_reply(report: &NewReport) -> (r: Reply)
    ensures
        is_success_reply(*report, r),
{
    Reply::html(render_success(report.reporter_token.as_str()))
}

/// A reporter token has 43 characters, and they are letters, digits, `-` and
/// `_`.
pub proof fn law_reporter_token_shape(token: Seq<char>)
    requires
        is_reporter_token(token),
    ensures
        token.len() == REPORTER_TOKEN_CHARS,
        forall|i: int| 0 <= i < token.len() ==> url_safe(#[trigger] token[i]),
{
    let bytes = choose|bytes: Seq<u8>|
        bytes.len() == REPORTER_TOKEN_BYTES && token == #[trigger] base64_url(bytes);
    crate::encoding::law_base64_url_alphabet(bytes);
    assert(sextet_count(32) == 43) by (nonlinear_arith);
}

/// A reporter token stands on the page as it is: nothing of it is escaped.
pub proof fn law_reporter_token_is_shown_as_it_is(token: Seq<char>)
    requires
        is_reporter_token(token),
    ensures
        escaped(token) == token,
{
    law_reporter_token_shape(token);
    crate::html::lemma_escaped_plain(token);
}

/// The severity and the channel of a report that is accepted have labels of
/// their own on the pages of the operators.
pub proof fn law_accepted_values_have_labels(s: SubmissionView)
    requires
        report_problem(s) is None,
    ensures
        severity_label(s.severity) != "Okänd"@,
        channel_label(s.channel) != "Okänd"@,
{
    reveal_strlit("Okänd");
    reveal_strlit("Låg");
    reveal_strlit("Medel");
    reveal_strlit("Hög");
    reveal_strlit("Kritisk");
    reveal_strlit("Webb");
    reveal_strlit("Telefon");
    reveal_strlit("Personlig");
    reveal_strlit("E-post");
    let unknown = "Okänd"@;
    assert(unknown[0] == 'O');
    assert("Låg"@[0] == 'L' && "Medel"@[0] == 'M' && "Hög"@[0] == 'H' && "Kritisk"@[0] == 'K');
    assert("Webb"@[0] == 'W' && "Telefon"@[0] == 'T' && "Personlig"@[0] == 'P' && "E-post"@[0]
        == 'E');
}

/// A report that was accepted is one that a case can be opened for: the status
/// that it is written with is the one that triage asks for.
pub proof fn law_accepted_report_can_be_opened(
    report: NewReport,
    s: SubmissionView,
    report_id: i64,
    actor_id: i64,
    status: String,
    next: OpenCaseState,
    action: OpenCaseAction,
)
    requires
        is_report_of(report, s, report.reporter_token@),
        status@ == report.status@,
        open_case_step(
            report_id,
            OpenCaseState::Reading { actor_id },
            OpenCaseEvent::ReportStatus(Some(status)),
            next,
            action,
        ),
    ensures
        action is WriteCase,
{
}

}
