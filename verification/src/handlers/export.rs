//! The signed export of the audit trail for a range of dates.
//!
//! The export holds every report, case, case action and disclosure of the range,
//! and neither the addresses nor the tokens of reporters. Compliance leads get the
//! reports with their bodies; auditors, who see what a case is about and not what
//! was written, get them without. It is signed with HMAC-SHA256 over the compact
//! JSON text of the payload, so that whoever has the secret can tell whether the
//! file was edited since.
//!
//! The order in which the fields of the payload are declared is the order in
//! which they are signed.

use rustio_admin::FormData;
use vstd::prelude::*;
use vstd::utf8::encode_utf8;

use crate::auth_helper::{
    includes, refusal, require_role, role_includes, AccessGuard, Identity, Role,
};
use crate::encoding::{authenticate, base64_standard, encode_base64_standard, hmac_sha256};
use crate::form::{field, field_value, urlencoded_fields};
use crate::html::{escape, escaped};
use crate::markup::export as markup;
use crate::models::report::ReportView;
use crate::models::{Value, ValueView};
use crate::reply::{Fault, Reply, BAD_REQUEST};
use crate::statement::{
    compares, is_key, law_select_gives_no_row_twice, law_select_gives_what_is_asked, meets, Comparison,
    Condition, ConditionView, Select, SelectView, Statement,
};
use crate::text::opt_text;
use crate::time::{
    day_of, day_text, format_day, later, law_whole_days, midnight, midnight_utc, next_day,
    parse_day, parsed_date, utc_now, Timestamp, COMPACT_DATE_PATTERN, DATE_PATTERN, MAX_DAY,
    MIN_DAY,
};

verus! {

/// The role that may have the trail exported.
pub const MIN_ROLE: Role = Role::Supervisor;

/// The role that gets the bodies of the reports.
pub const BODY_ROLE: Role = Role::Administrator;

/// The version of the payload. It changes with the fields of the payload. A body
/// that is withheld is written as an empty text, so that each field holds the same
/// type of value whoever an export is for.
pub const EXPORT_VERSION: u32 = 1;

/// The most days that the last date may lie behind the first: a year and a
/// month or so.
pub const MAX_RANGE_DAYS: i64 = 14 * 31;

/// The bytes that the secret has at least.
pub const SECRET_MIN: usize = 32;

/// The name of the system in an export.
pub const SYSTEM: &'static str = "lursystem";

pub const ALGORITHM: &'static str = "HMAC-SHA256";

pub const SCOPE: &'static str = "payload (compact serde_json encoding)";

pub const CONTENT_TYPE: &'static str = "application/json; charset=utf-8";

/// Escapes a text for use in the page.
pub fn html_escape(input: &str) -> (r: String)
    ensures
        r@ == escaped(input@),
{
    escape(input)
}

/// The page for a request that cannot be served.
pub open spec fn bad_request_page(message: Seq<char>) -> Seq<char> {
    markup::BAD_REQUEST_TO_MESSAGE@
        + escaped(message)
        + markup::BAD_REQUEST_END@
}

/// Answers that a request cannot be served.
pub fn bad_request(message: &str) -> (r: Reply)
    ensures
        r.is_page(BAD_REQUEST, bad_request_page(message@)),
{
    let mut out = String::from_str(markup::BAD_REQUEST_TO_MESSAGE);
    out.append(html_escape(message).as_str());
    out.append(markup::BAD_REQUEST_END);
    Reply::Html { status: BAD_REQUEST, body: out }
}

/// A request for an export that can be served.
pub struct ExportRequest {
    /// Who asked for the export.
    pub actor: Identity,
    /// First and last day of the range, counted from 1970-01-01.
    pub from_day: i32,
    pub to_day: i32,
    /// The first instant of the range, and the first instant behind it.
    pub from_ts: Timestamp,
    pub to_ts_exclusive: Timestamp,
}

/// What to do for a request for an export.
pub enum ExportPlan {
    /// Answer without reading anything.
    Answer(Reply),
    /// Give up without reading anything.
    Fail(Fault),
    /// Read the rows of the range.
    LoadRows(ExportRequest),
}

/// The first thing that is wrong with the dates of a request, if anything is.
pub open spec fn range_problem(from: Option<int>, to: Option<int>) -> Option<Seq<char>> {
    match (from, to) {
        (None, _) => Some(markup::INVALID_FROM@),
        (Some(_), None) => Some(markup::INVALID_TO@),
        (Some(first), Some(last)) => if last < first {
            Some(markup::TO_BEFORE_FROM@)
        } else if last - first > MAX_RANGE_DAYS {
            Some(markup::TOO_WIDE@)
        } else {
            None
        },
    }
}

/// A day that was read, if one was.
pub open spec fn opt_day(day: Option<i32>) -> Option<int> {
    match day {
        Some(d) => Some(d as int),
        None => None,
    }
}

/// Whether a plan is the one for a caller and two dates.
pub open spec fn is_plan(
    plan: ExportPlan,
    actor: Identity,
    from: Option<int>,
    to: Option<int>,
) -> bool {
    match range_problem(from, to) {
        Some(message) => plan matches ExportPlan::Answer(reply) && reply.is_page(
            BAD_REQUEST,
            bad_request_page(message),
        ),
        None => if to == Some(MAX_DAY as int) {
            plan matches ExportPlan::Fail(Fault::BadRequest(text)) && text@ == markup::NO_NEXT_DAY@
        } else {
            &&& plan matches ExportPlan::LoadRows(request)
            &&& request.actor == actor
            &&& from == Some(request.from_day as int)
            &&& to == Some(request.to_day as int)
            &&& request.wf()
        },
    }
}

impl ExportRequest {
    /// The days of the range lie in order, not too far apart, and the instants
    /// go from the first instant of the first day to the first instant behind
    /// the last day.
    pub open spec fn wf(self) -> bool {
        &&& MIN_DAY <= self.from_day <= self.to_day < MAX_DAY
        &&& self.to_day - self.from_day <= MAX_RANGE_DAYS
        &&& self.from_ts@ == midnight(self.from_day as int)
        &&& self.to_ts_exclusive@ == midnight(self.to_day + 1)
    }
}

/// Decides on a request from the dates that were read from it.
pub fn export_plan(actor: Identity, from: Option<i32>, to: Option<i32>) -> (r: ExportPlan)
    requires
        from matches Some(day) ==> MIN_DAY <= day <= MAX_DAY,
        to matches Some(day) ==> MIN_DAY <= day <= MAX_DAY,
    ensures
        is_plan(r, actor, opt_day(from), opt_day(to)),
{
    let from_day: i32 = match from {
        Some(day) => day,
        None => return ExportPlan::Answer(bad_request(markup::INVALID_FROM)),
    };
    let to_day: i32 = match to {
        Some(day) => day,
        None => return ExportPlan::Answer(bad_request(markup::INVALID_TO)),
    };
    if to_day < from_day {
        return ExportPlan::Answer(bad_request(markup::TO_BEFORE_FROM));
    }
    let span_days: i64 = to_day as i64 - from_day as i64;
    if span_days > MAX_RANGE_DAYS {
        return ExportPlan::Answer(bad_request(markup::TOO_WIDE));
    }
    let from_ts = midnight_utc(from_day);
    match next_day(to_day) {
        None => ExportPlan::Fail(Fault::BadRequest(markup::NO_NEXT_DAY.to_string())),
        Some(day) => {
            let to_ts_exclusive = midnight_utc(day);
            ExportPlan::LoadRows(
                ExportRequest { actor, from_day, to_day, from_ts, to_ts_exclusive },
            )
        },
    }
}

/// The day that a field of a query string holds, if it holds one. A field that
/// is missing counts as empty.
pub open spec fn query_day(query: Seq<char>, name: Seq<char>) -> Option<int> {
    parsed_date(
        match field(urlencoded_fields(query), name) {
            Some(text) => text,
            None => ""@,
        },
        DATE_PATTERN@,
    )
}

fn day_field(form: &FormData, name: &str) -> (r: Option<i32>)
    ensures
        opt_day(r) == parsed_date(
            match field(crate::form::form_fields(*form), name@) {
                Some(text) => text,
                None => ""@,
            },
            DATE_PATTERN@,
        ),
        r matches Some(day) ==> MIN_DAY <= day <= MAX_DAY,
{
    match field_value(form, name) {
        Some(text) => parse_day(text.as_str(), DATE_PATTERN),
        None => parse_day("", DATE_PATTERN),
    }
}

/// Whether a plan is the one for a request for an export, from its session and its
/// query string.
pub open spec fn is_export_plan(
    session: Option<Identity>,
    query: Seq<char>,
    plan: ExportPlan,
) -> bool {
    match refusal(session, MIN_ROLE) {
        Some(path) => plan matches ExportPlan::Answer(reply) && reply.is_redirect(path),
        None => is_plan(plan, session->0, query_day(query, "from"@), query_day(query, "to"@)),
    }
}

/// Begins a request for an export: auditors and those above them go on with the
/// dates of the query, anyone else is sent elsewhere.
pub fn do_export(session: Option<Identity>, query: &str) -> (r: ExportPlan)
    ensures
        is_export_plan(session, query@, r),
{
    match require_role(session, MIN_ROLE) {
        AccessGuard::Redirect(reply) => ExportPlan::Answer(reply),
        AccessGuard::Allow(actor) => {
            let form = FormData::from_urlencoded(query);
            let from = day_field(&form, "from");
            let to = day_field(&form, "to");
            export_plan(actor, from, to)
        },
    }
}

/// The statement that reads the rows of a range from a source: those whose instant
/// lies in the range, by rising id.
pub open spec fn range_select(
    columns: Seq<char>,
    source: Seq<char>,
    instant: Seq<char>,
    key: Seq<char>,
    request: ExportRequest,
) -> SelectView {
    SelectView {
        columns,
        source,
        conditions: seq![
            ConditionView {
                column: instant,
                comparison: Comparison::AtLeast,
                value: ValueView::DateTime(request.from_ts@),
            },
            ConditionView {
                column: instant,
                comparison: Comparison::Before,
                value: ValueView::DateTime(request.to_ts_exclusive@),
            },
        ],
        order: key,
        descending: false,
    }
}

fn range_query(
    columns: &'static str,
    source: &'static str,
    instant: &'static str,
    key: &'static str,
    request: &ExportRequest,
) -> (r: Statement)
    ensures
        r.is(
            range_select(columns@, source@, instant@, key@, *request).rows_text(),
            range_select(columns@, source@, instant@, key@, *request).values(),
        ),
{
    let from = Condition {
        column: instant,
        comparison: Comparison::AtLeast,
        value: Value::DateTime(request.from_ts.copy()),
    };
    let to = Condition {
        column: instant,
        comparison: Comparison::Before,
        value: Value::DateTime(request.to_ts_exclusive.copy()),
    };
    let select = Select { columns, source, conditions: vec![from, to], order: key, descending: false };
    assert(select@.conditions =~= range_select(
        columns@,
        source@,
        instant@,
        key@,
        *request,
    ).conditions);
    select.rows()
}

/// The statement that reads the reports of an export.
pub open spec fn reports_select(request: ExportRequest) -> SelectView {
    range_select(markup::REPORT_COLUMNS@, markup::REPORT_SOURCE@, "submitted_at"@, "id"@, request)
}

/// The statement that reads the cases of an export.
pub open spec fn cases_select(request: ExportRequest) -> SelectView {
    range_select(markup::CASE_COLUMNS@, markup::CASE_SOURCE@, "opened_at"@, "id"@, request)
}

/// The statement that reads the case actions of an export.
pub open spec fn case_actions_select(request: ExportRequest) -> SelectView {
    range_select(
        markup::CASE_ACTION_COLUMNS@,
        markup::CASE_ACTION_SOURCE@,
        "ca.created_at"@,
        "ca.id"@,
        request,
    )
}

/// The statement that reads the disclosures of an export.
pub open spec fn disclosures_select(request: ExportRequest) -> SelectView {
    range_select(
        markup::DISCLOSURE_COLUMNS@,
        markup::DISCLOSURE_SOURCE@,
        "d.disclosed_at"@,
        "d.id"@,
        request,
    )
}

/// The statements that read the rows of an export.
pub struct ExportQuery {
    pub reports: Statement,
    pub cases: Statement,
    pub case_actions: Statement,
    pub disclosures: Statement,
}

impl ExportQuery {
    /// Whether these are the statements for a request.
    pub open spec fn is_for(self, request: ExportRequest) -> bool {
        &&& self.reports.is(reports_select(request).rows_text(), reports_select(request).values())
        &&& self.cases.is(cases_select(request).rows_text(), cases_select(request).values())
        &&& self.case_actions.is(
            case_actions_select(request).rows_text(),
            case_actions_select(request).values(),
        )
        &&& self.disclosures.is(
            disclosures_select(request).rows_text(),
            disclosures_select(request).values(),
        )
    }
}

/// Builds the statements for a request.
pub fn export_query(request: &ExportRequest) -> (r: ExportQuery)
    ensures
        r.is_for(*request),
{
    ExportQuery {
        reports: range_query(
            markup::REPORT_COLUMNS,
            markup::REPORT_SOURCE,
            "submitted_at",
            "id",
            request,
        ),
        cases: range_query(markup::CASE_COLUMNS, markup::CASE_SOURCE, "opened_at", "id", request),
        case_actions: range_query(
            markup::CASE_ACTION_COLUMNS,
            markup::CASE_ACTION_SOURCE,
            "ca.created_at",
            "ca.id",
            request,
        ),
        disclosures: range_query(
            markup::DISCLOSURE_COLUMNS,
            markup::DISCLOSURE_SOURCE,
            "d.disclosed_at",
            "d.id",
            request,
        ),
    }
}

/// A report, without the address and the token of the reporter. The body is
/// missing where the export is not for a compliance lead.
pub struct ReportRow {
    pub id: i64,
    pub status: String,
    pub severity: String,
    pub channel: String,
    pub summary: String,
    pub body: Option<String>,
    pub submitted_at: Timestamp,
}

/// A `ReportRow` by the contents of its fields.
pub struct ReportRowView {
    pub id: i64,
    pub status: Seq<char>,
    pub severity: Seq<char>,
    pub channel: Seq<char>,
    pub summary: Seq<char>,
    pub body: Option<Seq<char>>,
    pub submitted_at: (int, int),
}

impl View for ReportRow {
    type V = ReportRowView;

    open spec fn view(&self) -> ReportRowView {
        ReportRowView {
            id: self.id,
            status: self.status@,
            severity: self.severity@,
            channel: self.channel@,
            summary: self.summary@,
            body: opt_text(self.body),
            submitted_at: self.submitted_at@,
        }
    }
}

/// A body as it is written: empty where it is withheld.
pub open spec fn written(body: Option<Seq<char>>) -> Seq<char> {
    match body {
        Some(text) => text,
        None => ""@,
    }
}

impl ReportRow {
    /// The body as it is written: empty where it is withheld.
    pub fn written_body(&self) -> (r: String)
        ensures
            r@ == written(opt_text(self.body)),
    {
        match &self.body {
            Some(text) => text.as_str().to_string(),
            None => "".to_string(),
        }
    }
}

/// Some reports by the contents of their fields.
pub open spec fn report_views(rows: Seq<ReportRow>) -> Seq<ReportRowView> {
    rows.map_values(|row: ReportRow| row@)
}

/// A report as an export shows it: as it is, or without its body.
pub open spec fn shown_report(row: ReportRowView, with_body: bool) -> ReportRowView {
    if with_body {
        row
    } else {
        ReportRowView { body: None, ..row }
    }
}

/// Some reports as an export shows them.
pub open spec fn shown_reports(rows: Seq<ReportRowView>, with_bodies: bool) -> Seq<ReportRowView> {
    rows.map_values(|row: ReportRowView| shown_report(row, with_bodies))
}

pub struct CaseRow {
    pub id: i64,
    pub report_id: i64,
    pub assignee_id: Option<i64>,
    pub status: String,
    pub opened_at: Timestamp,
    pub closed_at: Option<Timestamp>,
}

pub struct CaseActionRow {
    pub id: i64,
    pub case_id: i64,
    pub actor_id: i64,
    pub actor_email: String,
    pub action_type: String,
    pub note: String,
    pub created_at: Timestamp,
    pub correlation_id: Option<String>,
}

pub struct DisclosureRow {
    pub id: i64,
    pub case_id: i64,
    pub requested_by: i64,
    pub requested_by_email: String,
    pub reason: String,
    pub disclosed_at: Timestamp,
    pub correlation_id: Option<String>,
}

/// The rows that were read for an export.
pub struct ExportRows {
    pub reports: Vec<ReportRow>,
    pub cases: Vec<CaseRow>,
    pub case_actions: Vec<CaseActionRow>,
    pub disclosures: Vec<DisclosureRow>,
}

/// How many rows of each kind an export holds.
pub struct Counts {
    pub reports: u64,
    pub cases: u64,
    pub case_actions: u64,
    pub disclosures: u64,
}

/// What an export says of itself.
pub struct ExportMetadata {
    pub system: String,
    pub generated_at: Timestamp,
    pub generated_by: String,
    pub generated_by_user_id: i64,
    pub range_from: String,
    pub range_to: String,
    pub correlation_id: Option<String>,
    pub counts: Counts,
}

/// What is signed.
pub struct ExportPayload {
    pub v: u32,
    pub metadata: ExportMetadata,
    pub reports: Vec<ReportRow>,
    pub cases: Vec<CaseRow>,
    pub case_actions: Vec<CaseActionRow>,
    pub disclosures: Vec<DisclosureRow>,
}

pub struct Signature {
    pub algorithm: String,
    pub scope: String,
    pub value: String,
}

/// The payload with its signature.
pub struct SignedExport {
    pub payload: ExportPayload,
    pub signature: Signature,
}

impl ExportPayload {
    /// Whether this is the payload of some rows for a request, made at a given
    /// instant.
    pub open spec fn is_for(
        self,
        request: ExportRequest,
        generated_at: (int, int),
        correlation_id: Option<String>,
        rows: ExportRows,
    ) -> bool {
        &&& self.v == EXPORT_VERSION
        &&& self.metadata.system@ == SYSTEM@
        &&& self.metadata.generated_at@ == generated_at
        &&& self.metadata.generated_by@ == request.actor.email@
        &&& self.metadata.generated_by_user_id == request.actor.user_id
        &&& self.metadata.range_from@ == day_text(request.from_day as int, DATE_PATTERN@)
        &&& self.metadata.range_to@ == day_text(request.to_day as int, DATE_PATTERN@)
        &&& parsed_date(self.metadata.range_from@, DATE_PATTERN@) == Some(request.from_day as int)
        &&& parsed_date(self.metadata.range_to@, DATE_PATTERN@) == Some(request.to_day as int)
        &&& self.metadata.correlation_id == correlation_id
        &&& report_views(self.reports@) == shown_reports(
            report_views(rows.reports@),
            includes(request.actor.role, BODY_ROLE),
        )
        &&& self.cases == rows.cases
        &&& self.case_actions == rows.case_actions
        &&& self.disclosures == rows.disclosures
        &&& self.counted()
    }

    /// Whether the counts are those of the rows.
    pub open spec fn counted(self) -> bool {
        &&& self.metadata.counts.reports == self.reports@.len()
        &&& self.metadata.counts.cases == self.cases@.len()
        &&& self.metadata.counts.case_actions == self.case_actions@.len()
        &&& self.metadata.counts.disclosures == self.disclosures@.len()
    }
}

/// Takes the bodies out of some reports, unless they are to be shown.
fn report_list(rows: Vec<ReportRow>, with_bodies: bool) -> (r: Vec<ReportRow>)
    ensures
        report_views(r@) == shown_reports(report_views(rows@), with_bodies),
{
    let ghost all = report_views(rows@);
    let mut out = rows;
    if with_bodies {
        assert(shown_reports(all, true) =~= all);
        return out;
    }
    let mut i: usize = 0;
    while i < out.len()
        invariant
            i <= out@.len(),
            out@.len() == all.len(),
            forall|k: int| 0 <= k < i ==> (#[trigger] out@[k])@ == shown_report(all[k], false),
            forall|k: int| i <= k < out@.len() ==> (#[trigger] out@[k])@ == all[k],
        decreases out@.len() - i,
    {
        out[i].body = None;
        i += 1;
    }
    assert(report_views(out@) =~= shown_reports(all, false));
    out
}

/// Makes the payload of the rows that were read, as of a given instant.
pub fn payload_at(
    request: &ExportRequest,
    generated_at: Timestamp,
    correlation_id: Option<String>,
    rows: ExportRows,
) -> (r: ExportPayload)
    requires
        request.wf(),
    ensures
        r.is_for(*request, generated_at@, correlation_id, rows),
{
    let counts = Counts {
        reports: rows.reports.len() as u64,
        cases: rows.cases.len() as u64,
        case_actions: rows.case_actions.len() as u64,
        disclosures: rows.disclosures.len() as u64,
    };
    let metadata = ExportMetadata {
        system: SYSTEM.to_string(),
        generated_at,
        generated_by: request.actor.email.as_str().to_string(),
        generated_by_user_id: request.actor.user_id,
        range_from: format_day(request.from_day, DATE_PATTERN),
        range_to: format_day(request.to_day, DATE_PATTERN),
        correlation_id,
        counts,
    };
    let with_bodies = role_includes(request.actor.role, BODY_ROLE);
    let reports = report_list(rows.reports, with_bodies);
    proof {
        assert(report_views(reports@).len() == reports@.len());
    }
    ExportPayload {
        v: EXPORT_VERSION,
        metadata,
        reports,
        cases: rows.cases,
        case_actions: rows.case_actions,
        disclosures: rows.disclosures,
    }
}

/// Makes the payload of the rows that were read, as of now by the clock of the
/// machine, which does not lie before 1970.
pub fn export_payload(
    request: &ExportRequest,
    correlation_id: Option<String>,
    rows: ExportRows,
) -> (r: ExportPayload)
    requires
        request.wf(),
    ensures
        r.is_for(*request, r.metadata.generated_at@, correlation_id, rows),
        !later((0, 0), r.metadata.generated_at@),
{
    let now = utc_now();
    payload_at(request, now, correlation_id, rows)
}

/// Whether a result is the key that a secret makes, or what is wrong with it.
pub open spec fn is_signing_key(secret: Option<String>, r: Result<String, Fault>) -> bool {
    match secret {
        None => r matches Err(Fault::Internal(text)) && text@ == markup::NO_SECRET@,
        Some(key) => if encode_utf8(key@).len() < SECRET_MIN {
            r matches Err(Fault::Internal(text)) && text@ == markup::SHORT_SECRET@
        } else {
            r == Ok::<String, Fault>(key)
        },
    }
}

/// Decides whether the secret of the system can sign: it has to be there, and
/// long enough.
pub fn signing_key(secret: Option<String>) -> (r: Result<String, Fault>)
    ensures
        is_signing_key(secret, r),
{
    match secret {
        None => Err(Fault::Internal(markup::NO_SECRET.to_string())),
        Some(key) => {
            if key.as_str().as_bytes().len() < SECRET_MIN {
                Err(Fault::Internal(markup::SHORT_SECRET.to_string()))
            } else {
                Ok(key)
            }
        },
    }
}

/// The signature of a message under a secret.
pub open spec fn signature_value(secret: Seq<char>, message: Seq<u8>) -> Seq<char> {
    base64_standard(hmac_sha256(encode_utf8(secret), message))
}

impl Signature {
    /// Whether this is the signature of a message under a secret.
    pub open spec fn signs(self, secret: Seq<char>, message: Seq<u8>) -> bool {
        &&& self.algorithm@ == ALGORITHM@
        &&& self.scope@ == SCOPE@
        &&& self.value@ == signature_value(secret, message)
    }
}

/// Signs the JSON text of a payload.
pub fn sign(key: &str, payload_bytes: &[u8]) -> (r: Result<Signature, Fault>)
    ensures
        r matches Ok(signature) && signature.signs(key@, payload_bytes@),
{
    match authenticate(key.as_bytes(), payload_bytes) {
        Ok(code) => {
            let value = encode_base64_standard(code.as_slice());
            Ok(
                Signature {
                    algorithm: ALGORITHM.to_string(),
                    scope: SCOPE.to_string(),
                    value,
                },
            )
        },
        Err(error) => {
            let mut text = String::from_str("HMAC init failed: ");
            text.append(error.as_str());
            Err(Fault::Internal(text))
        },
    }
}

impl SignedExport {
    /// Whether this is a payload with the signature of its JSON text.
    pub open spec fn seals(
        self,
        payload: ExportPayload,
        secret: Seq<char>,
        message: Seq<u8>,
    ) -> bool {
        self.payload == payload && self.signature.signs(secret, message)
    }
}

/// Puts the signature of its JSON text on a payload.
pub fn seal(payload: ExportPayload, key: &str, payload_bytes: &[u8]) -> (r: Result<
    SignedExport,
    Fault,
>)
    ensures
        r matches Ok(export) && export.seals(payload, key@, payload_bytes@),
{
    match sign(key, payload_bytes) {
        Ok(signature) => Ok(SignedExport { payload, signature }),
        Err(fault) => Err(fault),
    }
}

/// The name of the file for a range of days.
pub open spec fn file_name(from_day: int, to_day: int) -> Seq<char> {
    "lursystem-audit-"@ + day_text(from_day, COMPACT_DATE_PATTERN@) + "-to-"@ + day_text(
        to_day,
        COMPACT_DATE_PATTERN@,
    ) + ".json"@
}

/// The header for a range of days.
pub open spec fn disposition(from_day: int, to_day: int) -> Seq<char> {
    "attachment; filename=\""@ + file_name(from_day, to_day) + "\""@
}

/// The header that has a client save an export under its name.
pub fn content_disposition(request: &ExportRequest) -> (r: String)
    requires
        request.wf(),
    ensures
        r@ == disposition(request.from_day as int, request.to_day as int),
{
    let mut name = String::from_str("lursystem-audit-");
    name.append(format_day(request.from_day, COMPACT_DATE_PATTERN).as_str());
    name.append("-to-");
    name.append(format_day(request.to_day, COMPACT_DATE_PATTERN).as_str());
    name.append(".json");
    let mut out = String::from_str("attachment; filename=\"");
    out.append(name.as_str());
    out.append("\"");
    out
}

/// Whether an instant lies in the range of a request: not before its first
/// instant, and before the first instant behind it.
pub open spec fn covers(request: ExportRequest, instant: (int, int)) -> bool {
    !later(request.from_ts@, instant) && later(request.to_ts_exclusive@, instant)
}

/// An export covers whole days, the first and the last of the range with the
/// rest.
pub proof fn law_range_is_inclusive(request: ExportRequest, instant: (int, int))
    requires
        request.wf(),
        instant.1 >= 0,
    ensures
        covers(request, instant) <==> request.from_day <= day_of(instant) <= request.to_day,
{
    law_whole_days(instant, request.from_day as int, request.to_day as int);
}

/// Two exports of adjacent ranges hold what one export of both would hold, and
/// nothing twice.
pub proof fn law_adjacent_exports_add_up(
    first: ExportRequest,
    second: ExportRequest,
    instant: (int, int),
)
    requires
        first.wf(),
        second.wf(),
        second.from_day == first.to_day + 1,
        instant.1 >= 0,
    ensures
        (covers(first, instant) || covers(second, instant)) <==> first.from_day <= day_of(instant)
            <= second.to_day,
        !(covers(first, instant) && covers(second, instant)),
{
    law_range_is_inclusive(first, instant);
    law_range_is_inclusive(second, instant);
}

/// A signature tells whether a message was signed under a secret: it is the one
/// that the message has under the secret if and only if their codes are equal.
pub proof fn law_signature_can_be_recomputed(
    signature: Signature,
    secret: Seq<char>,
    message: Seq<u8>,
    other_secret: Seq<char>,
    other: Seq<u8>,
)
    requires
        signature.signs(secret, message),
    ensures
        signature.value@ == signature_value(other_secret, other) <==> hmac_sha256(
            encode_utf8(secret),
            message,
        ) == hmac_sha256(encode_utf8(other_secret), other),
{
    if signature.value@ == signature_value(other_secret, other) {
        crate::encoding::law_base64_standard_keeps_the_bytes(
            hmac_sha256(encode_utf8(secret), message),
            hmac_sha256(encode_utf8(other_secret), other),
        );
    }
}

/// Whether two sets of rows are the same but for the bodies of the reports.
pub open spec fn same_but_bodies(a: ExportRows, b: ExportRows) -> bool {
    &&& shown_reports(report_views(a.reports@), false) == shown_reports(
        report_views(b.reports@),
        false,
    )
    &&& a.cases == b.cases
    &&& a.case_actions == b.case_actions
    &&& a.disclosures == b.disclosures
}

/// Whether two payloads hold the same.
pub open spec fn same_payload(a: ExportPayload, b: ExportPayload) -> bool {
    &&& a.v == b.v
    &&& a.metadata.system@ == b.metadata.system@
    &&& a.metadata.generated_at@ == b.metadata.generated_at@
    &&& a.metadata.generated_by@ == b.metadata.generated_by@
    &&& a.metadata.generated_by_user_id == b.metadata.generated_by_user_id
    &&& a.metadata.range_from@ == b.metadata.range_from@
    &&& a.metadata.range_to@ == b.metadata.range_to@
    &&& a.metadata.correlation_id == b.metadata.correlation_id
    &&& a.metadata.counts == b.metadata.counts
    &&& report_views(a.reports@) == report_views(b.reports@)
    &&& a.cases == b.cases
    &&& a.case_actions == b.case_actions
    &&& a.disclosures == b.disclosures
}

/// Whether a row is what is read of a stored report.
pub open spec fn is_row_of(row: ReportRow, stored: ReportView) -> bool {
    &&& row.id == stored.id
    &&& row.status@ == stored.status
    &&& row.severity@ == stored.severity
    &&& row.channel@ == stored.channel
    &&& row.summary@ == stored.summary
    &&& opt_text(row.body) == Some(stored.body)
    &&& row.submitted_at@ == stored.submitted_at
}

/// Whether some rows are what is read of some stored reports.
pub open spec fn are_rows_of(rows: Seq<ReportRow>, stored: Seq<ReportView>) -> bool {
    &&& rows.len() == stored.len()
    &&& forall|i: int| 0 <= i < rows.len() ==> is_row_of(#[trigger] rows[i], stored[i])
}

/// Whether two stored reports are the same but for the address and the token of
/// the reporter.
pub open spec fn same_but_reporter(a: ReportView, b: ReportView) -> bool {
    b == (ReportView {
        reporter_email: b.reporter_email,
        reporter_token: b.reporter_token,
        ..a
    })
}

/// An export holds neither the addresses nor the tokens of reporters: where
/// reports differ in nothing else, and the other rows are the same, so is the
/// payload, whoever it is for.
pub proof fn law_export_holds_no_identity(
    request: ExportRequest,
    generated_at: (int, int),
    correlation_id: Option<String>,
    stored: Seq<ReportView>,
    other_stored: Seq<ReportView>,
    rows: ExportRows,
    other_rows: ExportRows,
    payload: ExportPayload,
    other: ExportPayload,
)
    requires
        stored.len() == other_stored.len(),
        forall|i: int|
            0 <= i < stored.len() ==> same_but_reporter(#[trigger] stored[i], other_stored[i]),
        are_rows_of(rows.reports@, stored),
        are_rows_of(other_rows.reports@, other_stored),
        rows.cases == other_rows.cases,
        rows.case_actions == other_rows.case_actions,
        rows.disclosures == other_rows.disclosures,
        payload.is_for(request, generated_at, correlation_id, rows),
        other.is_for(request, generated_at, correlation_id, other_rows),
    ensures
        same_payload(payload, other),
{
    assert(report_views(rows.reports@) =~= report_views(other_rows.reports@)) by {
        assert forall|i: int| 0 <= i < rows.reports@.len() implies rows.reports@[i]@
            == other_rows.reports@[i]@ by {
            assert(is_row_of(rows.reports@[i], stored[i]));
            assert(is_row_of(other_rows.reports@[i], other_stored[i]));
            assert(same_but_reporter(stored[i], other_stored[i]));
        }
    }
    assert(report_views(payload.reports@).len() == payload.reports@.len());
    assert(report_views(other.reports@).len() == other.reports@.len());
}

/// Whoever is no compliance lead gets no bodies: each report comes without, and
/// the payload is the same whatever the bodies are.
pub proof fn law_auditors_get_no_bodies(
    request: ExportRequest,
    generated_at: (int, int),
    correlation_id: Option<String>,
    rows: ExportRows,
    other_rows: ExportRows,
    payload: ExportPayload,
    other: ExportPayload,
)
    requires
        !includes(request.actor.role, Role::Administrator),
        same_but_bodies(rows, other_rows),
        payload.is_for(request, generated_at, correlation_id, rows),
        other.is_for(request, generated_at, correlation_id, other_rows),
    ensures
        same_payload(payload, other),
        forall|i: int| 0 <= i < payload.reports@.len() ==> (#[trigger] payload.reports@[i]).body is None,
{
    assert(report_views(payload.reports@).len() == payload.reports@.len());
    assert(report_views(other.reports@).len() == other.reports@.len());
    assert forall|i: int| 0 <= i < payload.reports@.len() implies (
    #[trigger] payload.reports@[i]).body is None by {
        assert(report_views(payload.reports@)[i] == payload.reports@[i]@);
    }
}

/// A compliance lead gets the reports whole.
pub proof fn law_leads_get_the_bodies(
    request: ExportRequest,
    generated_at: (int, int),
    correlation_id: Option<String>,
    rows: ExportRows,
    payload: ExportPayload,
)
    requires
        includes(request.actor.role, Role::Administrator),
        payload.is_for(request, generated_at, correlation_id, rows),
    ensures
        report_views(payload.reports@) == report_views(rows.reports@),
{
    assert(shown_reports(report_views(rows.reports@), true) =~= report_views(rows.reports@));
}

/// Whether a stored instant lies on one of the days of a request.
pub open spec fn in_days(request: ExportRequest, value: ValueView) -> bool {
    value matches ValueView::DateTime(t) && request.from_day <= day_of(t) <= request.to_day
}

/// Whether some rows are exactly those of a source whose instant lies on one of
/// the days of a request, each once, by rising id.
pub open spec fn lists_range(
    request: ExportRequest,
    source: Seq<Map<Seq<char>, ValueView>>,
    instant: Seq<char>,
    key: Seq<char>,
    read: Seq<Map<Seq<char>, ValueView>>,
) -> bool {
    &&& forall|row: Map<Seq<char>, ValueView>| #[trigger]
        read.contains(row) <==> source.contains(row) && in_days(request, row[instant])
    &&& forall|i: int, j: int|
        0 <= i < j < read.len() ==> (#[trigger] read[i])[key]->I64_0 < (
        #[trigger] read[j])[key]->I64_0
}

/// Whether each row of a source has a number as its key, which no other row has,
/// and an instant.
pub open spec fn is_log_of(
    source: Seq<Map<Seq<char>, ValueView>>,
    instant: Seq<char>,
    key: Seq<char>,
) -> bool {
    &&& is_key(source, key)
    &&& forall|i: int|
        0 <= i < source.len() ==> (#[trigger] source[i])[key] is I64 && (
        source[i][instant] matches ValueView::DateTime(t) && t.1 >= 0)
}

/// Where a statement for a range gives what it asks for, it lists the range.
pub proof fn law_statement_lists_the_range(
    request: ExportRequest,
    columns: Seq<char>,
    source_text: Seq<char>,
    instant: Seq<char>,
    key: Seq<char>,
    source: Seq<Map<Seq<char>, ValueView>>,
    lower: spec_fn(Seq<char>) -> Seq<char>,
    read: Seq<Map<Seq<char>, ValueView>>,
)
    requires
        request.wf(),
        is_log_of(source, instant, key),
        range_select(columns, source_text, instant, key, request).gives(source, lower, read),
    ensures
        lists_range(request, source, instant, key, read),
{
    let select = range_select(columns, source_text, instant, key, request);
    law_select_gives_no_row_twice(select, source, lower, read, key);
    assert forall|row: Map<Seq<char>, ValueView>| #[trigger]
        read.contains(row) <==> source.contains(row) && in_days(request, row[instant]) by {
        law_select_gives_what_is_asked(select, source, lower, read, row);
        if source.contains(row) {
            let i = choose|i: int| 0 <= i < source.len() && source[i] == row;
            let t = source[i][instant]->DateTime_0;
            assert(row[instant] == ValueView::DateTime(t));
            law_range_is_inclusive(request, t);
            let c0 = select.conditions[0];
            let c1 = select.conditions[1];
            assert(compares(row[c0.column], c0.comparison, c0.value, lower) == !later(
                request.from_ts@,
                t,
            ));
            assert(compares(row[c1.column], c1.comparison, c1.value, lower) == later(
                request.to_ts_exclusive@,
                t,
            ));
            assert(meets(row, select.conditions, lower) <==> covers(request, t));
        }
    }
    assert forall|i: int, j: int| 0 <= i < j < read.len() implies (#[trigger] read[i])[key]->I64_0
        < (#[trigger] read[j])[key]->I64_0 by {
        law_select_gives_what_is_asked(select, source, lower, read, read[i]);
        law_select_gives_what_is_asked(select, source, lower, read, read[j]);
        assert(read.contains(read[i]) && read.contains(read[j]));
        assert(read[i][key] is I64 && read[j][key] is I64);
        assert(read[i][key] != read[j][key]);
    }
}

/// The rows behind the lists of an export.
pub struct ExportLists {
    pub reports: Seq<Map<Seq<char>, ValueView>>,
    pub cases: Seq<Map<Seq<char>, ValueView>>,
    pub case_actions: Seq<Map<Seq<char>, ValueView>>,
    pub disclosures: Seq<Map<Seq<char>, ValueView>>,
}

/// Whether the statements for a request give some rows of their sources.
pub open spec fn statements_give(
    request: ExportRequest,
    sources: ExportLists,
    lower: spec_fn(Seq<char>) -> Seq<char>,
    read: ExportLists,
) -> bool {
    &&& reports_select(request).gives(sources.reports, lower, read.reports)
    &&& cases_select(request).gives(sources.cases, lower, read.cases)
    &&& case_actions_select(request).gives(sources.case_actions, lower, read.case_actions)
    &&& disclosures_select(request).gives(sources.disclosures, lower, read.disclosures)
}

/// A number that may be missing, as a value.
pub open spec fn number_value(n: Option<i64>) -> ValueView {
    match n {
        Some(number) => ValueView::I64(number),
        None => ValueView::Null,
    }
}

/// A text that may be missing, as a value.
pub open spec fn text_value(s: Option<String>) -> ValueView {
    match s {
        Some(text) => ValueView::Text(text@),
        None => ValueView::Null,
    }
}

/// An instant that may be missing, as a value.
pub open spec fn instant_value(t: Option<Timestamp>) -> ValueView {
    match t {
        Some(instant) => ValueView::DateTime(instant@),
        None => ValueView::Null,
    }
}

/// The address of a user, or what stands for a user that was deleted.
pub open spec fn user_email(value: ValueView) -> Seq<char> {
    match value {
        ValueView::Text(email) => email,
        _ => "<deleted>"@,
    }
}

/// Whether a report of an export is the one of a row that was read. The body may
/// be missing.
pub open spec fn is_report(row: ReportRow, read: Map<Seq<char>, ValueView>) -> bool {
    &&& read["id"@] == ValueView::I64(row.id)
    &&& read["status"@] == ValueView::Text(row.status@)
    &&& read["severity"@] == ValueView::Text(row.severity@)
    &&& read["channel"@] == ValueView::Text(row.channel@)
    &&& read["summary"@] == ValueView::Text(row.summary@)
    &&& row.body matches Some(text) ==> read["body"@] == ValueView::Text(text@)
    &&& read["submitted_at"@] == ValueView::DateTime(row.submitted_at@)
}

/// Whether a case of an export is the one of a row that was read.
pub open spec fn is_case(row: CaseRow, read: Map<Seq<char>, ValueView>) -> bool {
    &&& read["id"@] == ValueView::I64(row.id)
    &&& read["report_id"@] == ValueView::I64(row.report_id)
    &&& read["assignee_id"@] == number_value(row.assignee_id)
    &&& read["status"@] == ValueView::Text(row.status@)
    &&& read["opened_at"@] == ValueView::DateTime(row.opened_at@)
    &&& read["closed_at"@] == instant_value(row.closed_at)
}

/// Whether a case action of an export is the one of a row that was read.
pub open spec fn is_case_action(row: CaseActionRow, read: Map<Seq<char>, ValueView>) -> bool {
    &&& read["ca.id"@] == ValueView::I64(row.id)
    &&& read["ca.case_id"@] == ValueView::I64(row.case_id)
    &&& read["ca.actor_id"@] == ValueView::I64(row.actor_id)
    &&& row.actor_email@ == user_email(read["u.email"@])
    &&& read["ca.action_type"@] == ValueView::Text(row.action_type@)
    &&& read["ca.note"@] == ValueView::Text(row.note@)
    &&& read["ca.created_at"@] == ValueView::DateTime(row.created_at@)
    &&& read["ca.correlation_id"@] == text_value(row.correlation_id)
}

/// Whether a disclosure of an export is the one of a row that was read.
pub open spec fn is_disclosure(row: DisclosureRow, read: Map<Seq<char>, ValueView>) -> bool {
    &&& read["d.id"@] == ValueView::I64(row.id)
    &&& read["d.case_id"@] == ValueView::I64(row.case_id)
    &&& read["d.requested_by"@] == ValueView::I64(row.requested_by)
    &&& row.requested_by_email@ == user_email(read["u.email"@])
    &&& read["d.reason"@] == ValueView::Text(row.reason@)
    &&& read["d.disclosed_at"@] == ValueView::DateTime(row.disclosed_at@)
    &&& read["d.correlation_id"@] == text_value(row.correlation_id)
}

/// Whether the lists of an export are those of the rows that were read, one for
/// one and in their order.
pub open spec fn are_lists_of(
    reports: Seq<ReportRow>,
    cases: Seq<CaseRow>,
    case_actions: Seq<CaseActionRow>,
    disclosures: Seq<DisclosureRow>,
    read: ExportLists,
) -> bool {
    &&& reports.len() == read.reports.len()
    &&& cases.len() == read.cases.len()
    &&& case_actions.len() == read.case_actions.len()
    &&& disclosures.len() == read.disclosures.len()
    &&& forall|i: int| 0 <= i < reports.len() ==> is_report(#[trigger] reports[i], read.reports[i])
    &&& forall|i: int| 0 <= i < cases.len() ==> is_case(#[trigger] cases[i], read.cases[i])
    &&& forall|i: int|
        0 <= i < case_actions.len() ==> is_case_action(
            #[trigger] case_actions[i],
            read.case_actions[i],
        )
    &&& forall|i: int|
        0 <= i < disclosures.len() ==> is_disclosure(
            #[trigger] disclosures[i],
            read.disclosures[i],
        )
}

/// Where the statements give what they ask for, an export lists exactly the rows
/// of its range: each report, case, case action and disclosure whose instant lies
/// on one of the days, each once, by rising id, and it counts them.
pub proof fn law_export_lists_the_range(
    request: ExportRequest,
    sources: ExportLists,
    lower: spec_fn(Seq<char>) -> Seq<char>,
    read: ExportLists,
    rows: ExportRows,
    generated_at: (int, int),
    correlation_id: Option<String>,
    payload: ExportPayload,
)
    requires
        request.wf(),
        is_log_of(sources.reports, "submitted_at"@, "id"@),
        is_log_of(sources.cases, "opened_at"@, "id"@),
        is_log_of(sources.case_actions, "ca.created_at"@, "ca.id"@),
        is_log_of(sources.disclosures, "d.disclosed_at"@, "d.id"@),
        statements_give(request, sources, lower, read),
        are_lists_of(
            rows.reports@,
            rows.cases@,
            rows.case_actions@,
            rows.disclosures@,
            read,
        ),
        payload.is_for(request, generated_at, correlation_id, rows),
    ensures
        are_lists_of(
            payload.reports@,
            payload.cases@,
            payload.case_actions@,
            payload.disclosures@,
            read,
        ),
        lists_range(request, sources.reports, "submitted_at"@, "id"@, read.reports),
        lists_range(request, sources.cases, "opened_at"@, "id"@, read.cases),
        lists_range(request, sources.case_actions, "ca.created_at"@, "ca.id"@, read.case_actions),
        lists_range(request, sources.disclosures, "d.disclosed_at"@, "d.id"@, read.disclosures),
        payload.metadata.counts.reports == read.reports.len(),
        payload.metadata.counts.cases == read.cases.len(),
        payload.metadata.counts.case_actions == read.case_actions.len(),
        payload.metadata.counts.disclosures == read.disclosures.len(),
{
    law_statement_lists_the_range(
        request,
        markup::REPORT_COLUMNS@,
        markup::REPORT_SOURCE@,
        "submitted_at"@,
        "id"@,
        sources.reports,
        lower,
        read.reports,
    );
    law_statement_lists_the_range(
        request,
        markup::CASE_COLUMNS@,
        markup::CASE_SOURCE@,
        "opened_at"@,
        "id"@,
        sources.cases,
        lower,
        read.cases,
    );
    law_statement_lists_the_range(
        request,
        markup::CASE_ACTION_COLUMNS@,
        markup::CASE_ACTION_SOURCE@,
        "ca.created_at"@,
        "ca.id"@,
        sources.case_actions,
        lower,
        read.case_actions,
    );
    law_statement_lists_the_range(
        request,
        markup::DISCLOSURE_COLUMNS@,
        markup::DISCLOSURE_SOURCE@,
        "d.disclosed_at"@,
        "d.id"@,
        sources.disclosures,
        lower,
        read.disclosures,
    );
    assert(report_views(payload.reports@).len() == payload.reports@.len());
    assert forall|i: int| 0 <= i < payload.reports@.len() implies is_report(
        #[trigger] payload.reports@[i],
        read.reports[i],
    ) by {
        assert(report_views(payload.reports@)[i] == payload.reports@[i]@);
        assert(report_views(rows.reports@)[i] == rows.reports@[i]@);
        assert(is_report(rows.reports@[i], read.reports[i]));
    }
}

}
