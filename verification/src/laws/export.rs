//! What an export covers, what it holds, and who gets it.

use vstd::prelude::*;
use vstd::utf8::encode_utf8;

use crate::auth_helper::{Identity, Role};
use crate::encoding::{base64_standard, hmac_sha256};
use crate::form::urlencoded_fields;
use crate::handlers::export::{
    are_lists_of, bad_request_page, case_actions_select, cases_select, disclosures_select,
    disposition, is_export_plan, is_log_of, is_plan, is_signing_key, law_export_lists_the_range,
    report_views, reports_select, shown_reports, statements_give, written, ExportLists,
    ExportPayload, ExportPlan, ExportQuery, ExportRequest, ExportRows, SignedExport,
};
use crate::html::{escaped, law_escaped_keeps_the_text};
use crate::markup::export as markup;
use crate::models::ValueView;
use crate::reply::{Fault, Reply};
use crate::statement::{condition_text, numbered, value_views, Comparison, SelectView, Statement};
use crate::text::{concat, decimal, holds, joined, lemma_holds_between, lemma_read_back, opt_text};
use crate::time::{day_text, later, parsed_date};

verus! {

/// Two dates in order, at most 434 days apart, are served, and the export covers
/// exactly the days from the first to the last, however far apart they lie: an
/// instant is covered if and only if its day is one of them.
pub proof fn law_plan_covers_the_days_asked_for(
    actor: Identity,
    from: int,
    to: int,
    plan: ExportPlan,
    secs: int,
    nanos: int,
)
    requires
        is_plan(plan, actor, Some(from), Some(to)),
        from <= to <= from + 434,
        to < 95026236,
        nanos >= 0,
    ensures
        plan matches ExportPlan::LoadRows(request) && request.actor == actor && request.from_day
            == from && request.to_day == to && request.wf() && ((!later(
            request.from_ts@,
            (secs, nanos),
        ) && later(request.to_ts_exclusive@, (secs, nanos))) <==> from * 86400 <= secs < (to + 1)
            * 86400),
{
}

/// A request without two dates in order, or with dates more than 434 days apart,
/// is answered with a page that says what is wrong, and any other is not.
pub proof fn law_plan_names_what_is_wrong(
    actor: Identity,
    from: Option<int>,
    to: Option<int>,
    plan: ExportPlan,
)
    requires
        is_plan(plan, actor, from, to),
    ensures
        plan is Answer <==> from is None || to is None || to->0 < from->0 || to->0 - from->0 > 434,
        plan is Fail <==> from is Some && to == Some(95026236int) && from->0 <= 95026236
            <= from->0 + 434,
        plan matches ExportPlan::Fail(fault) ==> (fault matches Fault::BadRequest(text) && text@
            == markup::NO_NEXT_DAY@),
        plan matches ExportPlan::Answer(reply) ==> (reply matches Reply::Html { status, body }
            && status == 400 && body@ == bad_request_page(
            if from is None {
                markup::INVALID_FROM@
            } else if to is None {
                markup::INVALID_TO@
            } else if to->0 < from->0 {
                markup::TO_BEFORE_FROM@
            } else {
                markup::TOO_WIDE@
            },
        )),
{
}

/// The page for a request that cannot be served holds the whole message, which can
/// be read back from it.
pub proof fn law_page_holds_the_message(message: Seq<char>, other: Seq<char>)
    ensures
        holds(
            bad_request_page(message),
            markup::BAD_REQUEST_TO_MESSAGE@ + escaped(message) + markup::BAD_REQUEST_END@,
        ),
        bad_request_page(message) == bad_request_page(other) ==> message == other,
{
    let whole = markup::BAD_REQUEST_TO_MESSAGE@ + escaped(message) + markup::BAD_REQUEST_END@;
    assert(Seq::<char>::empty() + whole + Seq::<char>::empty() =~= whole);
    lemma_holds_between(Seq::empty(), whole, Seq::empty());
    if bad_request_page(message) == bad_request_page(other) {
        let p = seq![
            markup::BAD_REQUEST_TO_MESSAGE@,
            escaped(message),
            markup::BAD_REQUEST_END@,
        ];
        let q = seq![markup::BAD_REQUEST_TO_MESSAGE@, escaped(other), markup::BAD_REQUEST_END@];
        reveal_with_fuel(concat, 4);
        lemma_read_back(p, q, 3, 1);
        law_escaped_keeps_the_text(message, other);
    }
}

/// Whoever is active and an auditor or above gets the days that the query names
/// under `from` and `to`, whole, in order and however far apart up to 434 days.
pub proof fn law_export_covers_the_days_of_the_query(
    actor: Identity,
    query: Seq<char>,
    plan: ExportPlan,
    from: int,
    to: int,
    secs: int,
    nanos: int,
)
    requires
        actor.is_active,
        actor.role != Role::User,
        actor.role != Role::Staff,
        is_export_plan(Some(actor), query, plan),
        urlencoded_fields(query).contains_key("from"@),
        urlencoded_fields(query).contains_key("to"@),
        parsed_date(urlencoded_fields(query)["from"@], "%Y-%m-%d"@) == Some(from),
        parsed_date(urlencoded_fields(query)["to"@], "%Y-%m-%d"@) == Some(to),
        from <= to <= from + 434,
        to < 95026236,
        nanos >= 0,
    ensures
        plan matches ExportPlan::LoadRows(request) && request.actor == actor && request.from_day
            == from && request.to_day == to && ((!later(request.from_ts@, (secs, nanos)) && later(
            request.to_ts_exclusive@,
            (secs, nanos),
        )) <==> from * 86400 <= secs < (to + 1) * 86400),
{
    law_plan_covers_the_days_asked_for(actor, from, to, plan, secs, nanos);
}

/// What a query holds under a name, empty where it holds nothing.
pub open spec fn asked(query: Seq<char>, name: Seq<char>) -> Seq<char> {
    if urlencoded_fields(query).contains_key(name) {
        urlencoded_fields(query)[name]
    } else {
        ""@
    }
}

/// A query that holds something else in the place of a date, or nothing, is
/// refused for it, the first date before the last.
pub proof fn law_export_needs_both_dates(actor: Identity, query: Seq<char>, plan: ExportPlan)
    requires
        actor.is_active,
        actor.role != Role::User,
        actor.role != Role::Staff,
        is_export_plan(Some(actor), query, plan),
    ensures
        parsed_date(asked(query, "from"@), "%Y-%m-%d"@) is None ==> (
        plan matches ExportPlan::Answer(Reply::Html { status, body }) && status == 400 && body@
            == bad_request_page(markup::INVALID_FROM@)),
        parsed_date(asked(query, "from"@), "%Y-%m-%d"@) is Some && parsed_date(
            asked(query, "to"@),
            "%Y-%m-%d"@,
        ) is None ==> (plan matches ExportPlan::Answer(Reply::Html { status, body }) && status == 400
            && body@ == bad_request_page(markup::INVALID_TO@)),
{
}

/// Nobody else gets an export: without a session, or deactivated, a caller is sent
/// to the login page, and with a lower role to the landing page.
pub proof fn law_export_is_for_auditors(
    session: Option<Identity>,
    query: Seq<char>,
    plan: ExportPlan,
)
    requires
        is_export_plan(session, query, plan),
    ensures
        session is None ==> (plan matches ExportPlan::Answer(Reply::Redirect { location })
            && location@ == "/admin/login"@),
        session matches Some(caller) ==> (!caller.is_active ==> (
        plan matches ExportPlan::Answer(Reply::Redirect { location }) && location@
            == "/admin/login"@)),
        session matches Some(caller) ==> (caller.is_active && (caller.role == Role::User
            || caller.role == Role::Staff) ==> (
        plan matches ExportPlan::Answer(Reply::Redirect { location }) && location@ == "/admin"@)),
        plan matches ExportPlan::LoadRows(request) ==> (session matches Some(caller)
            && request.actor == caller && caller.is_active && caller.role != Role::User
            && caller.role != Role::Staff),
{
}

/// The payload holds every row that was read, in its order and with each of its
/// fields; only the bodies of the reports are held back, from whoever is neither
/// an administrator nor a developer.
pub proof fn law_payload_holds_every_row(
    request: ExportRequest,
    generated_at: (int, int),
    correlation_id: Option<String>,
    rows: ExportRows,
    payload: ExportPayload,
    i: int,
)
    requires
        payload.is_for(request, generated_at, correlation_id, rows),
    ensures
        payload.reports@.len() == rows.reports@.len(),
        0 <= i < rows.reports@.len() ==> {
            &&& payload.reports@[i].id == rows.reports@[i].id
            &&& payload.reports@[i].status@ == rows.reports@[i].status@
            &&& payload.reports@[i].severity@ == rows.reports@[i].severity@
            &&& payload.reports@[i].channel@ == rows.reports@[i].channel@
            &&& payload.reports@[i].summary@ == rows.reports@[i].summary@
            &&& payload.reports@[i].submitted_at@ == rows.reports@[i].submitted_at@
            &&& request.actor.role == Role::Administrator || request.actor.role == Role::Developer
                ==> opt_text(payload.reports@[i].body) == opt_text(rows.reports@[i].body)
            &&& request.actor.role != Role::Administrator && request.actor.role != Role::Developer
                ==> payload.reports@[i].body is None
        },
        payload.cases@ == rows.cases@,
        payload.case_actions@ == rows.case_actions@,
        payload.disclosures@ == rows.disclosures@,
        payload.metadata.counts.reports == rows.reports@.len(),
        payload.metadata.counts.cases == rows.cases@.len(),
        payload.metadata.counts.case_actions == rows.case_actions@.len(),
        payload.metadata.counts.disclosures == rows.disclosures@.len(),
{
    let shown = report_views(payload.reports@);
    let read = report_views(rows.reports@);
    assert(shown.len() == payload.reports@.len());
    assert(read.len() == rows.reports@.len());
    assert(shown_reports(read, true).len() == read.len());
    assert(shown_reports(read, false).len() == read.len());
    if 0 <= i < rows.reports@.len() {
        assert(shown[i] == payload.reports@[i]@);
        assert(read[i] == rows.reports@[i]@);
    }
}

/// The payload says of itself who had it made, when, under which correlation id,
/// and for which days; the dates read back as the days of the request.
pub proof fn law_payload_says_what_it_is(
    request: ExportRequest,
    generated_at: (int, int),
    correlation_id: Option<String>,
    rows: ExportRows,
    payload: ExportPayload,
)
    requires
        payload.is_for(request, generated_at, correlation_id, rows),
    ensures
        payload.v == 1,
        payload.metadata.system@ == "lursystem"@,
        payload.metadata.generated_at@ == generated_at,
        payload.metadata.generated_by@ == request.actor.email@,
        payload.metadata.generated_by_user_id == request.actor.user_id,
        payload.metadata.correlation_id == correlation_id,
        payload.metadata.range_from@ == day_text(request.from_day as int, "%Y-%m-%d"@),
        payload.metadata.range_to@ == day_text(request.to_day as int, "%Y-%m-%d"@),
        parsed_date(payload.metadata.range_from@, "%Y-%m-%d"@) == Some(request.from_day as int),
        parsed_date(payload.metadata.range_to@, "%Y-%m-%d"@) == Some(request.to_day as int),
{
}

/// A body is written as it is, and one that is withheld as an empty text.
pub proof fn law_bodies_are_written_whole(body: Seq<char>)
    ensures
        written(Some(body)) == body,
        written(None).len() == 0,
{
    reveal_strlit("");
}

/// A text with a condition for each end of a range.
proof fn lemma_range_text(select: SelectView, column: Seq<char>)
    requires
        select.conditions.len() == 2,
        select.conditions[0].column == column,
        select.conditions[0].comparison == Comparison::AtLeast,
        select.conditions[1].column == column,
        select.conditions[1].comparison == Comparison::Before,
        !select.descending,
    ensures
        select.rows_text() == "SELECT "@ + select.columns + " FROM "@ + select.source + (
        " WHERE "@ + (column + " >= $"@ + decimal(1) + " AND "@ + (column + " < $"@ + decimal(2))))
            + " ORDER BY "@ + select.order + " ASC"@,
        select.values().len() == 2,
        select.values()[0] == select.conditions[0].value,
        select.values()[1] == select.conditions[1].value,
{
    let parts = numbered(select.conditions);
    reveal_with_fuel(joined, 3);
    assert(parts.len() == 2);
    assert(parts.drop_last().len() == 1);
    assert(parts.drop_last()[0] == condition_text(select.conditions[0], 1));
    assert(parts.last() == condition_text(select.conditions[1], 2));
}

/// Whether a statement reads the rows of a source whose instant lies in the range
/// of a request, by rising key.
pub open spec fn reads_range(
    statement: Statement,
    columns: Seq<char>,
    source: Seq<char>,
    instant: Seq<char>,
    key: Seq<char>,
    request: ExportRequest,
) -> bool {
    &&& statement.sql@ == "SELECT "@ + columns + " FROM "@ + source + (" WHERE "@ + (instant
        + " >= $"@ + decimal(1) + " AND "@ + (instant + " < $"@ + decimal(2)))) + " ORDER BY "@ + key
        + " ASC"@
    &&& statement.binds@.len() == 2
    &&& statement.binds@[0]@ == ValueView::DateTime(request.from_ts@)
    &&& statement.binds@[1]@ == ValueView::DateTime(request.to_ts_exclusive@)
}

proof fn lemma_reads_range(
    statement: Statement,
    select: SelectView,
    instant: Seq<char>,
    request: ExportRequest,
)
    requires
        statement.is(select.rows_text(), select.values()),
        select.conditions.len() == 2,
        select.conditions[0].column == instant,
        select.conditions[0].comparison == Comparison::AtLeast,
        select.conditions[0].value == ValueView::DateTime(request.from_ts@),
        select.conditions[1].column == instant,
        select.conditions[1].comparison == Comparison::Before,
        select.conditions[1].value == ValueView::DateTime(request.to_ts_exclusive@),
        !select.descending,
    ensures
        reads_range(statement, select.columns, select.source, instant, select.order, request),
{
    lemma_range_text(select, instant);
    let views = value_views(statement.binds@);
    assert(views.len() == statement.binds@.len());
    assert(views[0] == statement.binds@[0]@);
    assert(views[1] == statement.binds@[1]@);
}

/// Each list of an export is read by the instant of its own rows, from the first
/// instant of the range on and before the first instant behind it.
pub proof fn law_statements_read_the_range(request: ExportRequest, query: ExportQuery)
    requires
        query.is_for(request),
    ensures
        reads_range(
            query.reports,
            markup::REPORT_COLUMNS@,
            markup::REPORT_SOURCE@,
            "submitted_at"@,
            "id"@,
            request,
        ),
        reads_range(
            query.cases,
            markup::CASE_COLUMNS@,
            markup::CASE_SOURCE@,
            "opened_at"@,
            "id"@,
            request,
        ),
        reads_range(
            query.case_actions,
            markup::CASE_ACTION_COLUMNS@,
            markup::CASE_ACTION_SOURCE@,
            "ca.created_at"@,
            "ca.id"@,
            request,
        ),
        reads_range(
            query.disclosures,
            markup::DISCLOSURE_COLUMNS@,
            markup::DISCLOSURE_SOURCE@,
            "d.disclosed_at"@,
            "d.id"@,
            request,
        ),
{
    lemma_reads_range(query.reports, reports_select(request), "submitted_at"@, request);
    lemma_reads_range(query.cases, cases_select(request), "opened_at"@, request);
    lemma_reads_range(query.case_actions, case_actions_select(request), "ca.created_at"@, request);
    lemma_reads_range(query.disclosures, disclosures_select(request), "d.disclosed_at"@, request);
}

/// A secret of 32 bytes or more signs as it is; a shorter one, or none, does not.
pub proof fn law_secret_has_to_be_long_enough(
    secret: Option<String>,
    r: Result<String, Fault>,
)
    requires
        is_signing_key(secret, r),
    ensures
        r is Ok <==> secret is Some && encode_utf8(secret->0@).len() >= 32,
        r matches Ok(key) ==> secret == Some(key),
        r matches Err(fault) ==> (fault matches Fault::Internal(text) && text@ == if secret is None {
            markup::NO_SECRET@
        } else {
            markup::SHORT_SECRET@
        }),
{
}

/// What is sealed is the payload itself, under the code that the secret gives all
/// of its JSON text.
pub proof fn law_seal_keeps_the_payload(
    export: SignedExport,
    payload: ExportPayload,
    secret: Seq<char>,
    message: Seq<u8>,
)
    requires
        export.seals(payload, secret, message),
    ensures
        export.payload == payload,
        export.signature.algorithm@ == "HMAC-SHA256"@,
        export.signature.scope@ == "payload (compact serde_json encoding)"@,
        export.signature.value@ == base64_standard(hmac_sha256(encode_utf8(secret), message)),
{
}

/// The file is named after the system and both days of the range, the first
/// before the last.
pub proof fn law_file_is_named_after_the_range(from: int, to: int)
    ensures
        holds(
            disposition(from, to),
            "lursystem-audit-"@ + day_text(from, "%Y%m%d"@) + "-to-"@ + day_text(to, "%Y%m%d"@)
                + ".json"@,
        ),
        "attachment; filename=\""@.is_prefix_of(disposition(from, to)),
        disposition(from, to).last() == '"',
        disposition(from, to).len() == 23 + "lursystem-audit-"@.len() + day_text(
            from,
            "%Y%m%d"@,
        ).len() + "-to-"@.len() + day_text(to, "%Y%m%d"@).len() + ".json"@.len(),
{
    reveal_strlit("\"");
    reveal_strlit("attachment; filename=\"");
    assert("\""@.len() == 1 && "attachment; filename=\""@.len() == 22);
    lemma_holds_between(
        "attachment; filename=\""@,
        "lursystem-audit-"@ + day_text(from, "%Y%m%d"@) + "-to-"@ + day_text(to, "%Y%m%d"@)
            + ".json"@,
        "\""@,
    );
}

/// Where the statements give what they ask for, the export for two dates lists
/// each report, case, case action and disclosure of the days from the first to the
/// last, and no other.
pub proof fn law_export_of_two_dates_lists_their_days(
    actor: Identity,
    from: int,
    to: int,
    plan: ExportPlan,
    sources: ExportLists,
    lower: spec_fn(Seq<char>) -> Seq<char>,
    read: ExportLists,
    rows: ExportRows,
    generated_at: (int, int),
    correlation_id: Option<String>,
    payload: ExportPayload,
    row: Map<Seq<char>, ValueView>,
)
    requires
        is_plan(plan, actor, Some(from), Some(to)),
        from <= to <= from + 434,
        to < 95026236,
        plan is LoadRows,
        is_log_of(sources.reports, "submitted_at"@, "id"@),
        is_log_of(sources.cases, "opened_at"@, "id"@),
        is_log_of(sources.case_actions, "ca.created_at"@, "ca.id"@),
        is_log_of(sources.disclosures, "d.disclosed_at"@, "d.id"@),
        statements_give(plan->LoadRows_0, sources, lower, read),
        are_lists_of(
            rows.reports@,
            rows.cases@,
            rows.case_actions@,
            rows.disclosures@,
            read,
        ),
        payload.is_for(plan->LoadRows_0, generated_at, correlation_id, rows),
    ensures
        payload.reports@.len() == read.reports.len(),
        payload.cases@.len() == read.cases.len(),
        payload.case_actions@.len() == read.case_actions.len(),
        payload.disclosures@.len() == read.disclosures.len(),
        read.reports.contains(row) <==> sources.reports.contains(row) && (
        row["submitted_at"@] matches ValueView::DateTime(t) && from <= t.0 / 86400 <= to),
        read.cases.contains(row) <==> sources.cases.contains(row) && (
        row["opened_at"@] matches ValueView::DateTime(t) && from <= t.0 / 86400 <= to),
        read.case_actions.contains(row) <==> sources.case_actions.contains(row) && (
        row["ca.created_at"@] matches ValueView::DateTime(t) && from <= t.0 / 86400 <= to),
        read.disclosures.contains(row) <==> sources.disclosures.contains(row) && (
        row["d.disclosed_at"@] matches ValueView::DateTime(t) && from <= t.0 / 86400 <= to),
{
    law_export_lists_the_range(
        plan->LoadRows_0,
        sources,
        lower,
        read,
        rows,
        generated_at,
        correlation_id,
        payload,
    );
}

}
