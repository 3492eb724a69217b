//! What the triage queue shows, and what opening a case does.

use vstd::prelude::*;

use crate::auth_helper::{Identity, Role};
use crate::handlers::triage::{
    is_open_case_run, is_queue_reply, is_triage_queue, open_case_step, path_id, queue_page,
    queue_row, queue_rows, queue_select, queue_table, short_summary, token_of, OpenCaseAction,
    OpenCaseEvent, OpenCaseRun, OpenCaseState, QueueRow, TriageQueue,
};
use crate::html::escaped;
use crate::labels::{channel_label, severity_label};
use crate::markup::triage as markup;
use crate::models::ValueView;
use crate::reply::{Fault, Reply};
use crate::statement::{condition_text, numbered, value_views};
use crate::text::{
    concat, decimal, holds, joined, law_decimal_reads_back, lemma_holds_between, lemma_holds_longer,
    lemma_holds_within, lemma_neighbours, parsed_i64,
};
use crate::time::instant_text;

verus! {

/// The id in a path is the number that stands there, whatever its size, and zero
/// where none does.
pub proof fn law_path_names_the_id(id: i64, text: Seq<char>)
    ensures
        path_id(Some(decimal(id as int))) == id,
        parsed_i64(text) matches Some(n) ==> path_id(Some(text)) == n,
        parsed_i64(text) is None ==> path_id(Some(text)) == 0,
        path_id(None) == 0,
{
    law_decimal_reads_back(id);
}

/// The token of a request is taken as it is.
pub proof fn law_token_is_taken_whole(token: Seq<char>)
    ensures
        token_of(Some(token)) == token,
        token_of(None).len() == 0,
{
    reveal_strlit("");
}

/// A summary of up to 80 characters is shown whole, and of a longer one its first
/// 77 with an ellipsis behind them.
pub proof fn law_summaries_are_cut_at_80(summary: Seq<char>)
    ensures
        summary.len() <= 80 ==> short_summary(summary) == summary,
        summary.len() > 80 ==> short_summary(summary).len() == 78 && short_summary(summary).take(77)
            == summary.take(77) && short_summary(summary)[77] == '…',
{
}

/// A row of the queue holds what is known of its report, each whole and in its
/// place, and the token for the form that opens a case.
pub proof fn law_row_shows_its_report(csrf: Seq<char>, row: QueueRow)
    ensures
        holds(
            queue_row(csrf, row),
            markup::ROW_TO_ID@ + decimal(row.id as int) + markup::ROW_TO_DATE@,
        ),
        holds(
            queue_row(csrf, row),
            markup::ROW_TO_DATE@ + instant_text(row.submitted_at@.0, row.submitted_at@.1, "%Y-%m-%d %H:%M"@) + markup::ROW_TO_SEVERITY_CLASS@,
        ),
        holds(
            queue_row(csrf, row),
            markup::ROW_TO_SEVERITY_CLASS@ + row.severity@ + markup::ROW_TO_SEVERITY@,
        ),
        holds(
            queue_row(csrf, row),
            markup::ROW_TO_SEVERITY@ + severity_label(row.severity@) + markup::ROW_TO_CHANNEL@,
        ),
        holds(
            queue_row(csrf, row),
            markup::ROW_TO_CHANNEL@ + channel_label(row.channel@) + markup::ROW_TO_SUMMARY@,
        ),
        holds(
            queue_row(csrf, row),
            markup::ROW_TO_SUMMARY@ + escaped(short_summary(row.summary@)) + markup::ROW_TO_ID_2@,
        ),
        holds(
            queue_row(csrf, row),
            markup::ROW_TO_ID_2@ + decimal(row.id as int) + markup::ROW_TO_CSRF@,
        ),
        holds(
            queue_row(csrf, row),
            markup::ROW_TO_CSRF@ + escaped(csrf) + markup::ROW_END@,
        ),
{
    let pieces = seq![
        markup::ROW_TO_ID@,
        decimal(row.id as int),
        markup::ROW_TO_DATE@,
        instant_text(row.submitted_at@.0, row.submitted_at@.1, "%Y-%m-%d %H:%M"@),
        markup::ROW_TO_SEVERITY_CLASS@,
        row.severity@,
        markup::ROW_TO_SEVERITY@,
        severity_label(row.severity@),
        markup::ROW_TO_CHANNEL@,
        channel_label(row.channel@),
        markup::ROW_TO_SUMMARY@,
        escaped(short_summary(row.summary@)),
        markup::ROW_TO_ID_2@,
        decimal(row.id as int),
        markup::ROW_TO_CSRF@,
        escaped(csrf),
        markup::ROW_END@,
    ];
    assert(queue_row(csrf, row) == concat(pieces, 17)) by {
        reveal_with_fuel(concat, 18);
    }
    lemma_neighbours(pieces, 17, 0);
    lemma_neighbours(pieces, 17, 2);
    lemma_neighbours(pieces, 17, 4);
    lemma_neighbours(pieces, 17, 6);
    lemma_neighbours(pieces, 17, 8);
    lemma_neighbours(pieces, 17, 10);
    lemma_neighbours(pieces, 17, 12);
    lemma_neighbours(pieces, 17, 14);
}

/// The page of the queue holds who is logged in, and the table.
pub proof fn law_page_shows_its_parts(csrf: Seq<char>, actor_email: Seq<char>, rows: Seq<QueueRow>)
    ensures
        holds(
            queue_page(csrf, actor_email, rows),
            markup::PAGE_TO_CSS@ + markup::OPERATOR_CSS@ + markup::PAGE_TO_ACTOR@,
        ),
        holds(
            queue_page(csrf, actor_email, rows),
            markup::PAGE_TO_ACTOR@ + escaped(actor_email) + markup::PAGE_TO_TABLE@,
        ),
        holds(
            queue_page(csrf, actor_email, rows),
            markup::PAGE_TO_TABLE@ + queue_table(csrf, rows) + markup::PAGE_END@,
        ),
{
    let pieces = seq![
        markup::PAGE_TO_CSS@,
        markup::OPERATOR_CSS@,
        markup::PAGE_TO_ACTOR@,
        escaped(actor_email),
        markup::PAGE_TO_TABLE@,
        queue_table(csrf, rows),
        markup::PAGE_END@,
    ];
    assert(queue_page(csrf, actor_email, rows) == concat(pieces, 7)) by {
        reveal_with_fuel(concat, 8);
    }
    lemma_neighbours(pieces, 7, 0);
    lemma_neighbours(pieces, 7, 2);
    lemma_neighbours(pieces, 7, 4);
}

/// One report more adds its row behind the others, whatever it is, and takes none
/// away; without reports there are no rows.
pub proof fn law_each_report_adds_its_row(csrf: Seq<char>, rows: Seq<QueueRow>, row: QueueRow)
    ensures
        queue_rows(csrf, Seq::empty()).len() == 0,
        queue_rows(csrf, rows.push(row)) == queue_rows(csrf, rows) + queue_row(csrf, row),
        queue_table(csrf, Seq::empty()) == markup::EMPTY_QUEUE@,
{
    assert(rows.push(row).drop_last() =~= rows);
}

proof fn lemma_rows_hold_each(csrf: Seq<char>, rows: Seq<QueueRow>, i: int)
    requires
        0 <= i < rows.len(),
    ensures
        holds(queue_rows(csrf, rows), queue_row(csrf, rows[i])),
    decreases rows.len(),
{
    let before = queue_rows(csrf, rows.drop_last());
    if i == rows.len() - 1 {
        assert(before + queue_row(csrf, rows[i]) + Seq::<char>::empty() =~= queue_rows(csrf, rows));
        lemma_holds_between(before, queue_row(csrf, rows[i]), Seq::empty());
    } else {
        lemma_rows_hold_each(csrf, rows.drop_last(), i);
        assert(rows.drop_last()[i] == rows[i]);
        lemma_holds_longer(before, queue_row(csrf, rows.last()), queue_row(csrf, rows[i]));
    }
}

/// The page lists every report that was read, with its row.
pub proof fn law_page_lists_each_report(
    csrf: Seq<char>,
    actor_email: Seq<char>,
    rows: Seq<QueueRow>,
    i: int,
)
    requires
        0 <= i < rows.len(),
    ensures
        holds(queue_page(csrf, actor_email, rows), markup::TABLE_OPEN@ + queue_rows(csrf, rows) + markup::TABLE_END@),
        holds(queue_page(csrf, actor_email, rows), queue_row(csrf, rows[i])),
        holds(queue_page(csrf, actor_email, rows), markup::ROW_TO_SUMMARY@ + escaped(short_summary(rows[i].summary@)) + markup::ROW_TO_ID_2@),
        holds(queue_page(csrf, actor_email, rows), markup::ROW_TO_SEVERITY@ + severity_label(rows[i].severity@) + markup::ROW_TO_CHANNEL@),
{
    let page = queue_page(csrf, actor_email, rows);
    let whole = markup::TABLE_OPEN@ + queue_rows(csrf, rows) + markup::TABLE_END@;
    law_page_shows_its_parts(csrf, actor_email, rows);
    assert(queue_table(csrf, rows) == whole);
    lemma_holds_between(markup::PAGE_TO_TABLE@, whole, markup::PAGE_END@);
    lemma_holds_within(page, markup::PAGE_TO_TABLE@ + whole + markup::PAGE_END@, whole);
    lemma_holds_between(markup::TABLE_OPEN@, queue_rows(csrf, rows), markup::TABLE_END@);
    lemma_holds_within(page, whole, queue_rows(csrf, rows));
    lemma_rows_hold_each(csrf, rows, i);
    lemma_holds_within(page, queue_rows(csrf, rows), queue_row(csrf, rows[i]));
    law_row_shows_its_report(csrf, rows[i]);
    lemma_holds_within(page, queue_row(csrf, rows[i]), markup::ROW_TO_SUMMARY@ + escaped(short_summary(rows[i].summary@)) + markup::ROW_TO_ID_2@);
    lemma_holds_within(page, queue_row(csrf, rows[i]), markup::ROW_TO_SEVERITY@ + severity_label(rows[i].severity@) + markup::ROW_TO_CHANNEL@);
}

/// The queue is read for active administrators and developers: the reports in
/// intake, oldest first. Without a session, or deactivated, a caller is sent to the
/// login page, and with a lower role to the landing page.
pub proof fn law_queue_is_for_leads(session: Option<Identity>, queue: TriageQueue)
    requires
        is_triage_queue(session, queue),
    ensures
        session is None ==> (queue matches TriageQueue::Answer(Reply::Redirect { location })
            && location@ == "/admin/login"@),
        session matches Some(caller) ==> (!caller.is_active ==> (
        queue matches TriageQueue::Answer(Reply::Redirect { location }) && location@
            == "/admin/login"@)),
        session matches Some(caller) ==> (caller.is_active && caller.role != Role::Administrator
            && caller.role != Role::Developer ==> (
        queue matches TriageQueue::Answer(Reply::Redirect { location }) && location@ == "/admin"@)),
        session matches Some(caller) ==> (caller.is_active && (caller.role == Role::Administrator
            || caller.role == Role::Developer) ==> (
        queue matches TriageQueue::LoadQueue { actor, query } && actor == caller && query.sql@
            == "SELECT "@ + "id, summary, severity, channel, submitted_at"@ + " FROM "@ + "reports"@
            + (" WHERE "@ + ("status"@ + " = $"@ + decimal(1))) + " ORDER BY "@ + "submitted_at"@
            + " ASC"@ && query.binds@.len() == 1 && query.binds@[0]@ == ValueView::Text("intake"@))),
{
    let select = queue_select();
    let parts = numbered(select.conditions);
    reveal_with_fuel(joined, 2);
    assert(parts.len() == 1);
    assert(parts[0] == condition_text(select.conditions[0], 1));
    assert(select.values().len() == 1);
    assert(select.values()[0] == ValueView::Text("intake"@));
    if let TriageQueue::LoadQueue { actor, query } = queue {
        let views = value_views(query.binds@);
        assert(views.len() == query.binds@.len());
        assert(query.binds@.len() == 1 ==> views[0] == query.binds@[0]@);
    }
}

/// The reply to a request for the queue is its page.
pub proof fn law_reply_is_the_page(
    csrf: Seq<char>,
    actor_email: Seq<char>,
    rows: Seq<QueueRow>,
    reply: Reply,
)
    requires
        is_queue_reply(csrf, actor_email, rows, reply),
    ensures
        reply matches Reply::Html { status, body } && status == 200 && body@ == queue_page(csrf, actor_email, rows),
{
}

/// Opening a case for a report in intake writes the case for that report, moves
/// that report, and enters the opening in the history of the case that was
/// written, under the lead who asked for it; all of it lasts, and the lead is sent
/// back to the queue.
pub proof fn law_opening_a_case(report_id: i64, run: Seq<OpenCaseRun>, lead: Identity, case_id: i64)
    requires
        is_open_case_run(report_id, run),
        run.len() == 6,
        run[0].event == OpenCaseEvent::Session(Some(lead)),
        lead.is_active,
        lead.role == Role::Administrator || lead.role == Role::Developer,
        run[1].event matches OpenCaseEvent::ReportStatus(Some(status)) && status@ == "intake"@,
        run[2].event == OpenCaseEvent::CaseWritten(case_id),
        run[3].event is ReportMoved,
        run[4].event is HistoryWritten,
        run[5].event is Committed,
    ensures
        run[0].action == (OpenCaseAction::ReadReport { report_id }),
        run[1].action matches OpenCaseAction::WriteCase(case) && case.report_id == report_id
            && case.status@ == "triage"@,
        run[2].action matches OpenCaseAction::MoveReport { report_id: moved, status } && moved
            == report_id && status@ == "triage"@,
        run[3].action matches OpenCaseAction::WriteHistory(entry) && entry.case_id == case_id
            && entry.actor_id == lead.user_id && entry.action_type@ == "case_opened"@ && entry.note@
            == "Opened from report #"@ + decimal(report_id as int),
        run[4].action is Commit,
        run[5].action matches OpenCaseAction::Answer(Reply::Redirect { location }) && location@
            == "/admin/triage"@,
{
    assert(open_case_step(report_id, OpenCaseState::Start, run[0].event, run[0].state, run[0].action));
    assert(open_case_step(report_id, run[0].state, run[1].event, run[1].state, run[1].action));
    assert(open_case_step(report_id, run[1].state, run[2].event, run[2].state, run[2].action));
    assert(open_case_step(report_id, run[2].state, run[3].event, run[3].state, run[3].action));
    assert(open_case_step(report_id, run[3].state, run[4].event, run[4].state, run[4].action));
    assert(open_case_step(report_id, run[4].state, run[5].event, run[5].state, run[5].action));
}

/// What stands against opening a case ends the request: without a user, or with
/// one that was deactivated, at the login; with a role that does not suffice, at
/// the landing page; and at the queue, which is told why, where there is no such
/// report or it has left intake.
pub proof fn law_opening_is_refused(
    report_id: i64,
    state: OpenCaseState,
    event: OpenCaseEvent,
    next: OpenCaseState,
    action: OpenCaseAction,
)
    requires
        open_case_step(report_id, state, event, next, action),
    ensures
        state is Start && event == OpenCaseEvent::Session(None) ==> next is Done && (
        action matches OpenCaseAction::Answer(Reply::Redirect { location }) && location@
            == "/admin/login"@),
        event matches OpenCaseEvent::Session(Some(user)) ==> (state is Start && !user.is_active
            ==> next is Done && (
        action matches OpenCaseAction::Answer(Reply::Redirect { location }) && location@
            == "/admin/login"@)),
        event matches OpenCaseEvent::Session(Some(user)) ==> (state is Start && user.is_active
            && user.role != Role::Administrator && user.role != Role::Developer ==> next is Done && (
        action matches OpenCaseAction::Answer(Reply::Redirect { location }) && location@
            == "/admin"@)),
        state is Reading && event == OpenCaseEvent::ReportStatus(None) ==> next is Done && (
        action matches OpenCaseAction::Answer(Reply::Redirect { location }) && location@
            == "/admin/triage?error=unknown"@),
        event matches OpenCaseEvent::ReportStatus(Some(status)) ==> (state is Reading && status@
            != "intake"@ ==> next is Done && (
        action matches OpenCaseAction::Answer(Reply::Redirect { location }) && location@
            == "/admin/triage?error=race"@)),
{
}

/// An event that does not fit the state ends the request as a failure, and nothing
/// else does.
pub proof fn law_opening_fails_on_an_event_out_of_turn(
    report_id: i64,
    state: OpenCaseState,
    event: OpenCaseEvent,
    next: OpenCaseState,
    action: OpenCaseAction,
)
    requires
        open_case_step(report_id, state, event, next, action),
    ensures
        action is Fail <==> !((state is Start && event is Session) || (state is Reading
            && event is ReportStatus) || (state is WritingCase && event is CaseWritten) || (
        state is MovingReport && event is ReportMoved) || (state is WritingHistory
            && event is HistoryWritten) || (state is Committing && event is Committed)),
        action matches OpenCaseAction::Fail(fault) ==> next is Done && (
        fault matches Fault::Internal(text) && text@ == "unexpected event"@),
{
}

}
