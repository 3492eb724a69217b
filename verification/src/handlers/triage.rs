//! The triage queue, where compliance leads look over the reports that came in
//! and open cases for them.
//!
//! A case is opened in one transaction: the report is locked and must still be
//! in `intake`; the case is written, the report moves to `triage`, and the
//! history of the case gets its first entry.

use vstd::prelude::*;

use crate::auth_helper::{admitted, refusal, require_role, AccessGuard, Identity, Role};
use crate::html::{escape, escaped};
use crate::labels::{channel_label, channel_label_sv, severity_label, severity_label_sv};
use crate::markup::triage as markup;
use crate::models::{Value, ValueView};
use crate::records::{NewCase, NewCaseAction};
use crate::reply::{Fault, Reply, OK};
use crate::statement::{
    compares, is_key, law_select_gives_no_row_twice, law_select_gives_what_is_asked, meets, Comparison,
    Condition, ConditionView, Select, SelectView, Statement,
};
use crate::text::{chars_of, decimal, decimal_text, opt_text, parse_i64, parsed_i64, same_text};
use crate::time::{instant_text, later, Timestamp, MINUTE_PATTERN};

verus! {

/// The role that works on the queue.
pub const MIN_ROLE: Role = Role::Administrator;

/// A summary longer than this is cut in the queue.
pub const SUMMARY_LIMIT: usize = 80;

/// What is left of a summary that is cut.
pub const SUMMARY_CUT: usize = 77;

/// A report in the queue.
pub struct QueueRow {
    pub id: i64,
    pub summary: String,
    pub severity: String,
    pub channel: String,
    pub submitted_at: Timestamp,
}

/// The token of a request, empty where it came without one.
pub open spec fn token_of(token: Option<Seq<char>>) -> Seq<char> {
    match token {
        Some(text) => text,
        None => ""@,
    }
}

/// The token that guards a form against forgery, empty where the request came
/// without one.
pub fn csrf_token_from(token: Option<String>) -> (r: String)
    ensures
        r@ == token_of(opt_text(token)),
{
    match token {
        Some(text) => text,
        None => "".to_string(),
    }
}

/// The id that a part of a path stands for, zero where it is no number.
pub open spec fn path_id(param: Option<Seq<char>>) -> int {
    match param {
        Some(text) => match parsed_i64(text) {
            Some(id) => id,
            None => 0,
        },
        None => 0,
    }
}

/// The id in the path of a request, zero where it is no number.
pub fn id_from_path(param: Option<&str>) -> (r: i64)
    ensures
        r == path_id(
            match param {
                Some(text) => Some(text@),
                None => None,
            },
        ),
{
    match param {
        Some(text) => match parse_i64(text) {
            Some(id) => id,
            None => 0,
        },
        None => 0,
    }
}

/// The style sheet of the page.
pub fn operator_css() -> (r: &'static str)
    ensures
        r@ == markup::OPERATOR_CSS@,
{
    markup::OPERATOR_CSS
}

/// A summary as the queue shows it.
pub open spec fn short_summary(summary: Seq<char>) -> Seq<char> {
    if summary.len() > SUMMARY_LIMIT {
        summary.take(SUMMARY_CUT as int).push('…')
    } else {
        summary
    }
}

fn short_summary_text(summary: &str) -> (r: String)
    ensures
        r@ == short_summary(summary@),
{
    let chars = chars_of(summary);
    if chars.len() > SUMMARY_LIMIT {
        let mut out = String::from_str(summary.substring_char(0, SUMMARY_CUT));
        out.push('…');
        assert(out@ == short_summary(summary@));
        out
    } else {
        summary.to_string()
    }
}

/// One row of the queue, with the form that opens a case.
pub open spec fn queue_row(csrf: Seq<char>, row: QueueRow) -> Seq<char> {
    markup::ROW_TO_ID@
        + decimal(row.id as int)
        + markup::ROW_TO_DATE@
        + instant_text(row.submitted_at@.0, row.submitted_at@.1, MINUTE_PATTERN@)
        + markup::ROW_TO_SEVERITY_CLASS@
        + row.severity@
        + markup::ROW_TO_SEVERITY@
        + severity_label(row.severity@)
        + markup::ROW_TO_CHANNEL@
        + channel_label(row.channel@)
        + markup::ROW_TO_SUMMARY@
        + escaped(short_summary(row.summary@))
        + markup::ROW_TO_ID_2@
        + decimal(row.id as int)
        + markup::ROW_TO_CSRF@
        + escaped(csrf)
        + markup::ROW_END@
}

/// The rows of the queue, in their order.
pub open spec fn queue_rows(csrf: Seq<char>, rows: Seq<QueueRow>) -> Seq<char>
    decreases rows.len(),
{
    if rows.len() == 0 {
        Seq::empty()
    } else {
        queue_rows(csrf, rows.drop_last()) + queue_row(csrf, rows.last())
    }
}

/// The table of the reports in the queue.
pub open spec fn queue_table(csrf: Seq<char>, rows: Seq<QueueRow>) -> Seq<char> {
    if rows.len() == 0 {
        markup::EMPTY_QUEUE@
    } else {
        markup::TABLE_OPEN@ + queue_rows(csrf, rows) + markup::TABLE_END@
    }
}

/// The page of the queue.
pub open spec fn queue_page(csrf: Seq<char>, actor_email: Seq<char>, rows: Seq<QueueRow>) -> Seq<char> {
    markup::PAGE_TO_CSS@
        + markup::OPERATOR_CSS@
        + markup::PAGE_TO_ACTOR@
        + escaped(actor_email)
        + markup::PAGE_TO_TABLE@
        + queue_table(csrf, rows)
        + markup::PAGE_END@
}

fn queue_row_html(csrf: &str, row: &QueueRow) -> (r: String)
    ensures
        r@ == queue_row(csrf@, *row),
{
    let id = decimal_text(row.id);
    let summary = short_summary_text(row.summary.as_str());
    let mut out = String::from_str(markup::ROW_TO_ID);
    out.append(id.as_str());
    out.append(markup::ROW_TO_DATE);
    out.append(row.submitted_at.minute_text().as_str());
    out.append(markup::ROW_TO_SEVERITY_CLASS);
    out.append(row.severity.as_str());
    out.append(markup::ROW_TO_SEVERITY);
    out.append(severity_label_sv(row.severity.as_str()));
    out.append(markup::ROW_TO_CHANNEL);
    out.append(channel_label_sv(row.channel.as_str()));
    out.append(markup::ROW_TO_SUMMARY);
    out.append(escape(summary.as_str()).as_str());
    out.append(markup::ROW_TO_ID_2);
    out.append(id.as_str());
    out.append(markup::ROW_TO_CSRF);
    out.append(escape(csrf).as_str());
    out.append(markup::ROW_END);
    out
}

fn queue_table_html(csrf: &str, rows: &[QueueRow]) -> (r: String)
    ensures
        r@ == queue_table(csrf@, rows@),
{
    if rows.len() == 0 {
        return markup::EMPTY_QUEUE.to_string();
    }
    let mut list = String::new();
    let mut i: usize = 0;
    assert(rows@.take(0).len() == 0);
    while i < rows.len()
        invariant
            i <= rows@.len(),
            list@ == queue_rows(csrf@, rows@.take(i as int)),
        decreases rows@.len() - i,
    {
        list.append(queue_row_html(csrf, &rows[i]).as_str());
        assert(rows@.take(i + 1).drop_last() == rows@.take(i as int));
        assert(rows@.take(i + 1).last() == rows@[i as int]);
        i += 1;
    }
    assert(rows@.take(rows@.len() as int) == rows@);
    let mut out = String::from_str(markup::TABLE_OPEN);
    out.append(list.as_str());
    out.append(markup::TABLE_END);
    out
}

/// Renders the page of the queue.
pub fn render_queue(csrf: &str, actor_email: &str, rows: &[QueueRow]) -> (r: String)
    ensures
        r@ == queue_page(csrf@, actor_email@, rows@),
{
    let mut out = String::from_str(markup::PAGE_TO_CSS);
    out.append(operator_css());
    out.append(markup::PAGE_TO_ACTOR);
    out.append(escape(actor_email).as_str());
    out.append(markup::PAGE_TO_TABLE);
    out.append(queue_table_html(csrf, rows).as_str());
    out.append(markup::PAGE_END);
    out
}

/// The columns of a report in the queue.
pub const QUEUE_COLUMNS: &'static str = "id, summary, severity, channel, submitted_at";

pub const QUEUE_SOURCE: &'static str = "reports";

/// The statement behind the queue: the reports in intake, oldest first.
pub open spec fn queue_select() -> SelectView {
    SelectView {
        columns: QUEUE_COLUMNS@,
        source: QUEUE_SOURCE@,
        conditions: seq![
            ConditionView {
                column: "status"@,
                comparison: Comparison::Equal,
                value: ValueView::Text(INTAKE@),
            },
        ],
        order: "submitted_at"@,
        descending: false,
    }
}

/// Builds the statement behind the queue.
pub fn queue_query() -> (r: Statement)
    ensures
        r.is(queue_select().rows_text(), queue_select().values()),
{
    let condition = Condition {
        column: "status",
        comparison: Comparison::Equal,
        value: Value::Text(INTAKE.to_string()),
    };
    let select = Select {
        columns: QUEUE_COLUMNS,
        source: QUEUE_SOURCE,
        conditions: vec![condition],
        order: "submitted_at",
        descending: false,
    };
    assert(select@.conditions =~= queue_select().conditions);
    select.rows()
}

/// What to do for a request for the queue.
pub enum TriageQueue {
    /// Answer without reading anything.
    Answer(Reply),
    /// Run the statement, and show what it gives to this user.
    LoadQueue { actor: Identity, query: Statement },
}

/// Whether something is to be done for a request for the queue, from its session.
pub open spec fn is_triage_queue(session: Option<Identity>, queue: TriageQueue) -> bool {
    match refusal(session, MIN_ROLE) {
        Some(path) => queue matches TriageQueue::Answer(reply) && reply.is_redirect(path),
        None => queue matches TriageQueue::LoadQueue { actor, query } && actor == session->0
            && query.is(queue_select().rows_text(), queue_select().values()),
    }
}

/// Begins a request for the queue: compliance leads go on to have it read,
/// anyone else is sent elsewhere.
pub fn show_triage_queue(session: Option<Identity>) -> (r: TriageQueue)
    ensures
        is_triage_queue(session, r),
{
    match require_role(session, MIN_ROLE) {
        AccessGuard::Redirect(reply) => TriageQueue::Answer(reply),
        AccessGuard::Allow(actor) => TriageQueue::LoadQueue { actor, query: queue_query() },
    }
}

/// Whether a reply answers a request for the queue with some reports.
pub open spec fn is_queue_reply(
    csrf: Seq<char>,
    actor_email: Seq<char>,
    rows: Seq<QueueRow>,
    reply: Reply,
) -> bool {
    reply.is_page(OK, queue_page(csrf, actor_email, rows))
}

/// Answers a request for the queue with the reports that were read.
pub fn triage_queue_reply(csrf: &str, actor_email: &str, rows: &[QueueRow]) -> (r: Reply)
    ensures
        is_queue_reply(csrf@, actor_email@, rows@, r),
{
    Reply::html(render_queue(csrf, actor_email, rows))
}

/// The status of a report that nobody has looked at.
pub const INTAKE: &'static str = "intake";

/// The status of a report and of a case that a lead has picked up.
pub const TRIAGE: &'static str = "triage";

/// The first entry in the history of a case.
pub const CASE_OPENED: &'static str = "case_opened";

pub const QUEUE_PATH: &'static str = "/admin/triage";

pub const UNKNOWN_REPORT_PATH: &'static str = "/admin/triage?error=unknown";

pub const RACE_PATH: &'static str = "/admin/triage?error=race";

/// How far the opening of a case has come.
pub enum OpenCaseState {
    /// Nothing is known of the caller yet.
    Start,
    /// A transaction was begun, and the report is being locked and read.
    Reading { actor_id: i64 },
    /// The case is being written.
    WritingCase { actor_id: i64 },
    /// The report is being moved on.
    MovingReport { actor_id: i64, case_id: i64 },
    /// The history is being written.
    WritingHistory,
    /// The transaction is being committed.
    Committing,
    /// The request has been answered.
    Done,
}

/// What happened.
pub enum OpenCaseEvent {
    /// The session of the request was looked up.
    Session(Option<Identity>),
    /// The report was locked and its status read, if there is such a report.
    ReportStatus(Option<String>),
    /// The case was written and got this id.
    CaseWritten(i64),
    /// The report was moved on.
    ReportMoved,
    /// The history was written.
    HistoryWritten,
    /// The transaction was committed.
    Committed,
}

/// What is to be done next.
pub enum OpenCaseAction {
    /// Begin a transaction, and lock and read the report.
    ReadReport { report_id: i64 },
    /// Write the case.
    WriteCase(NewCase),
    /// Give the report a new status.
    MoveReport { report_id: i64, status: String },
    /// Write the entry in the history of the case.
    WriteHistory(NewCaseAction),
    /// Commit the transaction.
    Commit,
    /// Answer the request. A transaction that was not committed is rolled back.
    Answer(Reply),
    /// Give up; nothing that was written lasts.
    Fail(Fault),
}

/// The note of the first entry in the history.
pub open spec fn opened_note(report_id: int) -> Seq<char> {
    "Opened from report #"@ + decimal(report_id)
}

/// What follows on an event: the step of the opening of a case.
pub open spec fn open_case_step(
    report_id: i64,
    state: OpenCaseState,
    event: OpenCaseEvent,
    next: OpenCaseState,
    action: OpenCaseAction,
) -> bool {
    match (state, event) {
        (OpenCaseState::Start, OpenCaseEvent::Session(session)) => match refusal(session, MIN_ROLE) {
            Some(path) => next is Done && (action matches OpenCaseAction::Answer(reply)
                && reply.is_redirect(path)),
            None => next == (OpenCaseState::Reading { actor_id: session->0.user_id }) && action == (
            OpenCaseAction::ReadReport { report_id }),
        },
        (OpenCaseState::Reading { actor_id }, OpenCaseEvent::ReportStatus(status)) => match status {
            None => next is Done && (action matches OpenCaseAction::Answer(reply)
                && reply.is_redirect(UNKNOWN_REPORT_PATH@)),
            Some(text) => if text@ == INTAKE@ {
                next == (OpenCaseState::WritingCase { actor_id }) && (
                action matches OpenCaseAction::WriteCase(case) && case.holds(report_id, TRIAGE@))
            } else {
                next is Done && (action matches OpenCaseAction::Answer(reply)
                    && reply.is_redirect(RACE_PATH@))
            },
        },
        (OpenCaseState::WritingCase { actor_id }, OpenCaseEvent::CaseWritten(case_id)) => next == (
        OpenCaseState::MovingReport { actor_id, case_id }) && (
        action matches OpenCaseAction::MoveReport { report_id: moved, status } && moved == report_id
            && status@ == TRIAGE@),
        (OpenCaseState::MovingReport { actor_id, case_id }, OpenCaseEvent::ReportMoved) => {
            next is WritingHistory && (action matches OpenCaseAction::WriteHistory(entry)
                && entry.holds(case_id, actor_id, CASE_OPENED@, opened_note(report_id as int)))
        },
        (OpenCaseState::WritingHistory, OpenCaseEvent::HistoryWritten) => next is Committing
            && action is Commit,
        (OpenCaseState::Committing, OpenCaseEvent::Committed) => next is Done && (
        action matches OpenCaseAction::Answer(reply) && reply.is_redirect(QUEUE_PATH@)),
        _ => next is Done && (action matches OpenCaseAction::Fail(Fault::Internal(text)) && text@
            == "unexpected event"@),
    }
}

/// Takes one step in the opening of a case for a report.
pub fn do_open_case(report_id: i64, state: OpenCaseState, event: OpenCaseEvent) -> (r: (
    OpenCaseState,
    OpenCaseAction,
))
    ensures
        open_case_step(report_id, state, event, r.0, r.1),
{
    match (state, event) {
        (OpenCaseState::Start, OpenCaseEvent::Session(session)) => match require_role(
            session,
            MIN_ROLE,
        ) {
            AccessGuard::Redirect(reply) => (OpenCaseState::Done, OpenCaseAction::Answer(reply)),
            AccessGuard::Allow(identity) => (
                OpenCaseState::Reading { actor_id: identity.user_id },
                OpenCaseAction::ReadReport { report_id },
            ),
        },
        (OpenCaseState::Reading { actor_id }, OpenCaseEvent::ReportStatus(status)) => match status {
            None => (
                OpenCaseState::Done,
                OpenCaseAction::Answer(Reply::redirect(UNKNOWN_REPORT_PATH)),
            ),
            Some(text) => if same_text(text.as_str(), INTAKE) {
                (
                    OpenCaseState::WritingCase { actor_id },
                    OpenCaseAction::WriteCase(NewCase { report_id, status: TRIAGE.to_string() }),
                )
            } else {
                (OpenCaseState::Done, OpenCaseAction::Answer(Reply::redirect(RACE_PATH)))
            },
        },
        (OpenCaseState::WritingCase { actor_id }, OpenCaseEvent::CaseWritten(case_id)) => (
            OpenCaseState::MovingReport { actor_id, case_id },
            OpenCaseAction::MoveReport { report_id, status: TRIAGE.to_string() },
        ),
        (OpenCaseState::MovingReport { actor_id, case_id }, OpenCaseEvent::ReportMoved) => {
            let note = "Opened from report #".to_string().concat(decimal_text(report_id).as_str());
            (
                OpenCaseState::WritingHistory,
                OpenCaseAction::WriteHistory(
                    NewCaseAction {
                        case_id,
                        actor_id,
                        action_type: CASE_OPENED.to_string(),
                        note,
                    },
                ),
            )
        },
        (OpenCaseState::WritingHistory, OpenCaseEvent::HistoryWritten) => (
            OpenCaseState::Committing,
            OpenCaseAction::Commit,
        ),
        (OpenCaseState::Committing, OpenCaseEvent::Committed) => (
            OpenCaseState::Done,
            OpenCaseAction::Answer(Reply::redirect(QUEUE_PATH)),
        ),
        _ => (
            OpenCaseState::Done,
            OpenCaseAction::Fail(Fault::Internal("unexpected event".to_string())),
        ),
    }
}

/// One step of a run: what happened, how far the opening came, and what was to
/// be done.
pub struct OpenCaseRun {
    pub event: OpenCaseEvent,
    pub state: OpenCaseState,
    pub action: OpenCaseAction,
}

/// Whether some steps are a run from the start.
pub open spec fn is_open_case_run(report_id: i64, run: Seq<OpenCaseRun>) -> bool {
    forall|i: int|
        0 <= i < run.len() ==> open_case_step(
            report_id,
            if i == 0 {
                OpenCaseState::Start
            } else {
                run[i - 1].state
            },
            (#[trigger] run[i]).event,
            run[i].state,
            run[i].action,
        )
}

/// Whether an action writes to the database or makes what was written last.
pub open spec fn is_write(action: OpenCaseAction) -> bool {
    action is WriteCase || action is MoveReport || action is WriteHistory || action is Commit
}

/// How many steps lead to a state.
spec fn stage(state: OpenCaseState) -> int {
    match state {
        OpenCaseState::Start => 0,
        OpenCaseState::Reading { .. } => 1,
        OpenCaseState::WritingCase { .. } => 2,
        OpenCaseState::MovingReport { .. } => 3,
        OpenCaseState::WritingHistory => 4,
        OpenCaseState::Committing => 5,
        OpenCaseState::Done => 6,
    }
}

/// A step that does not end the request leads one stage further.
proof fn lemma_stage(report_id: i64, run: Seq<OpenCaseRun>, i: int)
    requires
        is_open_case_run(report_id, run),
        0 <= i < run.len(),
        !(run[i].state is Done),
    ensures
        stage(run[i].state) == i + 1,
        i > 0 ==> !(run[i - 1].state is Done),
    decreases i,
{
    let step = run[i];
    if i > 0 {
        if !(run[i - 1].state is Done) {
            lemma_stage(report_id, run, i - 1);
        }
    }
}

/// A case is opened only by an active compliance lead, and only for a report
/// that is in intake; otherwise nothing is written.
pub proof fn law_only_intake_is_opened(report_id: i64, run: Seq<OpenCaseRun>, k: int)
    requires
        is_open_case_run(report_id, run),
        0 <= k < run.len(),
        is_write(run[k].action),
    ensures
        run[0].event matches OpenCaseEvent::Session(Some(actor)) && admitted(actor, MIN_ROLE),
        k >= 1,
        run[1].event matches OpenCaseEvent::ReportStatus(Some(status)) && status@ == INTAKE@,
{
    lemma_stage(report_id, run, k);
    if k >= 2 {
        lemma_stage(report_id, run, k - 1);
    }
    if k >= 3 {
        lemma_stage(report_id, run, k - 2);
    }
    if k >= 4 {
        lemma_stage(report_id, run, k - 3);
    }
    assert(open_case_step(report_id, OpenCaseState::Start, run[0].event, run[0].state, run[0].action));
    assert(open_case_step(report_id, run[0].state, run[1].event, run[1].state, run[1].action));
    assert(!(run[0].state is Done) && !(run[1].state is Done));
}

/// What is committed is whole: one case for the report, in triage; the report
/// moved to triage; and one entry in the history of that case, by the lead who
/// opened it.
pub proof fn law_committed_opening_is_whole(report_id: i64, run: Seq<OpenCaseRun>, k: int)
    requires
        is_open_case_run(report_id, run),
        0 <= k < run.len(),
        run[k].action is Commit,
    ensures
        k == 4,
        run[1].action matches OpenCaseAction::WriteCase(case) && case.holds(report_id, TRIAGE@),
        run[2].action matches OpenCaseAction::MoveReport { report_id: moved, status } && moved
            == report_id && status@ == TRIAGE@,
        run[3].action matches OpenCaseAction::WriteHistory(entry) && (
        run[0].event matches OpenCaseEvent::Session(Some(actor)) && (
        run[2].event matches OpenCaseEvent::CaseWritten(case_id) && entry.holds(
            case_id,
            actor.user_id,
            CASE_OPENED@,
            opened_note(report_id as int),
        ))),
{
    lemma_stage(report_id, run, k);
    lemma_stage(report_id, run, 3);
    lemma_stage(report_id, run, 2);
    lemma_stage(report_id, run, 1);
    lemma_stage(report_id, run, 0);
    assert(open_case_step(report_id, OpenCaseState::Start, run[0].event, run[0].state, run[0].action));
    assert(open_case_step(report_id, run[0].state, run[1].event, run[1].state, run[1].action));
    assert(open_case_step(report_id, run[1].state, run[2].event, run[2].state, run[2].action));
    assert(open_case_step(report_id, run[2].state, run[3].event, run[3].state, run[3].action));
}

/// Where a compliance lead asks for it, the report is in intake and everything
/// is written as asked, the case is opened and the lead is sent back to the
/// queue.
pub proof fn law_intake_is_opened(report_id: i64, run: Seq<OpenCaseRun>)
    requires
        is_open_case_run(report_id, run),
        run.len() == 6,
        run[0].event matches OpenCaseEvent::Session(Some(actor)) && admitted(actor, MIN_ROLE),
        run[1].event matches OpenCaseEvent::ReportStatus(Some(status)) && status@ == INTAKE@,
        run[2].event is CaseWritten,
        run[3].event is ReportMoved,
        run[4].event is HistoryWritten,
        run[5].event is Committed,
    ensures
        run[4].action is Commit,
        run[5].action matches OpenCaseAction::Answer(reply) && reply.is_redirect(QUEUE_PATH@),
{
    assert(open_case_step(report_id, OpenCaseState::Start, run[0].event, run[0].state, run[0].action));
    assert(open_case_step(report_id, run[0].state, run[1].event, run[1].state, run[1].action));
    assert(open_case_step(report_id, run[1].state, run[2].event, run[2].state, run[2].action));
    assert(open_case_step(report_id, run[2].state, run[3].event, run[3].state, run[3].action));
    assert(open_case_step(report_id, run[3].state, run[4].event, run[4].state, run[4].action));
    assert(open_case_step(report_id, run[4].state, run[5].event, run[5].state, run[5].action));
}

/// A report that a case was opened for is not opened again: with the status
/// that the opening gave it, a second attempt writes nothing and is told that
/// someone else was first.
pub proof fn law_opened_report_stays_closed_to_others(
    report_id: i64,
    run: Seq<OpenCaseRun>,
    k: int,
)
    requires
        is_open_case_run(report_id, run),
        0 <= k < run.len(),
        run.len() > 1,
        run[1].event matches OpenCaseEvent::ReportStatus(Some(status)) && status@ == TRIAGE@,
    ensures
        !is_write(run[k].action),
        (run[0].event matches OpenCaseEvent::Session(Some(actor)) && admitted(actor, MIN_ROLE)) ==> (
        run[1].action matches OpenCaseAction::Answer(reply) && reply.is_redirect(RACE_PATH@)),
{
    reveal_strlit("intake");
    reveal_strlit("triage");
    assert(INTAKE@[0] == 'i' && TRIAGE@[0] == 't');
    if is_write(run[k].action) {
        law_only_intake_is_opened(report_id, run, k);
    }
    assert(open_case_step(report_id, OpenCaseState::Start, run[0].event, run[0].state, run[0].action));
    assert(open_case_step(report_id, run[0].state, run[1].event, run[1].state, run[1].action));
}

/// Whether a row of the queue shows a stored report.
pub open spec fn is_queue_row(row: QueueRow, stored: Map<Seq<char>, ValueView>) -> bool {
    &&& stored["id"@] == ValueView::I64(row.id)
    &&& stored["summary"@] == ValueView::Text(row.summary@)
    &&& stored["severity"@] == ValueView::Text(row.severity@)
    &&& stored["channel"@] == ValueView::Text(row.channel@)
    &&& stored["submitted_at"@] == ValueView::DateTime(row.submitted_at@)
}

/// Whether some rows of the queue show what was read, in its order.
pub open spec fn are_queue_rows(
    rows: Seq<QueueRow>,
    read: Seq<Map<Seq<char>, ValueView>>,
) -> bool {
    &&& rows.len() == read.len()
    &&& forall|i: int| 0 <= i < rows.len() ==> is_queue_row(#[trigger] rows[i], read[i])
}

/// Whether some rows of the queue show the report of an id.
pub open spec fn is_listed(rows: Seq<QueueRow>, id: i64) -> bool {
    exists|i: int| 0 <= i < rows.len() && (#[trigger] rows[i]).id == id
}

/// Where the statement behind the queue gives what it asks for, the queue lists
/// exactly the reports in intake, each once, oldest first.
pub proof fn law_queue_lists_intake(
    reports: Seq<Map<Seq<char>, ValueView>>,
    lower: spec_fn(Seq<char>) -> Seq<char>,
    read: Seq<Map<Seq<char>, ValueView>>,
    rows: Seq<QueueRow>,
)
    requires
        is_key(reports, "id"@),
        queue_select().gives(reports, lower, read),
        are_queue_rows(rows, read),
    ensures
        forall|i: int|
            0 <= i < reports.len() && (#[trigger] reports[i])["id"@] is I64 ==> (
            reports[i]["status"@] == ValueView::Text(INTAKE@) <==> is_listed(
                rows,
                reports[i]["id"@]->I64_0,
            )),
        forall|i: int, j: int|
            0 <= i < j < rows.len() ==> (#[trigger] rows[i]).id != (#[trigger] rows[j]).id
                && !later(rows[i].submitted_at@, rows[j].submitted_at@),
{
    let select = queue_select();
    law_select_gives_no_row_twice(select, reports, lower, read, "id"@);
    assert forall|i: int|
        0 <= i < reports.len() && (#[trigger] reports[i])["id"@] is I64 implies (
    reports[i]["status"@] == ValueView::Text(INTAKE@) <==> is_listed(
        rows,
        reports[i]["id"@]->I64_0,
    )) by {
        let stored = reports[i];
        let id = stored["id"@]->I64_0;
        law_select_gives_what_is_asked(select, reports, lower, read, stored);
        assert(reports.contains(stored));
        if stored["status"@] == ValueView::Text(INTAKE@) {
            assert(meets(stored, select.conditions, lower));
            let k = choose|k: int| 0 <= k < read.len() && read[k] == stored;
            assert(is_queue_row(rows[k], read[k]));
        }
        if is_listed(rows, id) {
            let k = choose|k: int| 0 <= k < rows.len() && (#[trigger] rows[k]).id == id;
            assert(is_queue_row(rows[k], read[k]));
            assert(read.contains(read[k]));
            law_select_gives_what_is_asked(select, reports, lower, read, read[k]);
            let j = choose|j: int| 0 <= j < reports.len() && reports[j] == read[k];
            assert(reports[j]["id"@] == reports[i]["id"@]);
            assert(i == j);
            let c = select.conditions[0];
            assert(compares(stored[c.column], c.comparison, c.value, lower));
        }
    }
    assert forall|i: int, j: int| 0 <= i < j < rows.len() implies (#[trigger] rows[i]).id != (
    #[trigger] rows[j]).id && !later(rows[i].submitted_at@, rows[j].submitted_at@) by {
        assert(is_queue_row(rows[i], read[i]) && is_queue_row(rows[j], read[j]));
        assert(read[i]["id"@] != read[j]["id"@]);
        assert(read[i]["submitted_at"@] == ValueView::DateTime(rows[i].submitted_at@));
        assert(read[j]["submitted_at"@] == ValueView::DateTime(rows[j].submitted_at@));
    }
}

/// A report that a case was opened for, and that has the status the opening gave
/// it, is not in the queue.
pub proof fn law_opened_report_leaves_the_queue(
    reports: Seq<Map<Seq<char>, ValueView>>,
    lower: spec_fn(Seq<char>) -> Seq<char>,
    read: Seq<Map<Seq<char>, ValueView>>,
    rows: Seq<QueueRow>,
    i: int,
    report_id: i64,
)
    requires
        is_key(reports, "id"@),
        queue_select().gives(reports, lower, read),
        are_queue_rows(rows, read),
        0 <= i < reports.len(),
        reports[i]["id"@] == ValueView::I64(report_id),
        reports[i]["status"@] == ValueView::Text(TRIAGE@),
    ensures
        !is_listed(rows, report_id),
{
    law_queue_lists_intake(reports, lower, read, rows);
    reveal_strlit("intake");
    reveal_strlit("triage");
    assert(INTAKE@[0] == 'i' && TRIAGE@[0] == 't');
}

/// Whether two stored reports are the same but for the address and the token of
/// the reporter.
pub open spec fn same_but_reporter(
    a: Map<Seq<char>, ValueView>,
    b: Map<Seq<char>, ValueView>,
) -> bool {
    forall|column: Seq<char>|
        column != "reporter_email"@ && column != "reporter_token"@ ==> #[trigger] a[column]
            == b[column]
}

/// Whether two rows of the queue show the same.
spec fn same_row(a: QueueRow, b: QueueRow) -> bool {
    &&& a.id == b.id
    &&& a.summary@ == b.summary@
    &&& a.severity@ == b.severity@
    &&& a.channel@ == b.channel@
    &&& a.submitted_at@ == b.submitted_at@
}

proof fn lemma_same_rows(csrf: Seq<char>, rows: Seq<QueueRow>, other: Seq<QueueRow>)
    requires
        rows.len() == other.len(),
        forall|i: int| 0 <= i < rows.len() ==> same_row(#[trigger] rows[i], other[i]),
    ensures
        queue_rows(csrf, rows) == queue_rows(csrf, other),
    decreases rows.len(),
{
    if rows.len() > 0 {
        lemma_same_rows(csrf, rows.drop_last(), other.drop_last());
        assert(same_row(rows[rows.len() - 1], other[rows.len() - 1]));
    }
}

/// The queue tells nothing of who the reporters are: of reports that differ in the
/// address that was left, or whether one was, and in the token, it shows the same.
pub proof fn law_queue_tells_nothing_of_the_reporter(
    csrf: Seq<char>,
    actor_email: Seq<char>,
    read: Seq<Map<Seq<char>, ValueView>>,
    other_read: Seq<Map<Seq<char>, ValueView>>,
    rows: Seq<QueueRow>,
    other: Seq<QueueRow>,
)
    requires
        read.len() == other_read.len(),
        forall|i: int|
            0 <= i < read.len() ==> same_but_reporter(#[trigger] read[i], other_read[i]),
        are_queue_rows(rows, read),
        are_queue_rows(other, other_read),
    ensures
        queue_page(csrf, actor_email, rows) == queue_page(csrf, actor_email, other),
{
    reveal_strlit("reporter_email");
    reveal_strlit("reporter_token");
    reveal_strlit("id");
    reveal_strlit("summary");
    reveal_strlit("severity");
    reveal_strlit("channel");
    reveal_strlit("submitted_at");
    assert("reporter_email"@.len() == 14 && "reporter_token"@.len() == 14);
    assert("id"@.len() == 2 && "summary"@.len() == 7 && "severity"@.len() == 8 && "channel"@.len()
        == 7 && "submitted_at"@.len() == 12);
    assert forall|i: int| 0 <= i < rows.len() implies same_row(#[trigger] rows[i], other[i]) by {
        assert(is_queue_row(rows[i], read[i]) && is_queue_row(other[i], other_read[i]));
        assert(same_but_reporter(read[i], other_read[i]));
        assert(read[i]["id"@] == other_read[i]["id"@]);
        assert(read[i]["summary"@] == other_read[i]["summary"@]);
        assert(read[i]["severity"@] == other_read[i]["severity"@]);
        assert(read[i]["channel"@] == other_read[i]["channel"@]);
        assert(read[i]["submitted_at"@] == other_read[i]["submitted_at"@]);
    }
    lemma_same_rows(csrf, rows, other);
}

}
