//! The page of one case, where handlers work.
//!
//! Compliance leads see every case, handlers the cases assigned to them. The
//! page tells whether the reporter left an address, and never shows it.

use vstd::prelude::*;

use crate::auth_helper::{
    includes, refusal, require_role, role_includes, AccessGuard, Identity, Role,
};
use crate::html::{escape, escaped};
use crate::labels::{
    action_type_label, action_type_label_sv, channel_label, channel_label_sv, severity_label,
    severity_label_sv, status_label, status_label_sv,
};
use crate::markup::cases as markup;
use crate::models::report::ReportView;
use crate::models::{Value, ValueView};
use crate::reply::{Reply, FORBIDDEN, NOT_FOUND, OK};
use crate::statement::{
    compares, law_select_gives_what_is_asked, meets, Comparison, Condition, ConditionView, Select,
    SelectView, Statement,
};
use crate::text::{decimal, decimal_text};
use crate::time::{instant_text, later, Timestamp, MINUTE_PATTERN};

verus! {

/// The role that reaches the page at all.
pub const MIN_ROLE: Role = Role::Staff;

/// The role of a compliance lead.
pub const LEAD_ROLE: Role = Role::Administrator;

/// The case that is shown.
pub struct CaseRow {
    pub id: i64,
    pub report_id: i64,
    pub assignee_id: Option<i64>,
    pub status: String,
    pub opened_at: Timestamp,
    pub closed_at: Option<Timestamp>,
}

/// The report behind the case, without the address of the reporter.
pub struct ReportRow {
    pub summary: String,
    pub body: String,
    pub severity: String,
    pub channel: String,
    pub has_email: bool,
    pub submitted_at: Timestamp,
}

/// One entry of the history of the case.
pub struct ActionRow {
    pub action_type: String,
    pub note: String,
    pub created_at: Timestamp,
    pub actor_email: String,
}

/// The style sheet of the page.
pub fn operator_css() -> (r: &'static str)
    ensures
        r@ == markup::OPERATOR_CSS@,
{
    markup::OPERATOR_CSS
}

/// An instant to the minute.
pub open spec fn minute(instant: (int, int)) -> Seq<char> {
    instant_text(instant.0, instant.1, MINUTE_PATTERN@)
}

/// Who the case is assigned to.
pub open spec fn assignee(email: Option<Seq<char>>) -> Seq<char> {
    match email {
        Some(text) => markup::ASSIGNEE_TO_EMAIL@
        + escaped(text)
        + markup::ASSIGNEE_END@,
        None => markup::NO_ASSIGNEE@,
    }
}

/// What the page says of the reporter: whether an address was left.
pub open spec fn reporter(has_email: bool) -> Seq<char> {
    if has_email {
        markup::EMAIL_GIVEN@
    } else {
        markup::ANONYMOUS@
    }
}

/// The note of an entry, if it has one.
pub open spec fn action_note(note: Seq<char>) -> Seq<char> {
    if note.len() == 0 {
        Seq::empty()
    } else {
        markup::NOTE_TO_TEXT@
            + escaped(note)
            + markup::NOTE_END@
    }
}

/// One entry of the history.
pub open spec fn action_item(action: ActionRow) -> Seq<char> {
    markup::ITEM_TO_ACTION@
        + escaped(action_type_label(action.action_type@))
        + markup::ITEM_TO_ACTOR@
        + escaped(action.actor_email@)
        + markup::ITEM_TO_WHEN@
        + minute(action.created_at@)
        + markup::ITEM_TO_NOTE@
        + action_note(action.note@)
        + markup::ITEM_END@
}

/// The entries of the history, in their order.
pub open spec fn action_items(actions: Seq<ActionRow>) -> Seq<char>
    decreases actions.len(),
{
    if actions.len() == 0 {
        Seq::empty()
    } else {
        action_items(actions.drop_last()) + action_item(actions.last())
    }
}

/// The history of the case.
pub open spec fn history(actions: Seq<ActionRow>) -> Seq<char> {
    if actions.len() == 0 {
        markup::NO_HISTORY@
    } else {
        markup::HISTORY_OPEN@ + action_items(actions) + markup::HISTORY_END@
    }
}

/// The page of a case.
pub open spec fn detail_page(
    actor_email: Seq<char>,
    case: CaseRow,
    report: ReportRow,
    assignee_email: Option<Seq<char>>,
    actions: Seq<ActionRow>,
) -> Seq<char> {
    markup::PAGE_TO_CASE_ID@
        + decimal(case.id as int)
        + markup::PAGE_TO_CSS@
        + markup::OPERATOR_CSS@
        + markup::PAGE_TO_ACTOR@
        + escaped(actor_email)
        + markup::PAGE_TO_CASE_ID_2@
        + decimal(case.id as int)
        + markup::PAGE_TO_STATUS@
        + escaped(case.status@)
        + markup::PAGE_TO_STATUS_LABEL@
        + escaped(status_label(case.status@))
        + markup::PAGE_TO_REPORT_ID@
        + decimal(case.report_id as int)
        + markup::PAGE_TO_SEVERITY@
        + escaped(severity_label(report.severity@))
        + markup::PAGE_TO_CHANNEL@
        + escaped(channel_label(report.channel@))
        + markup::PAGE_TO_SUBMITTED_AT@
        + minute(report.submitted_at@)
        + markup::PAGE_TO_OPENED_AT@
        + minute(case.opened_at@)
        + markup::PAGE_TO_ASSIGNEE@
        + assignee(assignee_email)
        + markup::PAGE_TO_REPORTER@
        + reporter(report.has_email)
        + markup::PAGE_TO_SUMMARY@
        + escaped(report.summary@)
        + markup::PAGE_TO_BODY@
        + escaped(report.body@)
        + markup::PAGE_TO_HISTORY@
        + history(actions)
        + markup::PAGE_END@
}

fn action_item_html(action: &ActionRow) -> (r: String)
    ensures
        r@ == action_item(*action),
{
    let note = if action.note.as_str().is_empty() {
        String::new()
    } else {
        let mut text = String::from_str(markup::NOTE_TO_TEXT);
        text.append(escape(action.note.as_str()).as_str());
        text.append(markup::NOTE_END);
        text
    };
    let mut out = String::from_str(markup::ITEM_TO_ACTION);
    out.append(escape(action_type_label_sv(action.action_type.as_str())).as_str());
    out.append(markup::ITEM_TO_ACTOR);
    out.append(escape(action.actor_email.as_str()).as_str());
    out.append(markup::ITEM_TO_WHEN);
    out.append(action.created_at.minute_text().as_str());
    out.append(markup::ITEM_TO_NOTE);
    out.append(note.as_str());
    out.append(markup::ITEM_END);
    out
}

fn history_html(actions: &[ActionRow]) -> (r: String)
    ensures
        r@ == history(actions@),
{
    if actions.len() == 0 {
        return markup::NO_HISTORY.to_string();
    }
    let mut items = String::new();
    let mut i: usize = 0;
    assert(actions@.take(0).len() == 0);
    while i < actions.len()
        invariant
            i <= actions@.len(),
            items@ == action_items(actions@.take(i as int)),
        decreases actions@.len() - i,
    {
        items.append(action_item_html(&actions[i]).as_str());
        assert(actions@.take(i + 1).drop_last() == actions@.take(i as int));
        assert(actions@.take(i + 1).last() == actions@[i as int]);
        i += 1;
    }
    assert(actions@.take(actions@.len() as int) == actions@);
    let mut out = String::from_str(markup::HISTORY_OPEN);
    out.append(items.as_str());
    out.append(markup::HISTORY_END);
    out
}

/// The contents of a text that may be missing.
pub open spec fn opt_str(text: Option<&str>) -> Option<Seq<char>> {
    match text {
        Some(t) => Some(t@),
        None => None,
    }
}

/// Renders the page of a case.
pub fn render_detail(
    actor_email: &str,
    case: &CaseRow,
    report: &ReportRow,
    assignee_email: Option<&str>,
    actions: &[ActionRow],
) -> (r: String)
    ensures
        r@ == detail_page(actor_email@, *case, *report, opt_str(assignee_email), actions@),
{
    let assignee_text = match assignee_email {
        Some(email) => {
            let mut text = String::from_str(markup::ASSIGNEE_TO_EMAIL);
            text.append(escape(email).as_str());
            text.append(markup::ASSIGNEE_END);
            text
        },
        None => markup::NO_ASSIGNEE.to_string(),
    };
    let reporter_text = if report.has_email {
        markup::EMAIL_GIVEN
    } else {
        markup::ANONYMOUS
    };
    let case_id = decimal_text(case.id);
    let mut out = String::from_str(markup::PAGE_TO_CASE_ID);
    out.append(case_id.as_str());
    out.append(markup::PAGE_TO_CSS);
    out.append(operator_css());
    out.append(markup::PAGE_TO_ACTOR);
    out.append(escape(actor_email).as_str());
    out.append(markup::PAGE_TO_CASE_ID_2);
    out.append(case_id.as_str());
    out.append(markup::PAGE_TO_STATUS);
    out.append(escape(case.status.as_str()).as_str());
    out.append(markup::PAGE_TO_STATUS_LABEL);
    out.append(escape(status_label_sv(case.status.as_str())).as_str());
    out.append(markup::PAGE_TO_REPORT_ID);
    out.append(decimal_text(case.report_id).as_str());
    out.append(markup::PAGE_TO_SEVERITY);
    out.append(escape(severity_label_sv(report.severity.as_str())).as_str());
    out.append(markup::PAGE_TO_CHANNEL);
    out.append(escape(channel_label_sv(report.channel.as_str())).as_str());
    out.append(markup::PAGE_TO_SUBMITTED_AT);
    out.append(report.submitted_at.minute_text().as_str());
    out.append(markup::PAGE_TO_OPENED_AT);
    out.append(case.opened_at.minute_text().as_str());
    out.append(markup::PAGE_TO_ASSIGNEE);
    out.append(assignee_text.as_str());
    out.append(markup::PAGE_TO_REPORTER);
    out.append(reporter_text);
    out.append(markup::PAGE_TO_SUMMARY);
    out.append(escape(report.summary.as_str()).as_str());
    out.append(markup::PAGE_TO_BODY);
    out.append(escape(report.body.as_str()).as_str());
    out.append(markup::PAGE_TO_HISTORY);
    out.append(history_html(actions).as_str());
    out.append(markup::PAGE_END);
    out
}

/// The page for a case that does not exist.
pub open spec fn not_found_page() -> Seq<char> {
    markup::NOT_FOUND_TO_CSS@
        + markup::OPERATOR_CSS@
        + markup::NOT_FOUND_END@
}

/// The page for a case that is assigned to someone else.
pub open spec fn forbidden_page() -> Seq<char> {
    markup::FORBIDDEN_TO_CSS@
        + markup::OPERATOR_CSS@
        + markup::FORBIDDEN_END@
}

/// Answers that there is no such case.
pub fn not_found() -> (r: Reply)
    ensures
        r.is_page(NOT_FOUND, not_found_page()),
{
    let mut out = String::from_str(markup::NOT_FOUND_TO_CSS);
    out.append(operator_css());
    out.append(markup::NOT_FOUND_END);
    Reply::Html { status: NOT_FOUND, body: out }
}

/// Answers that the case is assigned to someone else.
pub fn forbidden() -> (r: Reply)
    ensures
        r.is_page(FORBIDDEN, forbidden_page()),
{
    let mut out = String::from_str(markup::FORBIDDEN_TO_CSS);
    out.append(operator_css());
    out.append(markup::FORBIDDEN_END);
    Reply::Html { status: FORBIDDEN, body: out }
}

/// Whether a user sees a case with a given assignee.
pub open spec fn sees_case(actor: Identity, assignee_id: Option<i64>) -> bool {
    includes(actor.role, LEAD_ROLE) || assignee_id == Some(actor.user_id)
}

/// What to do for a request for the page of a case.
pub enum CaseDetail {
    /// Answer without reading anything.
    Answer(Reply),
    /// Read the case for this user.
    LoadCase(Identity),
}

/// What to do once the case has been read.
pub enum CaseAccess {
    /// Answer without reading more.
    Answer(Reply),
    /// Read the report and the assignee of the case, have the statement read its
    /// history, and show them.
    LoadDetail { case: CaseRow, history: Statement },
}

pub const HISTORY_COLUMNS: &'static str = "ca.action_type, ca.note, ca.created_at, COALESCE(u.email, '<deleted user>') AS actor_email";

pub const HISTORY_SOURCE: &'static str = "case_actions ca LEFT JOIN rustio_users u ON u.id = ca.actor_id";

/// The statement behind the history of a case: its actions, newest first.
pub open spec fn history_select(case_id: i64) -> SelectView {
    SelectView {
        columns: HISTORY_COLUMNS@,
        source: HISTORY_SOURCE@,
        conditions: seq![
            ConditionView {
                column: "ca.case_id"@,
                comparison: Comparison::Equal,
                value: ValueView::I64(case_id),
            },
        ],
        order: "ca.created_at"@,
        descending: true,
    }
}

/// Builds the statement behind the history of a case.
pub fn history_query(case_id: i64) -> (r: Statement)
    ensures
        r.is(history_select(case_id).rows_text(), history_select(case_id).values()),
{
    let condition = Condition {
        column: "ca.case_id",
        comparison: Comparison::Equal,
        value: Value::I64(case_id),
    };
    let select = Select {
        columns: HISTORY_COLUMNS,
        source: HISTORY_SOURCE,
        conditions: vec![condition],
        order: "ca.created_at",
        descending: true,
    };
    assert(select@.conditions =~= history_select(case_id).conditions);
    select.rows()
}

/// Whether something is to be done for a request for the page of a case, from its
/// session.
pub open spec fn is_case_detail(session: Option<Identity>, detail: CaseDetail) -> bool {
    match refusal(session, MIN_ROLE) {
        Some(path) => detail matches CaseDetail::Answer(reply) && reply.is_redirect(path),
        None => detail == CaseDetail::LoadCase(session->0),
    }
}

/// Begins a request for the page of a case: staff go on to have the case read,
/// anyone else is sent elsewhere.
pub fn show_case_detail(session: Option<Identity>) -> (r: CaseDetail)
    ensures
        is_case_detail(session, r),
{
    match require_role(session, MIN_ROLE) {
        AccessGuard::Redirect(reply) => CaseDetail::Answer(reply),
        AccessGuard::Allow(identity) => CaseDetail::LoadCase(identity),
    }
}

/// Whether something is to be done for a user and the case that was read.
pub open spec fn is_access(actor: Identity, case: Option<CaseRow>, access: CaseAccess) -> bool {
    match case {
        None => access matches CaseAccess::Answer(reply) && reply.is_page(
            NOT_FOUND,
            not_found_page(),
        ),
        Some(row) => if sees_case(actor, row.assignee_id) {
            access matches CaseAccess::LoadDetail { case: shown, history } && shown == row
                && history.is(
                history_select(row.id).rows_text(),
                history_select(row.id).values(),
            )
        } else {
            access matches CaseAccess::Answer(reply) && reply.is_page(FORBIDDEN, forbidden_page())
        },
    }
}

/// Decides what a user is shown of the case that was read: a page that says so
/// where there is none, or where it is assigned to someone else and the user is
/// no compliance lead; the case itself otherwise.
pub fn case_access(actor: &Identity, case: Option<CaseRow>) -> (r: CaseAccess)
    ensures
        is_access(*actor, case, r),
{
    match case {
        None => CaseAccess::Answer(not_found()),
        Some(row) => {
            let is_lead = role_includes(actor.role, LEAD_ROLE);
            let is_assignee = match row.assignee_id {
                Some(id) => id == actor.user_id,
                None => false,
            };
            if !is_lead && !is_assignee {
                CaseAccess::Answer(forbidden())
            } else {
                let history = history_query(row.id);
                CaseAccess::LoadDetail { case: row, history }
            }
        },
    }
}

/// Whether a reply answers a request for a case with what was read of it.
pub open spec fn is_detail_reply(
    actor_email: Seq<char>,
    case: CaseRow,
    report: ReportRow,
    assignee_email: Option<Seq<char>>,
    actions: Seq<ActionRow>,
    reply: Reply,
) -> bool {
    reply.is_page(OK, detail_page(actor_email, case, report, assignee_email, actions))
}

/// Answers a request for the page of a case with what was read of it.
pub fn case_detail_reply(
    actor_email: &str,
    case: &CaseRow,
    report: &ReportRow,
    assignee_email: Option<&str>,
    actions: &[ActionRow],
) -> (r: Reply)
    ensures
        is_detail_reply(actor_email@, *case, *report, opt_str(assignee_email), actions@, r),
{
    Reply::html(render_detail(actor_email, case, report, assignee_email, actions))
}

/// Compliance leads see every case; of the others, whoever reaches the page
/// sees exactly the cases assigned to them.
pub proof fn law_who_sees_a_case(actor: Identity, assignee_id: Option<i64>)
    ensures
        actor.role == Role::Administrator || actor.role == Role::Developer ==> sees_case(
            actor,
            assignee_id,
        ),
        actor.role == Role::Staff || actor.role == Role::Supervisor ==> (sees_case(
            actor,
            assignee_id,
        ) <==> assignee_id == Some(actor.user_id)),
{
}

/// Whether an entry of the history shows an action that was read.
pub open spec fn is_history_entry(row: ActionRow, read: Map<Seq<char>, ValueView>) -> bool {
    &&& read["ca.action_type"@] == ValueView::Text(row.action_type@)
    &&& read["ca.note"@] == ValueView::Text(row.note@)
    &&& read["ca.created_at"@] == ValueView::DateTime(row.created_at@)
    &&& row.actor_email@ == match read["u.email"@] {
        ValueView::Text(email) => email,
        _ => "<deleted user>"@,
    }
}

/// Where the statement behind the history gives what it asks for, the history
/// holds an entry for each action on the case and for no other, newest first.
pub proof fn law_history_is_whole(
    case_id: i64,
    actions: Seq<Map<Seq<char>, ValueView>>,
    lower: spec_fn(Seq<char>) -> Seq<char>,
    read: Seq<Map<Seq<char>, ValueView>>,
    rows: Seq<ActionRow>,
)
    requires
        history_select(case_id).gives(actions, lower, read),
        rows.len() == read.len(),
        forall|i: int| 0 <= i < rows.len() ==> is_history_entry(#[trigger] rows[i], read[i]),
    ensures
        forall|action: Map<Seq<char>, ValueView>| #[trigger]
            read.contains(action) <==> actions.contains(action) && action["ca.case_id"@]
                == ValueView::I64(case_id),
        forall|i: int, j: int|
            0 <= i < j < rows.len() ==> !later(
                (#[trigger] rows[j]).created_at@,
                (#[trigger] rows[i]).created_at@,
            ),
{
    let select = history_select(case_id);
    assert forall|action: Map<Seq<char>, ValueView>| #[trigger]
        read.contains(action) <==> actions.contains(action) && action["ca.case_id"@]
            == ValueView::I64(case_id) by {
        law_select_gives_what_is_asked(select, actions, lower, read, action);
        let c = select.conditions[0];
        assert(compares(action[c.column], c.comparison, c.value, lower) == (
        action["ca.case_id"@] == ValueView::I64(case_id)));
        assert(meets(action, select.conditions, lower) <==> action["ca.case_id"@]
            == ValueView::I64(case_id));
    }
    assert forall|i: int, j: int| 0 <= i < j < rows.len() implies !later(
        (#[trigger] rows[j]).created_at@,
        (#[trigger] rows[i]).created_at@,
    ) by {
        assert(is_history_entry(rows[i], read[i]) && is_history_entry(rows[j], read[j]));
        assert(read[i]["ca.created_at"@] == ValueView::DateTime(rows[i].created_at@));
        assert(read[j]["ca.created_at"@] == ValueView::DateTime(rows[j].created_at@));
    }
}

/// Whether a row is what the page is given of a stored report.
pub open spec fn is_row_of(row: ReportRow, stored: ReportView) -> bool {
    &&& row.summary@ == stored.summary
    &&& row.body@ == stored.body
    &&& row.severity@ == stored.severity
    &&& row.channel@ == stored.channel
    &&& row.has_email == stored.reporter_email is Some
    &&& row.submitted_at@ == stored.submitted_at
}

/// The page of a case tells of the reporter no more than whether there is an
/// address: of two reports that differ in the address that was left and in the
/// token it shows the same.
pub proof fn law_page_tells_only_whether_there_is_an_address(
    actor_email: Seq<char>,
    case: CaseRow,
    stored: ReportView,
    address: Seq<char>,
    token: Seq<char>,
    row: ReportRow,
    other: ReportRow,
    assignee_email: Option<Seq<char>>,
    actions: Seq<ActionRow>,
)
    requires
        stored.reporter_email is Some,
        is_row_of(row, stored),
        is_row_of(
            other,
            (ReportView { reporter_email: Some(address), reporter_token: token, ..stored }),
        ),
    ensures
        detail_page(actor_email, case, row, assignee_email, actions) == detail_page(
            actor_email,
            case,
            other,
            assignee_email,
            actions,
        ),
{
}

}
