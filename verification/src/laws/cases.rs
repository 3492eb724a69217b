//! What the page of a case shows, and to whom.

use vstd::prelude::*;

use crate::auth_helper::{Identity, Role};
use crate::handlers::cases::{
    action_item, action_items, action_note, assignee, detail_page, forbidden_page, history,
    history_select, is_access, is_case_detail, is_detail_reply, not_found_page, reporter, ActionRow,
    CaseAccess, CaseDetail, CaseRow, ReportRow,
};
use crate::html::{escaped, law_escaped_keeps_the_text};
use crate::labels::{action_type_label, channel_label, severity_label, status_label};
use crate::markup::cases as markup;
use crate::models::ValueView;
use crate::reply::Reply;
use crate::statement::{condition_text, numbered, value_views};
use crate::text::{
    concat, decimal, holds, joined, lemma_holds_between, lemma_holds_longer, lemma_holds_within,
    lemma_neighbours, lemma_read_back,
};
use crate::time::instant_text;

verus! {

/// The page holds, each whole and in its place, what is known of the case and of
/// its report, who is logged in, and the history.
pub proof fn law_page_shows_its_values(
    actor_email: Seq<char>,
    case: CaseRow,
    report: ReportRow,
    assignee_email: Option<Seq<char>>,
    actions: Seq<ActionRow>,
)
    ensures
        holds(
            detail_page(actor_email, case, report, assignee_email, actions),
            markup::PAGE_TO_CASE_ID@ + decimal(case.id as int) + markup::PAGE_TO_CSS@,
        ),
        holds(
            detail_page(actor_email, case, report, assignee_email, actions),
            markup::PAGE_TO_CSS@ + markup::OPERATOR_CSS@ + markup::PAGE_TO_ACTOR@,
        ),
        holds(
            detail_page(actor_email, case, report, assignee_email, actions),
            markup::PAGE_TO_ACTOR@ + escaped(actor_email) + markup::PAGE_TO_CASE_ID_2@,
        ),
        holds(
            detail_page(actor_email, case, report, assignee_email, actions),
            markup::PAGE_TO_CASE_ID_2@ + decimal(case.id as int) + markup::PAGE_TO_STATUS@,
        ),
        holds(
            detail_page(actor_email, case, report, assignee_email, actions),
            markup::PAGE_TO_STATUS@ + escaped(case.status@) + markup::PAGE_TO_STATUS_LABEL@,
        ),
        holds(
            detail_page(actor_email, case, report, assignee_email, actions),
            markup::PAGE_TO_STATUS_LABEL@ + escaped(status_label(case.status@)) + markup::PAGE_TO_REPORT_ID@,
        ),
        holds(
            detail_page(actor_email, case, report, assignee_email, actions),
            markup::PAGE_TO_REPORT_ID@ + decimal(case.report_id as int) + markup::PAGE_TO_SEVERITY@,
        ),
        holds(
            detail_page(actor_email, case, report, assignee_email, actions),
            markup::PAGE_TO_SEVERITY@ + escaped(severity_label(report.severity@)) + markup::PAGE_TO_CHANNEL@,
        ),
        holds(
            detail_page(actor_email, case, report, assignee_email, actions),
            markup::PAGE_TO_CHANNEL@ + escaped(channel_label(report.channel@)) + markup::PAGE_TO_SUBMITTED_AT@,
        ),
        holds(
            detail_page(actor_email, case, report, assignee_email, actions),
            markup::PAGE_TO_SUBMITTED_AT@ + instant_text(report.submitted_at@.0, report.submitted_at@.1, "%Y-%m-%d %H:%M"@) + markup::PAGE_TO_OPENED_AT@,
        ),
        holds(
            detail_page(actor_email, case, report, assignee_email, actions),
            markup::PAGE_TO_OPENED_AT@ + instant_text(case.opened_at@.0, case.opened_at@.1, "%Y-%m-%d %H:%M"@) + markup::PAGE_TO_ASSIGNEE@,
        ),
        holds(
            detail_page(actor_email, case, report, assignee_email, actions),
            markup::PAGE_TO_ASSIGNEE@ + assignee(assignee_email) + markup::PAGE_TO_REPORTER@,
        ),
        holds(
            detail_page(actor_email, case, report, assignee_email, actions),
            markup::PAGE_TO_REPORTER@ + reporter(report.has_email) + markup::PAGE_TO_SUMMARY@,
        ),
        holds(
            detail_page(actor_email, case, report, assignee_email, actions),
            markup::PAGE_TO_SUMMARY@ + escaped(report.summary@) + markup::PAGE_TO_BODY@,
        ),
        holds(
            detail_page(actor_email, case, report, assignee_email, actions),
            markup::PAGE_TO_BODY@ + escaped(report.body@) + markup::PAGE_TO_HISTORY@,
        ),
        holds(
            detail_page(actor_email, case, report, assignee_email, actions),
            markup::PAGE_TO_HISTORY@ + history(actions) + markup::PAGE_END@,
        ),
{
    let pieces = seq![
        markup::PAGE_TO_CASE_ID@,
        decimal(case.id as int),
        markup::PAGE_TO_CSS@,
        markup::OPERATOR_CSS@,
        markup::PAGE_TO_ACTOR@,
        escaped(actor_email),
        markup::PAGE_TO_CASE_ID_2@,
        decimal(case.id as int),
        markup::PAGE_TO_STATUS@,
        escaped(case.status@),
        markup::PAGE_TO_STATUS_LABEL@,
        escaped(status_label(case.status@)),
        markup::PAGE_TO_REPORT_ID@,
        decimal(case.report_id as int),
        markup::PAGE_TO_SEVERITY@,
        escaped(severity_label(report.severity@)),
        markup::PAGE_TO_CHANNEL@,
        escaped(channel_label(report.channel@)),
        markup::PAGE_TO_SUBMITTED_AT@,
        instant_text(report.submitted_at@.0, report.submitted_at@.1, "%Y-%m-%d %H:%M"@),
        markup::PAGE_TO_OPENED_AT@,
        instant_text(case.opened_at@.0, case.opened_at@.1, "%Y-%m-%d %H:%M"@),
        markup::PAGE_TO_ASSIGNEE@,
        assignee(assignee_email),
        markup::PAGE_TO_REPORTER@,
        reporter(report.has_email),
        markup::PAGE_TO_SUMMARY@,
        escaped(report.summary@),
        markup::PAGE_TO_BODY@,
        escaped(report.body@),
        markup::PAGE_TO_HISTORY@,
        history(actions),
        markup::PAGE_END@,
    ];
    assert(detail_page(actor_email, case, report, assignee_email, actions) == concat(pieces, 33)) by {
        reveal_with_fuel(concat, 34);
    }
    lemma_neighbours(pieces, 33, 0);
    lemma_neighbours(pieces, 33, 2);
    lemma_neighbours(pieces, 33, 4);
    lemma_neighbours(pieces, 33, 6);
    lemma_neighbours(pieces, 33, 8);
    lemma_neighbours(pieces, 33, 10);
    lemma_neighbours(pieces, 33, 12);
    lemma_neighbours(pieces, 33, 14);
    lemma_neighbours(pieces, 33, 16);
    lemma_neighbours(pieces, 33, 18);
    lemma_neighbours(pieces, 33, 20);
    lemma_neighbours(pieces, 33, 22);
    lemma_neighbours(pieces, 33, 24);
    lemma_neighbours(pieces, 33, 26);
    lemma_neighbours(pieces, 33, 28);
    lemma_neighbours(pieces, 33, 30);
}

/// The body of the report can be read back from the page.
pub proof fn law_body_can_be_read_from_the_page(
    actor_email: Seq<char>,
    case: CaseRow,
    report: ReportRow,
    assignee_email: Option<Seq<char>>,
    actions: Seq<ActionRow>,
    other: ReportRow,
)
    requires
        detail_page(actor_email, case, report, assignee_email, actions) == detail_page(actor_email, case, other, assignee_email, actions),
        other.summary@ == report.summary@,
        other.severity@ == report.severity@,
        other.channel@ == report.channel@,
        other.submitted_at@ == report.submitted_at@,
        other.has_email == report.has_email,
    ensures
        report.body@ == other.body@,
{
    let p = seq![
        markup::PAGE_TO_CASE_ID@,
        decimal(case.id as int),
        markup::PAGE_TO_CSS@,
        markup::OPERATOR_CSS@,
        markup::PAGE_TO_ACTOR@,
        escaped(actor_email),
        markup::PAGE_TO_CASE_ID_2@,
        decimal(case.id as int),
        markup::PAGE_TO_STATUS@,
        escaped(case.status@),
        markup::PAGE_TO_STATUS_LABEL@,
        escaped(status_label(case.status@)),
        markup::PAGE_TO_REPORT_ID@,
        decimal(case.report_id as int),
        markup::PAGE_TO_SEVERITY@,
        escaped(severity_label(report.severity@)),
        markup::PAGE_TO_CHANNEL@,
        escaped(channel_label(report.channel@)),
        markup::PAGE_TO_SUBMITTED_AT@,
        instant_text(report.submitted_at@.0, report.submitted_at@.1, "%Y-%m-%d %H:%M"@),
        markup::PAGE_TO_OPENED_AT@,
        instant_text(case.opened_at@.0, case.opened_at@.1, "%Y-%m-%d %H:%M"@),
        markup::PAGE_TO_ASSIGNEE@,
        assignee(assignee_email),
        markup::PAGE_TO_REPORTER@,
        reporter(report.has_email),
        markup::PAGE_TO_SUMMARY@,
        escaped(report.summary@),
        markup::PAGE_TO_BODY@,
        escaped(report.body@),
        markup::PAGE_TO_HISTORY@,
        history(actions),
        markup::PAGE_END@,
    ];
    let q = seq![
        markup::PAGE_TO_CASE_ID@,
        decimal(case.id as int),
        markup::PAGE_TO_CSS@,
        markup::OPERATOR_CSS@,
        markup::PAGE_TO_ACTOR@,
        escaped(actor_email),
        markup::PAGE_TO_CASE_ID_2@,
        decimal(case.id as int),
        markup::PAGE_TO_STATUS@,
        escaped(case.status@),
        markup::PAGE_TO_STATUS_LABEL@,
        escaped(status_label(case.status@)),
        markup::PAGE_TO_REPORT_ID@,
        decimal(case.report_id as int),
        markup::PAGE_TO_SEVERITY@,
        escaped(severity_label(report.severity@)),
        markup::PAGE_TO_CHANNEL@,
        escaped(channel_label(report.channel@)),
        markup::PAGE_TO_SUBMITTED_AT@,
        instant_text(report.submitted_at@.0, report.submitted_at@.1, "%Y-%m-%d %H:%M"@),
        markup::PAGE_TO_OPENED_AT@,
        instant_text(case.opened_at@.0, case.opened_at@.1, "%Y-%m-%d %H:%M"@),
        markup::PAGE_TO_ASSIGNEE@,
        assignee(assignee_email),
        markup::PAGE_TO_REPORTER@,
        reporter(report.has_email),
        markup::PAGE_TO_SUMMARY@,
        escaped(report.summary@),
        markup::PAGE_TO_BODY@,
        escaped(other.body@),
        markup::PAGE_TO_HISTORY@,
        history(actions),
        markup::PAGE_END@,
    ];
    assert(detail_page(actor_email, case, report, assignee_email, actions) == concat(p, 33) && detail_page(actor_email, case, other, assignee_email, actions) == concat(q, 33)) by {
        reveal_with_fuel(concat, 34);
    }
    lemma_read_back(p, q, 33, 29);
    law_escaped_keeps_the_text(report.body@, other.body@);
}

/// The summary of the report can be read back from the page.
pub proof fn law_summary_can_be_read_from_the_page(
    actor_email: Seq<char>,
    case: CaseRow,
    report: ReportRow,
    assignee_email: Option<Seq<char>>,
    actions: Seq<ActionRow>,
    other: ReportRow,
)
    requires
        detail_page(actor_email, case, report, assignee_email, actions) == detail_page(actor_email, case, other, assignee_email, actions),
        other.body@ == report.body@,
        other.severity@ == report.severity@,
        other.channel@ == report.channel@,
        other.submitted_at@ == report.submitted_at@,
        other.has_email == report.has_email,
    ensures
        report.summary@ == other.summary@,
{
    let p = seq![
        markup::PAGE_TO_CASE_ID@,
        decimal(case.id as int),
        markup::PAGE_TO_CSS@,
        markup::OPERATOR_CSS@,
        markup::PAGE_TO_ACTOR@,
        escaped(actor_email),
        markup::PAGE_TO_CASE_ID_2@,
        decimal(case.id as int),
        markup::PAGE_TO_STATUS@,
        escaped(case.status@),
        markup::PAGE_TO_STATUS_LABEL@,
        escaped(status_label(case.status@)),
        markup::PAGE_TO_REPORT_ID@,
        decimal(case.report_id as int),
        markup::PAGE_TO_SEVERITY@,
        escaped(severity_label(report.severity@)),
        markup::PAGE_TO_CHANNEL@,
        escaped(channel_label(report.channel@)),
        markup::PAGE_TO_SUBMITTED_AT@,
        instant_text(report.submitted_at@.0, report.submitted_at@.1, "%Y-%m-%d %H:%M"@),
        markup::PAGE_TO_OPENED_AT@,
        instant_text(case.opened_at@.0, case.opened_at@.1, "%Y-%m-%d %H:%M"@),
        markup::PAGE_TO_ASSIGNEE@,
        assignee(assignee_email),
        markup::PAGE_TO_REPORTER@,
        reporter(report.has_email),
        markup::PAGE_TO_SUMMARY@,
        escaped(report.summary@),
        markup::PAGE_TO_BODY@,
        escaped(report.body@),
        markup::PAGE_TO_HISTORY@,
        history(actions),
        markup::PAGE_END@,
    ];
    let q = seq![
        markup::PAGE_TO_CASE_ID@,
        decimal(case.id as int),
        markup::PAGE_TO_CSS@,
        markup::OPERATOR_CSS@,
        markup::PAGE_TO_ACTOR@,
        escaped(actor_email),
        markup::PAGE_TO_CASE_ID_2@,
        decimal(case.id as int),
        markup::PAGE_TO_STATUS@,
        escaped(case.status@),
        markup::PAGE_TO_STATUS_LABEL@,
        escaped(status_label(case.status@)),
        markup::PAGE_TO_REPORT_ID@,
        decimal(case.report_id as int),
        markup::PAGE_TO_SEVERITY@,
        escaped(severity_label(report.severity@)),
        markup::PAGE_TO_CHANNEL@,
        escaped(channel_label(report.channel@)),
        markup::PAGE_TO_SUBMITTED_AT@,
        instant_text(report.submitted_at@.0, report.submitted_at@.1, "%Y-%m-%d %H:%M"@),
        markup::PAGE_TO_OPENED_AT@,
        instant_text(case.opened_at@.0, case.opened_at@.1, "%Y-%m-%d %H:%M"@),
        markup::PAGE_TO_ASSIGNEE@,
        assignee(assignee_email),
        markup::PAGE_TO_REPORTER@,
        reporter(report.has_email),
        markup::PAGE_TO_SUMMARY@,
        escaped(other.summary@),
        markup::PAGE_TO_BODY@,
        escaped(report.body@),
        markup::PAGE_TO_HISTORY@,
        history(actions),
        markup::PAGE_END@,
    ];
    assert(detail_page(actor_email, case, report, assignee_email, actions) == concat(p, 33) && detail_page(actor_email, case, other, assignee_email, actions) == concat(q, 33)) by {
        reveal_with_fuel(concat, 34);
    }
    lemma_read_back(p, q, 33, 27);
    law_escaped_keeps_the_text(report.summary@, other.summary@);
}

/// An item of the history holds, each whole and in its place, the label of the
/// action, who did it, when, and the note.
pub proof fn law_item_shows_its_action(action: ActionRow)
    ensures
        holds(
            action_item(action),
            markup::ITEM_TO_ACTION@ + escaped(action_type_label(action.action_type@)) + markup::ITEM_TO_ACTOR@,
        ),
        holds(
            action_item(action),
            markup::ITEM_TO_ACTOR@ + escaped(action.actor_email@) + markup::ITEM_TO_WHEN@,
        ),
        holds(
            action_item(action),
            markup::ITEM_TO_WHEN@ + instant_text(action.created_at@.0, action.created_at@.1, "%Y-%m-%d %H:%M"@) + markup::ITEM_TO_NOTE@,
        ),
        holds(
            action_item(action),
            markup::ITEM_TO_NOTE@ + action_note(action.note@) + markup::ITEM_END@,
        ),
{
    let pieces = seq![
        markup::ITEM_TO_ACTION@,
        escaped(action_type_label(action.action_type@)),
        markup::ITEM_TO_ACTOR@,
        escaped(action.actor_email@),
        markup::ITEM_TO_WHEN@,
        instant_text(action.created_at@.0, action.created_at@.1, "%Y-%m-%d %H:%M"@),
        markup::ITEM_TO_NOTE@,
        action_note(action.note@),
        markup::ITEM_END@,
    ];
    assert(action_item(action) == concat(pieces, 9)) by {
        reveal_with_fuel(concat, 10);
    }
    lemma_neighbours(pieces, 9, 0);
    lemma_neighbours(pieces, 9, 2);
    lemma_neighbours(pieces, 9, 4);
    lemma_neighbours(pieces, 9, 6);
}

/// A note stands whole in its item; where there is none, nothing stands for it.
pub proof fn law_note_is_shown(note: Seq<char>)
    ensures
        note.len() > 0 ==> action_note(note) == markup::NOTE_TO_TEXT@ + escaped(note)
            + markup::NOTE_END@,
        note.len() == 0 ==> action_note(note).len() == 0,
{
}

/// One action more adds its item behind the others, whatever its type, and takes
/// none away; without actions there are no items.
pub proof fn law_each_action_adds_its_item(actions: Seq<ActionRow>, action: ActionRow)
    ensures
        action_items(Seq::empty()).len() == 0,
        action_items(actions.push(action)) == action_items(actions) + action_item(action),
{
    assert(actions.push(action).drop_last() =~= actions);
}

/// The items of a list of actions are one for each, in their order.
pub proof fn law_items_are_one_for_each_action(actions: Seq<ActionRow>)
    ensures
        action_items(actions) == concat(
            Seq::new(actions.len(), |i: int| action_item(actions[i])),
            actions.len() as int,
        ),
    decreases actions.len(),
{
    let items = Seq::new(actions.len(), |i: int| action_item(actions[i]));
    if actions.len() > 0 {
        let rest = actions.drop_last();
        law_items_are_one_for_each_action(rest);
        let fewer = Seq::new(rest.len(), |i: int| action_item(rest[i]));
        lemma_concat_of_start(items, fewer, rest.len() as int);
        if actions.len() == 1 {
            assert(action_items(actions) =~= action_item(actions[0]));
        }
    }
}

proof fn lemma_concat_of_start(p: Seq<Seq<char>>, q: Seq<Seq<char>>, n: int)
    requires
        0 <= n <= p.len(),
        n <= q.len(),
        forall|j: int| 0 <= j < n ==> #[trigger] p[j] == q[j],
    ensures
        concat(p, n) == concat(q, n),
    decreases n,
{
    if n > 0 {
        lemma_concat_of_start(p, q, n - 1);
        assert(p[n - 1] == q[n - 1]);
    }
}

proof fn lemma_items_hold_each(actions: Seq<ActionRow>, i: int)
    requires
        0 <= i < actions.len(),
    ensures
        holds(action_items(actions), action_item(actions[i])),
    decreases actions.len(),
{
    let last = actions.len() - 1;
    if i == last {
        let before = action_items(actions.drop_last());
        assert(before + action_item(actions[i]) + Seq::<char>::empty() =~= action_items(actions));
        lemma_holds_between(before, action_item(actions[i]), Seq::empty());
    } else {
        lemma_items_hold_each(actions.drop_last(), i);
        assert(actions.drop_last()[i] == actions[i]);
        lemma_holds_longer(
            action_items(actions.drop_last()),
            action_item(actions.last()),
            action_item(actions[i]),
        );
    }
}

/// The page shows the whole history: each action has its item there, with the
/// label of its type, whatever that is, the user, the time and the note.
pub proof fn law_page_shows_each_action(
    actor_email: Seq<char>,
    case: CaseRow,
    report: ReportRow,
    assignee_email: Option<Seq<char>>,
    actions: Seq<ActionRow>,
    i: int,
)
    requires
        0 <= i < actions.len(),
    ensures
        holds(detail_page(actor_email, case, report, assignee_email, actions), markup::HISTORY_OPEN@ + action_items(actions) + markup::HISTORY_END@),
        holds(detail_page(actor_email, case, report, assignee_email, actions), action_item(actions[i])),
        holds(
            detail_page(actor_email, case, report, assignee_email, actions),
            markup::ITEM_TO_ACTION@ + escaped(action_type_label(actions[i].action_type@))
                + markup::ITEM_TO_ACTOR@,
        ),
        holds(
            detail_page(actor_email, case, report, assignee_email, actions),
            markup::ITEM_TO_ACTOR@ + escaped(actions[i].actor_email@) + markup::ITEM_TO_WHEN@,
        ),
        actions[i].note@.len() > 0 ==> holds(
            detail_page(actor_email, case, report, assignee_email, actions),
            markup::NOTE_TO_TEXT@ + escaped(actions[i].note@) + markup::NOTE_END@,
        ),
{
    let page = detail_page(actor_email, case, report, assignee_email, actions);
    let action = actions[i];
    law_page_shows_its_values(actor_email, case, report, assignee_email, actions);
    let whole = markup::HISTORY_OPEN@ + action_items(actions) + markup::HISTORY_END@;
    assert(history(actions) == whole);
    lemma_holds_between(markup::PAGE_TO_HISTORY@, whole, markup::PAGE_END@);
    lemma_holds_within(page, markup::PAGE_TO_HISTORY@ + whole + markup::PAGE_END@, whole);
    lemma_holds_between(markup::HISTORY_OPEN@, action_items(actions), markup::HISTORY_END@);
    lemma_holds_within(page, whole, action_items(actions));
    lemma_items_hold_each(actions, i);
    lemma_holds_within(page, action_items(actions), action_item(action));
    law_item_shows_its_action(action);
    lemma_holds_within(
        page,
        action_item(action),
        markup::ITEM_TO_ACTION@ + escaped(action_type_label(action.action_type@))
            + markup::ITEM_TO_ACTOR@,
    );
    lemma_holds_within(
        page,
        action_item(action),
        markup::ITEM_TO_ACTOR@ + escaped(action.actor_email@) + markup::ITEM_TO_WHEN@,
    );
    if action.note@.len() > 0 {
        let shown = markup::NOTE_TO_TEXT@ + escaped(action.note@) + markup::NOTE_END@;
        law_note_is_shown(action.note@);
        lemma_holds_between(markup::ITEM_TO_NOTE@, shown, markup::ITEM_END@);
        lemma_holds_within(action_item(action), markup::ITEM_TO_NOTE@ + shown + markup::ITEM_END@, shown);
        lemma_holds_within(page, action_item(action), shown);
    }
}

/// The page says who the case is assigned to, or that nobody is; and whether the
/// reporter left an address.
pub proof fn law_page_says_who_is_assigned(
    actor_email: Seq<char>,
    case: CaseRow,
    report: ReportRow,
    assignee_email: Option<Seq<char>>,
    actions: Seq<ActionRow>,
    email: Seq<char>,
)
    ensures
        assignee_email == Some(email) ==> holds(
            detail_page(actor_email, case, report, assignee_email, actions),
            markup::PAGE_TO_ASSIGNEE@ + (markup::ASSIGNEE_TO_EMAIL@ + escaped(email) + markup::ASSIGNEE_END@) + markup::PAGE_TO_REPORTER@,
        ),
        assignee_email is None ==> holds(detail_page(actor_email, case, report, assignee_email, actions), markup::PAGE_TO_ASSIGNEE@ + markup::NO_ASSIGNEE@ + markup::PAGE_TO_REPORTER@),
        report.has_email ==> holds(detail_page(actor_email, case, report, assignee_email, actions), markup::PAGE_TO_REPORTER@ + markup::EMAIL_GIVEN@ + markup::PAGE_TO_SUMMARY@),
        !report.has_email ==> holds(detail_page(actor_email, case, report, assignee_email, actions), markup::PAGE_TO_REPORTER@ + markup::ANONYMOUS@ + markup::PAGE_TO_SUMMARY@),
        actions.len() == 0 ==> holds(detail_page(actor_email, case, report, assignee_email, actions), markup::PAGE_TO_HISTORY@ + markup::NO_HISTORY@ + markup::PAGE_END@),
{
    law_page_shows_its_values(actor_email, case, report, assignee_email, actions);
}

/// A case is shown to compliance leads and to its assignee, whatever it is about,
/// and to nobody else: others are told that it is not theirs, and where there is
/// no such case, everyone is told so.
pub proof fn law_access_to_a_case(actor: Identity, case: Option<CaseRow>, access: CaseAccess)
    requires
        is_access(actor, case, access),
    ensures
        case is None ==> (access matches CaseAccess::Answer(Reply::Html { status, body }) && status
            == 404 && body@ == not_found_page()),
        case matches Some(row) ==> ((actor.role == Role::Administrator || actor.role
            == Role::Developer || row.assignee_id == Some(actor.user_id)) ==> (
        access matches CaseAccess::LoadDetail { case: shown, history } && shown == row)),
        case matches Some(row) ==> (actor.role != Role::Administrator && actor.role
            != Role::Developer && row.assignee_id != Some(actor.user_id) ==> (
        access matches CaseAccess::Answer(Reply::Html { status, body }) && status == 403 && body@
            == forbidden_page())),
{
}

/// Staff and those above them go on to have a case read; without a session, or
/// deactivated, a caller is sent to the login page, and a mere user to the landing
/// page.
pub proof fn law_cases_are_for_staff(session: Option<Identity>, detail: CaseDetail)
    requires
        is_case_detail(session, detail),
    ensures
        session is None ==> (detail matches CaseDetail::Answer(Reply::Redirect { location })
            && location@ == "/admin/login"@),
        session matches Some(caller) ==> (!caller.is_active ==> (
        detail matches CaseDetail::Answer(Reply::Redirect { location }) && location@
            == "/admin/login"@)),
        session matches Some(caller) ==> (caller.is_active && caller.role == Role::User ==> (
        detail matches CaseDetail::Answer(Reply::Redirect { location }) && location@
            == "/admin"@)),
        session matches Some(caller) ==> (caller.is_active && caller.role != Role::User ==> detail
            == CaseDetail::LoadCase(caller)),
{
}

/// The history that is read for a case is that of its own id, whole, newest first.
pub proof fn law_history_is_read_by_its_case(actor: Identity, row: CaseRow, access: CaseAccess)
    requires
        is_access(actor, Some(row), access),
    ensures
        access matches CaseAccess::LoadDetail { case, history } ==> history.sql@ == "SELECT "@
            + "ca.action_type, ca.note, ca.created_at, COALESCE(u.email, '<deleted user>') AS actor_email"@
            + " FROM "@
            + "case_actions ca LEFT JOIN rustio_users u ON u.id = ca.actor_id"@
            + (" WHERE "@ + ("ca.case_id"@ + " = $"@ + decimal(1))) + " ORDER BY "@
            + "ca.created_at"@ + " DESC"@ && history.binds@.len() == 1 && history.binds@[0]@
            == ValueView::I64(row.id),
{
    let select = history_select(row.id);
    let parts = numbered(select.conditions);
    reveal_with_fuel(joined, 2);
    assert(parts.len() == 1);
    assert(parts[0] == condition_text(select.conditions[0], 1));
    assert(select.values().len() == 1);
    assert(select.values()[0] == ValueView::I64(row.id));
    if let CaseAccess::LoadDetail { case, history } = access {
        let views = value_views(history.binds@);
        assert(views.len() == history.binds@.len());
        assert(history.binds@.len() == 1 ==> views[0] == history.binds@[0]@);
    }
}

/// The reply to a request for a case that may be seen is its page, with the whole
/// report.
pub proof fn law_reply_is_the_page(
    actor_email: Seq<char>,
    case: CaseRow,
    report: ReportRow,
    assignee_email: Option<Seq<char>>,
    actions: Seq<ActionRow>,
    reply: Reply,
)
    requires
        is_detail_reply(actor_email, case, report, assignee_email, actions, reply),
    ensures
        reply matches Reply::Html { status, body } && status == 200 && body@ == detail_page(actor_email, case, report, assignee_email, actions),
{
}

}
