//! What the pages of a disclosure show, and what a disclosure leaves behind.

use vstd::prelude::*;
use vstd::utf8::encode_utf8;

use crate::auth_helper::{Identity, Role};
use crate::form::{field, urlencoded_fields};
use crate::handlers::disclosure::{
    anonymous_page, body_reason, disclose_step, error_box, form_page, is_disclose_run,
    is_form_reply, is_form_target, is_show_form, not_found_page, reason_problem, result_page,
    DiscloseAction, DiscloseEvent, DiscloseRun, DiscloseState, FormTarget, ShowForm,
};
use crate::html::{escaped, law_escaped_keeps_the_text};
use crate::markup::disclosure as markup;
use crate::reply::Reply;
use crate::text::{
    concat, decimal, holds, lemma_holds_within, lemma_neighbours, lemma_read_back, trimmed,
};

verus! {

/// The page of a disclosure on record holds, each whole and in its place, the
/// number of the case, the lead, the reporter's address and the reason.
pub proof fn law_result_page_shows_its_values(
    case_id: i64,
    actor_email: Seq<char>,
    reporter_email: Seq<char>,
    reason: Seq<char>,
)
    ensures
        holds(
            result_page(case_id, actor_email, reporter_email, reason),
            markup::RESULT_TO_CASE_ID@ + decimal(case_id as int) + markup::RESULT_TO_CSS@,
        ),
        holds(
            result_page(case_id, actor_email, reporter_email, reason),
            markup::RESULT_TO_CSS@ + markup::OPERATOR_CSS@ + markup::RESULT_TO_ACTOR@,
        ),
        holds(
            result_page(case_id, actor_email, reporter_email, reason),
            markup::RESULT_TO_ACTOR@ + escaped(actor_email) + markup::RESULT_TO_CASE_ID_2@,
        ),
        holds(
            result_page(case_id, actor_email, reporter_email, reason),
            markup::RESULT_TO_CASE_ID_2@ + decimal(case_id as int) + markup::RESULT_TO_CASE_ID_3@,
        ),
        holds(
            result_page(case_id, actor_email, reporter_email, reason),
            markup::RESULT_TO_CASE_ID_3@ + decimal(case_id as int) + markup::RESULT_TO_CASE_ID_4@,
        ),
        holds(
            result_page(case_id, actor_email, reporter_email, reason),
            markup::RESULT_TO_CASE_ID_4@ + decimal(case_id as int) + markup::RESULT_TO_REPORTER@,
        ),
        holds(
            result_page(case_id, actor_email, reporter_email, reason),
            markup::RESULT_TO_REPORTER@ + escaped(reporter_email) + markup::RESULT_TO_REASON@,
        ),
        holds(
            result_page(case_id, actor_email, reporter_email, reason),
            markup::RESULT_TO_REASON@ + escaped(reason) + markup::RESULT_TO_CASE_ID_5@,
        ),
        holds(
            result_page(case_id, actor_email, reporter_email, reason),
            markup::RESULT_TO_CASE_ID_5@ + decimal(case_id as int) + markup::RESULT_TO_CASE_ID_6@,
        ),
        holds(
            result_page(case_id, actor_email, reporter_email, reason),
            markup::RESULT_TO_CASE_ID_6@ + decimal(case_id as int) + markup::RESULT_END@,
        ),
{
    let pieces = seq![
        markup::RESULT_TO_CASE_ID@,
        decimal(case_id as int),
        markup::RESULT_TO_CSS@,
        markup::OPERATOR_CSS@,
        markup::RESULT_TO_ACTOR@,
        escaped(actor_email),
        markup::RESULT_TO_CASE_ID_2@,
        decimal(case_id as int),
        markup::RESULT_TO_CASE_ID_3@,
        decimal(case_id as int),
        markup::RESULT_TO_CASE_ID_4@,
        decimal(case_id as int),
        markup::RESULT_TO_REPORTER@,
        escaped(reporter_email),
        markup::RESULT_TO_REASON@,
        escaped(reason),
        markup::RESULT_TO_CASE_ID_5@,
        decimal(case_id as int),
        markup::RESULT_TO_CASE_ID_6@,
        decimal(case_id as int),
        markup::RESULT_END@,
    ];
    assert(result_page(case_id, actor_email, reporter_email, reason) == concat(pieces, 21)) by {
        reveal_with_fuel(concat, 22);
    }
    lemma_neighbours(pieces, 21, 0);
    lemma_neighbours(pieces, 21, 2);
    lemma_neighbours(pieces, 21, 4);
    lemma_neighbours(pieces, 21, 6);
    lemma_neighbours(pieces, 21, 8);
    lemma_neighbours(pieces, 21, 10);
    lemma_neighbours(pieces, 21, 12);
    lemma_neighbours(pieces, 21, 14);
    lemma_neighbours(pieces, 21, 16);
    lemma_neighbours(pieces, 21, 18);
}

/// The address can be read back from the page of a disclosure: pages for the same
/// case, lead and reason are equal only where the addresses are.
pub proof fn law_address_can_be_read_from_the_page(
    case_id: i64,
    actor_email: Seq<char>,
    reporter_email: Seq<char>,
    reason: Seq<char>,
    other: Seq<char>,
)
    requires
        result_page(case_id, actor_email, reporter_email, reason) == result_page(case_id, actor_email, other, reason),
    ensures
        reporter_email == other,
{
    let p = seq![
        markup::RESULT_TO_CASE_ID@,
        decimal(case_id as int),
        markup::RESULT_TO_CSS@,
        markup::OPERATOR_CSS@,
        markup::RESULT_TO_ACTOR@,
        escaped(actor_email),
        markup::RESULT_TO_CASE_ID_2@,
        decimal(case_id as int),
        markup::RESULT_TO_CASE_ID_3@,
        decimal(case_id as int),
        markup::RESULT_TO_CASE_ID_4@,
        decimal(case_id as int),
        markup::RESULT_TO_REPORTER@,
        escaped(reporter_email),
        markup::RESULT_TO_REASON@,
        escaped(reason),
        markup::RESULT_TO_CASE_ID_5@,
        decimal(case_id as int),
        markup::RESULT_TO_CASE_ID_6@,
        decimal(case_id as int),
        markup::RESULT_END@,
    ];
    let q = seq![
        markup::RESULT_TO_CASE_ID@,
        decimal(case_id as int),
        markup::RESULT_TO_CSS@,
        markup::OPERATOR_CSS@,
        markup::RESULT_TO_ACTOR@,
        escaped(actor_email),
        markup::RESULT_TO_CASE_ID_2@,
        decimal(case_id as int),
        markup::RESULT_TO_CASE_ID_3@,
        decimal(case_id as int),
        markup::RESULT_TO_CASE_ID_4@,
        decimal(case_id as int),
        markup::RESULT_TO_REPORTER@,
        escaped(other),
        markup::RESULT_TO_REASON@,
        escaped(reason),
        markup::RESULT_TO_CASE_ID_5@,
        decimal(case_id as int),
        markup::RESULT_TO_CASE_ID_6@,
        decimal(case_id as int),
        markup::RESULT_END@,
    ];
    assert(result_page(case_id, actor_email, reporter_email, reason) == concat(p, 21) && result_page(case_id, actor_email, other, reason) == concat(q, 21)) by {
        reveal_with_fuel(concat, 22);
    }
    lemma_read_back(p, q, 21, 13);
    law_escaped_keeps_the_text(reporter_email, other);
}

/// The reason can be read back from the page of a disclosure.
pub proof fn law_reason_can_be_read_from_the_page(
    case_id: i64,
    actor_email: Seq<char>,
    reporter_email: Seq<char>,
    reason: Seq<char>,
    other: Seq<char>,
)
    requires
        result_page(case_id, actor_email, reporter_email, reason) == result_page(case_id, actor_email, reporter_email, other),
    ensures
        reason == other,
{
    let p = seq![
        markup::RESULT_TO_CASE_ID@,
        decimal(case_id as int),
        markup::RESULT_TO_CSS@,
        markup::OPERATOR_CSS@,
        markup::RESULT_TO_ACTOR@,
        escaped(actor_email),
        markup::RESULT_TO_CASE_ID_2@,
        decimal(case_id as int),
        markup::RESULT_TO_CASE_ID_3@,
        decimal(case_id as int),
        markup::RESULT_TO_CASE_ID_4@,
        decimal(case_id as int),
        markup::RESULT_TO_REPORTER@,
        escaped(reporter_email),
        markup::RESULT_TO_REASON@,
        escaped(reason),
        markup::RESULT_TO_CASE_ID_5@,
        decimal(case_id as int),
        markup::RESULT_TO_CASE_ID_6@,
        decimal(case_id as int),
        markup::RESULT_END@,
    ];
    let q = seq![
        markup::RESULT_TO_CASE_ID@,
        decimal(case_id as int),
        markup::RESULT_TO_CSS@,
        markup::OPERATOR_CSS@,
        markup::RESULT_TO_ACTOR@,
        escaped(actor_email),
        markup::RESULT_TO_CASE_ID_2@,
        decimal(case_id as int),
        markup::RESULT_TO_CASE_ID_3@,
        decimal(case_id as int),
        markup::RESULT_TO_CASE_ID_4@,
        decimal(case_id as int),
        markup::RESULT_TO_REPORTER@,
        escaped(reporter_email),
        markup::RESULT_TO_REASON@,
        escaped(other),
        markup::RESULT_TO_CASE_ID_5@,
        decimal(case_id as int),
        markup::RESULT_TO_CASE_ID_6@,
        decimal(case_id as int),
        markup::RESULT_END@,
    ];
    assert(result_page(case_id, actor_email, reporter_email, reason) == concat(p, 21) && result_page(case_id, actor_email, reporter_email, other) == concat(q, 21)) by {
        reveal_with_fuel(concat, 22);
    }
    lemma_read_back(p, q, 21, 15);
    law_escaped_keeps_the_text(reason, other);
}

/// The form holds, each whole and in its place, the number of the case, the lead,
/// the box for what is wrong, the token and the limits of a reason.
pub proof fn law_form_shows_its_values(
    case_id: i64,
    actor_email: Seq<char>,
    csrf: Seq<char>,
    error: Option<Seq<char>>,
)
    ensures
        holds(
            form_page(case_id, actor_email, csrf, error),
            markup::FORM_TO_CASE_ID@ + decimal(case_id as int) + markup::FORM_TO_CSS@,
        ),
        holds(
            form_page(case_id, actor_email, csrf, error),
            markup::FORM_TO_CSS@ + markup::OPERATOR_CSS@ + markup::FORM_TO_ACTOR@,
        ),
        holds(
            form_page(case_id, actor_email, csrf, error),
            markup::FORM_TO_ACTOR@ + escaped(actor_email) + markup::FORM_TO_CASE_ID_2@,
        ),
        holds(
            form_page(case_id, actor_email, csrf, error),
            markup::FORM_TO_CASE_ID_2@ + decimal(case_id as int) + markup::FORM_TO_CASE_ID_3@,
        ),
        holds(
            form_page(case_id, actor_email, csrf, error),
            markup::FORM_TO_CASE_ID_3@ + decimal(case_id as int) + markup::FORM_TO_CASE_ID_4@,
        ),
        holds(
            form_page(case_id, actor_email, csrf, error),
            markup::FORM_TO_CASE_ID_4@ + decimal(case_id as int) + markup::FORM_TO_ACTOR_2@,
        ),
        holds(
            form_page(case_id, actor_email, csrf, error),
            markup::FORM_TO_ACTOR_2@ + escaped(actor_email) + markup::FORM_TO_ERROR@,
        ),
        holds(
            form_page(case_id, actor_email, csrf, error),
            markup::FORM_TO_ERROR@ + error_box(error) + markup::FORM_TO_CASE_ID_5@,
        ),
        holds(
            form_page(case_id, actor_email, csrf, error),
            markup::FORM_TO_CASE_ID_5@ + decimal(case_id as int) + markup::FORM_TO_CSRF@,
        ),
        holds(
            form_page(case_id, actor_email, csrf, error),
            markup::FORM_TO_CSRF@ + escaped(csrf) + markup::FORM_TO_MIN@,
        ),
        holds(
            form_page(case_id, actor_email, csrf, error),
            markup::FORM_TO_MIN@ + decimal(10) + markup::FORM_TO_MAX@,
        ),
        holds(
            form_page(case_id, actor_email, csrf, error),
            markup::FORM_TO_MAX@ + decimal(1000) + markup::FORM_TO_MIN_2@,
        ),
        holds(
            form_page(case_id, actor_email, csrf, error),
            markup::FORM_TO_MIN_2@ + decimal(10) + markup::FORM_TO_MAX_2@,
        ),
        holds(
            form_page(case_id, actor_email, csrf, error),
            markup::FORM_TO_MAX_2@ + decimal(1000) + markup::FORM_TO_CASE_ID_6@,
        ),
        holds(
            form_page(case_id, actor_email, csrf, error),
            markup::FORM_TO_CASE_ID_6@ + decimal(case_id as int) + markup::FORM_END@,
        ),
{
    let pieces = seq![
        markup::FORM_TO_CASE_ID@,
        decimal(case_id as int),
        markup::FORM_TO_CSS@,
        markup::OPERATOR_CSS@,
        markup::FORM_TO_ACTOR@,
        escaped(actor_email),
        markup::FORM_TO_CASE_ID_2@,
        decimal(case_id as int),
        markup::FORM_TO_CASE_ID_3@,
        decimal(case_id as int),
        markup::FORM_TO_CASE_ID_4@,
        decimal(case_id as int),
        markup::FORM_TO_ACTOR_2@,
        escaped(actor_email),
        markup::FORM_TO_ERROR@,
        error_box(error),
        markup::FORM_TO_CASE_ID_5@,
        decimal(case_id as int),
        markup::FORM_TO_CSRF@,
        escaped(csrf),
        markup::FORM_TO_MIN@,
        decimal(10),
        markup::FORM_TO_MAX@,
        decimal(1000),
        markup::FORM_TO_MIN_2@,
        decimal(10),
        markup::FORM_TO_MAX_2@,
        decimal(1000),
        markup::FORM_TO_CASE_ID_6@,
        decimal(case_id as int),
        markup::FORM_END@,
    ];
    assert(form_page(case_id, actor_email, csrf, error) == concat(pieces, 31)) by {
        reveal_with_fuel(concat, 32);
    }
    lemma_neighbours(pieces, 31, 0);
    lemma_neighbours(pieces, 31, 2);
    lemma_neighbours(pieces, 31, 4);
    lemma_neighbours(pieces, 31, 6);
    lemma_neighbours(pieces, 31, 8);
    lemma_neighbours(pieces, 31, 10);
    lemma_neighbours(pieces, 31, 12);
    lemma_neighbours(pieces, 31, 14);
    lemma_neighbours(pieces, 31, 16);
    lemma_neighbours(pieces, 31, 18);
    lemma_neighbours(pieces, 31, 20);
    lemma_neighbours(pieces, 31, 22);
    lemma_neighbours(pieces, 31, 24);
    lemma_neighbours(pieces, 31, 26);
    lemma_neighbours(pieces, 31, 28);
}

/// What is wrong with a reason stands whole on the form; where nothing is, there is
/// no box for it.
pub proof fn law_form_says_what_is_wrong(
    case_id: i64,
    actor_email: Seq<char>,
    csrf: Seq<char>,
    message: Seq<char>,
)
    ensures
        holds(
            form_page(case_id, actor_email, csrf, Some(message)),
            markup::ERROR_TO_MESSAGE@ + escaped(message) + markup::ERROR_END@,
        ),
        holds(
            form_page(case_id, actor_email, csrf, None),
            markup::FORM_TO_ERROR@ + Seq::<char>::empty() + markup::FORM_TO_CASE_ID_5@,
        ),
{
    law_form_shows_its_values(case_id, actor_email, csrf, Some(message));
    law_form_shows_its_values(case_id, actor_email, csrf, None);
    let shown = markup::ERROR_TO_MESSAGE@ + escaped(message) + markup::ERROR_END@;
    let page = form_page(case_id, actor_email, csrf, Some(message));
    crate::text::lemma_holds_between(markup::FORM_TO_ERROR@, shown, markup::FORM_TO_CASE_ID_5@);
    lemma_holds_within(
        page,
        markup::FORM_TO_ERROR@ + error_box(Some(message)) + markup::FORM_TO_CASE_ID_5@,
        shown,
    );
}

/// The page for an anonymous report holds the number of the case and the lead.
pub proof fn law_anonymous_page_shows_its_values(case_id: i64, actor_email: Seq<char>)
    ensures
        holds(
            anonymous_page(case_id, actor_email),
            markup::STUB_TO_CASE_ID@ + decimal(case_id as int) + markup::STUB_TO_CSS@,
        ),
        holds(
            anonymous_page(case_id, actor_email),
            markup::STUB_TO_CSS@ + markup::OPERATOR_CSS@ + markup::STUB_TO_ACTOR@,
        ),
        holds(
            anonymous_page(case_id, actor_email),
            markup::STUB_TO_ACTOR@ + escaped(actor_email) + markup::STUB_TO_CASE_ID_2@,
        ),
        holds(
            anonymous_page(case_id, actor_email),
            markup::STUB_TO_CASE_ID_2@ + decimal(case_id as int) + markup::STUB_TO_CASE_ID_3@,
        ),
        holds(
            anonymous_page(case_id, actor_email),
            markup::STUB_TO_CASE_ID_3@ + decimal(case_id as int) + markup::STUB_TO_CASE_ID_4@,
        ),
        holds(
            anonymous_page(case_id, actor_email),
            markup::STUB_TO_CASE_ID_4@ + decimal(case_id as int) + markup::STUB_TO_CASE_ID_5@,
        ),
        holds(
            anonymous_page(case_id, actor_email),
            markup::STUB_TO_CASE_ID_5@ + decimal(case_id as int) + markup::STUB_END@,
        ),
{
    let pieces = seq![
        markup::STUB_TO_CASE_ID@,
        decimal(case_id as int),
        markup::STUB_TO_CSS@,
        markup::OPERATOR_CSS@,
        markup::STUB_TO_ACTOR@,
        escaped(actor_email),
        markup::STUB_TO_CASE_ID_2@,
        decimal(case_id as int),
        markup::STUB_TO_CASE_ID_3@,
        decimal(case_id as int),
        markup::STUB_TO_CASE_ID_4@,
        decimal(case_id as int),
        markup::STUB_TO_CASE_ID_5@,
        decimal(case_id as int),
        markup::STUB_END@,
    ];
    assert(anonymous_page(case_id, actor_email) == concat(pieces, 15)) by {
        reveal_with_fuel(concat, 16);
    }
    lemma_neighbours(pieces, 15, 0);
    lemma_neighbours(pieces, 15, 2);
    lemma_neighbours(pieces, 15, 4);
    lemma_neighbours(pieces, 15, 6);
    lemma_neighbours(pieces, 15, 8);
    lemma_neighbours(pieces, 15, 10);
    lemma_neighbours(pieces, 15, 12);
}

/// A reason is accepted if and only if it has 10 to 1000 bytes, and of a reason
/// that is not, the two things that can be wrong are told apart.
pub proof fn law_reasons_are_judged_by_their_length(reason: Seq<char>, other: Seq<char>)
    ensures
        reason_problem(reason) is None <==> 10 <= encode_utf8(reason).len() <= 1000,
        encode_utf8(reason).len() < 10 && encode_utf8(other).len() < 10 ==> reason_problem(reason)
            == reason_problem(other),
        encode_utf8(reason).len() > 1000 && encode_utf8(other).len() > 1000 ==> reason_problem(
            reason,
        ) == reason_problem(other),
        encode_utf8(reason).len() < 10 && encode_utf8(other).len() > 1000 ==> reason_problem(reason)
            != reason_problem(other),
{
    reveal_strlit("Ange en motivering på minst ");
    reveal_strlit("Motiveringen får vara högst ");
    if encode_utf8(reason).len() < 10 && encode_utf8(other).len() > 1000 {
        assert(reason_problem(reason)->0[0] == 'A');
        assert(reason_problem(other)->0[0] == 'M');
    }
}

/// The reason is the field `reason` of the form without the white space around
/// it, whatever the other fields hold, and empty where there is no such field.
pub proof fn law_reason_is_its_own_field(body: Seq<char>, other: Seq<char>)
    ensures
        urlencoded_fields(body).contains_key("reason"@) ==> body_reason(body) == trimmed(
            urlencoded_fields(body)["reason"@],
        ),
        !urlencoded_fields(body).contains_key("reason"@) ==> body_reason(body).len() == 0,
        field(urlencoded_fields(body), "reason"@) == field(urlencoded_fields(other), "reason"@)
            ==> body_reason(body) == body_reason(other),
{
    reveal_strlit("");
}

/// A disclosure that nothing stands against is written for the lead who asked and
/// the case that was named, with the reason as it was given, in the list of
/// disclosures and in the history; then it is committed, and then the page with
/// the whole address is shown.
pub proof fn law_disclosure_is_recorded_and_shown(
    case_id: i64,
    run: Seq<DiscloseRun>,
    actor: Identity,
    body: String,
    csrf: String,
    address: String,
)
    requires
        is_disclose_run(case_id, run),
        run.len() == 7,
        run[0].event == DiscloseEvent::Session(Some(actor)),
        actor.is_active,
        actor.role == Role::Administrator || actor.role == Role::Developer,
        run[1].event == DiscloseEvent::Elevation(true),
        run[2].event == (DiscloseEvent::Form { body, csrf }),
        urlencoded_fields(body@).contains_key("reason"@),
        10 <= encode_utf8(trimmed(urlencoded_fields(body@)["reason"@])).len() <= 1000,
        run[3].event == DiscloseEvent::CaseRead(Some(Some(address))),
        run[4].event is DisclosureWritten,
        run[5].event is HistoryWritten,
        run[6].event is Committed,
    ensures
        run[0].action is CheckElevation,
        run[1].action is ReadForm,
        run[2].action == (DiscloseAction::ReadCase { case_id }),
        run[3].action matches DiscloseAction::WriteDisclosure(row) && row.case_id == case_id
            && row.requested_by == actor.user_id && row.reason@ == trimmed(
            urlencoded_fields(body@)["reason"@],
        ),
        run[4].action matches DiscloseAction::WriteHistory(entry) && entry.case_id == case_id
            && entry.actor_id == actor.user_id && entry.action_type@ == "disclosure_consumed"@
            && entry.note@ == trimmed(urlencoded_fields(body@)["reason"@]),
        run[5].action is Commit,
        run[6].action matches DiscloseAction::Answer(Reply::Html { status, body: page }) && status
            == 200 && holds(
            page@,
            markup::RESULT_TO_REPORTER@ + escaped(address@) + markup::RESULT_TO_REASON@,
        ) && holds(
            page@,
            markup::RESULT_TO_REASON@ + escaped(trimmed(urlencoded_fields(body@)["reason"@]))
                + markup::RESULT_TO_CASE_ID_5@,
        ),
{
    law_reason_is_its_own_field(body@, body@);
    let reason = trimmed(urlencoded_fields(body@)["reason"@]);
    law_reasons_are_judged_by_their_length(reason, reason);
    law_result_page_shows_its_values(case_id, actor.email@, address@, reason);
    assert(disclose_step(case_id, DiscloseState::Start, run[0].event, run[0].state, run[0].action));
    assert(disclose_step(case_id, run[0].state, run[1].event, run[1].state, run[1].action));
    assert(disclose_step(case_id, run[1].state, run[2].event, run[2].state, run[2].action));
    assert(disclose_step(case_id, run[2].state, run[3].event, run[3].state, run[3].action));
    assert(disclose_step(case_id, run[3].state, run[4].event, run[4].state, run[4].action));
    assert(disclose_step(case_id, run[4].state, run[5].event, run[5].state, run[5].action));
    assert(disclose_step(case_id, run[5].state, run[6].event, run[6].state, run[6].action));
}

/// What stands against a disclosure ends it: without a user, or with one that was
/// deactivated, at the login; with a role that does not suffice, at the landing
/// page; without elevation, where the session re-authenticates and comes back.
pub proof fn law_disclosure_is_refused(
    case_id: i64,
    state: DiscloseState,
    event: DiscloseEvent,
    next: DiscloseState,
    action: DiscloseAction,
)
    requires
        disclose_step(case_id, state, event, next, action),
    ensures
        state is Start && event == DiscloseEvent::Session(None) ==> (
        action matches DiscloseAction::Answer(Reply::Redirect { location }) && location@
            == "/admin/login"@),
        state is Start && (event matches DiscloseEvent::Session(Some(user)) && !user.is_active)
            ==> (action matches DiscloseAction::Answer(Reply::Redirect { location }) && location@
            == "/admin/login"@),
        state is Start && (event matches DiscloseEvent::Session(Some(user)) && user.is_active && (
        user.role == Role::User || user.role == Role::Staff || user.role == Role::Supervisor)) ==> (
        action matches DiscloseAction::Answer(Reply::Redirect { location }) && location@
            == "/admin"@),
        state is CheckingElevation && event == DiscloseEvent::Elevation(false) ==> (
        action matches DiscloseAction::Answer(Reply::Redirect { location }) && location@
            == "/admin/reauth?return_to=/admin/cases/"@ + decimal(case_id as int) + "/disclose"@),
        state is ReadingForm ==> (event matches DiscloseEvent::Form { body, csrf } ==> (encode_utf8(
            body_reason(body@),
        ).len() < 10 || encode_utf8(body_reason(body@)).len() > 1000 ==> next is Done && (
        action matches DiscloseAction::Answer(Reply::Html { status, body: page }) && status == 200
            && holds(
            page@,
            markup::ERROR_TO_MESSAGE@ + escaped(reason_problem(body_reason(body@))->0)
                + markup::ERROR_END@,
        ) && holds(page@, markup::FORM_TO_CSRF@ + escaped(csrf@) + markup::FORM_TO_MIN@)))),
        state is ReadingCase && event == DiscloseEvent::CaseRead(None) ==> (
        action matches DiscloseAction::Answer(Reply::Html { status, body: page }) && status == 404
            && page@ == not_found_page()),
        state matches DiscloseState::ReadingCase { actor, reason } ==> (event
            == DiscloseEvent::CaseRead(Some(None)) ==> (action matches DiscloseAction::Answer(
            Reply::Html { status, body: page },
        ) && status == 200 && page@ == anonymous_page(case_id, actor.email@))),
        (action is WriteDisclosure || action is WriteHistory || action is Commit) ==> !(next is Done),
{
    if let DiscloseEvent::Form { body, csrf } = event {
        law_reasons_are_judged_by_their_length(body_reason(body@), body_reason(body@));
        if let DiscloseState::ReadingForm { actor } = state {
            if reason_problem(body_reason(body@)) is Some {
                let message = reason_problem(body_reason(body@))->0;
                law_form_says_what_is_wrong(case_id, actor.email@, csrf@, message);
                law_form_shows_its_values(case_id, actor.email@, csrf@, Some(message));
            }
        }
    }
}

/// A request for the form goes on to the elevation of the session only where there
/// is a case whose reporter left an address; where there is none, it is told so.
pub proof fn law_form_is_for_what_can_be_disclosed(
    case_id: i64,
    actor_email: Seq<char>,
    has_email: Option<bool>,
    target: FormTarget,
)
    requires
        is_form_target(case_id, actor_email, has_email, target),
    ensures
        target is CheckElevation <==> has_email == Some(true),
        has_email is None ==> (target matches FormTarget::Answer(Reply::Html { status, body })
            && status == 404 && body@ == not_found_page()),
        has_email == Some(false) ==> (target matches FormTarget::Answer(
            Reply::Html { status, body },
        ) && status == 200 && body@ == anonymous_page(case_id, actor_email)),
{
}

/// Active administrators and developers go on to the form; without a session, or
/// deactivated, a caller is sent to the login page, and with a lower role to the
/// landing page.
pub proof fn law_form_is_for_leads(session: Option<Identity>, form: ShowForm)
    requires
        is_show_form(session, form),
    ensures
        session is None ==> (form matches ShowForm::Answer(Reply::Redirect { location })
            && location@ == "/admin/login"@),
        session matches Some(caller) ==> (!caller.is_active ==> (
        form matches ShowForm::Answer(Reply::Redirect { location }) && location@
            == "/admin/login"@)),
        session matches Some(caller) ==> (caller.is_active && caller.role != Role::Administrator
            && caller.role != Role::Developer ==> (
        form matches ShowForm::Answer(Reply::Redirect { location }) && location@ == "/admin"@)),
        session matches Some(caller) ==> (caller.is_active && (caller.role == Role::Administrator
            || caller.role == Role::Developer) ==> form == ShowForm::LoadCase(caller)),
{
}

/// The form is shown in an elevated session, with the token; any other session is
/// sent to re-authenticate.
pub proof fn law_form_needs_elevation(
    case_id: i64,
    actor_email: Seq<char>,
    csrf: Seq<char>,
    is_elevated: bool,
    reply: Reply,
)
    requires
        is_form_reply(case_id, actor_email, csrf, is_elevated, reply),
    ensures
        !is_elevated ==> (reply matches Reply::Redirect { location } && location@
            == "/admin/reauth?return_to=/admin/cases/"@ + decimal(case_id as int) + "/disclose"@),
        is_elevated ==> (reply matches Reply::Html { status, body } && status == 200 && holds(
            body@,
            markup::FORM_TO_CSRF@ + escaped(csrf) + markup::FORM_TO_MIN@,
        )),
{
    law_form_shows_its_values(case_id, actor_email, csrf, None);
}

}
