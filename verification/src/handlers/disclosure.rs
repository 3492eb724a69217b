//! The disclosure of a reporter's identity to a compliance lead.
//!
//! Writing the row in `disclosures` is the disclosure: the address is shown
//! once, in answer to the request that had the row written and committed, and
//! each further look takes a row of its own. Two locks stand before it. The
//! caller is a compliance lead, and the session has been re-authenticated.

use rustio_admin::FormData;
use vstd::prelude::*;
use vstd::utf8::encode_utf8;

use crate::auth_helper::{admitted, refusal, require_role, AccessGuard, Identity, Role};
use crate::form::{field, field_value, urlencoded_fields};
use crate::html::{escape, escaped};
use crate::markup::disclosure as markup;
use crate::records::{NewCaseAction, NewDisclosure};
use crate::reply::{Fault, Reply, NOT_FOUND, OK};
use crate::text::{decimal, decimal_text, opt_text, trim, trimmed};

verus! {

/// The role that may have an identity disclosed.
pub const MIN_ROLE: Role = Role::Administrator;

/// The bytes that a reason has at least and at most.
pub const REASON_MIN: usize = 10;

pub const REASON_MAX: usize = 1_000;

/// The entry that a disclosure leaves in the history of the case.
pub const DISCLOSURE_CONSUMED: &'static str = "disclosure_consumed";

/// The style sheet of the pages.
pub fn operator_css() -> (r: &'static str)
    ensures
        r@ == markup::OPERATOR_CSS@,
{
    markup::OPERATOR_CSS
}

/// The reason as it is judged and written: the field without the white space
/// around it, or an empty text where the form has no such field.
pub open spec fn submitted_reason(field: Option<Seq<char>>) -> Seq<char> {
    match field {
        Some(text) => trimmed(text),
        None => ""@,
    }
}

/// What is wrong with a reason, if anything is.
pub open spec fn reason_problem(reason: Seq<char>) -> Option<Seq<char>> {
    if encode_utf8(reason).len() < REASON_MIN {
        Some(markup::TOO_SHORT_TO_MIN@
            + decimal(REASON_MIN as int)
            + markup::TOO_SHORT_END@)
    } else if encode_utf8(reason).len() > REASON_MAX {
        Some(markup::TOO_LONG_TO_MAX@
            + decimal(REASON_MAX as int)
            + markup::TOO_LONG_END@)
    } else {
        None
    }
}

/// Takes the reason out of the field that was submitted.
pub fn reason_from_field(field: &Option<String>) -> (r: String)
    ensures
        r@ == submitted_reason(opt_text(*field)),
{
    match field {
        Some(text) => trim(text.as_str()).to_string(),
        None => "".to_string(),
    }
}

/// Judges a reason by its length.
pub fn check_reason(reason: &str) -> (r: Option<String>)
    ensures
        opt_text(r) == reason_problem(reason@),
{
    if reason.as_bytes().len() < REASON_MIN {
        let mut message = String::from_str(markup::TOO_SHORT_TO_MIN);
        message.append(decimal_text(REASON_MIN as i64).as_str());
        message.append(markup::TOO_SHORT_END);
        Some(message)
    } else if reason.as_bytes().len() > REASON_MAX {
        let mut message = String::from_str(markup::TOO_LONG_TO_MAX);
        message.append(decimal_text(REASON_MAX as i64).as_str());
        message.append(markup::TOO_LONG_END);
        Some(message)
    } else {
        None
    }
}

/// The box that says what is wrong with the reason.
pub open spec fn error_box(error: Option<Seq<char>>) -> Seq<char> {
    match error {
        Some(message) => markup::ERROR_TO_MESSAGE@
        + escaped(message)
        + markup::ERROR_END@,
        None => Seq::empty(),
    }
}

/// The page with the form that asks for the reason.
pub open spec fn form_page(
    case_id: i64,
    actor_email: Seq<char>,
    csrf: Seq<char>,
    error: Option<Seq<char>>,
) -> Seq<char> {
    markup::FORM_TO_CASE_ID@
        + decimal(case_id as int)
        + markup::FORM_TO_CSS@
        + markup::OPERATOR_CSS@
        + markup::FORM_TO_ACTOR@
        + escaped(actor_email)
        + markup::FORM_TO_CASE_ID_2@
        + decimal(case_id as int)
        + markup::FORM_TO_CASE_ID_3@
        + decimal(case_id as int)
        + markup::FORM_TO_CASE_ID_4@
        + decimal(case_id as int)
        + markup::FORM_TO_ACTOR_2@
        + escaped(actor_email)
        + markup::FORM_TO_ERROR@
        + error_box(error)
        + markup::FORM_TO_CASE_ID_5@
        + decimal(case_id as int)
        + markup::FORM_TO_CSRF@
        + escaped(csrf)
        + markup::FORM_TO_MIN@
        + decimal(REASON_MIN as int)
        + markup::FORM_TO_MAX@
        + decimal(REASON_MAX as int)
        + markup::FORM_TO_MIN_2@
        + decimal(REASON_MIN as int)
        + markup::FORM_TO_MAX_2@
        + decimal(REASON_MAX as int)
        + markup::FORM_TO_CASE_ID_6@
        + decimal(case_id as int)
        + markup::FORM_END@
}

/// The page that shows the reporter's address.
pub open spec fn result_page(
    case_id: i64,
    actor_email: Seq<char>,
    reporter_email: Seq<char>,
    reason: Seq<char>,
) -> Seq<char> {
    markup::RESULT_TO_CASE_ID@
        + decimal(case_id as int)
        + markup::RESULT_TO_CSS@
        + markup::OPERATOR_CSS@
        + markup::RESULT_TO_ACTOR@
        + escaped(actor_email)
        + markup::RESULT_TO_CASE_ID_2@
        + decimal(case_id as int)
        + markup::RESULT_TO_CASE_ID_3@
        + decimal(case_id as int)
        + markup::RESULT_TO_CASE_ID_4@
        + decimal(case_id as int)
        + markup::RESULT_TO_REPORTER@
        + escaped(reporter_email)
        + markup::RESULT_TO_REASON@
        + escaped(reason)
        + markup::RESULT_TO_CASE_ID_5@
        + decimal(case_id as int)
        + markup::RESULT_TO_CASE_ID_6@
        + decimal(case_id as int)
        + markup::RESULT_END@
}

/// The page for a report that was left without an address.
pub open spec fn anonymous_page(case_id: i64, actor_email: Seq<char>) -> Seq<char> {
    markup::STUB_TO_CASE_ID@
        + decimal(case_id as int)
        + markup::STUB_TO_CSS@
        + markup::OPERATOR_CSS@
        + markup::STUB_TO_ACTOR@
        + escaped(actor_email)
        + markup::STUB_TO_CASE_ID_2@
        + decimal(case_id as int)
        + markup::STUB_TO_CASE_ID_3@
        + decimal(case_id as int)
        + markup::STUB_TO_CASE_ID_4@
        + decimal(case_id as int)
        + markup::STUB_TO_CASE_ID_5@
        + decimal(case_id as int)
        + markup::STUB_END@
}

/// The page for a case that does not exist.
pub open spec fn not_found_page() -> Seq<char> {
    markup::NOT_FOUND_TO_CSS@
        + markup::OPERATOR_CSS@
        + markup::NOT_FOUND_END@
}

/// Renders the form that asks for the reason.
pub fn render_form(case_id: i64, actor_email: &str, csrf: &str, error: Option<String>) -> (r: String)
    ensures
        r@ == form_page(case_id, actor_email@, csrf@, opt_text(error)),
{
    let error_html = match &error {
        Some(message) => {
            let mut text = String::from_str(markup::ERROR_TO_MESSAGE);
            text.append(escape(message.as_str()).as_str());
            text.append(markup::ERROR_END);
            text
        },
        None => String::new(),
    };
    let id = decimal_text(case_id);
    let actor = escape(actor_email);
    let min = decimal_text(REASON_MIN as i64);
    let max = decimal_text(REASON_MAX as i64);
    let mut out = String::from_str(markup::FORM_TO_CASE_ID);
    out.append(id.as_str());
    out.append(markup::FORM_TO_CSS);
    out.append(operator_css());
    out.append(markup::FORM_TO_ACTOR);
    out.append(actor.as_str());
    out.append(markup::FORM_TO_CASE_ID_2);
    out.append(id.as_str());
    out.append(markup::FORM_TO_CASE_ID_3);
    out.append(id.as_str());
    out.append(markup::FORM_TO_CASE_ID_4);
    out.append(id.as_str());
    out.append(markup::FORM_TO_ACTOR_2);
    out.append(actor.as_str());
    out.append(markup::FORM_TO_ERROR);
    out.append(error_html.as_str());
    out.append(markup::FORM_TO_CASE_ID_5);
    out.append(id.as_str());
    out.append(markup::FORM_TO_CSRF);
    out.append(escape(csrf).as_str());
    out.append(markup::FORM_TO_MIN);
    out.append(min.as_str());
    out.append(markup::FORM_TO_MAX);
    out.append(max.as_str());
    out.append(markup::FORM_TO_MIN_2);
    out.append(min.as_str());
    out.append(markup::FORM_TO_MAX_2);
    out.append(max.as_str());
    out.append(markup::FORM_TO_CASE_ID_6);
    out.append(id.as_str());
    out.append(markup::FORM_END);
    out
}

/// Renders the page that shows the reporter's address.
pub fn render_result(case_id: i64, actor_email: &str, reporter_email: &str, reason: &str) -> (r: String)
    ensures
        r@ == result_page(case_id, actor_email@, reporter_email@, reason@),
{
    let id = decimal_text(case_id);
    let mut out = String::from_str(markup::RESULT_TO_CASE_ID);
    out.append(id.as_str());
    out.append(markup::RESULT_TO_CSS);
    out.append(operator_css());
    out.append(markup::RESULT_TO_ACTOR);
    out.append(escape(actor_email).as_str());
    out.append(markup::RESULT_TO_CASE_ID_2);
    out.append(id.as_str());
    out.append(markup::RESULT_TO_CASE_ID_3);
    out.append(id.as_str());
    out.append(markup::RESULT_TO_CASE_ID_4);
    out.append(id.as_str());
    out.append(markup::RESULT_TO_REPORTER);
    out.append(escape(reporter_email).as_str());
    out.append(markup::RESULT_TO_REASON);
    out.append(escape(reason).as_str());
    out.append(markup::RESULT_TO_CASE_ID_5);
    out.append(id.as_str());
    out.append(markup::RESULT_TO_CASE_ID_6);
    out.append(id.as_str());
    out.append(markup::RESULT_END);
    out
}

/// Renders the page for a report that was left without an address.
pub fn render_anonymous_stub(case_id: i64, actor_email: &str) -> (r: String)
    ensures
        r@ == anonymous_page(case_id, actor_email@),
{
    let id = decimal_text(case_id);
    let mut out = String::from_str(markup::STUB_TO_CASE_ID);
    out.append(id.as_str());
    out.append(markup::STUB_TO_CSS);
    out.append(operator_css());
    out.append(markup::STUB_TO_ACTOR);
    out.append(escape(actor_email).as_str());
    out.append(markup::STUB_TO_CASE_ID_2);
    out.append(id.as_str());
    out.append(markup::STUB_TO_CASE_ID_3);
    out.append(id.as_str());
    out.append(markup::STUB_TO_CASE_ID_4);
    out.append(id.as_str());
    out.append(markup::STUB_TO_CASE_ID_5);
    out.append(id.as_str());
    out.append(markup::STUB_END);
    out
}

/// Answers that there is no such case.
pub fn not_found() -> (r: Reply)
    ensures
        r.is_page(NOT_FOUND, not_found_page()),
{
    let mut out = String::from_str(markup::NOT_FOUND_TO_CSS);
    out.append(operator_css());
    out.append(markup::NOT_FOUND_END);
    Reply::Html { status: NOT_FOUND, body: out }
}

/// Where a session that is not elevated goes to re-authenticate, and comes back
/// from.
pub open spec fn reauth_path(case_id: i64) -> Seq<char> {
    "/admin/reauth?return_to=/admin/cases/"@ + decimal(case_id as int) + "/disclose"@
}

fn reauth(case_id: i64) -> (r: Reply)
    ensures
        r.is_redirect(reauth_path(case_id)),
{
    let mut path = String::from_str("/admin/reauth?return_to=/admin/cases/");
    path.append(decimal_text(case_id).as_str());
    path.append("/disclose");
    Reply::redirect(path.as_str())
}

/// What to do for a request for the form.
pub enum ShowForm {
    /// Answer without reading more.
    Answer(Reply),
    /// Read whether there is such a case, and whether the reporter left an
    /// address. The address itself is not read.
    LoadCase(Identity),
}

/// What to do once that has been read.
pub enum FormTarget {
    /// Answer without reading more.
    Answer(Reply),
    /// Read how long the session is elevated.
    CheckElevation,
}

/// Whether something is to be done for a request for the form, from its session.
pub open spec fn is_show_form(session: Option<Identity>, form: ShowForm) -> bool {
    match refusal(session, MIN_ROLE) {
        Some(path) => form matches ShowForm::Answer(reply) && reply.is_redirect(path),
        None => form == ShowForm::LoadCase(session->0),
    }
}

/// Begins a request for the form: compliance leads go on, anyone else is sent
/// elsewhere.
pub fn show_disclose_form(session: Option<Identity>) -> (r: ShowForm)
    ensures
        is_show_form(session, r),
{
    match require_role(session, MIN_ROLE) {
        AccessGuard::Redirect(reply) => ShowForm::Answer(reply),
        AccessGuard::Allow(identity) => ShowForm::LoadCase(identity),
    }
}

/// Whether something is to be done for a case, of which it is known whether its
/// reporter left an address.
pub open spec fn is_form_target(
    case_id: i64,
    actor_email: Seq<char>,
    has_email: Option<bool>,
    target: FormTarget,
) -> bool {
    match has_email {
        None => target matches FormTarget::Answer(reply) && reply.is_page(
            NOT_FOUND,
            not_found_page(),
        ),
        Some(false) => target matches FormTarget::Answer(reply) && reply.is_page(
            OK,
            anonymous_page(case_id, actor_email),
        ),
        Some(true) => target is CheckElevation,
    }
}

/// Decides whether there is anything to disclose: not where there is no such
/// case, and not where the reporter left no address.
pub fn form_target(case_id: i64, actor_email: &str, has_email: Option<bool>) -> (r: FormTarget)
    ensures
        is_form_target(case_id, actor_email@, has_email, r),
{
    match has_email {
        None => FormTarget::Answer(not_found()),
        Some(false) => FormTarget::Answer(Reply::html(render_anonymous_stub(case_id, actor_email))),
        Some(true) => FormTarget::CheckElevation,
    }
}

/// Whether a reply answers a request for the form.
pub open spec fn is_form_reply(
    case_id: i64,
    actor_email: Seq<char>,
    csrf: Seq<char>,
    is_elevated: bool,
    reply: Reply,
) -> bool {
    if is_elevated {
        reply.is_page(OK, form_page(case_id, actor_email, csrf, None))
    } else {
        reply.is_redirect(reauth_path(case_id))
    }
}

/// Answers a request for the form: a session that is not elevated is sent to
/// re-authenticate first.
pub fn disclose_form_reply(case_id: i64, actor_email: &str, csrf: &str, is_elevated: bool) -> (r: Reply)
    ensures
        is_form_reply(case_id, actor_email@, csrf@, is_elevated, r),
{
    if !is_elevated {
        return reauth(case_id);
    }
    Reply::html(render_form(case_id, actor_email, csrf, None))
}

/// How far a disclosure has come.
pub enum DiscloseState {
    /// Nothing is known of the caller yet.
    Start,
    /// The elevation of the session is being read.
    CheckingElevation { actor: Identity },
    /// The form is being read.
    ReadingForm { actor: Identity },
    /// A transaction was begun, and the case is being locked and read.
    ReadingCase { actor: Identity, reason: String },
    /// The row that is the disclosure is being written.
    WritingDisclosure { actor: Identity, reporter_email: String, reason: String },
    /// The history of the case is being written.
    WritingHistory { actor: Identity, reporter_email: String, reason: String },
    /// The transaction is being committed.
    Committing { actor: Identity, reporter_email: String, reason: String },
    /// The request has been answered.
    Done,
}

/// What happened.
pub enum DiscloseEvent {
    /// The session of the request was looked up.
    Session(Option<Identity>),
    /// Whether the session is elevated was found out.
    Elevation(bool),
    /// The body of the request was read; with it comes the token for a further
    /// form.
    Form { body: String, csrf: String },
    /// The case was locked and read, if there is one, and with it the address
    /// that the reporter left, if any.
    CaseRead(Option<Option<String>>),
    /// The row that is the disclosure was written.
    DisclosureWritten,
    /// The history was written.
    HistoryWritten,
    /// The transaction was committed.
    Committed,
}

/// What is to be done next.
pub enum DiscloseAction {
    /// Find out whether the session is elevated.
    CheckElevation,
    /// Read the form.
    ReadForm,
    /// Begin a transaction, and lock and read the case.
    ReadCase { case_id: i64 },
    /// Write the row that is the disclosure.
    WriteDisclosure(NewDisclosure),
    /// Write the entry in the history of the case.
    WriteHistory(NewCaseAction),
    /// Commit the transaction.
    Commit,
    /// Answer the request. A transaction that was not committed is rolled back.
    Answer(Reply),
    /// Give up; nothing that was written lasts.
    Fail(Fault),
}

/// The reason that the body of a request gives.
pub open spec fn body_reason(body: Seq<char>) -> Seq<char> {
    submitted_reason(field(urlencoded_fields(body), "reason"@))
}

/// What follows on a reason: the form once more where anything is wrong with it,
/// or the reading of the case.
pub open spec fn reason_step(
    case_id: i64,
    actor: Identity,
    given: Seq<char>,
    csrf: Seq<char>,
    next: DiscloseState,
    action: DiscloseAction,
) -> bool {
    match reason_problem(given) {
        Some(message) => next is Done && (action matches DiscloseAction::Answer(reply)
            && reply.is_page(OK, form_page(case_id, actor.email@, csrf, Some(message)))),
        None => (next matches DiscloseState::ReadingCase { actor: lead, reason: kept } && lead
            == actor && kept@ == given) && action == (DiscloseAction::ReadCase { case_id }),
    }
}

/// What follows on an event: the step of a disclosure.
pub open spec fn disclose_step(
    case_id: i64,
    state: DiscloseState,
    event: DiscloseEvent,
    next: DiscloseState,
    action: DiscloseAction,
) -> bool {
    match (state, event) {
        (DiscloseState::Start, DiscloseEvent::Session(session)) => match refusal(session, MIN_ROLE) {
            Some(path) => next is Done && (action matches DiscloseAction::Answer(reply)
                && reply.is_redirect(path)),
            None => next == (DiscloseState::CheckingElevation { actor: session->0 })
                && action is CheckElevation,
        },
        (DiscloseState::CheckingElevation { actor }, DiscloseEvent::Elevation(is_elevated)) => {
            if is_elevated {
                next == (DiscloseState::ReadingForm { actor }) && action is ReadForm
            } else {
                next is Done && (action matches DiscloseAction::Answer(reply)
                    && reply.is_redirect(reauth_path(case_id)))
            }
        },
        (DiscloseState::ReadingForm { actor }, DiscloseEvent::Form { body, csrf }) => {
            reason_step(case_id, actor, body_reason(body@), csrf@, next, action)
        },
        (DiscloseState::ReadingCase { actor, reason }, DiscloseEvent::CaseRead(found)) => match found {
            None => next is Done && (action matches DiscloseAction::Answer(reply) && reply.is_page(
                NOT_FOUND,
                not_found_page(),
            )),
            Some(None) => next is Done && (action matches DiscloseAction::Answer(reply)
                && reply.is_page(OK, anonymous_page(case_id, actor.email@))),
            Some(Some(reporter_email)) => next == (DiscloseState::WritingDisclosure {
                actor,
                reporter_email,
                reason,
            }) && (action matches DiscloseAction::WriteDisclosure(row) && row.holds(
                case_id,
                actor.user_id,
                reason@,
            )),
        },
        (
            DiscloseState::WritingDisclosure { actor, reporter_email, reason },
            DiscloseEvent::DisclosureWritten,
        ) => next == (DiscloseState::WritingHistory { actor, reporter_email, reason }) && (
        action matches DiscloseAction::WriteHistory(entry) && entry.holds(
            case_id,
            actor.user_id,
            DISCLOSURE_CONSUMED@,
            reason@,
        )),
        (
            DiscloseState::WritingHistory { actor, reporter_email, reason },
            DiscloseEvent::HistoryWritten,
        ) => next == (DiscloseState::Committing { actor, reporter_email, reason })
            && action is Commit,
        (DiscloseState::Committing { actor, reporter_email, reason }, DiscloseEvent::Committed) => {
            next is Done && (action matches DiscloseAction::Answer(reply) && reply.is_page(
                OK,
                result_page(case_id, actor.email@, reporter_email@, reason@),
            ))
        },
        _ => next is Done && (action matches DiscloseAction::Fail(Fault::Internal(text)) && text@
            == "unexpected event"@),
    }
}

/// Decides on the field of the form that holds the reason.
pub fn judge_reason(case_id: i64, actor: Identity, reason: &Option<String>, csrf: &str) -> (r: (
    DiscloseState,
    DiscloseAction,
))
    ensures
        reason_step(case_id, actor, submitted_reason(opt_text(*reason)), csrf@, r.0, r.1),
{
    let given = reason_from_field(reason);
    match check_reason(given.as_str()) {
        Some(message) => {
            let page = render_form(case_id, actor.email.as_str(), csrf, Some(message));
            (DiscloseState::Done, DiscloseAction::Answer(Reply::html(page)))
        },
        None => (
            DiscloseState::ReadingCase { actor, reason: given },
            DiscloseAction::ReadCase { case_id },
        ),
    }
}

/// Takes one step in the disclosure of the identity behind a case.
pub fn do_disclose(case_id: i64, state: DiscloseState, event: DiscloseEvent) -> (r: (
    DiscloseState,
    DiscloseAction,
))
    ensures
        disclose_step(case_id, state, event, r.0, r.1),
{
    match (state, event) {
        (DiscloseState::Start, DiscloseEvent::Session(session)) => match require_role(
            session,
            MIN_ROLE,
        ) {
            AccessGuard::Redirect(reply) => (DiscloseState::Done, DiscloseAction::Answer(reply)),
            AccessGuard::Allow(actor) => (
                DiscloseState::CheckingElevation { actor },
                DiscloseAction::CheckElevation,
            ),
        },
        (DiscloseState::CheckingElevation { actor }, DiscloseEvent::Elevation(is_elevated)) => {
            if is_elevated {
                (DiscloseState::ReadingForm { actor }, DiscloseAction::ReadForm)
            } else {
                (DiscloseState::Done, DiscloseAction::Answer(reauth(case_id)))
            }
        },
        (DiscloseState::ReadingForm { actor }, DiscloseEvent::Form { body, csrf }) => {
            let form = FormData::from_urlencoded(body.as_str());
            let reason = field_value(&form, "reason");
            judge_reason(case_id, actor, &reason, csrf.as_str())
        },
        (DiscloseState::ReadingCase { actor, reason }, DiscloseEvent::CaseRead(found)) => match found {
            None => (DiscloseState::Done, DiscloseAction::Answer(not_found())),
            Some(None) => {
                let page = render_anonymous_stub(case_id, actor.email.as_str());
                (DiscloseState::Done, DiscloseAction::Answer(Reply::html(page)))
            },
            Some(Some(reporter_email)) => {
                let row = NewDisclosure {
                    case_id,
                    requested_by: actor.user_id,
                    reason: reason.as_str().to_string(),
                };
                (
                    DiscloseState::WritingDisclosure { actor, reporter_email, reason },
                    DiscloseAction::WriteDisclosure(row),
                )
            },
        },
        (
            DiscloseState::WritingDisclosure { actor, reporter_email, reason },
            DiscloseEvent::DisclosureWritten,
        ) => {
            let entry = NewCaseAction {
                case_id,
                actor_id: actor.user_id,
                action_type: DISCLOSURE_CONSUMED.to_string(),
                note: reason.as_str().to_string(),
            };
            (
                DiscloseState::WritingHistory { actor, reporter_email, reason },
                DiscloseAction::WriteHistory(entry),
            )
        },
        (
            DiscloseState::WritingHistory { actor, reporter_email, reason },
            DiscloseEvent::HistoryWritten,
        ) => (
            DiscloseState::Committing { actor, reporter_email, reason },
            DiscloseAction::Commit,
        ),
        (DiscloseState::Committing { actor, reporter_email, reason }, DiscloseEvent::Committed) => {
            let page = render_result(
                case_id,
                actor.email.as_str(),
                reporter_email.as_str(),
                reason.as_str(),
            );
            (DiscloseState::Done, DiscloseAction::Answer(Reply::html(page)))
        },
        _ => (
            DiscloseState::Done,
            DiscloseAction::Fail(Fault::Internal("unexpected event".to_string())),
        ),
    }
}

/// One step of a run: what happened, how far the disclosure came, and what was
/// to be done.
pub struct DiscloseRun {
    pub event: DiscloseEvent,
    pub state: DiscloseState,
    pub action: DiscloseAction,
}

/// Whether some steps are a run from the start.
pub open spec fn is_disclose_run(case_id: i64, run: Seq<DiscloseRun>) -> bool {
    forall|i: int|
        0 <= i < run.len() ==> disclose_step(
            case_id,
            if i == 0 {
                DiscloseState::Start
            } else {
                run[i - 1].state
            },
            (#[trigger] run[i]).event,
            run[i].state,
            run[i].action,
        )
}

/// Whether an action writes to the database or makes what was written last.
pub open spec fn is_write(action: DiscloseAction) -> bool {
    action is WriteDisclosure || action is WriteHistory || action is Commit
}

/// Whether a run began with a compliance lead, in an elevated session, who gave
/// a reason of the right length for a case whose reporter left an address.
pub open spec fn is_granted(run: Seq<DiscloseRun>) -> bool {
    &&& run.len() > 3
    &&& run[0].event matches DiscloseEvent::Session(Some(actor)) && admitted(actor, MIN_ROLE)
    &&& run[1].event == DiscloseEvent::Elevation(true)
    &&& run[2].event matches DiscloseEvent::Form { body, .. } && reason_problem(
        body_reason(body@),
    ) is None
    &&& run[3].event matches DiscloseEvent::CaseRead(Some(Some(_)))
}

/// The compliance lead that a run began with.
pub open spec fn run_actor(run: Seq<DiscloseRun>) -> Identity {
    run[0].event->Session_0->0
}

/// The reason that was given in a run.
pub open spec fn run_reason(run: Seq<DiscloseRun>) -> Seq<char> {
    body_reason(run[2].event->body@)
}

/// Whether a run had the disclosure and the entry in the history written, for
/// the lead that asked and with the reason that was given, and committed.
pub open spec fn is_on_record(case_id: i64, run: Seq<DiscloseRun>) -> bool {
    &&& run.len() > 6
    &&& run[3].action matches DiscloseAction::WriteDisclosure(row) && row.holds(
        case_id,
        run_actor(run).user_id,
        run_reason(run),
    )
    &&& run[4].action matches DiscloseAction::WriteHistory(entry) && entry.holds(
        case_id,
        run_actor(run).user_id,
        DISCLOSURE_CONSUMED@,
        run_reason(run),
    )
    &&& run[5].action is Commit
    &&& run[6].event is Committed
}

/// How many steps lead to a state.
spec fn stage(state: DiscloseState) -> int {
    match state {
        DiscloseState::Start => 0,
        DiscloseState::CheckingElevation { .. } => 1,
        DiscloseState::ReadingForm { .. } => 2,
        DiscloseState::ReadingCase { .. } => 3,
        DiscloseState::WritingDisclosure { .. } => 4,
        DiscloseState::WritingHistory { .. } => 5,
        DiscloseState::Committing { .. } => 6,
        DiscloseState::Done => 7,
    }
}

/// A step that does not end the request leads one stage further, from a step
/// that does not end it either.
proof fn lemma_stage(case_id: i64, run: Seq<DiscloseRun>, i: int)
    requires
        is_disclose_run(case_id, run),
        0 <= i < run.len(),
        !(run[i].state is Done),
    ensures
        stage(run[i].state) == i + 1,
        forall|j: int| 0 <= j <= i ==> !((#[trigger] run[j]).state is Done),
    decreases i,
{
    let step = run[i];
    if i > 0 {
        if !(run[i - 1].state is Done) {
            lemma_stage(case_id, run, i - 1);
        }
    }
}

/// What the state of a run holds of what happened before.
proof fn lemma_state(case_id: i64, run: Seq<DiscloseRun>, i: int)
    requires
        is_disclose_run(case_id, run),
        3 <= i < run.len(),
        !(run[i].state is Done),
    ensures
        is_granted(run),
        i <= 5,
        match run[i].state {
            DiscloseState::WritingDisclosure { actor, reporter_email, reason } => {
                &&& actor == run_actor(run)
                &&& reason@ == run_reason(run)
                &&& run[3].event == DiscloseEvent::CaseRead(Some(Some(reporter_email)))
            },
            DiscloseState::WritingHistory { actor, reporter_email, reason } => {
                &&& actor == run_actor(run)
                &&& reason@ == run_reason(run)
                &&& run[3].event == DiscloseEvent::CaseRead(Some(Some(reporter_email)))
            },
            DiscloseState::Committing { actor, reporter_email, reason } => {
                &&& actor == run_actor(run)
                &&& reason@ == run_reason(run)
                &&& run[3].event == DiscloseEvent::CaseRead(Some(Some(reporter_email)))
            },
            _ => false,
        },
{
    lemma_stage(case_id, run, i);
    lemma_stage(case_id, run, 0);
    lemma_stage(case_id, run, 1);
    lemma_stage(case_id, run, 2);
    lemma_stage(case_id, run, 3);
    assert(disclose_step(case_id, DiscloseState::Start, run[0].event, run[0].state, run[0].action));
    assert(disclose_step(case_id, run[0].state, run[1].event, run[1].state, run[1].action));
    assert(disclose_step(case_id, run[1].state, run[2].event, run[2].state, run[2].action));
    assert(disclose_step(case_id, run[2].state, run[3].event, run[3].state, run[3].action));
    if i >= 4 {
        lemma_stage(case_id, run, 4);
        assert(disclose_step(case_id, run[3].state, run[4].event, run[4].state, run[4].action));
    }
    if i >= 5 {
        lemma_stage(case_id, run, 5);
        assert(disclose_step(case_id, run[4].state, run[5].event, run[5].state, run[5].action));
    }
}

/// Nothing is written unless the caller is a compliance lead, the session is
/// elevated, the reason has the right length, and there is an identity to
/// disclose.
pub proof fn law_refused_disclosure_writes_nothing(case_id: i64, run: Seq<DiscloseRun>, k: int)
    requires
        is_disclose_run(case_id, run),
        0 <= k < run.len(),
        is_write(run[k].action),
    ensures
        is_granted(run),
{
    let step = run[k];
    lemma_stage(case_id, run, k);
    if k > 0 {
        lemma_stage(case_id, run, k - 1);
    }
    lemma_state(case_id, run, k);
}

/// An answer shows the reporter's address only where the disclosure is on
/// record: a lead in an elevated session asked for it with a reason, and the
/// row that is the disclosure and the entry in the history were written and
/// committed before. Any other answer comes earlier, and is a redirect, the
/// form, the page for an anonymous report or the page for a missing case.
pub proof fn law_identity_is_shown_on_record_only(
    case_id: i64,
    run: Seq<DiscloseRun>,
    k: int,
    reply: Reply,
)
    requires
        is_disclose_run(case_id, run),
        0 <= k < run.len(),
        run[k].action == DiscloseAction::Answer(reply),
    ensures
        if k == 0 {
            run[0].event matches DiscloseEvent::Session(session) && (refusal(
                session,
                MIN_ROLE,
            ) matches Some(path) && reply.is_redirect(path))
        } else if k == 1 {
            reply.is_redirect(reauth_path(case_id))
        } else if k == 2 {
            run[2].event matches DiscloseEvent::Form { csrf, .. } && reply.is_page(
                OK,
                form_page(
                    case_id,
                    run_actor(run).email@,
                    csrf@,
                    reason_problem(run_reason(run)),
                ),
            )
        } else if k == 3 {
            reply.is_page(NOT_FOUND, not_found_page()) || reply.is_page(
                OK,
                anonymous_page(case_id, run_actor(run).email@),
            )
        } else {
            &&& k == 6
            &&& is_granted(run)
            &&& is_on_record(case_id, run)
            &&& run[3].event matches DiscloseEvent::CaseRead(Some(Some(reporter_email)))
                && reply.is_page(
                OK,
                result_page(case_id, run_actor(run).email@, reporter_email@, run_reason(run)),
            )
        },
{
    let step = run[k];
    if k > 0 {
        assert(!(run[k - 1].state is Done));
        lemma_stage(case_id, run, k - 1);
        lemma_stage(case_id, run, 0);
        assert(disclose_step(case_id, DiscloseState::Start, run[0].event, run[0].state, run[0].action));
    }
    if k > 1 {
        lemma_stage(case_id, run, 1);
        assert(disclose_step(case_id, run[0].state, run[1].event, run[1].state, run[1].action));
    }
    if k > 2 {
        lemma_stage(case_id, run, 2);
        assert(disclose_step(case_id, run[1].state, run[2].event, run[2].state, run[2].action));
    }
    if k > 3 {
        lemma_state(case_id, run, k - 1);
        assert(k == 6);
        lemma_state(case_id, run, 3);
        lemma_state(case_id, run, 4);
        lemma_state(case_id, run, 5);
        lemma_stage(case_id, run, 3);
        lemma_stage(case_id, run, 4);
        assert(disclose_step(case_id, run[2].state, run[3].event, run[3].state, run[3].action));
        assert(disclose_step(case_id, run[3].state, run[4].event, run[4].state, run[4].action));
        assert(disclose_step(case_id, run[4].state, run[5].event, run[5].state, run[5].action));
    }
}

/// Where everything is in order and written as asked, the lead is shown the
/// reporter's address.
pub proof fn law_granted_disclosure_shows_the_identity(case_id: i64, run: Seq<DiscloseRun>)
    requires
        is_disclose_run(case_id, run),
        run.len() == 7,
        is_granted(run),
        run[4].event is DisclosureWritten,
        run[5].event is HistoryWritten,
        run[6].event is Committed,
    ensures
        is_on_record(case_id, run),
        run[3].event matches DiscloseEvent::CaseRead(Some(Some(reporter_email)))
            && run[6].action matches DiscloseAction::Answer(reply) && reply.is_page(
            OK,
            result_page(case_id, run_actor(run).email@, reporter_email@, run_reason(run)),
        ),
{
    assert(disclose_step(case_id, DiscloseState::Start, run[0].event, run[0].state, run[0].action));
    assert(disclose_step(case_id, run[0].state, run[1].event, run[1].state, run[1].action));
    assert(disclose_step(case_id, run[1].state, run[2].event, run[2].state, run[2].action));
    assert(disclose_step(case_id, run[2].state, run[3].event, run[3].state, run[3].action));
    assert(disclose_step(case_id, run[3].state, run[4].event, run[4].state, run[4].action));
    assert(disclose_step(case_id, run[4].state, run[5].event, run[5].state, run[5].action));
    assert(disclose_step(case_id, run[5].state, run[6].event, run[6].state, run[6].action));
}

/// Whether two states are the same but for the reporter's address.
pub open spec fn same_progress(a: DiscloseState, b: DiscloseState) -> bool {
    match (a, b) {
        (
            DiscloseState::CheckingElevation { actor: x },
            DiscloseState::CheckingElevation { actor: y },
        ) => x == y,
        (DiscloseState::ReadingForm { actor: x }, DiscloseState::ReadingForm { actor: y }) => x == y,
        (
            DiscloseState::ReadingCase { actor: x, reason: r },
            DiscloseState::ReadingCase { actor: y, reason: s },
        ) => x == y && r@ == s@,
        (
            DiscloseState::WritingDisclosure { actor: x, reason: r, .. },
            DiscloseState::WritingDisclosure { actor: y, reason: s, .. },
        ) => x == y && r@ == s@,
        (
            DiscloseState::WritingHistory { actor: x, reason: r, .. },
            DiscloseState::WritingHistory { actor: y, reason: s, .. },
        ) => x == y && r@ == s@,
        (
            DiscloseState::Committing { actor: x, reason: r, .. },
            DiscloseState::Committing { actor: y, reason: s, .. },
        ) => x == y && r@ == s@,
        _ => false,
    }
}

/// Whether two actions do the same.
pub open spec fn same_action(a: DiscloseAction, b: DiscloseAction) -> bool {
    match (a, b) {
        (DiscloseAction::CheckElevation, DiscloseAction::CheckElevation) => true,
        (DiscloseAction::ReadForm, DiscloseAction::ReadForm) => true,
        (DiscloseAction::ReadCase { case_id: x }, DiscloseAction::ReadCase { case_id: y }) => x == y,
        (DiscloseAction::WriteDisclosure(x), DiscloseAction::WriteDisclosure(y)) => x.holds(
            y.case_id,
            y.requested_by,
            y.reason@,
        ),
        (DiscloseAction::WriteHistory(x), DiscloseAction::WriteHistory(y)) => x.holds(
            y.case_id,
            y.actor_id,
            y.action_type@,
            y.note@,
        ),
        (DiscloseAction::Commit, DiscloseAction::Commit) => true,
        (DiscloseAction::Answer(x), DiscloseAction::Answer(y)) => match y {
            Reply::Html { status, body } => x.is_page(status, body@),
            Reply::Redirect { location } => x.is_redirect(location@),
        },
        (DiscloseAction::Fail(_), DiscloseAction::Fail(_)) => true,
        _ => false,
    }
}

/// Whatever is done before the answer on record is the same whatever address
/// the reporter left: of two runs that differ in the address alone, each action
/// up to the commit is the same.
pub proof fn law_address_is_not_used_before_the_commit(
    case_id: i64,
    run: Seq<DiscloseRun>,
    other: Seq<DiscloseRun>,
    k: int,
)
    requires
        is_disclose_run(case_id, run),
        is_disclose_run(case_id, other),
        run.len() == other.len(),
        forall|i: int|
            0 <= i < run.len() ==> (#[trigger] run[i]).event == other[i].event || (
            run[i].event matches DiscloseEvent::CaseRead(Some(Some(_)))
                && other[i].event matches DiscloseEvent::CaseRead(Some(Some(_)))),
        0 <= k < run.len(),
        k < 6,
    ensures
        same_action(run[k].action, other[k].action),
        !(run[k].state is Done) ==> same_progress(run[k].state, other[k].state),
        run[k].state is Done ==> other[k].state is Done,
    decreases k,
{
    let step = run[k];
    let step2 = other[k];
    if k > 0 {
        law_address_is_not_used_before_the_commit(case_id, run, other, k - 1);
    }
    if run[k].state is Committing {
        lemma_stage(case_id, run, k);
    }
    if k > 0 && !(run[k - 1].state is Done) {
        lemma_stage(case_id, run, k - 1);
    }
}

}
