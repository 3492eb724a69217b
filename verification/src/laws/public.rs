//! What becomes of a report that is submitted.

use vstd::prelude::*;
use vstd::utf8::encode_utf8;

use crate::form::urlencoded_fields;
use crate::handlers::public::{
    body_submission, error_box, form_page, is_form_reply, is_submit_plan, is_success_reply,
    report_problem, success_page, SubmissionView, SubmitReport,
};
use crate::html::{escaped, law_escaped_keeps_the_text};
use crate::markup::public as markup;
use crate::records::NewReport;
use crate::reply::Reply;
use crate::text::{
    concat, decimal, holds, lemma_holds_between, lemma_holds_within, lemma_neighbours,
    lemma_read_back, opt_text, trimmed,
};

verus! {

/// Whether a report is one that is accepted.
pub open spec fn is_acceptable(s: SubmissionView) -> bool {
    &&& 5 <= encode_utf8(s.summary).len() <= 200
    &&& 10 <= encode_utf8(s.body).len() <= 50000
    &&& s.severity == "low"@ || s.severity == "medium"@ || s.severity == "high"@ || s.severity
        == "critical"@
    &&& s.channel == "web"@ || s.channel == "phone"@ || s.channel == "in_person"@ || s.channel
        == "email"@
    &&& s.reporter_email matches Some(email) ==> encode_utf8(email).len() <= 254 && exists|i: int|
        0 <= i < email.len() && #[trigger] email[i] == '@'
}

/// A report is accepted if and only if its summary and its body have the right
/// length, its severity and its channel are known, and the address that was left,
/// if one was, has an `@` and is not too long.
pub proof fn law_what_is_accepted(s: SubmissionView)
    ensures
        report_problem(s) is None <==> is_acceptable(s),
{
    if let Some(email) = s.reporter_email {
        if email.contains('@') {
            let i = choose|i: int| 0 <= i < email.len() && email[i] == '@';
            assert(email[i] == '@');
        }
    }
}

/// What the fields of a form say of a report, each by its own field: the text
/// without the white space around it, `medium` and `web` for a severity and a
/// channel that are missing, and no address where the field is missing or blank.
pub proof fn law_fields_of_a_submission(body: Seq<char>)
    ensures
        ({
            let fields = urlencoded_fields(body);
            let s = body_submission(body);
            &&& fields.contains_key("summary"@) ==> s.summary == trimmed(fields["summary"@])
            &&& fields.contains_key("body"@) ==> s.body == trimmed(fields["body"@])
            &&& fields.contains_key("severity"@) ==> s.severity == trimmed(fields["severity"@])
            &&& fields.contains_key("channel"@) ==> s.channel == trimmed(fields["channel"@])
            &&& fields.contains_key("reporter_email"@) && trimmed(fields["reporter_email"@]).len()
                > 0 ==> s.reporter_email == Some(trimmed(fields["reporter_email"@]))
            &&& fields.contains_key("reporter_email"@) && trimmed(fields["reporter_email"@]).len()
                == 0 ==> s.reporter_email is None
            &&& !fields.contains_key("summary"@) ==> s.summary.len() == 0
            &&& !fields.contains_key("body"@) ==> s.body.len() == 0
            &&& !fields.contains_key("severity"@) ==> s.severity == "medium"@
            &&& !fields.contains_key("channel"@) ==> s.channel == "web"@
            &&& !fields.contains_key("reporter_email"@) ==> s.reporter_email is None
        }),
{
    reveal_strlit("");
    reveal_strlit("medium");
    reveal_strlit("web");
    crate::text::law_trimmed_is_what_white_space_encloses("medium"@);
    assert("medium"@.first() == 'm' && "medium"@.last() == 'm');
    assert("web"@.first() == 'w' && "web"@.last() == 'b');
    assert(trimmed(""@) =~= ""@);
}

/// A report that is accepted is stored as it was submitted: its row holds the
/// summary, the body, the severity, the channel and the address of the
/// submission, and it stands in intake under a token of 43 characters.
pub proof fn law_accepted_report_is_stored_as_submitted(
    csrf: Seq<char>,
    s: SubmissionView,
    plan: SubmitReport,
)
    requires
        is_submit_plan(plan, csrf, s),
        is_acceptable(s),
    ensures
        plan matches SubmitReport::StoreReport(report) && report.summary@ == s.summary
            && report.body@ == s.body && report.severity@ == s.severity && report.channel@
            == s.channel && opt_text(report.reporter_email) == s.reporter_email && report.status@
            == "intake"@ && report.reporter_token@.len() == 43,
{
    law_what_is_accepted(s);
    if let SubmitReport::StoreReport(report) = plan {
        crate::handlers::public::law_reporter_token_shape(report.reporter_token@);
    }
}

/// The same said of the body of the request: each column holds the field of the
/// form without the white space around it.
pub proof fn law_submitted_fields_are_stored(
    csrf: Seq<char>,
    body: Seq<char>,
    plan: SubmitReport,
    report: NewReport,
)
    requires
        is_submit_plan(plan, csrf, body_submission(body)),
        plan == SubmitReport::StoreReport(report),
    ensures
        urlencoded_fields(body).contains_key("summary"@),
        report.summary@ == trimmed(urlencoded_fields(body)["summary"@]),
        urlencoded_fields(body).contains_key("body"@),
        report.body@ == trimmed(urlencoded_fields(body)["body"@]),
        urlencoded_fields(body).contains_key("severity"@) ==> report.severity@ == trimmed(
            urlencoded_fields(body)["severity"@],
        ),
        urlencoded_fields(body).contains_key("channel"@) ==> report.channel@ == trimmed(
            urlencoded_fields(body)["channel"@],
        ),
        report.reporter_email matches Some(address) ==> urlencoded_fields(body).contains_key(
            "reporter_email"@,
        ) && address@ == trimmed(urlencoded_fields(body)["reporter_email"@]),
        report.reporter_email is None && urlencoded_fields(body).contains_key("reporter_email"@)
            ==> trimmed(urlencoded_fields(body)["reporter_email"@]).len() == 0,
{
    let s = body_submission(body);
    law_what_is_accepted(s);
    law_fields_of_a_submission(body);
    law_accepted_report_is_stored_as_submitted(csrf, s, plan);
    if s.summary.len() == 0 {
        assert(s.summary =~= Seq::<char>::empty());
        assert(encode_utf8(Seq::<char>::empty()).len() == 0);
    }
    if s.body.len() == 0 {
        assert(s.body =~= Seq::<char>::empty());
        assert(encode_utf8(Seq::<char>::empty()).len() == 0);
    }
}

/// Reports of different severities or channels are stored with different ones.
pub proof fn law_severities_stay_apart(
    csrf: Seq<char>,
    s: SubmissionView,
    t: SubmissionView,
    report: NewReport,
    other: NewReport,
)
    requires
        is_submit_plan(SubmitReport::StoreReport(report), csrf, s),
        is_submit_plan(SubmitReport::StoreReport(other), csrf, t),
    ensures
        report.severity@ == other.severity@ <==> s.severity == t.severity,
        report.channel@ == other.channel@ <==> s.channel == t.channel,
        report.summary@ == other.summary@ <==> s.summary == t.summary,
        report.body@ == other.body@ <==> s.body == t.body,
        opt_text(report.reporter_email) == opt_text(other.reporter_email) <==> s.reporter_email
            == t.reporter_email,
{
    law_what_is_accepted(s);
    law_what_is_accepted(t);
    law_accepted_report_is_stored_as_submitted(csrf, s, SubmitReport::StoreReport(report));
    law_accepted_report_is_stored_as_submitted(csrf, t, SubmitReport::StoreReport(other));
}

/// A report that is not accepted is not stored: it is answered with the form, which
/// says what is wrong and carries the token for the next attempt.
pub proof fn law_refused_report_is_answered_with_the_form(
    csrf: Seq<char>,
    s: SubmissionView,
    plan: SubmitReport,
)
    requires
        is_submit_plan(plan, csrf, s),
        !is_acceptable(s),
    ensures
        report_problem(s) is Some,
        plan matches SubmitReport::Answer(Reply::Html { status, body }) && status == 200 && holds(
            body@,
            markup::ERROR_TO_MESSAGE@ + escaped(report_problem(s)->0) + markup::ERROR_END@,
        ) && holds(
            body@,
            markup::FORM_TO_CSRF@ + escaped(csrf) + markup::FORM_TO_SUMMARY_MIN@,
        ),
{
    law_what_is_accepted(s);
    let message = report_problem(s)->0;
    law_form_shows_its_values(csrf, Some(message));
    let shown = markup::ERROR_TO_MESSAGE@ + escaped(message) + markup::ERROR_END@;
    lemma_holds_between(markup::FORM_TO_ERROR@, shown, markup::FORM_TO_CSRF@);
    lemma_holds_within(
        form_page(csrf, Some(message)),
        markup::FORM_TO_ERROR@ + error_box(Some(message)) + markup::FORM_TO_CSRF@,
        shown,
    );
}

/// Whether a message begins with a given text.
pub open spec fn begins(message: Option<Seq<char>>, start: Seq<char>) -> bool {
    message matches Some(text) && start.is_prefix_of(text)
}

/// The first thing that is wrong is the one that is named: the summary, then the
/// body, then the severity, then the channel, then the address.
pub proof fn law_problems_are_named_in_order(s: SubmissionView)
    ensures
        encode_utf8(s.summary).len() < 5 ==> begins(
            report_problem(s),
            "Summary must be at least "@,
        ),
        encode_utf8(s.summary).len() > 200 ==> begins(
            report_problem(s),
            "Summary must be no more than "@,
        ),
        5 <= encode_utf8(s.summary).len() <= 200 ==> {
            &&& encode_utf8(s.body).len() < 10 ==> begins(
                report_problem(s),
                "Description must be at least "@,
            )
            &&& encode_utf8(s.body).len() > 50000 ==> begins(
                report_problem(s),
                "Description must be no more than "@,
            )
            &&& 10 <= encode_utf8(s.body).len() <= 50000 ==> {
                let known = s.severity == "low"@ || s.severity == "medium"@ || s.severity
                    == "high"@ || s.severity == "critical"@;
                let reachable = s.channel == "web"@ || s.channel == "phone"@ || s.channel
                    == "in_person"@ || s.channel == "email"@;
                &&& !known ==> report_problem(s) == Some("Invalid severity."@)
                &&& known && !reachable ==> report_problem(s) == Some("Invalid channel."@)
                &&& known && reachable && report_problem(s) is Some ==> report_problem(s) == Some(
                    "Email address looks invalid."@,
                )
            }
        },
{
}

/// The form holds, each whole and in its place, the box for what is wrong, the
/// token and the limits of a summary and a body.
pub proof fn law_form_shows_its_values(csrf: Seq<char>, error: Option<Seq<char>>)
    ensures
        holds(
            form_page(csrf, error),
            markup::FORM_TO_ERROR@ + error_box(error) + markup::FORM_TO_CSRF@,
        ),
        holds(
            form_page(csrf, error),
            markup::FORM_TO_CSRF@ + escaped(csrf) + markup::FORM_TO_SUMMARY_MIN@,
        ),
        holds(
            form_page(csrf, error),
            markup::FORM_TO_SUMMARY_MIN@ + decimal(5) + markup::FORM_TO_SUMMARY_MAX@,
        ),
        holds(
            form_page(csrf, error),
            markup::FORM_TO_SUMMARY_MAX@ + decimal(200) + markup::FORM_TO_BODY_MIN@,
        ),
        holds(
            form_page(csrf, error),
            markup::FORM_TO_BODY_MIN@ + decimal(10) + markup::FORM_TO_BODY_MAX@,
        ),
        holds(
            form_page(csrf, error),
            markup::FORM_TO_BODY_MAX@ + decimal(50000) + markup::FORM_END@,
        ),
{
    let pieces = seq![
        markup::FORM_TO_ERROR@,
        error_box(error),
        markup::FORM_TO_CSRF@,
        escaped(csrf),
        markup::FORM_TO_SUMMARY_MIN@,
        decimal(5),
        markup::FORM_TO_SUMMARY_MAX@,
        decimal(200),
        markup::FORM_TO_BODY_MIN@,
        decimal(10),
        markup::FORM_TO_BODY_MAX@,
        decimal(50000),
        markup::FORM_END@,
    ];
    assert(form_page(csrf, error) == concat(pieces, 13)) by {
        reveal_with_fuel(concat, 14);
    }
    lemma_neighbours(pieces, 13, 0);
    lemma_neighbours(pieces, 13, 2);
    lemma_neighbours(pieces, 13, 4);
    lemma_neighbours(pieces, 13, 6);
    lemma_neighbours(pieces, 13, 8);
    lemma_neighbours(pieces, 13, 10);
}

/// The page for a report that was received holds the token whole.
pub proof fn law_success_page_shows_the_token(token: Seq<char>)
    ensures
        holds(
            success_page(token),
            markup::SUCCESS_TO_TOKEN@ + escaped(token) + markup::SUCCESS_END@,
        ),
{
    let pieces = seq![
        markup::SUCCESS_TO_TOKEN@,
        escaped(token),
        markup::SUCCESS_END@,
    ];
    assert(success_page(token) == concat(pieces, 3)) by {
        reveal_with_fuel(concat, 4);
    }
    lemma_neighbours(pieces, 3, 0);
}

/// The token can be read back from the page: pages are equal only where the tokens
/// are.
pub proof fn law_token_can_be_read_from_the_page(token: Seq<char>, other: Seq<char>)
    requires
        success_page(token) == success_page(other),
    ensures
        token == other,
{
    let p = seq![
        markup::SUCCESS_TO_TOKEN@,
        escaped(token),
        markup::SUCCESS_END@,
    ];
    let q = seq![
        markup::SUCCESS_TO_TOKEN@,
        escaped(other),
        markup::SUCCESS_END@,
    ];
    assert(success_page(token) == concat(p, 3) && success_page(other) == concat(q, 3)) by {
        reveal_with_fuel(concat, 4);
    }
    lemma_read_back(p, q, 3, 1);
    law_escaped_keeps_the_text(token, other);
}

/// The form that is shown first holds its token and says of nothing that it is
/// wrong.
pub proof fn law_form_is_shown(csrf: Seq<char>, reply: Reply)
    requires
        is_form_reply(csrf, reply),
    ensures
        reply matches Reply::Html { status, body } && status == 200 && body@ == form_page(csrf, None),
        error_box(None).len() == 0,
{
}

/// The reporter of a report that was stored is shown its token, as it was stored.
pub proof fn law_reporter_is_shown_the_stored_token(report: NewReport, reply: Reply)
    requires
        is_success_reply(report, reply),
    ensures
        reply matches Reply::Html { status, body } && status == 200 && holds(
            body@,
            markup::SUCCESS_TO_TOKEN@ + escaped(report.reporter_token@) + markup::SUCCESS_END@,
        ),
{
    law_success_page_shows_the_token(report.reporter_token@);
}

}
