use lursystem::auth_helper::{is_elevated_at, Identity, Role};
use lursystem::handlers::audit::{audit_query, AuditFilters, MAX_PAGE, PAGE_SIZE};
use lursystem::handlers::disclosure::{do_disclose, DiscloseAction, DiscloseEvent, DiscloseState};
use lursystem::handlers::public::{submit_fields, ReportFields, SubmitReport};
use lursystem::handlers::triage::{do_open_case, OpenCaseAction, OpenCaseEvent, OpenCaseState};
use lursystem::html::escape;
use lursystem::labels::{channel_label_sv, severity_label_sv};
use lursystem::models::Value;
use lursystem::records::NewReport;
use lursystem::reply::Reply;
use lursystem::time::Timestamp;

fn at(secs: i64) -> Timestamp {
    Timestamp::new(secs, 0).unwrap()
}

fn lead() -> Identity {
    Identity {
        user_id: 7,
        email: "lead@example.com".to_string(),
        role: Role::Administrator,
        is_active: true,
    }
}

fn accepted(severity: &str, channel: &str) -> NewReport {
    let fields = ReportFields {
        summary: Some("Bribes".to_string()),
        body: Some("What happened".to_string()),
        severity: Some(severity.to_string()),
        channel: Some(channel.to_string()),
        reporter_email: None,
    };
    match submit_fields("token", &fields) {
        SubmitReport::StoreReport(report) => report,
        SubmitReport::Answer(_) => panic!("refused"),
    }
}

#[test]
fn law_an_accepted_report_can_be_opened() {
    let report = accepted("low", "web");
    let (_, action) = do_open_case(
        1,
        OpenCaseState::Reading { actor_id: 7 },
        OpenCaseEvent::ReportStatus(Some(report.status)),
    );
    assert!(matches!(action, OpenCaseAction::WriteCase(_)));
}

#[test]
fn law_an_opened_report_cannot_be_opened_again() {
    let (state, action) = do_open_case(
        1,
        OpenCaseState::WritingCase { actor_id: 7 },
        OpenCaseEvent::CaseWritten(2),
    );
    assert!(matches!(
        state,
        OpenCaseState::MovingReport {
            actor_id: 7,
            case_id: 2
        }
    ));
    let status = match action {
        OpenCaseAction::MoveReport { status, .. } => status,
        _ => panic!("the report stays"),
    };
    let (_, action) = do_open_case(
        1,
        OpenCaseState::Reading { actor_id: 8 },
        OpenCaseEvent::ReportStatus(Some(status)),
    );
    assert!(matches!(
        action,
        OpenCaseAction::Answer(Reply::Redirect { location }) if location == "/admin/triage?error=race"
    ));
}

#[test]
fn law_accepted_values_have_labels() {
    for severity in ["low", "medium", "high", "critical"] {
        for channel in ["web", "phone", "in_person", "email"] {
            let report = accepted(severity, channel);
            assert_ne!(severity_label_sv(&report.severity), "Okänd");
            assert_ne!(channel_label_sv(&report.channel), "Okänd");
        }
    }
}

#[test]
fn law_tokens_are_shown_as_they_are() {
    let token = accepted("low", "web").reporter_token;
    assert_eq!(escape(&token), token);
}

/// What a disclosure writes, up to and with the commit.
fn written(address: &str) -> Vec<String> {
    let events = vec![
        DiscloseEvent::Session(Some(lead())),
        DiscloseEvent::Elevation(true),
        DiscloseEvent::Form {
            body: "reason=asked+to+be+called".to_string(),
            csrf: "token".to_string(),
        },
        DiscloseEvent::CaseRead(Some(Some(address.to_string()))),
        DiscloseEvent::DisclosureWritten,
        DiscloseEvent::HistoryWritten,
    ];
    let mut state = DiscloseState::Start;
    let mut out = Vec::new();
    for event in events {
        let (next, action) = do_disclose(3, state, event);
        state = next;
        out.push(match action {
            DiscloseAction::CheckElevation => "elevation".to_string(),
            DiscloseAction::ReadForm => "form".to_string(),
            DiscloseAction::ReadCase { case_id } => format!("case {}", case_id),
            DiscloseAction::WriteDisclosure(row) => {
                format!("disclosure {} {} {}", row.case_id, row.requested_by, row.reason)
            }
            DiscloseAction::WriteHistory(entry) => format!(
                "history {} {} {} {}",
                entry.case_id, entry.actor_id, entry.action_type, entry.note
            ),
            DiscloseAction::Commit => "commit".to_string(),
            DiscloseAction::Answer(_) => "answer".to_string(),
            DiscloseAction::Fail(_) => "fail".to_string(),
        });
    }
    out
}

#[test]
fn law_an_address_is_not_used_before_the_commit() {
    assert_eq!(written("one@example.com"), written("two@example.com"));
    assert_eq!(
        written("one@example.com"),
        vec![
            "elevation",
            "form",
            "case 3",
            "disclosure 3 7 asked to be called",
            "history 3 7 disclosure_consumed asked to be called",
            "commit",
        ]
    );
}

#[test]
fn law_an_elevation_that_ran_out_stays_so() {
    let until = Some(at(100));
    let mut ran_out = false;
    for now in 95..105 {
        let elevated = is_elevated_at(&until, &at(now));
        assert!(!(ran_out && elevated));
        ran_out = !elevated;
    }
    assert!(ran_out);
}

#[test]
fn law_since_begins_with_its_day() {
    let since = AuditFilters::from_request("since=2026-05-11").since.unwrap();
    let start = since.unix_seconds();
    for (secs, date) in [
        (start - 1, "2026-05-10"),
        (start, "2026-05-11"),
        (start + 86399, "2026-05-11"),
        (start + 86400, "2026-05-12"),
    ] {
        assert_eq!(at(secs).date_text(), date);
        assert_eq!(!since.is_after(&at(secs)), date >= "2026-05-11");
    }
}

#[test]
fn law_pages_follow_on_each_other() {
    let mut next = 0;
    for page in 1..=MAX_PAGE {
        let query = audit_query(&AuditFilters::from_request(&format!("page={}", page)));
        assert!(matches!(query.list.binds[0], Value::I64(limit) if limit == PAGE_SIZE));
        assert!(matches!(query.list.binds[1], Value::I64(offset) if offset == next));
        next += PAGE_SIZE;
    }
}
