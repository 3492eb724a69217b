use lursystem::models::{
    case, case_action, disclosure, document, report, Case, CaseAction, Cell, Disclosure, Document,
    Kind, Report, Row, Value,
};
use lursystem::time::Timestamp;

fn at(secs: i64) -> Timestamp {
    Timestamp::new(secs, 7).unwrap()
}

fn number(value: &Value) -> i64 {
    match value {
        Value::I64(n) => *n,
        _ => panic!("no number"),
    }
}

fn text(value: &Value) -> &str {
    match value {
        Value::Text(text) => text,
        _ => panic!("no text"),
    }
}

fn seconds(value: &Value) -> i64 {
    match value {
        Value::DateTime(instant) => instant.unix_seconds(),
        _ => panic!("no instant"),
    }
}

/// A row with an id and values under the columns for writing.
fn stored(id: i64, columns: &[&str], values: Vec<Value>) -> Row {
    let mut cells = vec![Cell {
        name: "id".to_string(),
        value: Value::I64(id),
    }];
    for (name, value) in columns.iter().zip(values) {
        cells.push(Cell {
            name: name.to_string(),
            value,
        });
    }
    Row { cells }
}

fn a_case() -> Case {
    Case {
        id: 1,
        report_id: 2,
        assignee_id: None,
        status: "triage".to_string(),
        opened_at: at(100),
    }
}

#[test]
fn tables() {
    assert_eq!(case::TABLE, "cases");
    assert_eq!(case_action::TABLE, "case_actions");
    assert_eq!(disclosure::TABLE, "disclosures");
    assert_eq!(document::TABLE, "documents");
    assert_eq!(report::TABLE, "reports");
}

#[test]
fn columns() {
    assert_eq!(
        case::COLUMNS,
        ["id", "report_id", "assignee_id", "status", "opened_at"]
    );
    assert_eq!(
        case_action::COLUMNS,
        ["id", "case_id", "actor_id", "action_type", "note", "created_at"]
    );
    assert_eq!(
        disclosure::COLUMNS,
        ["id", "case_id", "requested_by", "reason", "disclosed_at"]
    );
    assert_eq!(
        document::COLUMNS,
        [
            "id",
            "report_id",
            "filename",
            "content_type",
            "size_bytes",
            "storage_path",
            "uploaded_at"
        ]
    );
    assert_eq!(
        report::COLUMNS,
        [
            "id",
            "summary",
            "body",
            "severity",
            "channel",
            "status",
            "reporter_email",
            "reporter_token",
            "submitted_at"
        ]
    );
    assert_eq!(case::INSERT_COLUMNS, case::COLUMNS[1..]);
    assert_eq!(case_action::INSERT_COLUMNS, case_action::COLUMNS[1..]);
    assert_eq!(disclosure::INSERT_COLUMNS, disclosure::COLUMNS[1..]);
    assert_eq!(document::INSERT_COLUMNS, document::COLUMNS[1..]);
    assert_eq!(report::INSERT_COLUMNS, report::COLUMNS[1..]);
    assert_eq!(case::KINDS[2], Kind::OptionalI64);
    assert_eq!(report::KINDS[6], Kind::OptionalText);
}

#[test]
fn list_pages() {
    assert_eq!(
        case::LIST_DISPLAY,
        ["id", "report_id", "assignee_id", "status", "opened_at"]
    );
    assert_eq!(case::LIST_FILTER, ["status"]);
    assert_eq!(case::ORDERING, ["-opened_at"]);
    assert_eq!(
        case_action::LIST_DISPLAY,
        ["case_id", "actor_id", "action_type", "created_at"]
    );
    assert_eq!(case_action::LIST_FILTER, ["action_type"]);
    assert_eq!(case_action::SEARCH_FIELDS, ["note", "action_type"]);
    assert_eq!(case_action::ORDERING, ["-created_at"]);
    assert_eq!(
        disclosure::LIST_DISPLAY,
        ["case_id", "requested_by", "disclosed_at"]
    );
    assert_eq!(disclosure::SEARCH_FIELDS, ["reason"]);
    assert_eq!(disclosure::ORDERING, ["-disclosed_at"]);
    assert_eq!(
        document::LIST_DISPLAY,
        ["filename", "report_id", "content_type", "size_bytes", "uploaded_at"]
    );
    assert_eq!(document::SEARCH_FIELDS, ["filename"]);
    assert_eq!(document::ORDERING, ["-uploaded_at"]);
    assert_eq!(
        report::LIST_DISPLAY,
        ["summary", "severity", "status", "submitted_at"]
    );
    assert_eq!(report::LIST_FILTER, ["severity", "status", "channel"]);
    assert_eq!(report::SEARCH_FIELDS, ["summary", "body", "reporter_email"]);
    assert_eq!(report::ORDERING, ["-submitted_at"]);
}

#[test]
fn case_values() {
    let values = a_case().insert_values();
    assert_eq!(values.len(), 4);
    assert_eq!(number(&values[0]), 2);
    assert!(matches!(values[1], Value::Null));
    assert_eq!(text(&values[2]), "triage");
    assert_eq!(seconds(&values[3]), 100);
    let assigned = Case {
        assignee_id: Some(9),
        ..a_case()
    };
    assert_eq!(number(&assigned.insert_values()[1]), 9);
    assert_eq!(assigned.id(), 1);
}

#[test]
fn case_is_read_back() {
    for assignee_id in [None, Some(9)] {
        let written = Case {
            assignee_id,
            ..a_case()
        };
        let row = stored(5, &case::INSERT_COLUMNS, written.insert_values());
        let read = Case::from_row(&row).unwrap();
        assert_eq!(read.id, 5);
        assert_eq!(read.report_id, 2);
        assert_eq!(read.assignee_id, assignee_id);
        assert_eq!(read.status, "triage");
        assert_eq!(read.opened_at.unix_seconds(), 100);
        assert_eq!(read.opened_at.subsec_nanos(), 7);
    }
}

#[test]
fn rows_that_do_not_fit_are_not_read() {
    let fitting = || stored(5, &case::INSERT_COLUMNS, a_case().insert_values());
    for i in 0..5 {
        let mut row = fitting();
        row.cells.remove(i);
        assert!(Case::from_row(&row).is_none());
        let mut row = fitting();
        row.cells[i].name.push('x');
        assert!(Case::from_row(&row).is_none());
    }
    let mut row = fitting();
    row.cells[1].value = Value::Null;
    assert!(Case::from_row(&row).is_none());
    let mut row = fitting();
    row.cells[3].value = Value::I64(1);
    assert!(Case::from_row(&row).is_none());
    let mut row = fitting();
    row.cells[4].value = Value::Text("2026".to_string());
    assert!(Case::from_row(&row).is_none());
    let mut row = fitting();
    row.cells.reverse();
    assert!(Case::from_row(&row).is_some());
}

#[test]
fn case_action_is_read_back() {
    let written = CaseAction {
        id: 1,
        case_id: 2,
        actor_id: 3,
        action_type: "note_added".to_string(),
        note: "seen".to_string(),
        created_at: at(200),
    };
    assert_eq!(written.id(), 1);
    let values = written.insert_values();
    assert_eq!(number(&values[0]), 2);
    assert_eq!(number(&values[1]), 3);
    assert_eq!(text(&values[2]), "note_added");
    assert_eq!(text(&values[3]), "seen");
    assert_eq!(seconds(&values[4]), 200);
    let row = stored(6, &case_action::INSERT_COLUMNS, values);
    let read = CaseAction::from_row(&row).unwrap();
    assert_eq!((read.id, read.case_id, read.actor_id), (6, 2, 3));
    assert_eq!((read.action_type.as_str(), read.note.as_str()), ("note_added", "seen"));
    assert_eq!(read.created_at.unix_seconds(), 200);
}

#[test]
fn disclosure_is_read_back() {
    let written = Disclosure {
        id: 1,
        case_id: 2,
        requested_by: 3,
        reason: "asked to be called".to_string(),
        disclosed_at: at(300),
    };
    assert_eq!(written.id(), 1);
    let row = stored(7, &disclosure::INSERT_COLUMNS, written.insert_values());
    let read = Disclosure::from_row(&row).unwrap();
    assert_eq!((read.id, read.case_id, read.requested_by), (7, 2, 3));
    assert_eq!(read.reason, "asked to be called");
    assert_eq!(read.disclosed_at.unix_seconds(), 300);
}

#[test]
fn document_is_read_back() {
    let written = Document {
        id: 1,
        report_id: 2,
        filename: "a.pdf".to_string(),
        content_type: "application/pdf".to_string(),
        size_bytes: 4096,
        storage_path: "/var/a".to_string(),
        uploaded_at: at(400),
    };
    assert_eq!(written.id(), 1);
    let row = stored(8, &document::INSERT_COLUMNS, written.insert_values());
    let read = Document::from_row(&row).unwrap();
    assert_eq!((read.id, read.report_id, read.size_bytes), (8, 2, 4096));
    assert_eq!(read.filename, "a.pdf");
    assert_eq!(read.content_type, "application/pdf");
    assert_eq!(read.storage_path, "/var/a");
    assert_eq!(read.uploaded_at.unix_seconds(), 400);
}

#[test]
fn report_is_read_back() {
    for email in [None, Some("tip@example.com".to_string())] {
        let written = Report {
            id: 1,
            summary: "s".to_string(),
            body: "b".to_string(),
            severity: "low".to_string(),
            channel: "web".to_string(),
            status: "intake".to_string(),
            reporter_email: email.clone(),
            reporter_token: "tok".to_string(),
            submitted_at: at(500),
        };
        assert_eq!(written.id(), 1);
        let row = stored(9, &report::INSERT_COLUMNS, written.insert_values());
        let read = Report::from_row(&row).unwrap();
        assert_eq!(read.id, 9);
        assert_eq!((read.summary.as_str(), read.body.as_str()), ("s", "b"));
        assert_eq!((read.severity.as_str(), read.channel.as_str()), ("low", "web"));
        assert_eq!(read.status, "intake");
        assert_eq!(read.reporter_email, email);
        assert_eq!(read.reporter_token, "tok");
        assert_eq!(read.submitted_at.unix_seconds(), 500);
    }
}
