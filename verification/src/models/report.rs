//! `Report`: what a reporter submitted.
//!
//! The address is missing where the reporter stayed anonymous. The status goes
//! from `intake` over `triage` and `investigating` to `resolved` and `archived`;
//! the column takes any text.

use vstd::prelude::*;

use crate::models::{
    as_datetime, as_i64, as_optional_text, as_text, column, is_read, is_typed, is_written,
    lemma_column, Cell, Kind, Row, Value, ValueView,
};
use crate::text::opt_text;
use crate::time::Timestamp;

verus! {

pub const TABLE: &'static str = "reports";

/// The columns that are read, and what each holds.
pub const COLUMNS: [&'static str; 9] = [
    "id",
    "summary",
    "body",
    "severity",
    "channel",
    "status",
    "reporter_email",
    "reporter_token",
    "submitted_at",
];

pub const KINDS: [Kind; 9] = [
    Kind::I64,
    Kind::Text,
    Kind::Text,
    Kind::Text,
    Kind::Text,
    Kind::Text,
    Kind::OptionalText,
    Kind::Text,
    Kind::DateTime,
];

/// The columns that are written. The database gives out the ids.
pub const INSERT_COLUMNS: [&'static str; 8] = [
    "summary",
    "body",
    "severity",
    "channel",
    "status",
    "reporter_email",
    "reporter_token",
    "submitted_at",
];

/// The columns of the list page.
pub const LIST_DISPLAY: [&'static str; 4] = ["summary", "severity", "status", "submitted_at"];

/// The columns that the list can be filtered by.
pub const LIST_FILTER: [&'static str; 3] = ["severity", "status", "channel"];

/// The columns that a search looks into.
pub const SEARCH_FIELDS: [&'static str; 3] = ["summary", "body", "reporter_email"];

/// The order of the list, a hyphen standing for descending.
pub const ORDERING: [&'static str; 1] = ["-submitted_at"];

/// A report that was submitted.
pub struct Report {
    pub id: i64,
    pub summary: String,
    pub body: String,
    pub severity: String,
    pub channel: String,
    pub status: String,
    pub reporter_email: Option<String>,
    pub reporter_token: String,
    pub submitted_at: Timestamp,
}

/// A `Report` by the contents of its fields.
pub struct ReportView {
    pub id: i64,
    pub summary: Seq<char>,
    pub body: Seq<char>,
    pub severity: Seq<char>,
    pub channel: Seq<char>,
    pub status: Seq<char>,
    pub reporter_email: Option<Seq<char>>,
    pub reporter_token: Seq<char>,
    pub submitted_at: (int, int),
}

impl View for Report {
    type V = ReportView;

    open spec fn view(&self) -> ReportView {
        ReportView {
            id: self.id,
            summary: self.summary@,
            body: self.body@,
            severity: self.severity@,
            channel: self.channel@,
            status: self.status@,
            reporter_email: opt_text(self.reporter_email),
            reporter_token: self.reporter_token@,
            submitted_at: self.submitted_at@,
        }
    }
}

impl ReportView {
    /// The values that are written, in the order of `INSERT_COLUMNS`.
    pub open spec fn inserted(self) -> Seq<ValueView> {
        seq![
            ValueView::Text(self.summary),
            ValueView::Text(self.body),
            ValueView::Text(self.severity),
            ValueView::Text(self.channel),
            ValueView::Text(self.status),
            match self.reporter_email {
                Some(text) => ValueView::Text(text),
                None => ValueView::Null,
            },
            ValueView::Text(self.reporter_token),
            ValueView::DateTime(self.submitted_at),
        ]
    }
}

/// What a row holds, if each column is there and holds what it should.
pub open spec fn read_row(row: Seq<Cell>) -> Option<ReportView> {
    match (
        as_i64(column(row, "id"@)),
        as_text(column(row, "summary"@)),
        as_text(column(row, "body"@)),
        as_text(column(row, "severity"@)),
        as_text(column(row, "channel"@)),
        as_text(column(row, "status"@)),
        as_optional_text(column(row, "reporter_email"@)),
        as_text(column(row, "reporter_token"@)),
        as_datetime(column(row, "submitted_at"@)),
    ) {
        (
            Some(id),
            Some(summary),
            Some(body),
            Some(severity),
            Some(channel),
            Some(status),
            Some(reporter_email),
            Some(reporter_token),
            Some(submitted_at),
        ) => Some(
            ReportView { id, summary, body, severity, channel, status, reporter_email, reporter_token, submitted_at },
        ),
        _ => None,
    }
}

/// Whether a model is what a row is read as.
pub open spec fn is_read_as(row: Seq<Cell>, read: Option<Report>) -> bool {
    match read {
        Some(model) => read_row(row) == Some(model@),
        None => read_row(row) is None,
    }
}

/// Whether some values are those that are written for a model.
pub open spec fn are_values_of(model: Report, values: Seq<Value>) -> bool {
    values.map_values(|value: Value| value@) == model@.inserted()
}

impl Report {
    pub fn id(&self) -> (r: i64)
        ensures
            r == self.id,
    {
        self.id
    }

    /// Reads a row.
    pub fn from_row(row: &Row) -> (r: Option<Report>)
        ensures
            is_read_as(row.cells@, r),
    {
        match (
            row.get_i64("id"),
            row.get_string("summary"),
            row.get_string("body"),
            row.get_string("severity"),
            row.get_string("channel"),
            row.get_string("status"),
            row.get_optional_string("reporter_email"),
            row.get_string("reporter_token"),
            row.get_datetime("submitted_at"),
        ) {
            (
                Some(id),
                Some(summary),
                Some(body),
                Some(severity),
                Some(channel),
                Some(status),
                Some(reporter_email),
                Some(reporter_token),
                Some(submitted_at),
            ) => Some(
                Report { id, summary, body, severity, channel, status, reporter_email, reporter_token, submitted_at },
            ),
            _ => None,
        }
    }

    /// The values to write, in the order of `INSERT_COLUMNS`.
    pub fn insert_values(&self) -> (r: Vec<Value>)
        ensures
            are_values_of(*self, r@),
    {
        let values = vec![
            Value::Text(self.summary.as_str().to_string()),
            Value::Text(self.body.as_str().to_string()),
            Value::Text(self.severity.as_str().to_string()),
            Value::Text(self.channel.as_str().to_string()),
            Value::Text(self.status.as_str().to_string()),
            match &self.reporter_email {
                Some(text) => Value::Text(text.as_str().to_string()),
                None => Value::Null,
            },
            Value::Text(self.reporter_token.as_str().to_string()),
            Value::DateTime(self.submitted_at.copy()),
        ];
        assert(values@.map_values(|value: Value| value@) =~= self@.inserted());
        values
    }
}

/// In a row with the columns for reading, each column is found by its name.
proof fn lemma_columns(row: Seq<Cell>)
    requires
        row.len() == COLUMNS@.len(),
        forall|i: int| 0 <= i < row.len() ==> (#[trigger] row[i]).name@ == COLUMNS@[i]@,
    ensures
        column(row, "id"@) == Some(row[0].value@),
        column(row, "summary"@) == Some(row[1].value@),
        column(row, "body"@) == Some(row[2].value@),
        column(row, "severity"@) == Some(row[3].value@),
        column(row, "channel"@) == Some(row[4].value@),
        column(row, "status"@) == Some(row[5].value@),
        column(row, "reporter_email"@) == Some(row[6].value@),
        column(row, "reporter_token"@) == Some(row[7].value@),
        column(row, "submitted_at"@) == Some(row[8].value@),
{
    reveal_strlit("id");
    reveal_strlit("summary");
    reveal_strlit("body");
    reveal_strlit("severity");
    reveal_strlit("channel");
    reveal_strlit("status");
    reveal_strlit("reporter_email");
    reveal_strlit("reporter_token");
    reveal_strlit("submitted_at");
    assert("summary"@[0] == 's' && "channel"@[0] == 'c');
    assert("reporter_email"@[9] == 'e' && "reporter_token"@[9] == 't');
    assert(row[0].name@ == "id"@);
    assert(row[1].name@ == "summary"@);
    assert(row[2].name@ == "body"@);
    assert(row[3].name@ == "severity"@);
    assert(row[4].name@ == "channel"@);
    assert(row[5].name@ == "status"@);
    assert(row[6].name@ == "reporter_email"@);
    assert(row[7].name@ == "reporter_token"@);
    assert(row[8].name@ == "submitted_at"@);
    lemma_column(row, 0);
    lemma_column(row, 1);
    lemma_column(row, 2);
    lemma_column(row, 3);
    lemma_column(row, 4);
    lemma_column(row, 5);
    lemma_column(row, 6);
    lemma_column(row, 7);
    lemma_column(row, 8);
}

/// What is written is read back: where the values of a model were written under
/// the columns for writing, and the columns for reading are read, the model comes
/// out again under the id that it was given.
pub proof fn law_row_reads_back(
    model: ReportView,
    stored: Map<Seq<char>, ValueView>,
    row: Seq<Cell>,
)
    requires
        stored["id"@] == ValueView::I64(model.id),
        is_written(stored, INSERT_COLUMNS@, model.inserted()),
        is_read(row, COLUMNS@, stored),
    ensures
        read_row(row) == Some(model),
{
    assert(INSERT_COLUMNS@[0]@ == "summary"@);
    assert(INSERT_COLUMNS@[1]@ == "body"@);
    assert(INSERT_COLUMNS@[2]@ == "severity"@);
    assert(INSERT_COLUMNS@[3]@ == "channel"@);
    assert(INSERT_COLUMNS@[4]@ == "status"@);
    assert(INSERT_COLUMNS@[5]@ == "reporter_email"@);
    assert(INSERT_COLUMNS@[6]@ == "reporter_token"@);
    assert(INSERT_COLUMNS@[7]@ == "submitted_at"@);
    lemma_columns(row);
}

/// A row with the columns for reading, each with a value of its kind, is read.
pub proof fn law_typed_row_is_read(row: Seq<Cell>)
    requires
        is_typed(row, COLUMNS@, KINDS@),
    ensures
        read_row(row) is Some,
{
    lemma_columns(row);
}

/// A model that is read holds in each field what stands in the column of its name;
/// a row is read if and only if each column is there with a value that fits.
pub proof fn law_fields_are_read_from_their_columns(row: Seq<Cell>, read: Option<Report>)
    requires
        is_read_as(row, read),
    ensures
        read matches Some(model) ==> column(row, "id"@) == Some(ValueView::I64(model.id)),
        read matches Some(model) ==> column(row, "summary"@) == Some(ValueView::Text(model.summary@)),
        read matches Some(model) ==> column(row, "body"@) == Some(ValueView::Text(model.body@)),
        read matches Some(model) ==> column(row, "severity"@) == Some(ValueView::Text(model.severity@)),
        read matches Some(model) ==> column(row, "channel"@) == Some(ValueView::Text(model.channel@)),
        read matches Some(model) ==> column(row, "status"@) == Some(ValueView::Text(model.status@)),
        read matches Some(model) ==> column(row, "reporter_email"@) == Some((match model.reporter_email {
            Some(text) => ValueView::Text(text@),
            None => ValueView::Null,
        })),
        read matches Some(model) ==> column(row, "reporter_token"@) == Some(ValueView::Text(model.reporter_token@)),
        read matches Some(model) ==> column(row, "submitted_at"@) == Some(ValueView::DateTime(model.submitted_at@)),
        read is Some <==> (column(row, "id"@) is Some && column(row, "id"@)->0 is I64)
            && (column(row, "summary"@) is Some && column(row, "summary"@)->0 is Text)
            && (column(row, "body"@) is Some && column(row, "body"@)->0 is Text)
            && (column(row, "severity"@) is Some && column(row, "severity"@)->0 is Text)
            && (column(row, "channel"@) is Some && column(row, "channel"@)->0 is Text)
            && (column(row, "status"@) is Some && column(row, "status"@)->0 is Text)
            && (column(row, "reporter_email"@) is Some && (column(row, "reporter_email"@)->0 is Text || column(row, "reporter_email"@)->0 is Null))
            && (column(row, "reporter_token"@) is Some && column(row, "reporter_token"@)->0 is Text)
            && (column(row, "submitted_at"@) is Some && column(row, "submitted_at"@)->0 is DateTime),
{
}

/// Each field of a model is written, in the order of the columns for writing.
pub proof fn law_fields_are_written_under_their_columns(
    model: Report,
    values: Seq<Value>,
)
    requires
        are_values_of(model, values),
    ensures
        values.len() == 8,
        INSERT_COLUMNS@.len() == 8,
        INSERT_COLUMNS@[0]@ == "summary"@ && values[0]@ == ValueView::Text(model.summary@),
        INSERT_COLUMNS@[1]@ == "body"@ && values[1]@ == ValueView::Text(model.body@),
        INSERT_COLUMNS@[2]@ == "severity"@ && values[2]@ == ValueView::Text(model.severity@),
        INSERT_COLUMNS@[3]@ == "channel"@ && values[3]@ == ValueView::Text(model.channel@),
        INSERT_COLUMNS@[4]@ == "status"@ && values[4]@ == ValueView::Text(model.status@),
        INSERT_COLUMNS@[5]@ == "reporter_email"@ && values[5]@ == (match model.reporter_email {
            Some(text) => ValueView::Text(text@),
            None => ValueView::Null,
        }),
        INSERT_COLUMNS@[6]@ == "reporter_token"@ && values[6]@ == ValueView::Text(model.reporter_token@),
        INSERT_COLUMNS@[7]@ == "submitted_at"@ && values[7]@ == ValueView::DateTime(model.submitted_at@),
{
    let views = values.map_values(|value: Value| value@);
    assert(views.len() == values.len());
    assert(views[0] == values[0]@);
    assert(views[1] == values[1]@);
    assert(views[2] == values[2]@);
    assert(views[3] == values[3]@);
    assert(views[4] == values[4]@);
    assert(views[5] == values[5]@);
    assert(views[6] == values[6]@);
    assert(views[7] == values[7]@);
}

}
