//! `Case`: the work on a report, from triage to its end.
//!
//! A case in triage may have nobody assigned. The column `closed_at` of the
//! table is not part of the model.

use vstd::prelude::*;

use crate::models::{
    as_datetime, as_i64, as_optional_i64, as_text, column, is_read, is_typed, is_written,
    lemma_column, Cell, Kind, Row, Value, ValueView,
};
use crate::time::Timestamp;

verus! {

pub const TABLE: &'static str = "cases";

/// The columns that are read, and what each holds.
pub const COLUMNS: [&'static str; 5] = ["id", "report_id", "assignee_id", "status", "opened_at"];

pub const KINDS: [Kind; 5] = [Kind::I64, Kind::I64, Kind::OptionalI64, Kind::Text, Kind::DateTime];

/// The columns that are written. The database gives out the ids.
pub const INSERT_COLUMNS: [&'static str; 4] = ["report_id", "assignee_id", "status", "opened_at"];

/// The columns of the list page.
pub const LIST_DISPLAY: [&'static str; 5] = [
    "id",
    "report_id",
    "assignee_id",
    "status",
    "opened_at",
];

/// The columns that the list can be filtered by.
pub const LIST_FILTER: [&'static str; 1] = ["status"];

/// The order of the list, a hyphen standing for descending.
pub const ORDERING: [&'static str; 1] = ["-opened_at"];

/// A case: the work on a report.
pub struct Case {
    pub id: i64,
    pub report_id: i64,
    pub assignee_id: Option<i64>,
    pub status: String,
    pub opened_at: Timestamp,
}

/// A `Case` by the contents of its fields.
pub struct CaseView {
    pub id: i64,
    pub report_id: i64,
    pub assignee_id: Option<i64>,
    pub status: Seq<char>,
    pub opened_at: (int, int),
}

impl View for Case {
    type V = CaseView;

    open spec fn view(&self) -> CaseView {
        CaseView {
            id: self.id,
            report_id: self.report_id,
            assignee_id: self.assignee_id,
            status: self.status@,
            opened_at: self.opened_at@,
        }
    }
}

impl CaseView {
    /// The values that are written, in the order of `INSERT_COLUMNS`.
    pub open spec fn inserted(self) -> Seq<ValueView> {
        seq![
            ValueView::I64(self.report_id),
            match self.assignee_id {
                Some(id) => ValueView::I64(id),
                None => ValueView::Null,
            },
            ValueView::Text(self.status),
            ValueView::DateTime(self.opened_at),
        ]
    }
}

/// What a row holds, if each column is there and holds what it should.
pub open spec fn read_row(row: Seq<Cell>) -> Option<CaseView> {
    match (
        as_i64(column(row, "id"@)),
        as_i64(column(row, "report_id"@)),
        as_optional_i64(column(row, "assignee_id"@)),
        as_text(column(row, "status"@)),
        as_datetime(column(row, "opened_at"@)),
    ) {
        (
            Some(id),
            Some(report_id),
            Some(assignee_id),
            Some(status),
            Some(opened_at),
        ) => Some(
            CaseView { id, report_id, assignee_id, status, opened_at },
        ),
        _ => None,
    }
}

/// Whether a model is what a row is read as.
pub open spec fn is_read_as(row: Seq<Cell>, read: Option<Case>) -> bool {
    match read {
        Some(model) => read_row(row) == Some(model@),
        None => read_row(row) is None,
    }
}

/// Whether some values are those that are written for a model.
pub open spec fn are_values_of(model: Case, values: Seq<Value>) -> bool {
    values.map_values(|value: Value| value@) == model@.inserted()
}

impl Case {
    pub fn id(&self) -> (r: i64)
        ensures
            r == self.id,
    {
        self.id
    }

    /// Reads a row.
    pub fn from_row(row: &Row) -> (r: Option<Case>)
        ensures
            is_read_as(row.cells@, r),
    {
        match (
            row.get_i64("id"),
            row.get_i64("report_id"),
            row.get_optional_i64("assignee_id"),
            row.get_string("status"),
            row.get_datetime("opened_at"),
        ) {
            (
                Some(id),
                Some(report_id),
                Some(assignee_id),
                Some(status),
                Some(opened_at),
            ) => Some(
                Case { id, report_id, assignee_id, status, opened_at },
            ),
            _ => None,
        }
    }

    /// The values to write, in the order of `INSERT_COLUMNS`.
    pub fn insert_values(&self) -> (r: Vec<Value>)
        ensures
            are_values_of(*self, r@),
    {
        let values = vec![
            Value::I64(self.report_id),
            match self.assignee_id {
                Some(id) => Value::I64(id),
                None => Value::Null,
            },
            Value::Text(self.status.as_str().to_string()),
            Value::DateTime(self.opened_at.copy()),
        ];
        assert(values@.map_values(|value: Value| value@) =~= self@.inserted());
        values
    }
}

/// In a row with the columns for reading, each column is found by its name.
proof fn lemma_columns(row: Seq<Cell>)
    requires
        row.len() == COLUMNS@.len(),
        forall|i: int| 0 <= i < row.len() ==> (#[trigger] row[i]).name@ == COLUMNS@[i]@,
    ensures
        column(row, "id"@) == Some(row[0].value@),
        column(row, "report_id"@) == Some(row[1].value@),
        column(row, "assignee_id"@) == Some(row[2].value@),
        column(row, "status"@) == Some(row[3].value@),
        column(row, "opened_at"@) == Some(row[4].value@),
{
    reveal_strlit("id");
    reveal_strlit("report_id");
    reveal_strlit("assignee_id");
    reveal_strlit("status");
    reveal_strlit("opened_at");
    assert("report_id"@[0] == 'r' && "opened_at"@[0] == 'o');
    assert(row[0].name@ == "id"@);
    assert(row[1].name@ == "report_id"@);
    assert(row[2].name@ == "assignee_id"@);
    assert(row[3].name@ == "status"@);
    assert(row[4].name@ == "opened_at"@);
    lemma_column(row, 0);
    lemma_column(row, 1);
    lemma_column(row, 2);
    lemma_column(row, 3);
    lemma_column(row, 4);
}

/// What is written is read back: where the values of a model were written under
/// the columns for writing, and the columns for reading are read, the model comes
/// out again under the id that it was given.
pub proof fn law_row_reads_back(
    model: CaseView,
    stored: Map<Seq<char>, ValueView>,
    row: Seq<Cell>,
)
    requires
        stored["id"@] == ValueView::I64(model.id),
        is_written(stored, INSERT_COLUMNS@, model.inserted()),
        is_read(row, COLUMNS@, stored),
    ensures
        read_row(row) == Some(model),
{
    assert(INSERT_COLUMNS@[0]@ == "report_id"@);
    assert(INSERT_COLUMNS@[1]@ == "assignee_id"@);
    assert(INSERT_COLUMNS@[2]@ == "status"@);
    assert(INSERT_COLUMNS@[3]@ == "opened_at"@);
    lemma_columns(row);
}

/// A row with the columns for reading, each with a value of its kind, is read.
pub proof fn law_typed_row_is_read(row: Seq<Cell>)
    requires
        is_typed(row, COLUMNS@, KINDS@),
    ensures
        read_row(row) is Some,
{
    lemma_columns(row);
}

/// A model that is read holds in each field what stands in the column of its name;
/// a row is read if and only if each column is there with a value that fits.
pub proof fn law_fields_are_read_from_their_columns(row: Seq<Cell>, read: Option<Case>)
    requires
        is_read_as(row, read),
    ensures
        read matches Some(model) ==> column(row, "id"@) == Some(ValueView::I64(model.id)),
        read matches Some(model) ==> column(row, "report_id"@) == Some(ValueView::I64(model.report_id)),
        read matches Some(model) ==> column(row, "assignee_id"@) == Some((match model.assignee_id {
            Some(id) => ValueView::I64(id),
            None => ValueView::Null,
        })),
        read matches Some(model) ==> column(row, "status"@) == Some(ValueView::Text(model.status@)),
        read matches Some(model) ==> column(row, "opened_at"@) == Some(ValueView::DateTime(model.opened_at@)),
        read is Some <==> (column(row, "id"@) is Some && column(row, "id"@)->0 is I64)
            && (column(row, "report_id"@) is Some && column(row, "report_id"@)->0 is I64)
            && (column(row, "assignee_id"@) is Some && (column(row, "assignee_id"@)->0 is I64 || column(row, "assignee_id"@)->0 is Null))
            && (column(row, "status"@) is Some && column(row, "status"@)->0 is Text)
            && (column(row, "opened_at"@) is Some && column(row, "opened_at"@)->0 is DateTime),
{
}

/// Each field of a model is written, in the order of the columns for writing.
pub proof fn law_fields_are_written_under_their_columns(
    model: Case,
    values: Seq<Value>,
)
    requires
        are_values_of(model, values),
    ensures
        values.len() == 4,
        INSERT_COLUMNS@.len() == 4,
        INSERT_COLUMNS@[0]@ == "report_id"@ && values[0]@ == ValueView::I64(model.report_id),
        INSERT_COLUMNS@[1]@ == "assignee_id"@ && values[1]@ == (match model.assignee_id {
            Some(id) => ValueView::I64(id),
            None => ValueView::Null,
        }),
        INSERT_COLUMNS@[2]@ == "status"@ && values[2]@ == ValueView::Text(model.status@),
        INSERT_COLUMNS@[3]@ == "opened_at"@ && values[3]@ == ValueView::DateTime(model.opened_at@),
{
    let views = values.map_values(|value: Value| value@);
    assert(views.len() == values.len());
    assert(views[0] == values[0]@);
    assert(views[1] == values[1]@);
    assert(views[2] == values[2]@);
    assert(views[3] == values[3]@);
}

}
