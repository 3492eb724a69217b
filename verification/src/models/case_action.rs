//! `CaseAction`: the history of a case, as an auditor reads it.
//!
//! The types of actions in use are `case_opened`, `status_changed`, `assigned`,
//! `reassigned`, `note_added`, `document_uploaded`, `document_downloaded`,
//! `disclosure_requested` and `disclosure_consumed`; the column takes any text.

use vstd::prelude::*;

use crate::models::{
    as_datetime, as_i64, as_text, column, is_read, is_typed, is_written, lemma_column, Cell,
    Kind, Row, Value, ValueView,
};
use crate::time::Timestamp;

verus! {

pub const TABLE: &'static str = "case_actions";

/// The columns that are read, and what each holds.
pub const COLUMNS: [&'static str; 6] = [
    "id",
    "case_id",
    "actor_id",
    "action_type",
    "note",
    "created_at",
];

pub const KINDS: [Kind; 6] = [
    Kind::I64,
    Kind::I64,
    Kind::I64,
    Kind::Text,
    Kind::Text,
    Kind::DateTime,
];

/// The columns that are written. The database gives out the ids.
pub const INSERT_COLUMNS: [&'static str; 5] = [
    "case_id",
    "actor_id",
    "action_type",
    "note",
    "created_at",
];

/// The columns of the list page.
pub const LIST_DISPLAY: [&'static str; 4] = ["case_id", "actor_id", "action_type", "created_at"];

/// The columns that the list can be filtered by.
pub const LIST_FILTER: [&'static str; 1] = ["action_type"];

/// The columns that a search looks into.
pub const SEARCH_FIELDS: [&'static str; 2] = ["note", "action_type"];

/// The order of the list, a hyphen standing for descending.
pub const ORDERING: [&'static str; 1] = ["-created_at"];

/// An entry in the history of a case.
pub struct CaseAction {
    pub id: i64,
    pub case_id: i64,
    pub actor_id: i64,
    pub action_type: String,
    pub note: String,
    pub created_at: Timestamp,
}

/// A `CaseAction` by the contents of its fields.
pub struct CaseActionView {
    pub id: i64,
    pub case_id: i64,
    pub actor_id: i64,
    pub action_type: Seq<char>,
    pub note: Seq<char>,
    pub created_at: (int, int),
}

impl View for CaseAction {
    type V = CaseActionView;

    open spec fn view(&self) -> CaseActionView {
        CaseActionView {
            id: self.id,
            case_id: self.case_id,
            actor_id: self.actor_id,
            action_type: self.action_type@,
            note: self.note@,
            created_at: self.created_at@,
        }
    }
}

impl CaseActionView {
    /// The values that are written, in the order of `INSERT_COLUMNS`.
    pub open spec fn inserted(self) -> Seq<ValueView> {
        seq![
            ValueView::I64(self.case_id),
            ValueView::I64(self.actor_id),
            ValueView::Text(self.action_type),
            ValueView::Text(self.note),
            ValueView::DateTime(self.created_at),
        ]
    }
}

/// What a row holds, if each column is there and holds what it should.
pub open spec fn read_row(row: Seq<Cell>) -> Option<CaseActionView> {
    match (
        as_i64(column(row, "id"@)),
        as_i64(column(row, "case_id"@)),
        as_i64(column(row, "actor_id"@)),
        as_text(column(row, "action_type"@)),
        as_text(column(row, "note"@)),
        as_datetime(column(row, "created_at"@)),
    ) {
        (
            Some(id),
            Some(case_id),
            Some(actor_id),
            Some(action_type),
            Some(note),
            Some(created_at),
        ) => Some(
            CaseActionView { id, case_id, actor_id, action_type, note, created_at },
        ),
        _ => None,
    }
}

/// Whether a model is what a row is read as.
pub open spec fn is_read_as(row: Seq<Cell>, read: Option<CaseAction>) -> bool {
    match read {
        Some(model) => read_row(row) == Some(model@),
        None => read_row(row) is None,
    }
}

/// Whether some values are those that are written for a model.
pub open spec fn are_values_of(model: CaseAction, values: Seq<Value>) -> bool {
    values.map_values(|value: Value| value@) == model@.inserted()
}

impl CaseAction {
    pub fn id(&self) -> (r: i64)
        ensures
            r == self.id,
    {
        self.id
    }

    /// Reads a row.
    pub fn from_row(row: &Row) -> (r: Option<CaseAction>)
        ensures
            is_read_as(row.cells@, r),
    {
        match (
            row.get_i64("id"),
            row.get_i64("case_id"),
            row.get_i64("actor_id"),
            row.get_string("action_type"),
            row.get_string("note"),
            row.get_datetime("created_at"),
        ) {
            (
                Some(id),
                Some(case_id),
                Some(actor_id),
                Some(action_type),
                Some(note),
                Some(created_at),
            ) => Some(
                CaseAction { id, case_id, actor_id, action_type, note, created_at },
            ),
            _ => None,
        }
    }

    /// The values to write, in the order of `INSERT_COLUMNS`.
    pub fn insert_values(&self) -> (r: Vec<Value>)
        ensures
            are_values_of(*self, r@),
    {
        let values = vec![
            Value::I64(self.case_id),
            Value::I64(self.actor_id),
            Value::Text(self.action_type.as_str().to_string()),
            Value::Text(self.note.as_str().to_string()),
            Value::DateTime(self.created_at.copy()),
        ];
        assert(values@.map_values(|value: Value| value@) =~= self@.inserted());
        values
    }
}

/// In a row with the columns for reading, each column is found by its name.
proof fn lemma_columns(row: Seq<Cell>)
    requires
        row.len() == COLUMNS@.len(),
        forall|i: int| 0 <= i < row.len() ==> (#[trigger] row[i]).name@ == COLUMNS@[i]@,
    ensures
        column(row, "id"@) == Some(row[0].value@),
        column(row, "case_id"@) == Some(row[1].value@),
        column(row, "actor_id"@) == Some(row[2].value@),
        column(row, "action_type"@) == Some(row[3].value@),
        column(row, "note"@) == Some(row[4].value@),
        column(row, "created_at"@) == Some(row[5].value@),
{
    reveal_strlit("id");
    reveal_strlit("case_id");
    reveal_strlit("actor_id");
    reveal_strlit("action_type");
    reveal_strlit("note");
    reveal_strlit("created_at");
    assert(row[0].name@ == "id"@);
    assert(row[1].name@ == "case_id"@);
    assert(row[2].name@ == "actor_id"@);
    assert(row[3].name@ == "action_type"@);
    assert(row[4].name@ == "note"@);
    assert(row[5].name@ == "created_at"@);
    lemma_column(row, 0);
    lemma_column(row, 1);
    lemma_column(row, 2);
    lemma_column(row, 3);
    lemma_column(row, 4);
    lemma_column(row, 5);
}

/// What is written is read back: where the values of a model were written under
/// the columns for writing, and the columns for reading are read, the model comes
/// out again under the id that it was given.
pub proof fn law_row_reads_back(
    model: CaseActionView,
    stored: Map<Seq<char>, ValueView>,
    row: Seq<Cell>,
)
    requires
        stored["id"@] == ValueView::I64(model.id),
        is_written(stored, INSERT_COLUMNS@, model.inserted()),
        is_read(row, COLUMNS@, stored),
    ensures
        read_row(row) == Some(model),
{
    assert(INSERT_COLUMNS@[0]@ == "case_id"@);
    assert(INSERT_COLUMNS@[1]@ == "actor_id"@);
    assert(INSERT_COLUMNS@[2]@ == "action_type"@);
    assert(INSERT_COLUMNS@[3]@ == "note"@);
    assert(INSERT_COLUMNS@[4]@ == "created_at"@);
    lemma_columns(row);
}

/// A row with the columns for reading, each with a value of its kind, is read.
pub proof fn law_typed_row_is_read(row: Seq<Cell>)
    requires
        is_typed(row, COLUMNS@, KINDS@),
    ensures
        read_row(row) is Some,
{
    lemma_columns(row);
}

/// A model that is read holds in each field what stands in the column of its name;
/// a row is read if and only if each column is there with a value that fits.
pub proof fn law_fields_are_read_from_their_columns(row: Seq<Cell>, read: Option<CaseAction>)
    requires
        is_read_as(row, read),
    ensures
        read matches Some(model) ==> column(row, "id"@) == Some(ValueView::I64(model.id)),
        read matches Some(model) ==> column(row, "case_id"@) == Some(ValueView::I64(model.case_id)),
        read matches Some(model) ==> column(row, "actor_id"@) == Some(ValueView::I64(model.actor_id)),
        read matches Some(model) ==> column(row, "action_type"@) == Some(ValueView::Text(model.action_type@)),
        read matches Some(model) ==> column(row, "note"@) == Some(ValueView::Text(model.note@)),
        read matches Some(model) ==> column(row, "created_at"@) == Some(ValueView::DateTime(model.created_at@)),
        read is Some <==> (column(row, "id"@) is Some && column(row, "id"@)->0 is I64)
            && (column(row, "case_id"@) is Some && column(row, "case_id"@)->0 is I64)
            && (column(row, "actor_id"@) is Some && column(row, "actor_id"@)->0 is I64)
            && (column(row, "action_type"@) is Some && column(row, "action_type"@)->0 is Text)
            && (column(row, "note"@) is Some && column(row, "note"@)->0 is Text)
            && (column(row, "created_at"@) is Some && column(row, "created_at"@)->0 is DateTime),
{
}

/// Each field of a model is written, in the order of the columns for writing.
pub proof fn law_fields_are_written_under_their_columns(
    model: CaseAction,
    values: Seq<Value>,
)
    requires
        are_values_of(model, values),
    ensures
        values.len() == 5,
        INSERT_COLUMNS@.len() == 5,
        INSERT_COLUMNS@[0]@ == "case_id"@ && values[0]@ == ValueView::I64(model.case_id),
        INSERT_COLUMNS@[1]@ == "actor_id"@ && values[1]@ == ValueView::I64(model.actor_id),
        INSERT_COLUMNS@[2]@ == "action_type"@ && values[2]@ == ValueView::Text(model.action_type@),
        INSERT_COLUMNS@[3]@ == "note"@ && values[3]@ == ValueView::Text(model.note@),
        INSERT_COLUMNS@[4]@ == "created_at"@ && values[4]@ == ValueView::DateTime(model.created_at@),
{
    let views = values.map_values(|value: Value| value@);
    assert(views.len() == values.len());
    assert(views[0] == values[0]@);
    assert(views[1] == values[1]@);
    assert(views[2] == values[2]@);
    assert(views[3] == values[3]@);
    assert(views[4] == values[4]@);
}

}
