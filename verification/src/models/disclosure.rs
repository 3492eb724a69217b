//! `Disclosure`: every disclosure of a reporter's identity. A row is never
//! deleted.

use vstd::prelude::*;

use crate::models::{
    as_datetime, as_i64, as_text, column, is_read, is_typed, is_written, lemma_column, Cell,
    Kind, Row, Value, ValueView,
};
use crate::time::Timestamp;

verus! {

pub const TABLE: &'static str = "disclosures";

/// The columns that are read, and what each holds.
pub const COLUMNS: [&'static str; 5] = ["id", "case_id", "requested_by", "reason", "disclosed_at"];

pub const KINDS: [Kind; 5] = [Kind::I64, Kind::I64, Kind::I64, Kind::Text, Kind::DateTime];

/// The columns that are written. The database gives out the ids.
pub const INSERT_COLUMNS: [&'static str; 4] = ["case_id", "requested_by", "reason", "disclosed_at"];

/// The columns of the list page.
pub const LIST_DISPLAY: [&'static str; 3] = ["case_id", "requested_by", "disclosed_at"];

/// The columns that a search looks into.
pub const SEARCH_FIELDS: [&'static str; 1] = ["reason"];

/// The order of the list, a hyphen standing for descending.
pub const ORDERING: [&'static str; 1] = ["-disclosed_at"];

/// A disclosure of a reporter's identity.
pub struct Disclosure {
    pub id: i64,
    pub case_id: i64,
    pub requested_by: i64,
    pub reason: String,
    pub disclosed_at: Timestamp,
}

/// A `Disclosure` by the contents of its fields.
pub struct DisclosureView {
    pub id: i64,
    pub case_id: i64,
    pub requested_by: i64,
    pub reason: Seq<char>,
    pub disclosed_at: (int, int),
}

impl View for Disclosure {
    type V = DisclosureView;

    open spec fn view(&self) -> DisclosureView {
        DisclosureView {
            id: self.id,
            case_id: self.case_id,
            requested_by: self.requested_by,
            reason: self.reason@,
            disclosed_at: self.disclosed_at@,
        }
    }
}

impl DisclosureView {
    /// The values that are written, in the order of `INSERT_COLUMNS`.
    pub open spec fn inserted(self) -> Seq<ValueView> {
        seq![
            ValueView::I64(self.case_id),
            ValueView::I64(self.requested_by),
            ValueView::Text(self.reason),
            ValueView::DateTime(self.disclosed_at),
        ]
    }
}

/// What a row holds, if each column is there and holds what it should.
pub open spec fn read_row(row: Seq<Cell>) -> Option<DisclosureView> {
    match (
        as_i64(column(row, "id"@)),
        as_i64(column(row, "case_id"@)),
        as_i64(column(row, "requested_by"@)),
        as_text(column(row, "reason"@)),
        as_datetime(column(row, "disclosed_at"@)),
    ) {
        (
            Some(id),
            Some(case_id),
            Some(requested_by),
            Some(reason),
            Some(disclosed_at),
        ) => Some(
            DisclosureView { id, case_id, requested_by, reason, disclosed_at },
        ),
        _ => None,
    }
}

/// Whether a model is what a row is read as.
pub open spec fn is_read_as(row: Seq<Cell>, read: Option<Disclosure>) -> bool {
    match read {
        Some(model) => read_row(row) == Some(model@),
        None => read_row(row) is None,
    }
}

/// Whether some values are those that are written for a model.
pub open spec fn are_values_of(model: Disclosure, values: Seq<Value>) -> bool {
    values.map_values(|value: Value| value@) == model@.inserted()
}

impl Disclosure {
    pub fn id(&self) -> (r: i64)
        ensures
            r == self.id,
    {
        self.id
    }

    /// Reads a row.
    pub fn from_row(row: &Row) -> (r: Option<Disclosure>)
        ensures
            is_read_as(row.cells@, r),
    {
        match (
            row.get_i64("id"),
            row.get_i64("case_id"),
            row.get_i64("requested_by"),
            row.get_string("reason"),
            row.get_datetime("disclosed_at"),
        ) {
            (
                Some(id),
                Some(case_id),
                Some(requested_by),
                Some(reason),
                Some(disclosed_at),
            ) => Some(
                Disclosure { id, case_id, requested_by, reason, disclosed_at },
            ),
            _ => None,
        }
    }

    /// The values to write, in the order of `INSERT_COLUMNS`.
    pub fn insert_values(&self) -> (r: Vec<Value>)
        ensures
            are_values_of(*self, r@),
    {
        let values = vec![
            Value::I64(self.case_id),
            Value::I64(self.requested_by),
            Value::Text(self.reason.as_str().to_string()),
            Value::DateTime(self.disclosed_at.copy()),
        ];
        assert(values@.map_values(|value: Value| value@) =~= self@.inserted());
        values
    }
}

/// In a row with the columns for reading, each column is found by its name.
proof fn lemma_columns(row: Seq<Cell>)
    requires
        row.len() == COLUMNS@.len(),
        forall|i: int| 0 <= i < row.len() ==> (#[trigger] row[i]).name@ == COLUMNS@[i]@,
    ensures
        column(row, "id"@) == Some(row[0].value@),
        column(row, "case_id"@) == Some(row[1].value@),
        column(row, "requested_by"@) == Some(row[2].value@),
        column(row, "reason"@) == Some(row[3].value@),
        column(row, "disclosed_at"@) == Some(row[4].value@),
{
    reveal_strlit("id");
    reveal_strlit("case_id");
    reveal_strlit("requested_by");
    reveal_strlit("reason");
    reveal_strlit("disclosed_at");
    assert("requested_by"@[0] == 'r' && "disclosed_at"@[0] == 'd');
    assert(row[0].name@ == "id"@);
    assert(row[1].name@ == "case_id"@);
    assert(row[2].name@ == "requested_by"@);
    assert(row[3].name@ == "reason"@);
    assert(row[4].name@ == "disclosed_at"@);
    lemma_column(row, 0);
    lemma_column(row, 1);
    lemma_column(row, 2);
    lemma_column(row, 3);
    lemma_column(row, 4);
}

/// What is written is read back: where the values of a model were written under
/// the columns for writing, and the columns for reading are read, the model comes
/// out again under the id that it was given.
pub proof fn law_row_reads_back(
    model: DisclosureView,
    stored: Map<Seq<char>, ValueView>,
    row: Seq<Cell>,
)
    requires
        stored["id"@] == ValueView::I64(model.id),
        is_written(stored, INSERT_COLUMNS@, model.inserted()),
        is_read(row, COLUMNS@, stored),
    ensures
        read_row(row) == Some(model),
{
    assert(INSERT_COLUMNS@[0]@ == "case_id"@);
    assert(INSERT_COLUMNS@[1]@ == "requested_by"@);
    assert(INSERT_COLUMNS@[2]@ == "reason"@);
    assert(INSERT_COLUMNS@[3]@ == "disclosed_at"@);
    lemma_columns(row);
}

/// A row with the columns for reading, each with a value of its kind, is read.
pub proof fn law_typed_row_is_read(row: Seq<Cell>)
    requires
        is_typed(row, COLUMNS@, KINDS@),
    ensures
        read_row(row) is Some,
{
    lemma_columns(row);
}

/// A model that is read holds in each field what stands in the column of its name;
/// a row is read if and only if each column is there with a value that fits.
pub proof fn law_fields_are_read_from_their_columns(row: Seq<Cell>, read: Option<Disclosure>)
    requires
        is_read_as(row, read),
    ensures
        read matches Some(model) ==> column(row, "id"@) == Some(ValueView::I64(model.id)),
        read matches Some(model) ==> column(row, "case_id"@) == Some(ValueView::I64(model.case_id)),
        read matches Some(model) ==> column(row, "requested_by"@) == Some(ValueView::I64(model.requested_by)),
        read matches Some(model) ==> column(row, "reason"@) == Some(ValueView::Text(model.reason@)),
        read matches Some(model) ==> column(row, "disclosed_at"@) == Some(ValueView::DateTime(model.disclosed_at@)),
        read is Some <==> (column(row, "id"@) is Some && column(row, "id"@)->0 is I64)
            && (column(row, "case_id"@) is Some && column(row, "case_id"@)->0 is I64)
            && (column(row, "requested_by"@) is Some && column(row, "requested_by"@)->0 is I64)
            && (column(row, "reason"@) is Some && column(row, "reason"@)->0 is Text)
            && (column(row, "disclosed_at"@) is Some && column(row, "disclosed_at"@)->0 is DateTime),
{
}

/// Each field of a model is written, in the order of the columns for writing.
pub proof fn law_fields_are_written_under_their_columns(
    model: Disclosure,
    values: Seq<Value>,
)
    requires
        are_values_of(model, values),
    ensures
        values.len() == 4,
        INSERT_COLUMNS@.len() == 4,
        INSERT_COLUMNS@[0]@ == "case_id"@ && values[0]@ == ValueView::I64(model.case_id),
        INSERT_COLUMNS@[1]@ == "requested_by"@ && values[1]@ == ValueView::I64(model.requested_by),
        INSERT_COLUMNS@[2]@ == "reason"@ && values[2]@ == ValueView::Text(model.reason@),
        INSERT_COLUMNS@[3]@ == "disclosed_at"@ && values[3]@ == ValueView::DateTime(model.disclosed_at@),
{
    let views = values.map_values(|value: Value| value@);
    assert(views.len() == values.len());
    assert(views[0] == values[0]@);
    assert(views[1] == values[1]@);
    assert(views[2] == values[2]@);
    assert(views[3] == values[3]@);
}

}
