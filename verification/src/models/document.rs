//! `Document`: what is known of an attachment of a report. The bytes lie on disk,
//! under `storage_path`.

use vstd::prelude::*;

use crate::models::{
    as_datetime, as_i64, as_text, column, is_read, is_typed, is_written, lemma_column, Cell,
    Kind, Row, Value, ValueView,
};
use crate::time::Timestamp;

verus! {

pub const TABLE: &'static str = "documents";

/// The columns that are read, and what each holds.
pub const COLUMNS: [&'static str; 7] = [
    "id",
    "report_id",
    "filename",
    "content_type",
    "size_bytes",
    "storage_path",
    "uploaded_at",
];

pub const KINDS: [Kind; 7] = [
    Kind::I64,
    Kind::I64,
    Kind::Text,
    Kind::Text,
    Kind::I64,
    Kind::Text,
    Kind::DateTime,
];

/// The columns that are written. The database gives out the ids.
pub const INSERT_COLUMNS: [&'static str; 6] = [
    "report_id",
    "filename",
    "content_type",
    "size_bytes",
    "storage_path",
    "uploaded_at",
];

/// The columns of the list page.
pub const LIST_DISPLAY: [&'static str; 5] = [
    "filename",
    "report_id",
    "content_type",
    "size_bytes",
    "uploaded_at",
];

/// The columns that a search looks into.
pub const SEARCH_FIELDS: [&'static str; 1] = ["filename"];

/// The order of the list, a hyphen standing for descending.
pub const ORDERING: [&'static str; 1] = ["-uploaded_at"];

/// What is known of an attachment.
pub struct Document {
    pub id: i64,
    pub report_id: i64,
    pub filename: String,
    pub content_type: String,
    pub size_bytes: i64,
    pub storage_path: String,
    pub uploaded_at: Timestamp,
}

/// A `Document` by the contents of its fields.
pub struct DocumentView {
    pub id: i64,
    pub report_id: i64,
    pub filename: Seq<char>,
    pub content_type: Seq<char>,
    pub size_bytes: i64,
    pub storage_path: Seq<char>,
    pub uploaded_at: (int, int),
}

impl View for Document {
    type V = DocumentView;

    open spec fn view(&self) -> DocumentView {
        DocumentView {
            id: self.id,
            report_id: self.report_id,
            filename: self.filename@,
            content_type: self.content_type@,
            size_bytes: self.size_bytes,
            storage_path: self.storage_path@,
            uploaded_at: self.uploaded_at@,
        }
    }
}

impl DocumentView {
    /// The values that are written, in the order of `INSERT_COLUMNS`.
    pub open spec fn inserted(self) -> Seq<ValueView> {
        seq![
            ValueView::I64(self.report_id),
            ValueView::Text(self.filename),
            ValueView::Text(self.content_type),
            ValueView::I64(self.size_bytes),
            ValueView::Text(self.storage_path),
            ValueView::DateTime(self.uploaded_at),
        ]
    }
}

/// What a row holds, if each column is there and holds what it should.
pub open spec fn read_row(row: Seq<Cell>) -> Option<DocumentView> {
    match (
        as_i64(column(row, "id"@)),
        as_i64(column(row, "report_id"@)),
        as_text(column(row, "filename"@)),
        as_text(column(row, "content_type"@)),
        as_i64(column(row, "size_bytes"@)),
        as_text(column(row, "storage_path"@)),
        as_datetime(column(row, "uploaded_at"@)),
    ) {
        (
            Some(id),
            Some(report_id),
            Some(filename),
            Some(content_type),
            Some(size_bytes),
            Some(storage_path),
            Some(uploaded_at),
        ) => Some(
            DocumentView { id, report_id, filename, content_type, size_bytes, storage_path, uploaded_at },
        ),
        _ => None,
    }
}

/// Whether a model is what a row is read as.
pub open spec fn is_read_as(row: Seq<Cell>, read: Option<Document>) -> bool {
    match read {
        Some(model) => read_row(row) == Some(model@),
        None => read_row(row) is None,
    }
}

/// Whether some values are those that are written for a model.
pub open spec fn are_values_of(model: Document, values: Seq<Value>) -> bool {
    values.map_values(|value: Value| value@) == model@.inserted()
}

impl Document {
    pub fn id(&self) -> (r: i64)
        ensures
            r == self.id,
    {
        self.id
    }

    /// Reads a row.
    pub fn from_row(row: &Row) -> (r: Option<Document>)
        ensures
            is_read_as(row.cells@, r),
    {
        match (
            row.get_i64("id"),
            row.get_i64("report_id"),
            row.get_string("filename"),
            row.get_string("content_type"),
            row.get_i64("size_bytes"),
            row.get_string("storage_path"),
            row.get_datetime("uploaded_at"),
        ) {
            (
                Some(id),
                Some(report_id),
                Some(filename),
                Some(content_type),
                Some(size_bytes),
                Some(storage_path),
                Some(uploaded_at),
            ) => Some(
                Document { id, report_id, filename, content_type, size_bytes, storage_path, uploaded_at },
            ),
            _ => None,
        }
    }

    /// The values to write, in the order of `INSERT_COLUMNS`.
    pub fn insert_values(&self) -> (r: Vec<Value>)
        ensures
            are_values_of(*self, r@),
    {
        let values = vec![
            Value::I64(self.report_id),
            Value::Text(self.filename.as_str().to_string()),
            Value::Text(self.content_type.as_str().to_string()),
            Value::I64(self.size_bytes),
            Value::Text(self.storage_path.as_str().to_string()),
            Value::DateTime(self.uploaded_at.copy()),
        ];
        assert(values@.map_values(|value: Value| value@) =~= self@.inserted());
        values
    }
}

/// In a row with the columns for reading, each column is found by its name.
proof fn lemma_columns(row: Seq<Cell>)
    requires
        row.len() == COLUMNS@.len(),
        forall|i: int| 0 <= i < row.len() ==> (#[trigger] row[i]).name@ == COLUMNS@[i]@,
    ensures
        column(row, "id"@) == Some(row[0].value@),
        column(row, "report_id"@) == Some(row[1].value@),
        column(row, "filename"@) == Some(row[2].value@),
        column(row, "content_type"@) == Some(row[3].value@),
        column(row, "size_bytes"@) == Some(row[4].value@),
        column(row, "storage_path"@) == Some(row[5].value@),
        column(row, "uploaded_at"@) == Some(row[6].value@),
{
    reveal_strlit("id");
    reveal_strlit("report_id");
    reveal_strlit("filename");
    reveal_strlit("content_type");
    reveal_strlit("size_bytes");
    reveal_strlit("storage_path");
    reveal_strlit("uploaded_at");
    assert("content_type"@[0] == 'c' && "storage_path"@[0] == 's');
    assert(row[0].name@ == "id"@);
    assert(row[1].name@ == "report_id"@);
    assert(row[2].name@ == "filename"@);
    assert(row[3].name@ == "content_type"@);
    assert(row[4].name@ == "size_bytes"@);
    assert(row[5].name@ == "storage_path"@);
    assert(row[6].name@ == "uploaded_at"@);
    lemma_column(row, 0);
    lemma_column(row, 1);
    lemma_column(row, 2);
    lemma_column(row, 3);
    lemma_column(row, 4);
    lemma_column(row, 5);
    lemma_column(row, 6);
}

/// What is written is read back: where the values of a model were written under
/// the columns for writing, and the columns for reading are read, the model comes
/// out again under the id that it was given.
pub proof fn law_row_reads_back(
    model: DocumentView,
    stored: Map<Seq<char>, ValueView>,
    row: Seq<Cell>,
)
    requires
        stored["id"@] == ValueView::I64(model.id),
        is_written(stored, INSERT_COLUMNS@, model.inserted()),
        is_read(row, COLUMNS@, stored),
    ensures
        read_row(row) == Some(model),
{
    assert(INSERT_COLUMNS@[0]@ == "report_id"@);
    assert(INSERT_COLUMNS@[1]@ == "filename"@);
    assert(INSERT_COLUMNS@[2]@ == "content_type"@);
    assert(INSERT_COLUMNS@[3]@ == "size_bytes"@);
    assert(INSERT_COLUMNS@[4]@ == "storage_path"@);
    assert(INSERT_COLUMNS@[5]@ == "uploaded_at"@);
    lemma_columns(row);
}

/// A row with the columns for reading, each with a value of its kind, is read.
pub proof fn law_typed_row_is_read(row: Seq<Cell>)
    requires
        is_typed(row, COLUMNS@, KINDS@),
    ensures
        read_row(row) is Some,
{
    lemma_columns(row);
}

/// A model that is read holds in each field what stands in the column of its name;
/// a row is read if and only if each column is there with a value that fits.
pub proof fn law_fields_are_read_from_their_columns(row: Seq<Cell>, read: Option<Document>)
    requires
        is_read_as(row, read),
    ensures
        read matches Some(model) ==> column(row, "id"@) == Some(ValueView::I64(model.id)),
        read matches Some(model) ==> column(row, "report_id"@) == Some(ValueView::I64(model.report_id)),
        read matches Some(model) ==> column(row, "filename"@) == Some(ValueView::Text(model.filename@)),
        read matches Some(model) ==> column(row, "content_type"@) == Some(ValueView::Text(model.content_type@)),
        read matches Some(model) ==> column(row, "size_bytes"@) == Some(ValueView::I64(model.size_bytes)),
        read matches Some(model) ==> column(row, "storage_path"@) == Some(ValueView::Text(model.storage_path@)),
        read matches Some(model) ==> column(row, "uploaded_at"@) == Some(ValueView::DateTime(model.uploaded_at@)),
        read is Some <==> (column(row, "id"@) is Some && column(row, "id"@)->0 is I64)
            && (column(row, "report_id"@) is Some && column(row, "report_id"@)->0 is I64)
            && (column(row, "filename"@) is Some && column(row, "filename"@)->0 is Text)
            && (column(row, "content_type"@) is Some && column(row, "content_type"@)->0 is Text)
            && (column(row, "size_bytes"@) is Some && column(row, "size_bytes"@)->0 is I64)
            && (column(row, "storage_path"@) is Some && column(row, "storage_path"@)->0 is Text)
            && (column(row, "uploaded_at"@) is Some && column(row, "uploaded_at"@)->0 is DateTime),
{
}

/// Each field of a model is written, in the order of the columns for writing.
pub proof fn law_fields_are_written_under_their_columns(
    model: Document,
    values: Seq<Value>,
)
    requires
        are_values_of(model, values),
    ensures
        values.len() == 6,
        INSERT_COLUMNS@.len() == 6,
        INSERT_COLUMNS@[0]@ == "report_id"@ && values[0]@ == ValueView::I64(model.report_id),
        INSERT_COLUMNS@[1]@ == "filename"@ && values[1]@ == ValueView::Text(model.filename@),
        INSERT_COLUMNS@[2]@ == "content_type"@ && values[2]@ == ValueView::Text(model.content_type@),
        INSERT_COLUMNS@[3]@ == "size_bytes"@ && values[3]@ == ValueView::I64(model.size_bytes),
        INSERT_COLUMNS@[4]@ == "storage_path"@ && values[4]@ == ValueView::Text(model.storage_path@),
        INSERT_COLUMNS@[5]@ == "uploaded_at"@ && values[5]@ == ValueView::DateTime(model.uploaded_at@),
{
    let views = values.map_values(|value: Value| value@);
    assert(views.len() == values.len());
    assert(views[0] == values[0]@);
    assert(views[1] == values[1]@);
    assert(views[2] == values[2]@);
    assert(views[3] == values[3]@);
    assert(views[4] == values[4]@);
    assert(views[5] == values[5]@);
}

}
