//! The tables of the system: what a row holds, how it is read, and how it is
//! written.

use vstd::prelude::*;

use crate::text::same_text;
use crate::time::Timestamp;

pub mod case;
pub mod case_action;
pub mod disclosure;
pub mod document;
pub mod report;

pub use case::Case;
pub use case_action::CaseAction;
pub use disclosure::Disclosure;
pub use document::Document;
pub use report::Report;

verus! {

/// A value in a column.
pub enum Value {
    Null,
    I64(i64),
    Text(String),
    DateTime(Timestamp),
}

/// A `Value` by its contents.
pub enum ValueView {
    Null,
    I64(i64),
    Text(Seq<char>),
    DateTime((int, int)),
}

impl View for Value {
    type V = ValueView;

    open spec fn view(&self) -> ValueView {
        match *self {
            Value::Null => ValueView::Null,
            Value::I64(n) => ValueView::I64(n),
            Value::Text(text) => ValueView::Text(text@),
            Value::DateTime(instant) => ValueView::DateTime(instant@),
        }
    }
}

impl Value {
    /// The same value once more.
    pub fn copy(&self) -> (r: Value)
        ensures
            r@ == self@,
    {
        match self {
            Value::Null => Value::Null,
            Value::I64(n) => Value::I64(*n),
            Value::Text(text) => Value::Text(text.as_str().to_string()),
            Value::DateTime(instant) => Value::DateTime(instant.copy()),
        }
    }
}

/// What a column holds.
#[derive(Clone, Copy, Debug, PartialEq, Eq, Structural)]
pub enum Kind {
    I64,
    OptionalI64,
    Text,
    OptionalText,
    DateTime,
}

/// One column of a row that was read.
pub struct Cell {
    pub name: String,
    pub value: Value,
}

/// A row that was read.
pub struct Row {
    pub cells: Vec<Cell>,
}

/// The rows of the tables, each row a map from its columns to their values.
pub struct Tables {
    pub reports: Seq<Map<Seq<char>, ValueView>>,
    pub cases: Seq<Map<Seq<char>, ValueView>>,
    pub case_actions: Seq<Map<Seq<char>, ValueView>>,
    pub disclosures: Seq<Map<Seq<char>, ValueView>>,
    pub users: Seq<Map<Seq<char>, ValueView>>,
}

/// The first row of a table with a given value in a column, if there is one.
pub open spec fn row_with(
    table: Seq<Map<Seq<char>, ValueView>>,
    column: Seq<char>,
    value: ValueView,
) -> Option<Map<Seq<char>, ValueView>>
    decreases table.len(),
{
    if table.len() == 0 {
        None
    } else if table.first()[column] == value {
        Some(table.first())
    } else {
        row_with(table.drop_first(), column, value)
    }
}

/// The value of the first column of a given name, if there is one.
pub open spec fn column(cells: Seq<Cell>, name: Seq<char>) -> Option<ValueView>
    decreases cells.len(),
{
    if cells.len() == 0 {
        None
    } else if cells.first().name@ == name {
        Some(cells.first().value@)
    } else {
        column(cells.drop_first(), name)
    }
}

/// The number in a column.
pub open spec fn as_i64(value: Option<ValueView>) -> Option<i64> {
    match value {
        Some(ValueView::I64(n)) => Some(n),
        _ => None,
    }
}

/// The number in a column that may be null.
pub open spec fn as_optional_i64(value: Option<ValueView>) -> Option<Option<i64>> {
    match value {
        Some(ValueView::I64(n)) => Some(Some(n)),
        Some(ValueView::Null) => Some(None),
        _ => None,
    }
}

/// The text in a column.
pub open spec fn as_text(value: Option<ValueView>) -> Option<Seq<char>> {
    match value {
        Some(ValueView::Text(text)) => Some(text),
        _ => None,
    }
}

/// The text in a column that may be null.
pub open spec fn as_optional_text(value: Option<ValueView>) -> Option<Option<Seq<char>>> {
    match value {
        Some(ValueView::Text(text)) => Some(Some(text)),
        Some(ValueView::Null) => Some(None),
        _ => None,
    }
}

/// The instant in a column.
pub open spec fn as_datetime(value: Option<ValueView>) -> Option<(int, int)> {
    match value {
        Some(ValueView::DateTime(instant)) => Some(instant),
        _ => None,
    }
}

impl Row {
    fn find(&self, name: &str) -> (r: Option<&Value>)
        ensures
            match r {
                Some(value) => column(self.cells@, name@) == Some(value@),
                None => column(self.cells@, name@) is None,
            },
    {
        let mut i: usize = 0;
        assert(self.cells@.skip(0) == self.cells@);
        while i < self.cells.len()
            invariant
                i <= self.cells@.len(),
                column(self.cells@, name@) == column(self.cells@.skip(i as int), name@),
            decreases self.cells@.len() - i,
        {
            if same_text(self.cells[i].name.as_str(), name) {
                return Some(&self.cells[i].value);
            }
            assert(self.cells@.skip(i as int).drop_first() == self.cells@.skip(i + 1));
            i += 1;
        }
        None
    }

    /// Reads a number.
    pub fn get_i64(&self, name: &str) -> (r: Option<i64>)
        ensures
            r == as_i64(column(self.cells@, name@)),
    {
        match self.find(name) {
            Some(Value::I64(n)) => Some(*n),
            _ => None,
        }
    }

    /// Reads a number that may be null.
    pub fn get_optional_i64(&self, name: &str) -> (r: Option<Option<i64>>)
        ensures
            r == as_optional_i64(column(self.cells@, name@)),
    {
        match self.find(name) {
            Some(Value::I64(n)) => Some(Some(*n)),
            Some(Value::Null) => Some(None),
            _ => None,
        }
    }

    /// Reads a text.
    pub fn get_string(&self, name: &str) -> (r: Option<String>)
        ensures
            match r {
                Some(text) => as_text(column(self.cells@, name@)) == Some(text@),
                None => as_text(column(self.cells@, name@)) is None,
            },
    {
        match self.find(name) {
            Some(Value::Text(text)) => Some(text.as_str().to_string()),
            _ => None,
        }
    }

    /// Reads a text that may be null.
    pub fn get_optional_string(&self, name: &str) -> (r: Option<Option<String>>)
        ensures
            match r {
                Some(Some(text)) => as_optional_text(column(self.cells@, name@)) == Some(
                    Some(text@),
                ),
                Some(None) => as_optional_text(column(self.cells@, name@)) == Some(
                    None::<Seq<char>>,
                ),
                None => as_optional_text(column(self.cells@, name@)) is None,
            },
    {
        match self.find(name) {
            Some(Value::Text(text)) => Some(Some(text.as_str().to_string())),
            Some(Value::Null) => Some(None),
            _ => None,
        }
    }

    /// Reads an instant.
    pub fn get_datetime(&self, name: &str) -> (r: Option<Timestamp>)
        ensures
            match r {
                Some(instant) => as_datetime(column(self.cells@, name@)) == Some(instant@),
                None => as_datetime(column(self.cells@, name@)) is None,
            },
    {
        match self.find(name) {
            Some(Value::DateTime(instant)) => Some(instant.copy()),
            _ => None,
        }
    }
}

/// Whether some values were written under some columns of a stored row.
pub open spec fn is_written(
    stored: Map<Seq<char>, ValueView>,
    columns: Seq<&'static str>,
    values: Seq<ValueView>,
) -> bool {
    &&& columns.len() == values.len()
    &&& forall|i: int| 0 <= i < columns.len() ==> stored[(#[trigger] columns[i])@] == values[i]
}

/// Whether some columns of a stored row were read.
pub open spec fn is_read(
    row: Seq<Cell>,
    columns: Seq<&'static str>,
    stored: Map<Seq<char>, ValueView>,
) -> bool {
    &&& row.len() == columns.len()
    &&& forall|i: int|
        0 <= i < row.len() ==> (#[trigger] row[i]).name@ == columns[i]@ && row[i].value@
            == stored[columns[i]@]
}

/// Whether a value is what a column of some kind holds.
pub open spec fn has_kind(value: ValueView, kind: Kind) -> bool {
    match kind {
        Kind::I64 => value is I64,
        Kind::OptionalI64 => value is I64 || value is Null,
        Kind::Text => value is Text,
        Kind::OptionalText => value is Text || value is Null,
        Kind::DateTime => value is DateTime,
    }
}

/// Whether a row has these columns, in this order, and each holds a value of
/// its kind.
pub open spec fn is_typed(row: Seq<Cell>, columns: Seq<&'static str>, kinds: Seq<Kind>) -> bool {
    &&& row.len() == columns.len() == kinds.len()
    &&& forall|i: int|
        0 <= i < row.len() ==> (#[trigger] row[i]).name@ == columns[i]@ && has_kind(
            row[i].value@,
            kinds[i],
        )
}

/// A column is the first of its name, and there is none where no cell has the name.
pub proof fn law_column_is_the_first_of_its_name(cells: Seq<Cell>, name: Seq<char>, i: int)
    ensures
        0 <= i < cells.len() && cells[i].name@ == name && (forall|j: int|
            0 <= j < i ==> (#[trigger] cells[j]).name@ != name) ==> column(cells, name) == Some(
            cells[i].value@,
        ),
        (forall|j: int| 0 <= j < cells.len() ==> (#[trigger] cells[j]).name@ != name) ==> column(
            cells,
            name,
        ) is None,
    decreases cells.len(),
{
    if 0 <= i < cells.len() && cells[i].name@ == name && (forall|j: int|
        0 <= j < i ==> (#[trigger] cells[j]).name@ != name) {
        lemma_column(cells, i);
    }
    if cells.len() > 0 && (forall|j: int|
        0 <= j < cells.len() ==> (#[trigger] cells[j]).name@ != name) {
        let rest = cells.drop_first();
        assert forall|j: int| 0 <= j < rest.len() implies (#[trigger] rest[j]).name@ != name by {
            assert(rest[j] == cells[j + 1]);
        }
        assert(cells[0].name@ != name);
        law_column_is_the_first_of_its_name(rest, name, 0);
    }
}

/// A column is found by its name where no column before it has the same name.
pub(crate) proof fn lemma_column(cells: Seq<Cell>, i: int)
    requires
        0 <= i < cells.len(),
        forall|j: int| 0 <= j < i ==> (#[trigger] cells[j]).name@ != cells[i].name@,
    ensures
        column(cells, cells[i].name@) == Some(cells[i].value@),
    decreases i,
{
    if i > 0 {
        let rest = cells.drop_first();
        assert(rest[i - 1] == cells[i]);
        assert(cells[0].name@ != cells[i].name@);
        assert forall|j: int| 0 <= j < i - 1 implies (#[trigger] rest[j]).name@
            != rest[i - 1].name@ by {
            assert(rest[j] == cells[j + 1]);
        }
        lemma_column(rest, i - 1);
    }
}

}
