//! Statements that read rows: how they are written, and what they ask for.
//!
//! A statement holds the values it compares with apart from its text, where each
//! has a numbered placeholder. What a statement asks for is stated over the rows
//! of its source, each row a map from the columns, under the names that the text
//! gives them, to their values.

use vstd::prelude::*;

use crate::models::{Value, ValueView};
use crate::text::{
    decimal, decimal_text, holds, join, joined, lemma_holds_between, lemma_holds_longer,
    lemma_holds_within, lemma_joined_holds_each, texts,
};
use crate::time::later;

verus! {

/// The most conditions of a statement. A statement takes 65535 values at most,
/// and a page of rows takes a limit and an offset besides.
pub const MAX_CONDITIONS: usize = 65533;

/// How a column is compared with a value.
#[derive(Clone, Copy, Debug, PartialEq, Eq, Structural)]
pub enum Comparison {
    Equal,
    EqualIgnoringCase,
    AtLeast,
    Before,
}

/// A condition that rows have to meet.
pub struct Condition {
    pub column: &'static str,
    pub comparison: Comparison,
    pub value: Value,
}

/// A `Condition` by its contents.
pub struct ConditionView {
    pub column: Seq<char>,
    pub comparison: Comparison,
    pub value: ValueView,
}

impl View for Condition {
    type V = ConditionView;

    open spec fn view(&self) -> ConditionView {
        ConditionView {
            column: self.column@,
            comparison: self.comparison,
            value: self.value@,
        }
    }
}

/// A statement that reads the rows of a source which meet some conditions, in
/// the order of a column.
pub struct Select {
    pub columns: &'static str,
    pub source: &'static str,
    pub conditions: Vec<Condition>,
    pub order: &'static str,
    pub descending: bool,
}

/// A `Select` by its contents.
pub struct SelectView {
    pub columns: Seq<char>,
    pub source: Seq<char>,
    pub conditions: Seq<ConditionView>,
    pub order: Seq<char>,
    pub descending: bool,
}

impl View for Select {
    type V = SelectView;

    open spec fn view(&self) -> SelectView {
        SelectView {
            columns: self.columns@,
            source: self.source@,
            conditions: condition_views(self.conditions@),
            order: self.order@,
            descending: self.descending,
        }
    }
}

/// Some conditions by their contents.
pub open spec fn condition_views(conditions: Seq<Condition>) -> Seq<ConditionView> {
    conditions.map_values(|c: Condition| c@)
}

/// Some values by their contents.
pub open spec fn value_views(values: Seq<Value>) -> Seq<ValueView> {
    values.map_values(|v: Value| v@)
}

/// The text of a statement, and the values for its placeholders in order.
pub struct Statement {
    pub sql: String,
    pub binds: Vec<Value>,
}

impl Statement {
    /// Whether this is the statement of a given text and values.
    pub open spec fn is(self, sql: Seq<char>, values: Seq<ValueView>) -> bool {
        self.sql@ == sql && value_views(self.binds@) == values
    }
}

/// One condition, with the number of its placeholder.
pub open spec fn condition_text(c: ConditionView, number: int) -> Seq<char> {
    match c.comparison {
        Comparison::Equal => c.column + " = $"@ + decimal(number),
        Comparison::EqualIgnoringCase => "LOWER("@ + c.column + ") = LOWER($"@ + decimal(number)
            + ")"@,
        Comparison::AtLeast => c.column + " >= $"@ + decimal(number),
        Comparison::Before => c.column + " < $"@ + decimal(number),
    }
}

/// Some conditions, with their placeholders numbered from one.
pub open spec fn numbered(conditions: Seq<ConditionView>) -> Seq<Seq<char>> {
    Seq::new(conditions.len(), |i: int| condition_text(conditions[i], i + 1))
}

/// The conditions of a statement, empty where there are none.
pub open spec fn where_text(conditions: Seq<ConditionView>) -> Seq<char> {
    if conditions.len() == 0 {
        Seq::empty()
    } else {
        " WHERE "@ + joined(numbered(conditions), " AND "@)
    }
}

impl SelectView {
    /// The text that reads all rows.
    pub open spec fn rows_text(self) -> Seq<char> {
        "SELECT "@ + self.columns + " FROM "@ + self.source + where_text(self.conditions)
            + " ORDER BY "@ + self.order + (if self.descending {
            " DESC"@
        } else {
            " ASC"@
        })
    }

    /// The text that reads one page of the rows.
    pub open spec fn page_text(self) -> Seq<char> {
        let n = self.conditions.len() as int;
        self.rows_text() + " LIMIT $"@ + decimal(n + 1) + " OFFSET $"@ + decimal(n + 2)
    }

    /// The text that counts the rows.
    pub open spec fn count_text(self) -> Seq<char> {
        "SELECT COUNT(*) FROM "@ + self.source + where_text(self.conditions)
    }

    /// The values that are compared with, in the order of their placeholders.
    pub open spec fn values(self) -> Seq<ValueView> {
        self.conditions.map_values(|c: ConditionView| c.value)
    }
}

fn condition_sql(c: &Condition, number: usize) -> (r: String)
    requires
        number <= MAX_CONDITIONS,
    ensures
        r@ == condition_text(c@, number as int),
{
    let digits = decimal_text(number as i64);
    match c.comparison {
        Comparison::Equal => {
            let mut out = String::from_str(c.column);
            out.append(" = $");
            out.append(digits.as_str());
            out
        },
        Comparison::EqualIgnoringCase => {
            let mut out = String::from_str("LOWER(");
            out.append(c.column);
            out.append(") = LOWER($");
            out.append(digits.as_str());
            out.append(")");
            out
        },
        Comparison::AtLeast => {
            let mut out = String::from_str(c.column);
            out.append(" >= $");
            out.append(digits.as_str());
            out
        },
        Comparison::Before => {
            let mut out = String::from_str(c.column);
            out.append(" < $");
            out.append(digits.as_str());
            out
        },
    }
}

impl Select {
    fn where_sql(&self) -> (r: String)
        requires
            self.conditions@.len() <= MAX_CONDITIONS,
        ensures
            r@ == where_text(self@.conditions),
    {
        if self.conditions.len() == 0 {
            return String::new();
        }
        let mut clauses: Vec<String> = Vec::new();
        let mut i: usize = 0;
        while i < self.conditions.len()
            invariant
                i <= self.conditions@.len() <= MAX_CONDITIONS,
                texts(clauses@) =~= numbered(self@.conditions).take(i as int),
            decreases self.conditions@.len() - i,
        {
            let clause = condition_sql(&self.conditions[i], i + 1);
            assert(self@.conditions[i as int] == self.conditions@[i as int]@);
            assert(clause@ == numbered(self@.conditions)[i as int]);
            let ghost before = clauses@;
            clauses.push(clause);
            assert(texts(clauses@) =~= texts(before).push(clause@));
            i += 1;
        }
        assert(texts(clauses@) == numbered(self@.conditions));
        let mut out = String::from_str(" WHERE ");
        out.append(join(&clauses, " AND ").as_str());
        out
    }

    fn rows_sql(&self) -> (r: String)
        requires
            self.conditions@.len() <= MAX_CONDITIONS,
        ensures
            r@ == self@.rows_text(),
    {
        let mut out = String::from_str("SELECT ");
        out.append(self.columns);
        out.append(" FROM ");
        out.append(self.source);
        out.append(self.where_sql().as_str());
        out.append(" ORDER BY ");
        out.append(self.order);
        if self.descending {
            out.append(" DESC");
        } else {
            out.append(" ASC");
        }
        out
    }

    fn values(&self) -> (r: Vec<Value>)
        ensures
            value_views(r@) == self@.values(),
    {
        let mut out: Vec<Value> = Vec::new();
        let mut i: usize = 0;
        while i < self.conditions.len()
            invariant
                i <= self.conditions@.len(),
                value_views(out@) =~= self@.values().take(i as int),
            decreases self.conditions@.len() - i,
        {
            let value = self.conditions[i].value.copy();
            assert(self@.conditions[i as int] == self.conditions@[i as int]@);
            let ghost before = out@;
            out.push(value);
            assert(value_views(out@) =~= value_views(before).push(value@));
            i += 1;
        }
        assert(value_views(out@) == self@.values());
        out
    }

    /// The statement that reads all rows.
    pub fn rows(&self) -> (r: Statement)
        requires
            self.conditions@.len() <= MAX_CONDITIONS,
        ensures
            r.is(self@.rows_text(), self@.values()),
    {
        Statement { sql: self.rows_sql(), binds: self.values() }
    }

    /// The statement that reads one page of the rows: as many as the limit says,
    /// from the one that the offset names.
    pub fn page(&self, limit: i64, offset: i64) -> (r: Statement)
        requires
            self.conditions@.len() <= MAX_CONDITIONS,
        ensures
            r.is(
                self@.page_text(),
                self@.values().push(ValueView::I64(limit)).push(ValueView::I64(offset)),
            ),
    {
        let n: i64 = self.conditions.len() as i64;
        let mut sql = self.rows_sql();
        sql.append(" LIMIT $");
        sql.append(decimal_text(n + 1).as_str());
        sql.append(" OFFSET $");
        sql.append(decimal_text(n + 2).as_str());
        let mut binds = self.values();
        binds.push(Value::I64(limit));
        binds.push(Value::I64(offset));
        assert(value_views(binds@) =~= self@.values().push(ValueView::I64(limit)).push(
            ValueView::I64(offset),
        ));
        Statement { sql, binds }
    }

    /// The statement that counts the rows.
    pub fn count(&self) -> (r: Statement)
        requires
            self.conditions@.len() <= MAX_CONDITIONS,
        ensures
            r.is(self@.count_text(), self@.values()),
    {
        let mut sql = String::from_str("SELECT COUNT(*) FROM ");
        sql.append(self.source);
        sql.append(self.where_sql().as_str());
        Statement { sql, binds: self.values() }
    }
}

/// Whether a stored value meets a comparison with another, under a way of taking
/// a text to small letters. A missing value meets none.
pub open spec fn compares(
    stored: ValueView,
    comparison: Comparison,
    value: ValueView,
    lower: spec_fn(Seq<char>) -> Seq<char>,
) -> bool {
    match comparison {
        Comparison::Equal => stored == value && !(stored is Null),
        Comparison::EqualIgnoringCase => match (stored, value) {
            (ValueView::Text(a), ValueView::Text(b)) => lower(a) == lower(b),
            _ => false,
        },
        Comparison::AtLeast => match (stored, value) {
            (ValueView::DateTime(a), ValueView::DateTime(b)) => !later(b, a),
            _ => false,
        },
        Comparison::Before => match (stored, value) {
            (ValueView::DateTime(a), ValueView::DateTime(b)) => later(b, a),
            _ => false,
        },
    }
}

/// Whether a row meets some conditions.
pub open spec fn meets(
    row: Map<Seq<char>, ValueView>,
    conditions: Seq<ConditionView>,
    lower: spec_fn(Seq<char>) -> Seq<char>,
) -> bool {
    forall|i: int|
        0 <= i < conditions.len() ==> compares(
            row[(#[trigger] conditions[i]).column],
            conditions[i].comparison,
            conditions[i].value,
            lower,
        )
}

/// Whether one number or instant may stand before another in a rising order.
pub open spec fn not_after(a: ValueView, b: ValueView) -> bool {
    match (a, b) {
        (ValueView::I64(m), ValueView::I64(n)) => m <= n,
        (ValueView::DateTime(s), ValueView::DateTime(t)) => !later(s, t),
        _ => true,
    }
}

/// Whether rows stand in the order of a column.
pub open spec fn ordered(
    rows: Seq<Map<Seq<char>, ValueView>>,
    column: Seq<char>,
    descending: bool,
) -> bool {
    forall|i: int, j: int|
        0 <= i < j < rows.len() ==> if descending {
            not_after(#[trigger] rows[j][column], #[trigger] rows[i][column])
        } else {
            not_after(rows[i][column], rows[j][column])
        }
}

impl SelectView {
    /// Whether some rows are what the statement asks for of its source: each row
    /// of the source that meets the conditions, as often as it stands there, and
    /// no other, in the order of the column. Rows with equal values in that
    /// column may come in either order.
    pub open spec fn gives(
        self,
        source: Seq<Map<Seq<char>, ValueView>>,
        lower: spec_fn(Seq<char>) -> Seq<char>,
        rows: Seq<Map<Seq<char>, ValueView>>,
    ) -> bool {
        &&& rows.to_multiset() == source.filter(
            |row: Map<Seq<char>, ValueView>| meets(row, self.conditions, lower),
        ).to_multiset()
        &&& ordered(rows, self.order, self.descending)
    }
}

/// Whether a column tells the rows of a source apart.
pub open spec fn is_key(source: Seq<Map<Seq<char>, ValueView>>, column: Seq<char>) -> bool {
    forall|i: int, j: int|
        0 <= i < j < source.len() ==> #[trigger] source[i][column] != #[trigger] source[j][column]
}

/// A statement gives a row if and only if the source has it and it meets the
/// conditions.
pub proof fn law_select_gives_what_is_asked(
    select: SelectView,
    source: Seq<Map<Seq<char>, ValueView>>,
    lower: spec_fn(Seq<char>) -> Seq<char>,
    rows: Seq<Map<Seq<char>, ValueView>>,
    row: Map<Seq<char>, ValueView>,
)
    requires
        select.gives(source, lower, rows),
    ensures
        rows.contains(row) <==> source.contains(row) && meets(row, select.conditions, lower),
{
    let pred = |r: Map<Seq<char>, ValueView>| meets(r, select.conditions, lower);
    let kept = source.filter(pred);
    rows.to_multiset_ensures();
    kept.to_multiset_ensures();
    assert(rows.contains(row) <==> rows.to_multiset().count(row) > 0);
    assert(kept.contains(row) <==> kept.to_multiset().count(row) > 0);
    if source.contains(row) && meets(row, select.conditions, lower) {
        let i = choose|i: int| 0 <= i < source.len() && source[i] == row;
        source.lemma_filter_contains(pred, i);
    }
    if kept.contains(row) {
        let k = choose|k: int| 0 <= k < kept.len() && kept[k] == row;
        source.lemma_filter_pred(pred, k);
        source.lemma_filter_contains_rev(pred, row);
    }
}

/// A part of a sequence without repetitions has none.
proof fn lemma_filter_keeps_apart(
    source: Seq<Map<Seq<char>, ValueView>>,
    pred: spec_fn(Map<Seq<char>, ValueView>) -> bool,
)
    requires
        source.no_duplicates(),
    ensures
        source.filter(pred).no_duplicates(),
    decreases source.len(),
{
    reveal(Seq::filter);
    if source.len() > 0 {
        let rest = source.drop_last();
        lemma_filter_keeps_apart(rest, pred);
        let kept = rest.filter(pred);
        assert forall|k: int| 0 <= k < kept.len() implies kept[k] != source.last() by {
            assert(kept.contains(kept[k]));
            rest.lemma_filter_contains_rev(pred, kept[k]);
            let i = choose|i: int| 0 <= i < rest.len() && rest[i] == kept[k];
            assert(source[i] == kept[k]);
        }
    }
}

/// A statement gives no row twice where a column tells the rows of the source
/// apart, and that column tells the rows apart that it gives.
pub proof fn law_select_gives_no_row_twice(
    select: SelectView,
    source: Seq<Map<Seq<char>, ValueView>>,
    lower: spec_fn(Seq<char>) -> Seq<char>,
    rows: Seq<Map<Seq<char>, ValueView>>,
    column: Seq<char>,
)
    requires
        select.gives(source, lower, rows),
        is_key(source, column),
    ensures
        is_key(rows, column),
        rows.no_duplicates(),
{
    let pred = |r: Map<Seq<char>, ValueView>| meets(r, select.conditions, lower);
    assert(source.no_duplicates()) by {
        assert forall|i: int, j: int| 0 <= i < source.len() && 0 <= j < source.len() && i
            != j implies source[i] != source[j] by {
            assert(source[i][column] != source[j][column] || source[j][column]
                != source[i][column]);
        }
    }
    lemma_filter_keeps_apart(source, pred);
    source.filter(pred).lemma_multiset_has_no_duplicates();
    rows.lemma_multiset_has_no_duplicates_conv();
    assert forall|i: int, j: int| 0 <= i < j < rows.len() implies #[trigger] rows[i][column]
        != #[trigger] rows[j][column] by {
        law_select_gives_what_is_asked(select, source, lower, rows, rows[i]);
        law_select_gives_what_is_asked(select, source, lower, rows, rows[j]);
        assert(rows.contains(rows[i]) && rows.contains(rows[j]));
        let a = choose|a: int| 0 <= a < source.len() && source[a] == rows[i];
        let b = choose|b: int| 0 <= b < source.len() && source[b] == rows[j];
        assert(rows[i] != rows[j]);
        assert(a != b);
        assert(source[a][column] != source[b][column] || source[b][column] != source[a][column]);
    }
}

/// The text of a statement does not depend on the values that it compares with:
/// they are bound to its placeholders, and never written into it.
pub proof fn law_values_stay_out_of_the_text(a: SelectView, b: SelectView)
    requires
        a.columns == b.columns,
        a.source == b.source,
        a.order == b.order,
        a.descending == b.descending,
        a.conditions.len() == b.conditions.len(),
        forall|i: int|
            0 <= i < a.conditions.len() ==> (#[trigger] a.conditions[i]).column
                == b.conditions[i].column && a.conditions[i].comparison
                == b.conditions[i].comparison,
    ensures
        a.rows_text() == b.rows_text(),
        a.page_text() == b.page_text(),
        a.count_text() == b.count_text(),
{
    assert(numbered(a.conditions) =~= numbered(b.conditions)) by {
        assert forall|i: int| 0 <= i < a.conditions.len() implies numbered(a.conditions)[i]
            == numbered(b.conditions)[i] by {
            let c = a.conditions[i];
        }
    }
}

/// Each condition stands in the text of each statement, with its placeholder.
pub proof fn lemma_condition_stands_in_text(select: SelectView, i: int)
    requires
        0 <= i < select.conditions.len(),
    ensures
        holds(select.rows_text(), condition_text(select.conditions[i], i + 1)),
        holds(select.page_text(), condition_text(select.conditions[i], i + 1)),
        holds(select.count_text(), condition_text(select.conditions[i], i + 1)),
{
    let part = condition_text(select.conditions[i], i + 1);
    let parts = numbered(select.conditions);
    let all = joined(parts, " AND "@);
    let none = Seq::<char>::empty();
    assert(parts[i] == part);
    lemma_joined_holds_each(parts, " AND "@, i);
    let before = "SELECT "@ + select.columns + " FROM "@ + select.source + " WHERE "@;
    let order = " ORDER BY "@ + select.order + (if select.descending {
        " DESC"@
    } else {
        " ASC"@
    });
    assert(select.rows_text() =~= before + all + order);
    lemma_holds_between(before, all, order);
    lemma_holds_within(select.rows_text(), all, part);
    let n = select.conditions.len() as int;
    let page = " LIMIT $"@ + decimal(n + 1) + " OFFSET $"@ + decimal(n + 2);
    assert(select.page_text() =~= select.rows_text() + page);
    lemma_holds_longer(select.rows_text(), page, part);
    let start = "SELECT COUNT(*) FROM "@ + select.source + " WHERE "@;
    assert(select.count_text() =~= start + all + none);
    lemma_holds_between(start, all, none);
    lemma_holds_within(select.count_text(), all, part);
}

/// A condition is written with its column, its comparison and the number of its
/// placeholder, whatever the number is.
pub proof fn law_conditions_are_written(column: Seq<char>, value: ValueView, number: int)
    ensures
        condition_text(
            (ConditionView { column, comparison: Comparison::Equal, value }),
            number,
        ) == column + " = $"@ + decimal(number),
        condition_text(
            (ConditionView { column, comparison: Comparison::EqualIgnoringCase, value }),
            number,
        ) == "LOWER("@ + column + ") = LOWER($"@ + decimal(number) + ")"@,
        condition_text(
            (ConditionView { column, comparison: Comparison::AtLeast, value }),
            number,
        ) == column + " >= $"@ + decimal(number),
        condition_text(
            (ConditionView { column, comparison: Comparison::Before, value }),
            number,
        ) == column + " < $"@ + decimal(number),
{
}

/// A statement binds the values that it compares with, each in its place, however
/// many there are.
pub proof fn law_statement_binds_its_values(
    statement: Statement,
    sql: Seq<char>,
    values: Seq<ValueView>,
    i: int,
)
    requires
        statement.is(sql, values),
    ensures
        statement.sql@ == sql,
        statement.binds@.len() == values.len(),
        0 <= i < values.len() ==> statement.binds@[i]@ == values[i],
{
    let views = value_views(statement.binds@);
    assert(views.len() == statement.binds@.len());
    if 0 <= i < values.len() {
        assert(views[i] == statement.binds@[i]@);
    }
}

/// The text of a statement names its columns, its source, its conditions and its
/// order; a page has a limit and an offset besides, behind the conditions' own
/// placeholders.
pub proof fn law_statements_are_written(select: SelectView)
    ensures
        select.rows_text() == "SELECT "@ + select.columns + " FROM "@ + select.source + where_text(
            select.conditions,
        ) + " ORDER BY "@ + select.order + (if select.descending {
            " DESC"@
        } else {
            " ASC"@
        }),
        select.page_text() == select.rows_text() + " LIMIT $"@ + decimal(
            select.conditions.len() as int + 1,
        ) + " OFFSET $"@ + decimal(select.conditions.len() as int + 2),
        select.count_text() == "SELECT COUNT(*) FROM "@ + select.source + where_text(
            select.conditions,
        ),
        select.values().len() == select.conditions.len(),
        forall|i: int|
            0 <= i < select.conditions.len() ==> #[trigger] select.values()[i]
                == select.conditions[i].value,
{
}

/// Each statement is one that reads.
pub proof fn law_select_reads(select: SelectView)
    ensures
        "SELECT "@.is_prefix_of(select.rows_text()),
        "SELECT "@.is_prefix_of(select.page_text()),
        "SELECT "@.is_prefix_of(select.count_text()),
{
    reveal_strlit("SELECT ");
    reveal_strlit("SELECT COUNT(*) FROM ");
}

}
