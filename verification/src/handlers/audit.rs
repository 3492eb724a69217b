//! The audit log: a read-only list of every entry in every case's history, for
//! auditors.
//!
//! The log can be narrowed by action type, correlation id, actor, case and
//! date. The filters compose, and the links on the page keep them.

use rustio_admin::FormData;
use vstd::prelude::*;
use vstd::utf8::{
    decode_utf8, encode_utf8, encode_utf8_decode_utf8, is_ascii_chars, is_ascii_chars_encode_utf8,
    is_char_boundary,
};

use crate::auth_helper::{refusal, require_role, AccessGuard, Identity, Role};
use crate::form::{
    field, fields_of, form_fields, lemma_url_encoded_plain, looks_encoded, non_empty,
    non_empty_field, query_part, query_text, readable, url_encoded, urlencode,
    urlencoded_fields,
};
use crate::html::{escape, escaped};
use crate::labels::{action_type_label, action_type_label_sv, status_label, status_label_sv};
use crate::markup::audit as markup;
use crate::models::{row_with, Tables, Value, ValueView};
use crate::reply::{Reply, OK};
use crate::statement::{
    condition_text, condition_views, meets, numbered, where_text, Comparison, Condition,
    ConditionView, Select, SelectView, Statement,
};
use crate::text::{
    copy_text, decimal, decimal_text, is_digit, join, joined, law_decimal_reads_back,
    lemma_decimal_chars, opt_text, parse_i64, parsed_i64, same_text, texts, truncate, truncated,
};
use crate::time::{
    day_of, instant_text, later, midnight, midnight_utc, parse_day, parsed_date, Timestamp, DATE_PATTERN,
    SECOND_PATTERN, YEAR_10000,
};

verus! {

/// Rows on one page.
pub const PAGE_SIZE: i64 = 50;

/// The last page that is shown.
pub const MAX_PAGE: i64 = 200;

/// The role that may read the log.
pub const MIN_ROLE: Role = Role::Supervisor;

/// Filters read from the query string. Each is there or not on its own, so
/// that they can be combined freely.
pub struct AuditFilters {
    pub action_type: Option<String>,
    pub correlation: Option<String>,
    pub actor: Option<String>,
    pub case_id: Option<i64>,
    pub since: Option<Timestamp>,
    pub page: i64,
}

/// What a set of filters says.
pub struct FiltersView {
    pub action_type: Option<Seq<char>>,
    pub correlation: Option<Seq<char>>,
    pub actor: Option<Seq<char>>,
    pub case_id: Option<int>,
    pub since: Option<(int, int)>,
    pub page: int,
}

impl View for AuditFilters {
    type V = FiltersView;

    open spec fn view(&self) -> FiltersView {
        FiltersView {
            action_type: opt_text(self.action_type),
            correlation: opt_text(self.correlation),
            actor: opt_text(self.actor),
            case_id: match self.case_id {
                Some(id) => Some(id as int),
                None => None,
            },
            since: match self.since {
                Some(instant) => Some(instant@),
                None => None,
            },
            page: self.page as int,
        }
    }
}

/// A number moved into the range of the pages that are shown.
pub open spec fn clamped_page(n: int) -> int {
    if n < 1 {
        1
    } else if n > MAX_PAGE {
        MAX_PAGE as int
    } else {
        n
    }
}

/// The filters that the fields of a query string stand for.
pub open spec fn filters_of(fields: Map<Seq<char>, Seq<char>>) -> FiltersView {
    FiltersView {
        action_type: non_empty(field(fields, "action_type"@)),
        correlation: non_empty(field(fields, "correlation"@)),
        actor: non_empty(field(fields, "actor"@)),
        case_id: match field(fields, "case"@) {
            Some(text) => parsed_i64(text),
            None => None,
        },
        since: match field(fields, "since"@) {
            Some(text) => match parsed_date(text, DATE_PATTERN@) {
                Some(day) => Some(midnight(day)),
                None => None,
            },
            None => None,
        },
        page: match field(fields, "page"@) {
            Some(text) => match parsed_i64(text) {
                Some(n) => clamped_page(n),
                None => 1,
            },
            None => 1,
        },
    }
}

/// One name with its value, or nothing where the value is missing.
pub open spec fn pair(name: Seq<char>, value: Option<Seq<char>>) -> Seq<(Seq<char>, Seq<char>)> {
    match value {
        Some(text) => seq![(name, text)],
        None => Seq::empty(),
    }
}

/// What stands in a query string for a value that may be missing.
pub open spec fn encoded_value(value: Option<Seq<char>>) -> Option<Seq<char>> {
    match value {
        Some(text) => Some(url_encoded(text)),
        None => None,
    }
}

/// One part of a query string, or nothing where the value is missing.
pub open spec fn part(prefix: Seq<char>, value: Option<Seq<char>>) -> Seq<Seq<char>> {
    match value {
        Some(text) => seq![prefix + text],
        None => Seq::empty(),
    }
}

impl FiltersView {
    /// The text of the case filter.
    pub open spec fn case_text(self) -> Option<Seq<char>> {
        match self.case_id {
            Some(id) => Some(decimal(id)),
            None => None,
        }
    }

    /// The text of the date filter.
    pub open spec fn since_text(self) -> Option<Seq<char>> {
        match self.since {
            Some(instant) => Some(instant_text(instant.0, instant.1, DATE_PATTERN@)),
            None => None,
        }
    }

    /// The parts of the query string for these filters, without the page.
    pub open spec fn query_parts(self) -> Seq<Seq<char>> {
        part("action_type="@, encoded_value(self.action_type)) + part(
            "correlation="@,
            encoded_value(self.correlation),
        ) + part("actor="@, encoded_value(self.actor)) + part("case="@, self.case_text()) + part(
            "since="@,
            self.since_text(),
        )
    }

    /// The query string for these filters, without the page.
    pub open spec fn query(self) -> Seq<char> {
        joined(self.query_parts(), "&"@)
    }

    /// The names and values that the query string is made of.
    pub open spec fn pairs(self) -> Seq<(Seq<char>, Seq<char>)> {
        pair("action_type"@, self.action_type) + pair("correlation"@, self.correlation) + pair(
            "actor"@,
            self.actor,
        ) + pair("case"@, self.case_text()) + pair("since"@, self.since_text())
    }

    /// The same filters, on their first page.
    pub open spec fn first_page(self) -> FiltersView {
        FiltersView { page: 1, ..self }
    }

    /// Whether the filters could have come from a query string: no text filter
    /// is empty, the case is a number that fits its column, the date filter is
    /// the start of a day, and the page is one that is shown.
    pub open spec fn well_formed(self) -> bool {
        &&& self.action_type matches Some(text) ==> text.len() > 0
        &&& self.correlation matches Some(text) ==> text.len() > 0
        &&& self.actor matches Some(text) ==> text.len() > 0
        &&& self.case_id matches Some(id) ==> i64::MIN <= id <= i64::MAX
        &&& self.since matches Some(instant) ==> instant == midnight(day_of(instant))
        &&& 1 <= self.page <= MAX_PAGE
    }

    /// Whether a query string can carry the filters: no text filter holds what
    /// a reader takes for an encoded byte, and the date has a year of four
    /// digits at most.
    pub open spec fn fits_query(self) -> bool {
        &&& self.action_type matches Some(text) ==> !looks_encoded(text)
        &&& self.correlation matches Some(text) ==> !looks_encoded(text)
        &&& self.actor matches Some(text) ==> !looks_encoded(text)
        &&& self.since matches Some(instant) ==> instant.0 < YEAR_10000
    }

    /// Whether the text of the date filter is made of digits and hyphens, and
    /// reads back as the day of the filter.
    pub open spec fn since_reads_back(self) -> bool {
        self.since matches Some(instant) ==> {
            let text = instant_text(instant.0, instant.1, DATE_PATTERN@);
            &&& parsed_date(text, DATE_PATTERN@) == Some(day_of(instant))
            &&& forall|i: int| 0 <= i < text.len() ==> is_digit(#[trigger] text[i]) || text[i] == '-'
        }
    }
}

/// Whether some parts of a query string are those of some names and values that
/// can be read back.
spec fn aligned(pairs: Seq<(Seq<char>, Seq<char>)>, parts: Seq<Seq<char>>) -> bool {
    &&& parts.len() == pairs.len()
    &&& forall|i: int|
        0 <= i < pairs.len() ==> #[trigger] parts[i] == query_part(pairs[i].0, pairs[i].1)
    &&& forall|i: int| 0 <= i < pairs.len() ==> readable(#[trigger] pairs[i])
}

/// A name with its value, and the part for them, keep the two lists aligned.
proof fn lemma_aligned_grows(
    pairs: Seq<(Seq<char>, Seq<char>)>,
    parts: Seq<Seq<char>>,
    name: Seq<char>,
    value: Option<Seq<char>>,
    prefix: Seq<char>,
    shown: Option<Seq<char>>,
)
    requires
        aligned(pairs, parts),
        prefix == name + "="@,
        shown == encoded_value(value),
        value is Some ==> readable((name, value->0)),
    ensures
        aligned(pairs + pair(name, value), parts + part(prefix, shown)),
{
}

/// A query string made of names and values is the list of its parts.
proof fn lemma_joined_is_query_text(pairs: Seq<(Seq<char>, Seq<char>)>, parts: Seq<Seq<char>>)
    requires
        aligned(pairs, parts),
    ensures
        joined(parts, "&"@) == query_text(pairs),
    decreases pairs.len(),
{
    if pairs.len() > 1 {
        lemma_joined_is_query_text(pairs.drop_last(), parts.drop_last());
    }
}

/// Looking up a name in the fields of some pairs, when another pair is added.
proof fn lemma_field_of_added(
    pairs: Seq<(Seq<char>, Seq<char>)>,
    name: Seq<char>,
    value: Option<Seq<char>>,
    wanted: Seq<char>,
)
    ensures
        field(fields_of(pairs + pair(name, value)), wanted) == if wanted == name && value is Some {
            value
        } else {
            field(fields_of(pairs), wanted)
        },
{
    match value {
        Some(text) => {
            let all = pairs + pair(name, value);
            assert(all.drop_last() == pairs);
            assert(all.last() == (name, text));
        },
        None => {
            assert(pairs + pair(name, value) == pairs);
        },
    }
}

/// Names in a query string.
proof fn lemma_names()
    ensures
        "action_type"@ != "correlation"@,
        "action_type"@ != "actor"@,
        "action_type"@ != "case"@,
        "action_type"@ != "since"@,
        "action_type"@ != "page"@,
        "correlation"@ != "actor"@,
        "correlation"@ != "case"@,
        "correlation"@ != "since"@,
        "correlation"@ != "page"@,
        "actor"@ != "case"@,
        "actor"@ != "since"@,
        "actor"@ != "page"@,
        "case"@ != "since"@,
        "case"@ != "page"@,
        "since"@ != "page"@,
        "action_type="@ == "action_type"@ + "="@,
        "correlation="@ == "correlation"@ + "="@,
        "actor="@ == "actor"@ + "="@,
        "case="@ == "case"@ + "="@,
        "since="@ == "since"@ + "="@,
        forall|value: Seq<char>| !looks_encoded(value) ==> #[trigger] readable(("action_type"@, value)),
        forall|value: Seq<char>| !looks_encoded(value) ==> #[trigger] readable(("correlation"@, value)),
        forall|value: Seq<char>| !looks_encoded(value) ==> #[trigger] readable(("actor"@, value)),
        forall|value: Seq<char>| !looks_encoded(value) ==> #[trigger] readable(("case"@, value)),
        forall|value: Seq<char>| !looks_encoded(value) ==> #[trigger] readable(("since"@, value)),
{
    reveal_strlit("action_type");
    reveal_strlit("correlation");
    reveal_strlit("actor");
    reveal_strlit("case");
    reveal_strlit("since");
    reveal_strlit("page");
    reveal_strlit("=");
    reveal_strlit("action_type=");
    reveal_strlit("correlation=");
    reveal_strlit("actor=");
    reveal_strlit("case=");
    reveal_strlit("since=");
    assert("action_type"@[0] == 'a' && "actor"@[0] == 'a' && "action_type"@.len() == 11 && "actor"@.len() == 5);
    assert("correlation"@[0] == 'c' && "case"@[0] == 'c' && "correlation"@.len() == 11 && "case"@.len() == 4);
    assert("since"@[0] == 's' && "page"@[0] == 'p');
}

/// Digits and hyphens stand for themselves in a query string.
proof fn lemma_plain_number(text: Seq<char>)
    requires
        forall|i: int| 0 <= i < text.len() ==> is_digit(#[trigger] text[i]) || text[i] == '-',
    ensures
        url_encoded(text) == text,
        !looks_encoded(text),
{
    lemma_url_encoded_plain(text);
}

/// Following a link on the page keeps the filters: the query string that is
/// written for some filters holds names and values that are read as the same
/// filters, on their first page.
pub proof fn law_links_keep_the_filters(filters: FiltersView)
    requires
        filters.well_formed(),
        filters.fits_query(),
        filters.since_reads_back(),
    ensures
        filters.query() == query_text(filters.pairs()),
        forall|i: int| 0 <= i < filters.pairs().len() ==> readable(#[trigger] filters.pairs()[i]),
        filters_of(fields_of(filters.pairs())) == filters.first_page(),
{
    lemma_names();
    let f = filters;
    let none = Seq::<(Seq<char>, Seq<char>)>::empty();
    let p1 = pair("action_type"@, f.action_type);
    let p2 = p1 + pair("correlation"@, f.correlation);
    let p3 = p2 + pair("actor"@, f.actor);
    let p4 = p3 + pair("case"@, f.case_text());
    let p5 = p4 + pair("since"@, f.since_text());
    assert(f.pairs() == p5);
    if f.case_id is Some {
        lemma_decimal_chars(f.case_id->0);
        lemma_plain_number(f.case_text()->0);
        law_decimal_reads_back(f.case_id->0 as i64);
    }
    if f.since is Some {
        lemma_plain_number(f.since_text()->0);
    }
    let s1 = part("action_type="@, encoded_value(f.action_type));
    let s2 = s1 + part("correlation="@, encoded_value(f.correlation));
    let s3 = s2 + part("actor="@, encoded_value(f.actor));
    let s4 = s3 + part("case="@, f.case_text());
    let s5 = s4 + part("since="@, f.since_text());
    assert(f.query_parts() == s5);
    assert(aligned(p1, s1));
    lemma_aligned_grows(p1, s1, "correlation"@, f.correlation, "correlation="@, encoded_value(f.correlation));
    lemma_aligned_grows(p2, s2, "actor"@, f.actor, "actor="@, encoded_value(f.actor));
    lemma_aligned_grows(p3, s3, "case"@, f.case_text(), "case="@, f.case_text());
    lemma_aligned_grows(p4, s4, "since"@, f.since_text(), "since="@, f.since_text());
    lemma_joined_is_query_text(p5, s5);
    assert(none + p1 == p1);
    assert forall|wanted: Seq<char>| #[trigger] field(fields_of(p5), wanted) == if wanted == "since"@
        && f.since is Some {
        f.since_text()
    } else if wanted == "case"@ && f.case_id is Some {
        f.case_text()
    } else if wanted == "actor"@ && f.actor is Some {
        f.actor
    } else if wanted == "correlation"@ && f.correlation is Some {
        f.correlation
    } else if wanted == "action_type"@ && f.action_type is Some {
        f.action_type
    } else {
        None
    } by {
        lemma_field_of_added(p4, "since"@, f.since_text(), wanted);
        lemma_field_of_added(p3, "case"@, f.case_text(), wanted);
        lemma_field_of_added(p2, "actor"@, f.actor, wanted);
        lemma_field_of_added(p1, "correlation"@, f.correlation, wanted);
        lemma_field_of_added(none, "action_type"@, f.action_type, wanted);
    }
    assert(field(fields_of(p5), "action_type"@) == f.action_type);
    assert(field(fields_of(p5), "correlation"@) == f.correlation);
    assert(field(fields_of(p5), "actor"@) == f.actor);
    assert(field(fields_of(p5), "case"@) == f.case_text());
    assert(field(fields_of(p5), "since"@) == f.since_text());
    assert(field(fields_of(p5), "page"@) == None::<Seq<char>>);
}

impl AuditFilters {
    /// Reads the filters from a query string. A filter that is empty, or that
    /// is no number or no date where one is wanted, is as good as missing; the
    /// page is moved into the range of the pages that are shown.
    pub fn from_request(query: &str) -> (r: AuditFilters)
        ensures
            r@ == filters_of(urlencoded_fields(query@)),
            r@.well_formed(),
            forall|filters: FiltersView|
                filters.well_formed() && filters.fits_query() && filters.since_reads_back()
                    && #[trigger] filters.query() == query@ ==> r@ == filters.first_page(),
    {
        let form = FormData::from_urlencoded(query);
        let case_id = match form.get("case") {
            Some(text) => parse_i64(text),
            None => None,
        };
        let since = match form.get("since") {
            Some(text) => match parse_day(text, DATE_PATTERN) {
                Some(day) => Some(midnight_utc(day)),
                None => None,
            },
            None => None,
        };
        let page: i64 = match form.get("page") {
            Some(text) => match parse_i64(text) {
                Some(n) => {
                    if n < 1 {
                        1
                    } else if n > MAX_PAGE {
                        MAX_PAGE
                    } else {
                        n
                    }
                },
                None => 1,
            },
            None => 1,
        };
        let r = AuditFilters {
            action_type: non_empty_field(&form, "action_type"),
            correlation: non_empty_field(&form, "correlation"),
            actor: non_empty_field(&form, "actor"),
            case_id,
            since,
            page,
        };
        proof {
            assert(r@ == filters_of(form_fields(form)));
            assert forall|filters: FiltersView|
                filters.well_formed() && filters.fits_query() && filters.since_reads_back()
                    && #[trigger] filters.query() == query@ implies r@ == filters.first_page() by {
                law_links_keep_the_filters(filters);
                assert(form_fields(form) == fields_of(filters.pairs()));
            }
        }
        r
    }

    /// A copy of the filters.
    pub fn duplicate(&self) -> (r: AuditFilters)
        ensures
            r@ == self@,
    {
        AuditFilters {
            action_type: copy_text(&self.action_type),
            correlation: copy_text(&self.correlation),
            actor: copy_text(&self.actor),
            case_id: self.case_id,
            since: match &self.since {
                Some(instant) => Some(instant.copy()),
                None => None,
            },
            page: self.page,
        }
    }

    /// Writes the filters as a query string for the links on the page, without
    /// the page number. Read as a request, it gives the same filters again.
    pub fn to_query_without_page(&self) -> (r: String)
        ensures
            r@ == self@.query(),
            self@.well_formed() && self@.fits_query() ==> {
                &&& r@ == query_text(self@.pairs())
                &&& forall|i: int| 0 <= i < self@.pairs().len() ==> readable(#[trigger] self@.pairs()[i])
                &&& filters_of(fields_of(self@.pairs())) == self@.first_page()
                &&& self@.since_reads_back()
            },
    {
        let ghost view = self@;
        let mut parts: Vec<String> = Vec::new();
        let ghost mut shown: Seq<Seq<char>> = Seq::empty();
        assert(texts(parts@) == shown);
        if let Some(text) = &self.action_type {
            parts.push("action_type=".to_string().concat(urlencode(text).as_str()));
            proof {
                shown = shown + part("action_type="@, Some(url_encoded(text@)));
            }
            assert(texts(parts@) == shown);
        }
        if let Some(text) = &self.correlation {
            parts.push("correlation=".to_string().concat(urlencode(text).as_str()));
            proof {
                shown = shown + part("correlation="@, Some(url_encoded(text@)));
            }
            assert(texts(parts@) == shown);
        }
        if let Some(text) = &self.actor {
            parts.push("actor=".to_string().concat(urlencode(text).as_str()));
            proof {
                shown = shown + part("actor="@, Some(url_encoded(text@)));
            }
            assert(texts(parts@) == shown);
        }
        if let Some(id) = self.case_id {
            parts.push("case=".to_string().concat(decimal_text(id).as_str()));
            proof {
                shown = shown + part("case="@, Some(decimal(id as int)));
            }
            assert(texts(parts@) == shown);
        }
        if let Some(instant) = &self.since {
            let date = instant.date_text();
            parts.push("since=".to_string().concat(date.as_str()));
            proof {
                shown = shown + part("since="@, Some(date@));
            }
            assert(texts(parts@) == shown);
            assert(view.fits_query() ==> view.since_reads_back());
        }
        assert(shown == view.query_parts());
        proof {
            if view.well_formed() && view.fits_query() {
                law_links_keep_the_filters(view);
            }
        }
        join(&parts, "&")
    }
}

/// One condition, or none where there is no value to compare with.
pub open spec fn condition(
    column: Seq<char>,
    comparison: Comparison,
    value: Option<ValueView>,
) -> Seq<ConditionView> {
    match value {
        Some(bound) => seq![ConditionView { column, comparison, value: bound }],
        None => Seq::empty(),
    }
}

/// A text as a value.
pub open spec fn text_value(text: Option<Seq<char>>) -> Option<ValueView> {
    match text {
        Some(t) => Some(ValueView::Text(t)),
        None => None,
    }
}

/// The conditions for some filters, in the order of their placeholders.
pub open spec fn log_conditions(f: FiltersView) -> Seq<ConditionView> {
    condition("ca.action_type"@, Comparison::Equal, text_value(f.action_type)) + condition(
        "ca.correlation_id"@,
        Comparison::Equal,
        text_value(f.correlation),
    ) + condition("u.email"@, Comparison::EqualIgnoringCase, text_value(f.actor)) + condition(
        "ca.case_id"@,
        Comparison::Equal,
        match f.case_id {
            Some(id) => Some(ValueView::I64(id as i64)),
            None => None,
        },
    ) + condition(
        "ca.created_at"@,
        Comparison::AtLeast,
        match f.since {
            Some(instant) => Some(ValueView::DateTime(instant)),
            None => None,
        },
    )
}

/// The statement behind the log: the entries that meet the filters, newest
/// first.
pub open spec fn log_select(f: FiltersView) -> SelectView {
    SelectView {
        columns: markup::LOG_COLUMNS@,
        source: markup::LOG_SOURCE@,
        conditions: log_conditions(f),
        order: "ca.created_at"@,
        descending: true,
    }
}

/// The entries before a page.
pub open spec fn page_offset(f: FiltersView) -> int {
    (f.page - 1) * PAGE_SIZE
}

/// The statements behind a page of the log: one reads the page, the other counts
/// the entries of all pages.
pub struct AuditQuery {
    pub list: Statement,
    pub count: Statement,
}

impl AuditQuery {
    /// Whether these are the statements for some filters.
    pub open spec fn is_for(self, f: FiltersView) -> bool {
        &&& self.list.is(
            log_select(f).page_text(),
            log_select(f).values().push(ValueView::I64(PAGE_SIZE)).push(
                ValueView::I64(page_offset(f) as i64),
            ),
        )
        &&& self.count.is(log_select(f).count_text(), log_select(f).values())
    }
}

/// Builds the statements for some filters.
pub fn audit_query(filters: &AuditFilters) -> (r: AuditQuery)
    requires
        1 <= filters.page <= MAX_PAGE,
    ensures
        r.is_for(filters@),
{
    let mut conditions: Vec<Condition> = Vec::new();
    let ghost mut shown: Seq<ConditionView> = Seq::empty();
    assert(condition_views(conditions@) =~= shown);
    if let Some(text) = &filters.action_type {
        conditions.push(
            Condition {
                column: "ca.action_type",
                comparison: Comparison::Equal,
                value: Value::Text(text.as_str().to_string()),
            },
        );
        proof {
            shown = shown + condition("ca.action_type"@, Comparison::Equal, Some(ValueView::Text(text@)));
        }
        assert(condition_views(conditions@) =~= shown);
    }
    if let Some(text) = &filters.correlation {
        conditions.push(
            Condition {
                column: "ca.correlation_id",
                comparison: Comparison::Equal,
                value: Value::Text(text.as_str().to_string()),
            },
        );
        proof {
            shown = shown + condition("ca.correlation_id"@, Comparison::Equal, Some(ValueView::Text(text@)));
        }
        assert(condition_views(conditions@) =~= shown);
    }
    if let Some(text) = &filters.actor {
        conditions.push(
            Condition {
                column: "u.email",
                comparison: Comparison::EqualIgnoringCase,
                value: Value::Text(text.as_str().to_string()),
            },
        );
        proof {
            shown = shown + condition("u.email"@, Comparison::EqualIgnoringCase, Some(ValueView::Text(text@)));
        }
        assert(condition_views(conditions@) =~= shown);
    }
    if let Some(id) = filters.case_id {
        conditions.push(
            Condition {
                column: "ca.case_id",
                comparison: Comparison::Equal,
                value: Value::I64(id),
            },
        );
        proof {
            shown = shown + condition("ca.case_id"@, Comparison::Equal, Some(ValueView::I64(id)));
        }
        assert(condition_views(conditions@) =~= shown);
    }
    if let Some(instant) = &filters.since {
        conditions.push(
            Condition {
                column: "ca.created_at",
                comparison: Comparison::AtLeast,
                value: Value::DateTime(instant.copy()),
            },
        );
        proof {
            shown = shown + condition("ca.created_at"@, Comparison::AtLeast, Some(ValueView::DateTime(instant@)));
        }
        assert(condition_views(conditions@) =~= shown);
    }
    assert(condition_views(conditions@) =~= log_conditions(filters@));
    let select = Select {
        columns: markup::LOG_COLUMNS,
        source: markup::LOG_SOURCE,
        conditions,
        order: "ca.created_at",
        descending: true,
    };
    assert(select@ == log_select(filters@));
    let offset: i64 = (filters.page - 1) * PAGE_SIZE;
    AuditQuery { list: select.page(PAGE_SIZE, offset), count: select.count() }
}

/// The filters compose: an entry meets the conditions of the statements if and
/// only if it meets each filter that is set.
pub proof fn law_filters_compose(
    f: FiltersView,
    entry: Map<Seq<char>, ValueView>,
    lower: spec_fn(Seq<char>) -> Seq<char>,
)
    ensures
        meets(entry, log_conditions(f), lower) <==> {
            &&& f.action_type matches Some(text) ==> entry["ca.action_type"@] == ValueView::Text(
                text,
            )
            &&& f.correlation matches Some(text) ==> entry["ca.correlation_id"@]
                == ValueView::Text(text)
            &&& f.actor matches Some(text) ==> (entry["u.email"@] matches ValueView::Text(email)
                && lower(email) == lower(text))
            &&& f.case_id matches Some(id) ==> entry["ca.case_id"@] == ValueView::I64(id as i64)
            &&& f.since matches Some(instant) ==> (
            entry["ca.created_at"@] matches ValueView::DateTime(t) && !later(instant, t))
        },
{
    let n1 = (if f.action_type is Some { 1int } else { 0 });
    let n2 = n1 + (if f.correlation is Some { 1int } else { 0 });
    let n3 = n2 + (if f.actor is Some { 1int } else { 0 });
    let n4 = n3 + (if f.case_id is Some { 1int } else { 0 });
    let all = log_conditions(f);
    if meets(entry, all, lower) {
        if f.action_type is Some {
            assert(all[0].column == "ca.action_type"@);
        }
        if f.correlation is Some {
            assert(all[n1].column == "ca.correlation_id"@);
        }
        if f.actor is Some {
            assert(all[n2].column == "u.email"@);
        }
        if f.case_id is Some {
            assert(all[n3].column == "ca.case_id"@);
        }
        if f.since is Some {
            assert(all[n4].column == "ca.created_at"@);
        }
    }
}

/// One entry of the log.
pub struct AuditRow {
    pub id: i64,
    pub case_id: i64,
    pub action_type: String,
    pub note: String,
    pub created_at: Timestamp,
    pub correlation_id: Option<String>,
    pub actor_email: String,
    pub case_status: String,
}

/// The style sheet of the page.
pub fn operator_css() -> (r: &'static str)
    ensures
        r@ == markup::OPERATOR_CSS@,
{
    markup::OPERATOR_CSS
}

/// Whether a correlation id can be cut behind its eighth byte: it has no more
/// bytes than that, or a character ends there.
pub open spec fn can_shorten(id: Seq<char>) -> bool {
    encode_utf8(id).len() > 8 ==> is_char_boundary(encode_utf8(id), 8)
}

/// A correlation id cut behind its eighth byte, with an ellipsis where
/// something was cut off.
pub open spec fn shortened(id: Seq<char>) -> Seq<char> {
    if encode_utf8(id).len() > 8 {
        decode_utf8(encode_utf8(id).take(8)) + "…"@
    } else {
        id
    }
}

/// Cuts a correlation id for the table; the link and the title carry all of it.
pub fn short_correlation(c: &str) -> (r: String)
    requires
        can_shorten(c@),
    ensures
        r@ == shortened(c@),
{
    if c.as_bytes().len() > 8 {
        let head = c.split_at(8).0;
        proof {
            encode_utf8_decode_utf8(head@);
            assert(encode_utf8(c@).subrange(0, 8) == encode_utf8(c@).take(8));
        }
        head.to_string().concat("…")
    } else {
        c.to_string()
    }
}

/// Of an ASCII correlation id, such as a hyphenated UUID, the first eight
/// characters are shown.
pub proof fn law_short_correlation_of_ascii(id: Seq<char>)
    requires
        is_ascii_chars(id),
        id.len() > 8,
    ensures
        can_shorten(id),
        shortened(id) == id.take(8) + "…"@,
{
    is_ascii_chars_encode_utf8(id);
    let head = id.take(8);
    let tail = id.skip(8);
    assert(is_ascii_chars(head));
    assert(is_ascii_chars(tail));
    is_ascii_chars_encode_utf8(head);
    assert(encode_utf8(id).take(8) == encode_utf8(head));
    encode_utf8_decode_utf8(head);
    assert(is_char_boundary(encode_utf8(id), 8)) by {
        vstd::utf8::encode_utf8_valid_utf8(id);
        vstd::utf8::is_char_boundary_iff_is_leading_byte(encode_utf8(id), 8);
    }
}

/// The address of the log with some filters.
pub open spec fn audit_href(f: FiltersView) -> Seq<char> {
    if f.query().len() == 0 {
        "/admin/audit"@
    } else {
        "/admin/audit?"@ + f.query()
    }
}

/// The name of a filter that a chip shows.
#[derive(Clone, Copy, PartialEq, Eq, Structural)]
pub enum Filter {
    ActionType,
    Correlation,
    Actor,
    Case,
    Since,
}

/// Some filters without one of them.
pub open spec fn without(f: FiltersView, skip: Filter) -> FiltersView {
    match skip {
        Filter::ActionType => FiltersView { action_type: None, ..f },
        Filter::Correlation => FiltersView { correlation: None, ..f },
        Filter::Actor => FiltersView { actor: None, ..f },
        Filter::Case => FiltersView { case_id: None, ..f },
        Filter::Since => FiltersView { since: None, ..f },
    }
}

/// The address of the log without one of the filters.
pub fn clear_other(filters: &AuditFilters, skip: Filter) -> (r: String)
    ensures
        r@ == audit_href(without(filters@, skip)),
{
    let mut rest = filters.duplicate();
    match skip {
        Filter::ActionType => {
            rest.action_type = None;
        },
        Filter::Correlation => {
            rest.correlation = None;
        },
        Filter::Actor => {
            rest.actor = None;
        },
        Filter::Case => {
            rest.case_id = None;
        },
        Filter::Since => {
            rest.since = None;
        },
    }
    assert(rest@ == without(filters@, skip));
    let query = rest.to_query_without_page();
    if query.as_str().is_empty() {
        "/admin/audit".to_string()
    } else {
        "/admin/audit?".to_string().concat(query.as_str())
    }
}

/// One chip: a link that takes a filter away, with the filter's label and value.
pub open spec fn chip(
    open: Seq<char>,
    href: Seq<char>,
    label: Seq<char>,
    to_value: Seq<char>,
    value: Seq<char>,
) -> Seq<char> {
    open + escaped(href) + markup::CHIP_TO_LABEL@ + label + to_value + value + markup::CHIP_END@
}

fn chip_html(open: &str, href: &str, label: &str, to_value: &str, value: &str) -> (r: String)
    ensures
        r@ == chip(open@, href@, label@, to_value@, value@),
{
    let mut out = String::from_str(open);
    out.append(escape(href).as_str());
    out.append(markup::CHIP_TO_LABEL);
    out.append(label);
    out.append(to_value);
    out.append(value);
    out.append(markup::CHIP_END);
    out
}

/// The chips for the filters that are set.
pub open spec fn chips(f: FiltersView) -> Seq<char> {
    (match f.action_type {
        Some(text) => chip(
            markup::CHIP_OPEN@,
            audit_href(without(f, Filter::ActionType)),
            "Typ"@,
            markup::CHIP_TO_VALUE@,
            escaped(action_type_label(text)),
        ),
        None => Seq::empty(),
    }) + (match f.correlation {
        Some(text) => chip(
            markup::CORRELATION_CHIP_OPEN@,
            audit_href(without(f, Filter::Correlation)),
            "Korrelation"@,
            markup::CHIP_TO_VALUE@,
            escaped(text),
        ),
        None => Seq::empty(),
    }) + (match f.actor {
        Some(text) => chip(
            markup::CHIP_OPEN@,
            audit_href(without(f, Filter::Actor)),
            "Användare"@,
            markup::CHIP_TO_VALUE@,
            escaped(text),
        ),
        None => Seq::empty(),
    }) + (match f.case_text() {
        Some(text) => chip(
            markup::CHIP_OPEN@,
            audit_href(without(f, Filter::Case)),
            "Ärende"@,
            markup::CHIP_TO_NUMBER@,
            text,
        ),
        None => Seq::empty(),
    }) + (match f.since_text() {
        Some(text) => chip(
            markup::CHIP_OPEN@,
            audit_href(without(f, Filter::Since)),
            "Från"@,
            markup::CHIP_TO_VALUE@,
            escaped(text),
        ),
        None => Seq::empty(),
    })
}

/// Whether any filter is set.
pub open spec fn any_filter(f: FiltersView) -> bool {
    f.action_type is Some || f.correlation is Some || f.actor is Some || f.case_id is Some
        || f.since is Some
}

/// The row of chips, empty without filters.
pub open spec fn filter_chips(f: FiltersView) -> Seq<char> {
    if any_filter(f) {
        markup::CHIP_ROW_TO_CHIPS@ + chips(f) + markup::CHIP_ROW_END@
    } else {
        Seq::empty()
    }
}

/// Renders a chip for each filter that is set.
pub fn render_filter_chips(filters: &AuditFilters) -> (r: String)
    ensures
        r@ == filter_chips(filters@),
{
    let mut row = String::new();
    let mut any = false;
    if let Some(text) = &filters.action_type {
        any = true;
        row.append(
            chip_html(
                markup::CHIP_OPEN,
                clear_other(filters, Filter::ActionType).as_str(),
                "Typ",
                markup::CHIP_TO_VALUE,
                escape(action_type_label_sv(text)).as_str(),
            ).as_str(),
        );
    }
    if let Some(text) = &filters.correlation {
        any = true;
        row.append(
            chip_html(
                markup::CORRELATION_CHIP_OPEN,
                clear_other(filters, Filter::Correlation).as_str(),
                "Korrelation",
                markup::CHIP_TO_VALUE,
                escape(text).as_str(),
            ).as_str(),
        );
    }
    if let Some(text) = &filters.actor {
        any = true;
        row.append(
            chip_html(
                markup::CHIP_OPEN,
                clear_other(filters, Filter::Actor).as_str(),
                "Användare",
                markup::CHIP_TO_VALUE,
                escape(text).as_str(),
            ).as_str(),
        );
    }
    if let Some(id) = filters.case_id {
        any = true;
        row.append(
            chip_html(
                markup::CHIP_OPEN,
                clear_other(filters, Filter::Case).as_str(),
                "Ärende",
                markup::CHIP_TO_NUMBER,
                decimal_text(id).as_str(),
            ).as_str(),
        );
    }
    if let Some(instant) = &filters.since {
        any = true;
        row.append(
            chip_html(
                markup::CHIP_OPEN,
                clear_other(filters, Filter::Since).as_str(),
                "Från",
                markup::CHIP_TO_VALUE,
                escape(instant.date_text().as_str()).as_str(),
            ).as_str(),
        );
    }
    assert(row@ == chips(filters@));
    if any {
        let mut out = String::from_str(markup::CHIP_ROW_TO_CHIPS);
        out.append(row.as_str());
        out.append(markup::CHIP_ROW_END);
        out
    } else {
        String::new()
    }
}

/// One choice of the action-type list.
pub open spec fn action_option(value: Seq<char>, label: Seq<char>, chosen: Seq<char>) -> Seq<char> {
    markup::OPTION_TO_VALUE@ + escaped(value) + markup::OPTION_TO_SELECTED@ + (if value == chosen {
        " selected"@
    } else {
        ""@
    }) + markup::OPTION_TO_LABEL@ + escaped(label) + markup::OPTION_END@
}

fn action_option_html(value: &str, label: &str, chosen: &str) -> (r: String)
    ensures
        r@ == action_option(value@, label@, chosen@),
{
    let mut out = String::from_str(markup::OPTION_TO_VALUE);
    out.append(escape(value).as_str());
    out.append(markup::OPTION_TO_SELECTED);
    out.append(if same_text(value, chosen) { " selected" } else { "" });
    out.append(markup::OPTION_TO_LABEL);
    out.append(escape(label).as_str());
    out.append(markup::OPTION_END);
    out
}

/// The choices of the action-type list, with the chosen one marked.
pub open spec fn action_options(chosen: Seq<char>) -> Seq<char> {
    action_option(""@, "Alla"@, chosen) + action_option("case_opened"@, "Ärende öppnat"@, chosen)
        + action_option("assigned"@, "Tilldelad"@, chosen) + action_option(
        "reassigned"@,
        "Omtilldelad"@,
        chosen,
    ) + action_option("status_changed"@, "Status ändrad"@, chosen) + action_option(
        "note_added"@,
        "Anteckning tillagd"@,
        chosen,
    ) + action_option("disclosure_consumed"@, "Identitet avslöjad"@, chosen)
}

fn action_options_html(chosen: &str) -> (r: String)
    ensures
        r@ == action_options(chosen@),
{
    let mut out = action_option_html("", "Alla", chosen);
    out.append(action_option_html("case_opened", "Ärende öppnat", chosen).as_str());
    out.append(action_option_html("assigned", "Tilldelad", chosen).as_str());
    out.append(action_option_html("reassigned", "Omtilldelad", chosen).as_str());
    out.append(action_option_html("status_changed", "Status ändrad", chosen).as_str());
    out.append(action_option_html("note_added", "Anteckning tillagd", chosen).as_str());
    out.append(action_option_html("disclosure_consumed", "Identitet avslöjad", chosen).as_str());
    out
}

/// A text, empty where it is missing.
pub open spec fn or_empty(text: Option<Seq<char>>) -> Seq<char> {
    match text {
        Some(t) => t,
        None => ""@,
    }
}

fn text_or_empty(text: &Option<String>) -> (r: &str)
    ensures
        r@ == or_empty(opt_text(*text)),
{
    match text {
        Some(t) => t.as_str(),
        None => "",
    }
}

/// The form that sets the filters, filled with those that are set.
pub open spec fn filter_form(f: FiltersView) -> Seq<char> {
    markup::FORM_TO_ACTION_OPTIONS@
        + action_options(or_empty(f.action_type))
        + markup::FORM_TO_CORRELATION@
        + escaped(or_empty(f.correlation))
        + markup::FORM_TO_ACTOR@
        + escaped(or_empty(f.actor))
        + markup::FORM_TO_CASE@
        + escaped(or_empty(f.case_text()))
        + markup::FORM_TO_SINCE@
        + escaped(or_empty(f.since_text()))
        + markup::FORM_END@
}

/// Renders the form that sets the filters.
pub fn render_filter_form(filters: &AuditFilters) -> (r: String)
    ensures
        r@ == filter_form(filters@),
{
    let case_value = match filters.case_id {
        Some(id) => decimal_text(id),
        None => "".to_string(),
    };
    let since_value = match &filters.since {
        Some(instant) => instant.date_text(),
        None => "".to_string(),
    };
    let mut out = String::from_str(markup::FORM_TO_ACTION_OPTIONS);
    out.append(action_options_html(text_or_empty(&filters.action_type)).as_str());
    out.append(markup::FORM_TO_CORRELATION);
    out.append(escape(text_or_empty(&filters.correlation)).as_str());
    out.append(markup::FORM_TO_ACTOR);
    out.append(escape(text_or_empty(&filters.actor)).as_str());
    out.append(markup::FORM_TO_CASE);
    out.append(escape(case_value.as_str()).as_str());
    out.append(markup::FORM_TO_SINCE);
    out.append(escape(since_value.as_str()).as_str());
    out.append(markup::FORM_END);
    out
}

/// The class of a row: disclosures of an identity stand out.
pub open spec fn row_class(action_type: Seq<char>) -> Seq<char> {
    if action_type == "disclosure_consumed"@ {
        "lur-audit-row lur-audit-row-disclose"@
    } else {
        "lur-audit-row"@
    }
}

/// The cell with the correlation id: a link to all entries of the same request.
pub open spec fn correlation_cell(id: Option<Seq<char>>) -> Seq<char> {
    match id {
        Some(c) => markup::CORRELATION_TO_ENCODED@
            + escaped(url_encoded(c))
            + markup::CORRELATION_TO_ID@
            + escaped(c)
            + markup::CORRELATION_TO_TEXT@
            + escaped(shortened(c))
            + markup::CORRELATION_END@,
        None => markup::NO_CORRELATION@,
    }
}

fn correlation_cell_html(id: &Option<String>) -> (r: String)
    requires
        id matches Some(c) ==> can_shorten(c@),
    ensures
        r@ == correlation_cell(opt_text(*id)),
{
    match id {
        Some(c) => {
            let mut out = String::from_str(markup::CORRELATION_TO_ENCODED);
            out.append(escape(urlencode(c).as_str()).as_str());
            out.append(markup::CORRELATION_TO_ID);
            out.append(escape(c).as_str());
            out.append(markup::CORRELATION_TO_TEXT);
            out.append(escape(short_correlation(c).as_str()).as_str());
            out.append(markup::CORRELATION_END);
            out
        },
        None => markup::NO_CORRELATION.to_string(),
    }
}

/// The longest note that is shown in full.
pub const NOTE_MAX: usize = 160;

/// One row of the table.
pub open spec fn audit_row(row: AuditRow) -> Seq<char> {
    markup::ROW_TO_CLASS@
        + row_class(row.action_type@)
        + markup::ROW_TO_WHEN@
        + instant_text(row.created_at@.0, row.created_at@.1, SECOND_PATTERN@)
        + markup::ROW_TO_ACTION@
        + escaped(action_type_label(row.action_type@))
        + markup::ROW_TO_ACTOR_LINK@
        + escaped(url_encoded(row.actor_email@))
        + markup::ROW_TO_ACTOR_NAME@
        + escaped(row.actor_email@)
        + markup::ROW_TO_CASE_ID@
        + decimal(row.case_id as int)
        + markup::ROW_TO_CASE_ID_2@
        + decimal(row.case_id as int)
        + markup::ROW_TO_STATUS@
        + escaped(row.case_status@)
        + markup::ROW_TO_STATUS_LABEL@
        + escaped(status_label(row.case_status@))
        + markup::ROW_TO_CORRELATION@
        + correlation_cell(opt_text(row.correlation_id))
        + markup::ROW_TO_NOTE@
        + escaped(truncated(row.note@, NOTE_MAX as int))
        + markup::ROW_END@
}

fn audit_row_html(row: &AuditRow) -> (r: String)
    requires
        row.correlation_id matches Some(c) ==> can_shorten(c@),
    ensures
        r@ == audit_row(*row),
{
    let class = if same_text(row.action_type.as_str(), "disclosure_consumed") {
        "lur-audit-row lur-audit-row-disclose"
    } else {
        "lur-audit-row"
    };
    let case_id = decimal_text(row.case_id);
    let mut out = String::from_str(markup::ROW_TO_CLASS);
    out.append(class);
    out.append(markup::ROW_TO_WHEN);
    out.append(row.created_at.second_text().as_str());
    out.append(markup::ROW_TO_ACTION);
    out.append(escape(action_type_label_sv(row.action_type.as_str())).as_str());
    out.append(markup::ROW_TO_ACTOR_LINK);
    out.append(escape(urlencode(row.actor_email.as_str()).as_str()).as_str());
    out.append(markup::ROW_TO_ACTOR_NAME);
    out.append(escape(row.actor_email.as_str()).as_str());
    out.append(markup::ROW_TO_CASE_ID);
    out.append(case_id.as_str());
    out.append(markup::ROW_TO_CASE_ID_2);
    out.append(case_id.as_str());
    out.append(markup::ROW_TO_STATUS);
    out.append(escape(row.case_status.as_str()).as_str());
    out.append(markup::ROW_TO_STATUS_LABEL);
    out.append(escape(status_label_sv(row.case_status.as_str())).as_str());
    out.append(markup::ROW_TO_CORRELATION);
    out.append(correlation_cell_html(&row.correlation_id).as_str());
    out.append(markup::ROW_TO_NOTE);
    out.append(escape(truncate(row.note.as_str(), NOTE_MAX).as_str()).as_str());
    out.append(markup::ROW_END);
    out
}

/// The rows of the table, one for each entry.
pub open spec fn audit_row_list(rows: Seq<AuditRow>) -> Seq<char>
    decreases rows.len(),
{
    if rows.len() == 0 {
        Seq::empty()
    } else {
        audit_row_list(rows.drop_last()) + audit_row(rows.last())
    }
}

/// The table of entries.
pub open spec fn audit_table(rows: Seq<AuditRow>) -> Seq<char> {
    if rows.len() == 0 {
        markup::NO_ROWS@
    } else {
        markup::TABLE_OPEN@ + audit_row_list(rows) + markup::TABLE_END@
    }
}

/// Whether the correlation ids of some entries can be cut for the table.
pub open spec fn rows_can_shorten(rows: Seq<AuditRow>) -> bool {
    forall|i: int|
        0 <= i < rows.len() ==> ((#[trigger] rows[i]).correlation_id matches Some(c) ==> can_shorten(
            c@,
        ))
}

/// Renders the table of entries.
pub fn render_rows(rows: &[AuditRow]) -> (r: String)
    requires
        rows_can_shorten(rows@),
    ensures
        r@ == audit_table(rows@),
{
    if rows.len() == 0 {
        return markup::NO_ROWS.to_string();
    }
    let mut list = String::new();
    let mut i: usize = 0;
    assert(rows@.take(0).len() == 0);
    while i < rows.len()
        invariant
            i <= rows@.len(),
            rows_can_shorten(rows@),
            list@ == audit_row_list(rows@.take(i as int)),
        decreases rows@.len() - i,
    {
        list.append(audit_row_html(&rows[i]).as_str());
        assert(rows@.take(i + 1).drop_last() == rows@.take(i as int));
        assert(rows@.take(i + 1).last() == rows@[i as int]);
        i += 1;
    }
    assert(rows@.take(rows@.len() as int) == rows@);
    let mut out = String::from_str(markup::TABLE_OPEN);
    out.append(list.as_str());
    out.append(markup::TABLE_END);
    out
}

/// The number of pages that some entries fill.
pub open spec fn page_count(total: int) -> int {
    (total + PAGE_SIZE - 1) / (PAGE_SIZE as int)
}

/// The address of one page of the log with some filters.
pub open spec fn page_href(f: FiltersView, page: int) -> Seq<char> {
    if f.query().len() == 0 {
        "/admin/audit?page="@ + decimal(page)
    } else {
        "/admin/audit?"@ + f.query() + "&page="@ + decimal(page)
    }
}

fn page_link(query: &str, page: i64) -> (r: String)
    ensures
        r@ == if query@.len() == 0 {
            "/admin/audit?page="@ + decimal(page as int)
        } else {
            "/admin/audit?"@ + query@ + "&page="@ + decimal(page as int)
        },
{
    let number = decimal_text(page);
    if query.is_empty() {
        "/admin/audit?page=".to_string().concat(number.as_str())
    } else {
        "/admin/audit?".to_string().concat(query).concat("&page=").concat(number.as_str())
    }
}

/// The pager: links to the pages before and after the current one, with the
/// filters kept. There is none where everything fits on one page.
pub open spec fn pagination(f: FiltersView, total: int) -> Seq<char> {
    if total <= PAGE_SIZE {
        Seq::empty()
    } else {
        let previous = if f.page > 1 {
            markup::PREVIOUS_TO_LINK@ + escaped(page_href(f, f.page - 1)) + markup::PREVIOUS_END@
        } else {
            markup::NO_PREVIOUS@
        };
        let next = if f.page < page_count(total) {
            markup::NEXT_TO_LINK@ + escaped(page_href(f, f.page + 1)) + markup::NEXT_END@
        } else {
            markup::NO_NEXT@
        };
        markup::PAGER_TO_PREVIOUS@
            + previous
            + markup::PAGER_TO_CURRENT@
            + decimal(f.page)
            + markup::PAGER_TO_PAGES@
            + decimal(page_count(total))
            + markup::PAGER_TO_NEXT@
            + next
            + markup::PAGER_END@
    }
}

/// Renders the pager.
pub fn render_pagination(filters: &AuditFilters, total: i64) -> (r: String)
    ensures
        r@ == pagination(filters@, total as int),
{
    if total <= PAGE_SIZE {
        return String::new();
    }
    let pages: i64 = (total - 1) / PAGE_SIZE + 1;
    assert(pages == page_count(total as int));
    let current: i64 = filters.page;
    let query = filters.to_query_without_page();
    let previous = if current > 1 {
        let mut link = String::from_str(markup::PREVIOUS_TO_LINK);
        link.append(escape(page_link(query.as_str(), current - 1).as_str()).as_str());
        link.append(markup::PREVIOUS_END);
        link
    } else {
        markup::NO_PREVIOUS.to_string()
    };
    let next = if current < pages {
        let mut link = String::from_str(markup::NEXT_TO_LINK);
        link.append(escape(page_link(query.as_str(), current + 1).as_str()).as_str());
        link.append(markup::NEXT_END);
        link
    } else {
        markup::NO_NEXT.to_string()
    };
    let mut out = String::from_str(markup::PAGER_TO_PREVIOUS);
    out.append(previous.as_str());
    out.append(markup::PAGER_TO_CURRENT);
    out.append(decimal_text(current).as_str());
    out.append(markup::PAGER_TO_PAGES);
    out.append(decimal_text(pages).as_str());
    out.append(markup::PAGER_TO_NEXT);
    out.append(next.as_str());
    out.append(markup::PAGER_END);
    out
}

/// Every entry stands on one page: the page numbers run from one to the page
/// count, and the offset and the size of its page enclose the entry and no
/// other page's.
pub proof fn law_pages_cover_the_log(total: int, entry: int, page: int)
    requires
        0 <= entry < total,
    ensures
        1 <= entry / (PAGE_SIZE as int) + 1 <= page_count(total),
        (page - 1) * PAGE_SIZE <= entry < page * PAGE_SIZE <==> page == entry / (PAGE_SIZE as int)
            + 1,
{
}

/// How many entries there are, in words.
pub open spec fn total_label(total: int) -> Seq<char> {
    if total == 1 {
        "1 händelse"@
    } else {
        decimal(total) + " händelser"@
    }
}

/// The page of the log.
pub open spec fn audit_page(
    actor_email: Seq<char>,
    f: FiltersView,
    total: int,
    rows: Seq<AuditRow>,
) -> Seq<char> {
    markup::PAGE_TO_CSS@
        + markup::OPERATOR_CSS@
        + markup::PAGE_TO_ACTOR@
        + escaped(actor_email)
        + markup::PAGE_TO_TOTAL_LABEL@
        + escaped(total_label(total))
        + markup::PAGE_TO_CHIPS@
        + filter_chips(f)
        + markup::PAGE_TO_FILTER_FORM@
        + filter_form(f)
        + markup::PAGE_TO_ROWS@
        + audit_table(rows)
        + markup::PAGE_TO_PAGINATION@
        + pagination(f, total)
        + markup::PAGE_END@
}

/// Renders the page of the log.
pub fn render(actor_email: &str, filters: &AuditFilters, total: i64, rows: &[AuditRow]) -> (r: String)
    requires
        rows_can_shorten(rows@),
    ensures
        r@ == audit_page(actor_email@, filters@, total as int, rows@),
{
    let label = if total == 1 {
        "1 händelse".to_string()
    } else {
        decimal_text(total).concat(" händelser")
    };
    let mut out = String::from_str(markup::PAGE_TO_CSS);
    out.append(operator_css());
    out.append(markup::PAGE_TO_ACTOR);
    out.append(escape(actor_email).as_str());
    out.append(markup::PAGE_TO_TOTAL_LABEL);
    out.append(escape(label.as_str()).as_str());
    out.append(markup::PAGE_TO_CHIPS);
    out.append(render_filter_chips(filters).as_str());
    out.append(markup::PAGE_TO_FILTER_FORM);
    out.append(render_filter_form(filters).as_str());
    out.append(markup::PAGE_TO_ROWS);
    out.append(render_rows(rows).as_str());
    out.append(markup::PAGE_TO_PAGINATION);
    out.append(render_pagination(filters, total).as_str());
    out.append(markup::PAGE_END);
    out
}

/// What to do for a request for the log.
pub enum AuditLog {
    /// Answer without reading anything.
    Answer(Reply),
    /// Run the statements, and render what they give for the user.
    Load { actor_email: String, filters: AuditFilters, query: AuditQuery },
}

/// Whether something is to be done for a request for the log, from its session and
/// its query string.
pub open spec fn is_audit_log(session: Option<Identity>, query: Seq<char>, log: AuditLog) -> bool {
    match refusal(session, MIN_ROLE) {
        Some(path) => log matches AuditLog::Answer(reply) && reply.is_redirect(path),
        None => log matches AuditLog::Load { actor_email, filters, query: statements }
            && actor_email@ == session->0.email@ && filters@ == filters_of(
            urlencoded_fields(query),
        ) && statements.is_for(filters@),
    }
}

/// Begins a request for the log: whoever may read it has their filters read and
/// gets the statements for them, anyone else is sent elsewhere.
pub fn show_audit_log(session: Option<Identity>, query: &str) -> (r: AuditLog)
    ensures
        is_audit_log(session, query@, r),
{
    match require_role(session, MIN_ROLE) {
        AccessGuard::Redirect(reply) => AuditLog::Answer(reply),
        AccessGuard::Allow(identity) => {
            let filters = AuditFilters::from_request(query);
            let statements = audit_query(&filters);
            AuditLog::Load { actor_email: identity.email, filters, query: statements }
        },
    }
}

/// Whether a reply answers a request for the log with what its statements gave.
pub open spec fn is_answer(
    actor_email: Seq<char>,
    f: FiltersView,
    total: int,
    rows: Seq<AuditRow>,
    reply: Reply,
) -> bool {
    reply.is_page(OK, audit_page(actor_email, f, total, rows))
}

/// Answers a request for the log with what its statements gave.
pub fn audit_log_reply(
    actor_email: &str,
    filters: &AuditFilters,
    total: i64,
    rows: &[AuditRow],
) -> (r: Reply)
    requires
        rows_can_shorten(rows@),
    ensures
        is_answer(actor_email@, filters@, total as int, rows@, r),
{
    Reply::html(render(actor_email, filters, total, rows))
}

/// An entry of the log: an action on a case, with the user who did it, if there
/// still is one, and the case.
pub open spec fn log_entry(
    action: Map<Seq<char>, ValueView>,
    user: Option<Map<Seq<char>, ValueView>>,
    case: Map<Seq<char>, ValueView>,
) -> Map<Seq<char>, ValueView> {
    map![
        "ca.id"@ => action["id"@],
        "ca.case_id"@ => action["case_id"@],
        "ca.action_type"@ => action["action_type"@],
        "ca.note"@ => action["note"@],
        "ca.created_at"@ => action["created_at"@],
        "ca.correlation_id"@ => action["correlation_id"@],
        "u.email"@ => match user {
            Some(found) => found["email"@],
            None => ValueView::Null,
        },
        "c.status"@ => case["status"@],
    ]
}

/// The source of the statements: an entry for each action whose case there is.
pub open spec fn log_source(
    case_actions: Seq<Map<Seq<char>, ValueView>>,
    users: Seq<Map<Seq<char>, ValueView>>,
    cases: Seq<Map<Seq<char>, ValueView>>,
) -> Seq<Map<Seq<char>, ValueView>>
    decreases case_actions.len(),
{
    if case_actions.len() == 0 {
        Seq::empty()
    } else {
        let action = case_actions.last();
        log_source(case_actions.drop_last(), users, cases) + match row_with(
            cases,
            "id"@,
            action["case_id"@],
        ) {
            Some(case) => seq![
                log_entry(action, row_with(users, "id"@, action["actor_id"@]), case),
            ],
            None => Seq::empty(),
        }
    }
}

/// Whether a row of the page shows an entry.
pub open spec fn is_log_row(row: AuditRow, entry: Map<Seq<char>, ValueView>) -> bool {
    &&& entry["ca.id"@] == ValueView::I64(row.id)
    &&& entry["ca.case_id"@] == ValueView::I64(row.case_id)
    &&& entry["ca.action_type"@] == ValueView::Text(row.action_type@)
    &&& entry["ca.note"@] == ValueView::Text(row.note@)
    &&& entry["ca.created_at"@] == ValueView::DateTime(row.created_at@)
    &&& entry["ca.correlation_id"@] == match opt_text(row.correlation_id) {
        Some(id) => ValueView::Text(id),
        None => ValueView::Null,
    }
    &&& row.actor_email@ == match entry["u.email"@] {
        ValueView::Text(email) => email,
        _ => "<deleted>"@,
    }
    &&& entry["c.status"@] == ValueView::Text(row.case_status@)
}

/// The part of a list that one page shows.
pub open spec fn page_of<T>(all: Seq<T>, offset: int) -> Seq<T> {
    if offset >= all.len() {
        Seq::empty()
    } else if offset + PAGE_SIZE >= all.len() {
        all.skip(offset)
    } else {
        all.subrange(offset, offset + PAGE_SIZE)
    }
}

/// Whether some rows and a number are what the statements for some filters give
/// of a source.
pub open spec fn is_answer_of(
    source: Seq<Map<Seq<char>, ValueView>>,
    f: FiltersView,
    lower: spec_fn(Seq<char>) -> Seq<char>,
    rows: Seq<AuditRow>,
    total: int,
) -> bool {
    exists|read: Seq<Map<Seq<char>, ValueView>>|
        {
            &&& #[trigger] log_select(f).gives(source, lower, read)
            &&& total == read.len()
            &&& rows.len() == page_of(read, page_offset(f)).len()
            &&& forall|i: int|
                0 <= i < rows.len() ==> is_log_row(
                    #[trigger] rows[i],
                    page_of(read, page_offset(f))[i],
                )
        }
}

/// Whether some rows and a number are what the statements for some filters give
/// where the tables hold some rows.
pub open spec fn is_log_answer(
    tables: Tables,
    f: FiltersView,
    lower: spec_fn(Seq<char>) -> Seq<char>,
    rows: Seq<AuditRow>,
    total: int,
) -> bool {
    is_answer_of(
        log_source(tables.case_actions, tables.users, tables.cases),
        f,
        lower,
        rows,
        total,
    )
}

/// Whether a reply is one that a request for the log can get where the tables
/// hold some rows.
pub open spec fn is_log_reply(
    tables: Tables,
    f: FiltersView,
    lower: spec_fn(Seq<char>) -> Seq<char>,
    actor_email: Seq<char>,
    reply: Reply,
) -> bool {
    exists|rows: Seq<AuditRow>, total: int|
        #[trigger] is_log_answer(tables, f, lower, rows, total) && reply.is_page(
            OK,
            audit_page(actor_email, f, total, rows),
        )
}

/// The log tells nothing of the reports: whatever they hold, the addresses of the
/// reporters with the rest, a request can get the same replies.
pub proof fn law_log_tells_nothing_of_reports(
    tables: Tables,
    reports: Seq<Map<Seq<char>, ValueView>>,
    f: FiltersView,
    lower: spec_fn(Seq<char>) -> Seq<char>,
    actor_email: Seq<char>,
    reply: Reply,
)
    ensures
        is_log_reply(tables, f, lower, actor_email, reply) <==> is_log_reply(
            (Tables { reports, ..tables }),
            f,
            lower,
            actor_email,
            reply,
        ),
{
    let other = Tables { reports, ..tables };
    if is_log_reply(tables, f, lower, actor_email, reply) {
        let (rows, total) = choose|rows: Seq<AuditRow>, total: int|
            #[trigger] is_log_answer(tables, f, lower, rows, total) && reply.is_page(
                OK,
                audit_page(actor_email, f, total, rows),
            );
        assert(is_log_answer(other, f, lower, rows, total));
    }
    if is_log_reply(other, f, lower, actor_email, reply) {
        let (rows, total) = choose|rows: Seq<AuditRow>, total: int|
            #[trigger] is_log_answer(other, f, lower, rows, total) && reply.is_page(
                OK,
                audit_page(actor_email, f, total, rows),
            );
        assert(is_log_answer(tables, f, lower, rows, total));
    }
}

/// Whether a word stands somewhere in a text.
pub open spec fn names(text: Seq<char>, word: Seq<char>) -> bool {
    exists|k: int|
        0 <= k && k + word.len() <= text.len() && #[trigger] text.subrange(k, k + word.len())
            == word
}

/// Whether each `p` in a text is followed by a letter that is not `o`.
spec fn parts_p_from_o(text: Seq<char>) -> bool {
    forall|i: int|
        0 <= i < text.len() && #[trigger] text[i] == 'p' ==> i + 1 < text.len() && text[i + 1]
            != 'o'
}

proof fn lemma_parts_added(a: Seq<char>, b: Seq<char>)
    requires
        parts_p_from_o(a),
        parts_p_from_o(b),
    ensures
        parts_p_from_o(a + b),
{
    let all = a + b;
    assert forall|i: int| 0 <= i < all.len() && #[trigger] all[i] == 'p' implies i + 1 < all.len()
        && all[i + 1] != 'o' by {
        if i < a.len() {
            assert(a[i] == 'p');
        } else {
            assert(b[i - a.len()] == 'p');
        }
    }
}

proof fn lemma_parts_joined(parts: Seq<Seq<char>>)
    requires
        forall|i: int| 0 <= i < parts.len() ==> parts_p_from_o(#[trigger] parts[i]),
    ensures
        parts_p_from_o(joined(parts, " AND "@)),
    decreases parts.len(),
{
    reveal_strlit(" AND ");
    if parts.len() > 1 {
        lemma_parts_joined(parts.drop_last());
        lemma_parts_added(joined(parts.drop_last(), " AND "@), " AND "@);
        lemma_parts_added(joined(parts.drop_last(), " AND "@) + " AND "@, parts.last());
    }
}

proof fn lemma_parts_of_number(n: int)
    ensures
        parts_p_from_o(decimal(n)),
{
    lemma_decimal_chars(n);
}

proof fn lemma_parts_of_condition(c: ConditionView, number: int)
    requires
        parts_p_from_o(c.column),
    ensures
        parts_p_from_o(condition_text(c, number)),
{
    reveal_strlit(" = $");
    reveal_strlit("LOWER(");
    reveal_strlit(") = LOWER($");
    reveal_strlit(")");
    reveal_strlit(" >= $");
    reveal_strlit(" < $");
    lemma_parts_of_number(number);
    match c.comparison {
        Comparison::Equal => {
            lemma_parts_added(c.column, " = $"@);
            lemma_parts_added(c.column + " = $"@, decimal(number));
        },
        Comparison::EqualIgnoringCase => {
            lemma_parts_added("LOWER("@, c.column);
            lemma_parts_added("LOWER("@ + c.column, ") = LOWER($"@);
            lemma_parts_added("LOWER("@ + c.column + ") = LOWER($"@, decimal(number));
            lemma_parts_added("LOWER("@ + c.column + ") = LOWER($"@ + decimal(number), ")"@);
        },
        Comparison::AtLeast => {
            lemma_parts_added(c.column, " >= $"@);
            lemma_parts_added(c.column + " >= $"@, decimal(number));
        },
        Comparison::Before => {
            lemma_parts_added(c.column, " < $"@);
            lemma_parts_added(c.column + " < $"@, decimal(number));
        },
    }
}

proof fn lemma_parts_of_conditions(f: FiltersView)
    ensures
        parts_p_from_o(where_text(log_conditions(f))),
{
    reveal_strlit("ca.action_type");
    reveal_strlit("ca.correlation_id");
    reveal_strlit("u.email");
    reveal_strlit("ca.case_id");
    reveal_strlit("ca.created_at");
    reveal_strlit(" WHERE ");
    let all = log_conditions(f);
    if all.len() > 0 {
        let parts = numbered(all);
        assert forall|i: int| 0 <= i < parts.len() implies parts_p_from_o(#[trigger] parts[i]) by {
            assert(parts_p_from_o(all[i].column));
            lemma_parts_of_condition(all[i], i + 1);
        }
        lemma_parts_joined(parts);
        lemma_parts_added(" WHERE "@, joined(parts, " AND "@));
    }
}

proof fn lemma_parts_name_no_reports(text: Seq<char>)
    requires
        parts_p_from_o(text),
    ensures
        !names(text, "reports"@),
{
    reveal_strlit("reports");
    if names(text, "reports"@) {
        let k = choose|k: int|
            0 <= k && k + "reports"@.len() <= text.len() && #[trigger] text.subrange(
                k,
                k + "reports"@.len(),
            ) == "reports"@;
        let found = text.subrange(k, k + "reports"@.len());
        assert(found[2] == 'p' && found[3] == 'o');
        assert(text[k + 2] == 'p' && text[k + 3] == 'o');
    }
}

/// Neither statement behind the log names the table of the reports, whatever the
/// filters are.
pub proof fn law_log_statements_leave_reports_alone(f: FiltersView)
    ensures
        !names(log_select(f).page_text(), "reports"@),
        !names(log_select(f).count_text(), "reports"@),
{
    reveal_strlit("SELECT ");
    reveal_strlit("SELECT COUNT(*) FROM ");
    reveal_strlit(" FROM ");
    reveal_strlit(" ORDER BY ");
    reveal_strlit("ca.created_at");
    reveal_strlit(" DESC");
    reveal_strlit(" LIMIT $");
    reveal_strlit(" OFFSET $");
    reveal_strlit(
        "ca.id, ca.case_id, ca.action_type, ca.note, ca.created_at, ca.correlation_id, COALESCE(u.email, '<deleted>') AS actor_email, c.status AS case_status",
    );
    reveal_strlit(
        "case_actions ca LEFT JOIN rustio_users u ON u.id = ca.actor_id JOIN cases c ON c.id = ca.case_id ",
    );
    let select = log_select(f);
    let conditions = where_text(select.conditions);
    let n = select.conditions.len() as int;
    lemma_parts_of_conditions(f);
    lemma_parts_of_number(n + 1);
    lemma_parts_of_number(n + 2);
    let t1 = "SELECT "@ + select.columns;
    lemma_parts_added("SELECT "@, select.columns);
    let t2 = t1 + " FROM "@;
    lemma_parts_added(t1, " FROM "@);
    let t3 = t2 + select.source;
    lemma_parts_added(t2, select.source);
    let t4 = t3 + conditions;
    lemma_parts_added(t3, conditions);
    let t5 = t4 + " ORDER BY "@;
    lemma_parts_added(t4, " ORDER BY "@);
    let t6 = t5 + select.order;
    lemma_parts_added(t5, select.order);
    let t7 = t6 + " DESC"@;
    lemma_parts_added(t6, " DESC"@);
    let t8 = t7 + " LIMIT $"@;
    lemma_parts_added(t7, " LIMIT $"@);
    let t9 = t8 + decimal(n + 1);
    lemma_parts_added(t8, decimal(n + 1));
    let t10 = t9 + " OFFSET $"@;
    lemma_parts_added(t9, " OFFSET $"@);
    lemma_parts_added(t10, decimal(n + 2));
    lemma_parts_name_no_reports(select.page_text());
    let c1 = "SELECT COUNT(*) FROM "@ + select.source;
    lemma_parts_added("SELECT COUNT(*) FROM "@, select.source);
    lemma_parts_added(c1, conditions);
    lemma_parts_name_no_reports(select.count_text());
}

}
