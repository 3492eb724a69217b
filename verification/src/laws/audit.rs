//! What the audit log is asked for, and what it shows.

use vstd::prelude::*;
use vstd::utf8::encode_utf8;

use crate::auth_helper::{Identity, Role};
use crate::form::{url_encoded, urlencoded_fields};
use crate::handlers::audit::{
    action_option, action_options, any_filter, audit_href, audit_page, audit_row, audit_row_list,
    audit_table, chips, correlation_cell, filter_chips, filter_form, filters_of, is_answer,
    is_audit_log, log_conditions, log_select, or_empty, page_count, page_href, pagination,
    row_class, shortened, total_label, without, AuditLog, AuditQuery, AuditRow, Filter, FiltersView,
};
use crate::html::escaped;
use crate::labels::{action_type_label, status_label};
use crate::markup::audit as markup;
use crate::models::ValueView;
use crate::reply::Reply;
use crate::statement::{
    condition_text, lemma_condition_stands_in_text, value_views, where_text, Comparison,
};
use crate::text::{
    concat, decimal, holds, joined, lemma_holds_between, lemma_holds_longer, lemma_holds_within,
    lemma_joined_holds_each, lemma_neighbours, opt_text, parsed_i64, truncated,
};
use crate::time::{instant_text, parsed_date};

verus! {

/// Each filter is set by its own field, and by nothing else: a text by a field
/// that is not empty, the case by a number, the date by a date; the page is the
/// number of its field, moved into the range from 1 to 200, and 1 where there is
/// none. What the other fields hold, or whether they are there, does not matter.
pub proof fn law_each_filter_is_its_own_field(
    fields: Map<Seq<char>, Seq<char>>,
    text: Seq<char>,
    n: int,
    day: int,
)
    ensures
        filters_of(fields).action_type == Some(text) <==> fields.contains_key("action_type"@)
            && fields["action_type"@] == text && text.len() > 0,
        filters_of(fields).correlation == Some(text) <==> fields.contains_key("correlation"@)
            && fields["correlation"@] == text && text.len() > 0,
        filters_of(fields).actor == Some(text) <==> fields.contains_key("actor"@)
            && fields["actor"@] == text && text.len() > 0,
        filters_of(fields).case_id == Some(n) <==> fields.contains_key("case"@) && parsed_i64(
            fields["case"@],
        ) == Some(n),
        filters_of(fields).since == Some((day * 86400, 0int)) <==> fields.contains_key("since"@)
            && parsed_date(fields["since"@], "%Y-%m-%d"@) == Some(day),
        filters_of(fields).since is Some <==> fields.contains_key("since"@) && parsed_date(
            fields["since"@],
            "%Y-%m-%d"@,
        ) is Some,
        !fields.contains_key("page"@) || parsed_i64(fields["page"@]) is None ==> filters_of(
            fields,
        ).page == 1,
        fields.contains_key("page"@) && parsed_i64(fields["page"@]) == Some(n) ==> filters_of(
            fields,
        ).page == if n < 1 {
            1
        } else if n > 200 {
            200
        } else {
            n
        },
{
}

/// Whether a field is the same in two queries: missing in both, or there with the
/// same value.
pub open spec fn same_field(
    fields: Map<Seq<char>, Seq<char>>,
    other: Map<Seq<char>, Seq<char>>,
    name: Seq<char>,
) -> bool {
    fields.contains_key(name) == other.contains_key(name) && (fields.contains_key(name)
        ==> fields[name] == other[name])
}

/// No filter depends on the field of another: two queries that agree on a field
/// agree on its filter, whatever else they hold.
pub proof fn law_filters_do_not_depend_on_each_other(
    fields: Map<Seq<char>, Seq<char>>,
    other: Map<Seq<char>, Seq<char>>,
)
    ensures
        same_field(fields, other, "action_type"@) ==> filters_of(fields).action_type == filters_of(
            other,
        ).action_type,
        same_field(fields, other, "correlation"@) ==> filters_of(fields).correlation == filters_of(
            other,
        ).correlation,
        same_field(fields, other, "actor"@) ==> filters_of(fields).actor == filters_of(other).actor,
        same_field(fields, other, "case"@) ==> filters_of(fields).case_id == filters_of(
            other,
        ).case_id,
        same_field(fields, other, "since"@) ==> filters_of(fields).since == filters_of(other).since,
        same_field(fields, other, "page"@) ==> filters_of(fields).page == filters_of(other).page,
{
}

/// Whoever is active and an auditor or above has the log read with the filters of
/// the query, under their own name.
pub proof fn law_log_is_read_with_the_filters_of_the_query(
    reader: Identity,
    query: Seq<char>,
    log: AuditLog,
)
    requires
        reader.is_active,
        reader.role != Role::User,
        reader.role != Role::Staff,
        is_audit_log(Some(reader), query, log),
    ensures
        log matches AuditLog::Load { actor_email, filters, query: statements } && actor_email@
            == reader.email@ && filters@ == filters_of(urlencoded_fields(query))
            && statements.is_for(filters@),
{
}

/// Nobody else reads the log: without a session, or deactivated, a caller is sent
/// to the login page, and with a lower role to the landing page.
pub proof fn law_log_is_for_auditors(session: Option<Identity>, query: Seq<char>, log: AuditLog)
    requires
        is_audit_log(session, query, log),
    ensures
        session is None ==> (log matches AuditLog::Answer(Reply::Redirect { location }) && location@
            == "/admin/login"@),
        session matches Some(caller) ==> (!caller.is_active ==> (
        log matches AuditLog::Answer(Reply::Redirect { location }) && location@ == "/admin/login"@)),
        session matches Some(caller) ==> (caller.is_active && (caller.role == Role::User
            || caller.role == Role::Staff) ==> (
        log matches AuditLog::Answer(Reply::Redirect { location }) && location@ == "/admin"@)),
{
}

/// Whether a statement has a condition, with a given value at its placeholder.
pub open spec fn has_condition(
    sql: Seq<char>,
    binds: Seq<ValueView>,
    index: int,
    before: Seq<char>,
    after: Seq<char>,
    value: ValueView,
) -> bool {
    &&& 0 <= index < binds.len()
    &&& binds[index] == value
    &&& holds(sql, before + decimal(index + 1) + after)
}

/// How many of some filters are set.
pub open spec fn set_before(f: FiltersView, filter: Filter) -> int {
    let n1 = (if f.action_type is Some { 1int } else { 0 });
    let n2 = n1 + (if f.correlation is Some { 1int } else { 0 });
    let n3 = n2 + (if f.actor is Some { 1int } else { 0 });
    let n4 = n3 + (if f.case_id is Some { 1int } else { 0 });
    match filter {
        Filter::ActionType => 0,
        Filter::Correlation => n1,
        Filter::Actor => n2,
        Filter::Case => n3,
        Filter::Since => n4,
    }
}

/// Each filter that is set has its condition in both statements, with its value
/// at the placeholder; there are no others. The page is read with the newest entry
/// first, 50 entries from behind those of the pages before it.
pub proof fn law_statements_ask_for_the_filters(f: FiltersView, query: AuditQuery)
    requires
        query.is_for(f),
        1 <= f.page <= 200,
        f.case_id matches Some(id) ==> i64::MIN <= id <= i64::MAX,
    ensures
        ({
            let list = value_views(query.list.binds@);
            let count = value_views(query.count.binds@);
            let n = set_before(f, Filter::Since) + (if f.since is Some { 1int } else { 0 });
            &&& count.len() == n
            &&& list.len() == n + 2
            &&& list.take(n) == count
            &&& list[n] == ValueView::I64(50)
            &&& list[n + 1] == ValueView::I64(((f.page - 1) * 50) as i64)
            &&& query.list.sql@ == "SELECT "@ + markup::LOG_COLUMNS@ + " FROM "@
                + markup::LOG_SOURCE@ + where_text(log_conditions(f)) + " ORDER BY "@
                + "ca.created_at"@ + " DESC"@ + " LIMIT $"@ + decimal(n + 1) + " OFFSET $"@
                + decimal(n + 2)
            &&& query.count.sql@ == "SELECT COUNT(*) FROM "@ + markup::LOG_SOURCE@ + where_text(
                log_conditions(f),
            )
        }),
        f.action_type matches Some(value) ==> has_condition(
            query.list.sql@,
            value_views(query.list.binds@),
            set_before(f, Filter::ActionType),
            "ca.action_type"@ + " = $"@,
            Seq::empty(),
            ValueView::Text(value),
        ),
        f.action_type matches Some(value) ==> has_condition(
            query.count.sql@,
            value_views(query.count.binds@),
            set_before(f, Filter::ActionType),
            "ca.action_type"@ + " = $"@,
            Seq::empty(),
            ValueView::Text(value),
        ),
        f.correlation matches Some(value) ==> has_condition(
            query.list.sql@,
            value_views(query.list.binds@),
            set_before(f, Filter::Correlation),
            "ca.correlation_id"@ + " = $"@,
            Seq::empty(),
            ValueView::Text(value),
        ),
        f.correlation matches Some(value) ==> has_condition(
            query.count.sql@,
            value_views(query.count.binds@),
            set_before(f, Filter::Correlation),
            "ca.correlation_id"@ + " = $"@,
            Seq::empty(),
            ValueView::Text(value),
        ),
        f.actor matches Some(value) ==> has_condition(
            query.list.sql@,
            value_views(query.list.binds@),
            set_before(f, Filter::Actor),
            "LOWER("@ + "u.email"@ + ") = LOWER($"@,
            ")"@,
            ValueView::Text(value),
        ),
        f.actor matches Some(value) ==> has_condition(
            query.count.sql@,
            value_views(query.count.binds@),
            set_before(f, Filter::Actor),
            "LOWER("@ + "u.email"@ + ") = LOWER($"@,
            ")"@,
            ValueView::Text(value),
        ),
        f.case_id matches Some(value) ==> has_condition(
            query.list.sql@,
            value_views(query.list.binds@),
            set_before(f, Filter::Case),
            "ca.case_id"@ + " = $"@,
            Seq::empty(),
            ValueView::I64(value as i64),
        ),
        f.case_id matches Some(value) ==> has_condition(
            query.count.sql@,
            value_views(query.count.binds@),
            set_before(f, Filter::Case),
            "ca.case_id"@ + " = $"@,
            Seq::empty(),
            ValueView::I64(value as i64),
        ),
        f.since matches Some(value) ==> has_condition(
            query.list.sql@,
            value_views(query.list.binds@),
            set_before(f, Filter::Since),
            "ca.created_at"@ + " >= $"@,
            Seq::empty(),
            ValueView::DateTime(value),
        ),
        f.since matches Some(value) ==> has_condition(
            query.count.sql@,
            value_views(query.count.binds@),
            set_before(f, Filter::Since),
            "ca.created_at"@ + " >= $"@,
            Seq::empty(),
            ValueView::DateTime(value),
        ),
{
    let select = log_select(f);
    let all = log_conditions(f);
    let list = value_views(query.list.binds@);
    let count = value_views(query.count.binds@);
    let n = set_before(f, Filter::Since) + (if f.since is Some { 1int } else { 0 });
    assert(all.len() == n);
    assert(select.values().len() == n);
    assert(count == select.values());
    assert(list.take(n) =~= count);
    assert forall|i: int| 0 <= i < n implies #[trigger] list[i] == all[i].value && holds(
        query.list.sql@,
        condition_text(all[i], i + 1),
    ) && holds(query.count.sql@, condition_text(all[i], i + 1)) by {
        assert(list.take(n)[i] == list[i]);
        lemma_condition_stands_in_text(select, i);
    }
    if f.action_type is Some {
        let i = set_before(f, Filter::ActionType);
        assert(all[i].column == "ca.action_type"@ && all[i].comparison == Comparison::Equal);
        assert(list[i] == all[i].value);
        assert(list.take(n)[i] == list[i]);
        assert(condition_text(all[i], i + 1) =~= "ca.action_type"@ + " = $"@ + decimal(i + 1) + Seq::<char>::empty());
    }
    if f.correlation is Some {
        let i = set_before(f, Filter::Correlation);
        assert(all[i].column == "ca.correlation_id"@ && all[i].comparison == Comparison::Equal);
        assert(list[i] == all[i].value);
        assert(list.take(n)[i] == list[i]);
        assert(condition_text(all[i], i + 1) =~= "ca.correlation_id"@ + " = $"@ + decimal(i + 1) + Seq::<char>::empty());
    }
    if f.actor is Some {
        let i = set_before(f, Filter::Actor);
        assert(all[i].column == "u.email"@ && all[i].comparison == Comparison::EqualIgnoringCase);
        assert(list[i] == all[i].value);
        assert(list.take(n)[i] == list[i]);
        assert(condition_text(all[i], i + 1) =~= "LOWER("@ + "u.email"@ + ") = LOWER($"@ + decimal(i + 1) + ")"@);
    }
    if f.case_id is Some {
        let i = set_before(f, Filter::Case);
        assert(all[i].column == "ca.case_id"@ && all[i].comparison == Comparison::Equal);
        assert(list[i] == all[i].value);
        assert(list.take(n)[i] == list[i]);
        assert(condition_text(all[i], i + 1) =~= "ca.case_id"@ + " = $"@ + decimal(i + 1) + Seq::<char>::empty());
    }
    if f.since is Some {
        let i = set_before(f, Filter::Since);
        assert(all[i].column == "ca.created_at"@ && all[i].comparison == Comparison::AtLeast);
        assert(list[i] == all[i].value);
        assert(list.take(n)[i] == list[i]);
        assert(condition_text(all[i], i + 1) =~= "ca.created_at"@ + " >= $"@ + decimal(i + 1) + Seq::<char>::empty());
    }
}

/// The page holds who is logged in, how many entries there are, and the chips, the
/// form, the table and the pager.
pub proof fn law_page_shows_its_parts(
    actor_email: Seq<char>,
    f: FiltersView,
    total: int,
    rows: Seq<AuditRow>,
)
    ensures
        holds(
            audit_page(actor_email, f, total, rows),
            markup::PAGE_TO_CSS@ + markup::OPERATOR_CSS@ + markup::PAGE_TO_ACTOR@,
        ),
        holds(
            audit_page(actor_email, f, total, rows),
            markup::PAGE_TO_ACTOR@ + escaped(actor_email) + markup::PAGE_TO_TOTAL_LABEL@,
        ),
        holds(
            audit_page(actor_email, f, total, rows),
            markup::PAGE_TO_TOTAL_LABEL@ + escaped(total_label(total)) + markup::PAGE_TO_CHIPS@,
        ),
        holds(
            audit_page(actor_email, f, total, rows),
            markup::PAGE_TO_CHIPS@ + filter_chips(f) + markup::PAGE_TO_FILTER_FORM@,
        ),
        holds(
            audit_page(actor_email, f, total, rows),
            markup::PAGE_TO_FILTER_FORM@ + filter_form(f) + markup::PAGE_TO_ROWS@,
        ),
        holds(
            audit_page(actor_email, f, total, rows),
            markup::PAGE_TO_ROWS@ + audit_table(rows) + markup::PAGE_TO_PAGINATION@,
        ),
        holds(
            audit_page(actor_email, f, total, rows),
            markup::PAGE_TO_PAGINATION@ + pagination(f, total) + markup::PAGE_END@,
        ),
{
    let pieces = seq![
        markup::PAGE_TO_CSS@,
        markup::OPERATOR_CSS@,
        markup::PAGE_TO_ACTOR@,
        escaped(actor_email),
        markup::PAGE_TO_TOTAL_LABEL@,
        escaped(total_label(total)),
        markup::PAGE_TO_CHIPS@,
        filter_chips(f),
        markup::PAGE_TO_FILTER_FORM@,
        filter_form(f),
        markup::PAGE_TO_ROWS@,
        audit_table(rows),
        markup::PAGE_TO_PAGINATION@,
        pagination(f, total),
        markup::PAGE_END@,
    ];
    assert(audit_page(actor_email, f, total, rows) == concat(pieces, 15)) by {
        reveal_with_fuel(concat, 16);
    }
    lemma_neighbours(pieces, 15, 0);
    lemma_neighbours(pieces, 15, 2);
    lemma_neighbours(pieces, 15, 4);
    lemma_neighbours(pieces, 15, 6);
    lemma_neighbours(pieces, 15, 8);
    lemma_neighbours(pieces, 15, 10);
    lemma_neighbours(pieces, 15, 12);
}

/// The form holds the filters that are set, each whole and in its own field.
pub proof fn law_form_shows_the_filters(f: FiltersView)
    ensures
        holds(
            filter_form(f),
            markup::FORM_TO_ACTION_OPTIONS@ + action_options(or_empty(f.action_type)) + markup::FORM_TO_CORRELATION@,
        ),
        holds(
            filter_form(f),
            markup::FORM_TO_CORRELATION@ + escaped(or_empty(f.correlation)) + markup::FORM_TO_ACTOR@,
        ),
        holds(
            filter_form(f),
            markup::FORM_TO_ACTOR@ + escaped(or_empty(f.actor)) + markup::FORM_TO_CASE@,
        ),
        holds(
            filter_form(f),
            markup::FORM_TO_CASE@ + escaped(or_empty(f.case_text())) + markup::FORM_TO_SINCE@,
        ),
        holds(
            filter_form(f),
            markup::FORM_TO_SINCE@ + escaped(or_empty(f.since_text())) + markup::FORM_END@,
        ),
{
    let pieces = seq![
        markup::FORM_TO_ACTION_OPTIONS@,
        action_options(or_empty(f.action_type)),
        markup::FORM_TO_CORRELATION@,
        escaped(or_empty(f.correlation)),
        markup::FORM_TO_ACTOR@,
        escaped(or_empty(f.actor)),
        markup::FORM_TO_CASE@,
        escaped(or_empty(f.case_text())),
        markup::FORM_TO_SINCE@,
        escaped(or_empty(f.since_text())),
        markup::FORM_END@,
    ];
    assert(filter_form(f) == concat(pieces, 11)) by {
        reveal_with_fuel(concat, 12);
    }
    lemma_neighbours(pieces, 11, 0);
    lemma_neighbours(pieces, 11, 2);
    lemma_neighbours(pieces, 11, 4);
    lemma_neighbours(pieces, 11, 6);
    lemma_neighbours(pieces, 11, 8);
}

/// A row of the table holds what is known of its entry: when, what, who, the case
/// and its status, the correlation id, and the note up to 160 characters.
pub proof fn law_row_shows_its_entry(row: AuditRow)
    ensures
        holds(
            audit_row(row),
            markup::ROW_TO_CLASS@ + row_class(row.action_type@) + markup::ROW_TO_WHEN@,
        ),
        holds(
            audit_row(row),
            markup::ROW_TO_WHEN@ + instant_text(row.created_at@.0, row.created_at@.1, "%Y-%m-%d %H:%M:%S"@) + markup::ROW_TO_ACTION@,
        ),
        holds(
            audit_row(row),
            markup::ROW_TO_ACTION@ + escaped(action_type_label(row.action_type@)) + markup::ROW_TO_ACTOR_LINK@,
        ),
        holds(
            audit_row(row),
            markup::ROW_TO_ACTOR_LINK@ + escaped(url_encoded(row.actor_email@)) + markup::ROW_TO_ACTOR_NAME@,
        ),
        holds(
            audit_row(row),
            markup::ROW_TO_ACTOR_NAME@ + escaped(row.actor_email@) + markup::ROW_TO_CASE_ID@,
        ),
        holds(
            audit_row(row),
            markup::ROW_TO_CASE_ID@ + decimal(row.case_id as int) + markup::ROW_TO_CASE_ID_2@,
        ),
        holds(
            audit_row(row),
            markup::ROW_TO_CASE_ID_2@ + decimal(row.case_id as int) + markup::ROW_TO_STATUS@,
        ),
        holds(
            audit_row(row),
            markup::ROW_TO_STATUS@ + escaped(row.case_status@) + markup::ROW_TO_STATUS_LABEL@,
        ),
        holds(
            audit_row(row),
            markup::ROW_TO_STATUS_LABEL@ + escaped(status_label(row.case_status@)) + markup::ROW_TO_CORRELATION@,
        ),
        holds(
            audit_row(row),
            markup::ROW_TO_CORRELATION@ + correlation_cell(opt_text(row.correlation_id)) + markup::ROW_TO_NOTE@,
        ),
        holds(
            audit_row(row),
            markup::ROW_TO_NOTE@ + escaped(truncated(row.note@, 160)) + markup::ROW_END@,
        ),
{
    let pieces = seq![
        markup::ROW_TO_CLASS@,
        row_class(row.action_type@),
        markup::ROW_TO_WHEN@,
        instant_text(row.created_at@.0, row.created_at@.1, "%Y-%m-%d %H:%M:%S"@),
        markup::ROW_TO_ACTION@,
        escaped(action_type_label(row.action_type@)),
        markup::ROW_TO_ACTOR_LINK@,
        escaped(url_encoded(row.actor_email@)),
        markup::ROW_TO_ACTOR_NAME@,
        escaped(row.actor_email@),
        markup::ROW_TO_CASE_ID@,
        decimal(row.case_id as int),
        markup::ROW_TO_CASE_ID_2@,
        decimal(row.case_id as int),
        markup::ROW_TO_STATUS@,
        escaped(row.case_status@),
        markup::ROW_TO_STATUS_LABEL@,
        escaped(status_label(row.case_status@)),
        markup::ROW_TO_CORRELATION@,
        correlation_cell(opt_text(row.correlation_id)),
        markup::ROW_TO_NOTE@,
        escaped(truncated(row.note@, 160)),
        markup::ROW_END@,
    ];
    assert(audit_row(row) == concat(pieces, 23)) by {
        reveal_with_fuel(concat, 24);
    }
    lemma_neighbours(pieces, 23, 0);
    lemma_neighbours(pieces, 23, 2);
    lemma_neighbours(pieces, 23, 4);
    lemma_neighbours(pieces, 23, 6);
    lemma_neighbours(pieces, 23, 8);
    lemma_neighbours(pieces, 23, 10);
    lemma_neighbours(pieces, 23, 12);
    lemma_neighbours(pieces, 23, 14);
    lemma_neighbours(pieces, 23, 16);
    lemma_neighbours(pieces, 23, 18);
    lemma_neighbours(pieces, 23, 20);
}

/// A correlation id is linked and titled whole, and shown short.
pub proof fn law_correlation_is_linked_whole(id: Seq<char>)
    ensures
        holds(
            correlation_cell(Some(id)),
            markup::CORRELATION_TO_ENCODED@ + escaped(url_encoded(id)) + markup::CORRELATION_TO_ID@,
        ),
        holds(
            correlation_cell(Some(id)),
            markup::CORRELATION_TO_ID@ + escaped(id) + markup::CORRELATION_TO_TEXT@,
        ),
        holds(
            correlation_cell(Some(id)),
            markup::CORRELATION_TO_TEXT@ + escaped(shortened(id)) + markup::CORRELATION_END@,
        ),
{
    let pieces = seq![
        markup::CORRELATION_TO_ENCODED@,
        escaped(url_encoded(id)),
        markup::CORRELATION_TO_ID@,
        escaped(id),
        markup::CORRELATION_TO_TEXT@,
        escaped(shortened(id)),
        markup::CORRELATION_END@,
    ];
    assert(correlation_cell(Some(id)) == concat(pieces, 7)) by {
        reveal_with_fuel(concat, 8);
    }
    lemma_neighbours(pieces, 7, 0);
    lemma_neighbours(pieces, 7, 2);
    lemma_neighbours(pieces, 7, 4);
}

/// A choice of the form carries its value and its label, and is marked if and only
/// if it is the chosen one.
pub proof fn law_option_is_marked_where_chosen(
    value: Seq<char>,
    label: Seq<char>,
    chosen: Seq<char>,
)
    ensures
        action_option(value, label, chosen) == if value == chosen {
            markup::OPTION_TO_VALUE@ + escaped(value) + markup::OPTION_TO_SELECTED@ + " selected"@
                + markup::OPTION_TO_LABEL@ + escaped(label) + markup::OPTION_END@
        } else {
            markup::OPTION_TO_VALUE@ + escaped(value) + markup::OPTION_TO_SELECTED@
                + markup::OPTION_TO_LABEL@ + escaped(label) + markup::OPTION_END@
        },
{
    reveal_strlit("");
    assert(markup::OPTION_TO_VALUE@ + escaped(value) + markup::OPTION_TO_SELECTED@ + ""@
        =~= markup::OPTION_TO_VALUE@ + escaped(value) + markup::OPTION_TO_SELECTED@);
}

/// The form offers all entries and six types of action, whatever is chosen.
pub proof fn law_form_offers_the_action_types(chosen: Seq<char>)
    ensures
        holds(action_options(chosen), action_option(""@, "Alla"@, chosen)),
        holds(action_options(chosen), action_option("case_opened"@, "Ärende öppnat"@, chosen)),
        holds(action_options(chosen), action_option("assigned"@, "Tilldelad"@, chosen)),
        holds(action_options(chosen), action_option("reassigned"@, "Omtilldelad"@, chosen)),
        holds(action_options(chosen), action_option("status_changed"@, "Status ändrad"@, chosen)),
        holds(action_options(chosen), action_option("note_added"@, "Anteckning tillagd"@, chosen)),
        holds(action_options(chosen), action_option("disclosure_consumed"@, "Identitet avslöjad"@, chosen)),
{
    let pieces = seq![
        Seq::<char>::empty(),
        action_option(""@, "Alla"@, chosen),
        action_option("case_opened"@, "Ärende öppnat"@, chosen),
        action_option("assigned"@, "Tilldelad"@, chosen),
        action_option("reassigned"@, "Omtilldelad"@, chosen),
        action_option("status_changed"@, "Status ändrad"@, chosen),
        action_option("note_added"@, "Anteckning tillagd"@, chosen),
        action_option("disclosure_consumed"@, "Identitet avslöjad"@, chosen),
        Seq::<char>::empty(),
    ];
    reveal_with_fuel(concat, 10);
    assert(action_options(chosen) =~= concat(pieces, 9));
    lemma_neighbours(pieces, 9, 0);
    lemma_holds_between(pieces[0], pieces[1], pieces[2]);
    lemma_holds_within(action_options(chosen), pieces[0] + pieces[1] + pieces[2], pieces[1]);
    lemma_neighbours(pieces, 9, 1);
    lemma_holds_between(pieces[1], pieces[2], pieces[3]);
    lemma_holds_within(action_options(chosen), pieces[1] + pieces[2] + pieces[3], pieces[2]);
    lemma_neighbours(pieces, 9, 2);
    lemma_holds_between(pieces[2], pieces[3], pieces[4]);
    lemma_holds_within(action_options(chosen), pieces[2] + pieces[3] + pieces[4], pieces[3]);
    lemma_neighbours(pieces, 9, 3);
    lemma_holds_between(pieces[3], pieces[4], pieces[5]);
    lemma_holds_within(action_options(chosen), pieces[3] + pieces[4] + pieces[5], pieces[4]);
    lemma_neighbours(pieces, 9, 4);
    lemma_holds_between(pieces[4], pieces[5], pieces[6]);
    lemma_holds_within(action_options(chosen), pieces[4] + pieces[5] + pieces[6], pieces[5]);
    lemma_neighbours(pieces, 9, 5);
    lemma_holds_between(pieces[5], pieces[6], pieces[7]);
    lemma_holds_within(action_options(chosen), pieces[5] + pieces[6] + pieces[7], pieces[6]);
    lemma_neighbours(pieces, 9, 6);
    lemma_holds_between(pieces[6], pieces[7], pieces[8]);
    lemma_holds_within(action_options(chosen), pieces[6] + pieces[7] + pieces[8], pieces[7]);
}

/// A value stands in the form as it is, and a filter that is not set as nothing.
pub proof fn law_unset_filters_are_empty(text: Seq<char>)
    ensures
        or_empty(Some(text)) == text,
        or_empty(None).len() == 0,
{
    reveal_strlit("");
}

/// The texts of the case and the date filter are those of the filters themselves.
pub proof fn law_filters_are_written_as_they_are(f: FiltersView)
    ensures
        f.case_id matches Some(id) ==> f.case_text() == Some(decimal(id)),
        f.case_id is None ==> f.case_text() is None,
        f.since matches Some(t) ==> f.since_text() == Some(instant_text(t.0, t.1, "%Y-%m-%d"@)),
        f.since is None ==> f.since_text() is None,
{
}

/// A row stands out if and only if an identity was disclosed.
pub proof fn law_disclosures_stand_out(action_type: Seq<char>)
    ensures
        row_class(action_type) == if action_type == "disclosure_consumed"@ {
            "lur-audit-row lur-audit-row-disclose"@
        } else {
            "lur-audit-row"@
        },
{
}

/// A correlation id of eight bytes or fewer is shown as it is; an entry without
/// one shows that there is none.
pub proof fn law_short_correlations_are_shown_whole(id: Seq<char>)
    ensures
        encode_utf8(id).len() <= 8 ==> shortened(id) == id,
        correlation_cell(None) == markup::NO_CORRELATION@,
{
}

/// One entry more adds its row behind the others, whatever it is, and takes none
/// away; without entries there are no rows.
pub proof fn law_each_entry_adds_its_row(rows: Seq<AuditRow>, row: AuditRow)
    ensures
        audit_row_list(Seq::empty()).len() == 0,
        audit_row_list(rows.push(row)) == audit_row_list(rows) + audit_row(row),
{
    assert(rows.push(row).drop_last() =~= rows);
}

proof fn lemma_list_holds_each(rows: Seq<AuditRow>, i: int)
    requires
        0 <= i < rows.len(),
    ensures
        holds(audit_row_list(rows), audit_row(rows[i])),
    decreases rows.len(),
{
    let last = rows.len() - 1;
    let before = audit_row_list(rows.drop_last());
    if i == last {
        assert(before + audit_row(rows[i]) + Seq::<char>::empty() =~= audit_row_list(rows));
        lemma_holds_between(before, audit_row(rows[i]), Seq::empty());
    } else {
        lemma_list_holds_each(rows.drop_last(), i);
        assert(rows.drop_last()[i] == rows[i]);
        lemma_holds_longer(before, audit_row(rows.last()), audit_row(rows[i]));
    }
}

/// The page lists every entry that was read, with its row.
pub proof fn law_page_lists_each_entry(
    actor_email: Seq<char>,
    f: FiltersView,
    total: int,
    rows: Seq<AuditRow>,
    i: int,
)
    requires
        0 <= i < rows.len(),
    ensures
        holds(audit_page(actor_email, f, total, rows), markup::TABLE_OPEN@ + audit_row_list(rows) + markup::TABLE_END@),
        holds(audit_page(actor_email, f, total, rows), audit_row(rows[i])),
        holds(audit_page(actor_email, f, total, rows), markup::ROW_TO_ACTOR_NAME@ + escaped(rows[i].actor_email@) + markup::ROW_TO_CASE_ID@),
        holds(audit_page(actor_email, f, total, rows), markup::ROW_TO_NOTE@ + escaped(truncated(rows[i].note@, 160)) + markup::ROW_END@),
{
    let page = audit_page(actor_email, f, total, rows);
    let whole = markup::TABLE_OPEN@ + audit_row_list(rows) + markup::TABLE_END@;
    law_page_shows_its_parts(actor_email, f, total, rows);
    assert(audit_table(rows) == whole);
    lemma_holds_between(markup::PAGE_TO_ROWS@, whole, markup::PAGE_TO_PAGINATION@);
    lemma_holds_within(page, markup::PAGE_TO_ROWS@ + whole + markup::PAGE_TO_PAGINATION@, whole);
    lemma_holds_between(markup::TABLE_OPEN@, audit_row_list(rows), markup::TABLE_END@);
    lemma_holds_within(page, whole, audit_row_list(rows));
    lemma_list_holds_each(rows, i);
    lemma_holds_within(page, audit_row_list(rows), audit_row(rows[i]));
    law_row_shows_its_entry(rows[i]);
    lemma_holds_within(page, audit_row(rows[i]), markup::ROW_TO_ACTOR_NAME@ + escaped(rows[i].actor_email@) + markup::ROW_TO_CASE_ID@);
    lemma_holds_within(page, audit_row(rows[i]), markup::ROW_TO_NOTE@ + escaped(truncated(rows[i].note@, 160)) + markup::ROW_END@);
}

/// Without entries the page says so, and without filters it has no chips.
pub proof fn law_page_says_where_there_is_nothing(f: FiltersView)
    ensures
        audit_table(Seq::empty()) == markup::NO_ROWS@,
        f.action_type is None && f.correlation is None && f.actor is None && f.case_id is None
            && f.since is None ==> filter_chips(f).len() == 0,
{
}

/// Taking a filter away takes that one, and leaves the others and the page as
/// they are.
pub proof fn law_a_filter_is_taken_away_alone(f: FiltersView)
    ensures
        without(f, Filter::ActionType) == (FiltersView { action_type: None, ..f }),
        without(f, Filter::Correlation) == (FiltersView { correlation: None, ..f }),
        without(f, Filter::Actor) == (FiltersView { actor: None, ..f }),
        without(f, Filter::Case) == (FiltersView { case_id: None, ..f }),
        without(f, Filter::Since) == (FiltersView { since: None, ..f }),
{
}

/// The chip of a filter, with the address of the log without it.
pub open spec fn chip_of(f: FiltersView, filter: Filter) -> Seq<char> {
    let rest = escaped(audit_href(without(f, filter)));
    match filter {
        Filter::ActionType => markup::CHIP_OPEN@ + rest + markup::CHIP_TO_LABEL@ + "Typ"@
            + markup::CHIP_TO_VALUE@ + escaped(action_type_label(f.action_type->0))
            + markup::CHIP_END@,
        Filter::Correlation => markup::CORRELATION_CHIP_OPEN@ + rest + markup::CHIP_TO_LABEL@
            + "Korrelation"@ + markup::CHIP_TO_VALUE@ + escaped(f.correlation->0)
            + markup::CHIP_END@,
        Filter::Actor => markup::CHIP_OPEN@ + rest + markup::CHIP_TO_LABEL@ + "Användare"@
            + markup::CHIP_TO_VALUE@ + escaped(f.actor->0) + markup::CHIP_END@,
        Filter::Case => markup::CHIP_OPEN@ + rest + markup::CHIP_TO_LABEL@ + "Ärende"@
            + markup::CHIP_TO_NUMBER@ + decimal(f.case_id->0) + markup::CHIP_END@,
        Filter::Since => markup::CHIP_OPEN@ + rest + markup::CHIP_TO_LABEL@ + "Från"@
            + markup::CHIP_TO_VALUE@ + escaped(
            instant_text((f.since->0).0, (f.since->0).1, "%Y-%m-%d"@),
        ) + markup::CHIP_END@,
    }
}

/// Each filter that is set has its chip on the page, with its whole value and a
/// link to the log without it.
pub proof fn law_each_filter_has_its_chip(f: FiltersView)
    ensures
        f.action_type is Some ==> holds(filter_chips(f), chip_of(f, Filter::ActionType)),
        f.correlation is Some ==> holds(filter_chips(f), chip_of(f, Filter::Correlation)),
        f.actor is Some ==> holds(filter_chips(f), chip_of(f, Filter::Actor)),
        f.case_id is Some ==> holds(filter_chips(f), chip_of(f, Filter::Case)),
        f.since is Some ==> holds(filter_chips(f), chip_of(f, Filter::Since)),
{
    if f.action_type is Some {
        lemma_chip_is_shown(f, 0);
    }
    if f.correlation is Some {
        lemma_chip_is_shown(f, 1);
    }
    if f.actor is Some {
        lemma_chip_is_shown(f, 2);
    }
    if f.case_id is Some {
        lemma_chip_is_shown(f, 3);
    }
    if f.since is Some {
        lemma_chip_is_shown(f, 4);
    }
}

/// The chip of a filter, or nothing where it is not set.
spec fn chip_if(f: FiltersView, k: int) -> Seq<char> {
    if k == 0 && f.action_type is Some {
        chip_of(f, Filter::ActionType)
    } else if k == 1 && f.correlation is Some {
        chip_of(f, Filter::Correlation)
    } else if k == 2 && f.actor is Some {
        chip_of(f, Filter::Actor)
    } else if k == 3 && f.case_id is Some {
        chip_of(f, Filter::Case)
    } else if k == 4 && f.since is Some {
        chip_of(f, Filter::Since)
    } else {
        Seq::empty()
    }
}

proof fn lemma_chips_in_order(f: FiltersView)
    ensures
        chips(f) == chip_if(f, 0) + chip_if(f, 1) + chip_if(f, 2) + chip_if(f, 3) + chip_if(f, 4),
{
}

proof fn lemma_chip_is_shown(f: FiltersView, k: int)
    requires
        0 <= k < 5,
        any_filter(f),
    ensures
        holds(filter_chips(f), chip_if(f, k)),
{
    let pieces = seq![
        markup::CHIP_ROW_TO_CHIPS@,
        chip_if(f, 0),
        chip_if(f, 1),
        chip_if(f, 2),
        chip_if(f, 3),
        chip_if(f, 4),
        markup::CHIP_ROW_END@,
    ];
    lemma_chips_in_order(f);
    lemma_row_of_five(
        markup::CHIP_ROW_TO_CHIPS@,
        chip_if(f, 0),
        chip_if(f, 1),
        chip_if(f, 2),
        chip_if(f, 3),
        chip_if(f, 4),
        markup::CHIP_ROW_END@,
    );
    assert(filter_chips(f) == concat(pieces, 7));
    lemma_neighbours(pieces, 7, k);
    lemma_holds_between(pieces[k], pieces[k + 1], pieces[k + 2]);
    lemma_holds_within(filter_chips(f), pieces[k] + pieces[k + 1] + pieces[k + 2], pieces[k + 1]);
}

proof fn lemma_row_of_five(
    a: Seq<char>,
    b: Seq<char>,
    c: Seq<char>,
    d: Seq<char>,
    e: Seq<char>,
    g: Seq<char>,
    h: Seq<char>,
)
    ensures
        a + (b + c + d + e + g) + h == concat(seq![a, b, c, d, e, g, h], 7),
{
    reveal_with_fuel(concat, 8);
    assert(a + (b + c + d + e + g) + h =~= a + b + c + d + e + g + h);
}

/// The query string of some filters holds each of them that is set, whole, under
/// its own name, whatever it is, and nothing else.
pub proof fn law_query_names_each_filter(f: FiltersView)
    ensures
        f.action_type matches Some(text) ==> holds(f.query(), "action_type="@ + url_encoded(text)),
        f.correlation matches Some(text) ==> holds(f.query(), "correlation="@ + url_encoded(text)),
        f.actor matches Some(text) ==> holds(f.query(), "actor="@ + url_encoded(text)),
        f.case_id matches Some(id) ==> holds(f.query(), "case="@ + decimal(id)),
        f.since matches Some(t) ==> holds(
            f.query(),
            "since="@ + instant_text(t.0, t.1, "%Y-%m-%d"@),
        ),
        f.query_parts().len() == set_before(f, Filter::Since) + (if f.since is Some {
            1int
        } else {
            0
        }),
        f.query() == joined(f.query_parts(), "&"@),
{
    let parts = f.query_parts();
    if f.action_type is Some {
        let i = set_before(f, Filter::ActionType);
        assert(parts[i] == "action_type="@ + url_encoded(f.action_type->0));
        lemma_joined_holds_each(parts, "&"@, i);
    }
    if f.correlation is Some {
        let i = set_before(f, Filter::Correlation);
        assert(parts[i] == "correlation="@ + url_encoded(f.correlation->0));
        lemma_joined_holds_each(parts, "&"@, i);
    }
    if f.actor is Some {
        let i = set_before(f, Filter::Actor);
        assert(parts[i] == "actor="@ + url_encoded(f.actor->0));
        lemma_joined_holds_each(parts, "&"@, i);
    }
    if f.case_id is Some {
        let i = set_before(f, Filter::Case);
        assert(parts[i] == "case="@ + decimal(f.case_id->0));
        lemma_joined_holds_each(parts, "&"@, i);
    }
    if f.since is Some {
        let i = set_before(f, Filter::Since);
        assert(parts[i] == "since="@ + f.since_text()->0);
        lemma_joined_holds_each(parts, "&"@, i);
    }
}

/// The address of the log carries the query string for its filters, and nothing
/// where there are none; the address of a page carries the page besides.
pub proof fn law_addresses_carry_the_filters(f: FiltersView, page: int)
    ensures
        f.query().len() == 0 ==> audit_href(f) == "/admin/audit"@ && page_href(f, page)
            == "/admin/audit?page="@ + decimal(page),
        f.query().len() > 0 ==> audit_href(f) == "/admin/audit?"@ + f.query() && page_href(f, page)
            == "/admin/audit?"@ + f.query() + "&page="@ + decimal(page),
{
}

/// The pages are as many as are needed for all entries at 50 a page, and no more.
pub proof fn law_pages_are_as_many_as_needed(total: int)
    requires
        total > 0,
    ensures
        (page_count(total) - 1) * 50 < total <= page_count(total) * 50,
{
}

/// There is a pager if and only if there are more entries than fit on one page. It
/// says which page of how many is shown, and links to the page before, unless this
/// is the first, and to the one after, unless this is the last.
pub proof fn law_pager_leads_to_the_neighbours(f: FiltersView, total: int)
    ensures
        total <= 50 ==> pagination(f, total).len() == 0,
        total > 50 ==> {
            &&& holds(
                pagination(f, total),
                markup::PAGER_TO_CURRENT@ + decimal(f.page) + markup::PAGER_TO_PAGES@,
            )
            &&& holds(
                pagination(f, total),
                markup::PAGER_TO_PAGES@ + decimal(page_count(total)) + markup::PAGER_TO_NEXT@,
            )
            &&& f.page > 1 ==> holds(
                pagination(f, total),
                markup::PAGER_TO_PREVIOUS@ + (markup::PREVIOUS_TO_LINK@ + escaped(
                    page_href(f, f.page - 1),
                ) + markup::PREVIOUS_END@) + markup::PAGER_TO_CURRENT@,
            )
            &&& f.page <= 1 ==> holds(
                pagination(f, total),
                markup::PAGER_TO_PREVIOUS@ + markup::NO_PREVIOUS@ + markup::PAGER_TO_CURRENT@,
            )
            &&& f.page * 50 < total ==> holds(
                pagination(f, total),
                markup::PAGER_TO_NEXT@ + (markup::NEXT_TO_LINK@ + escaped(page_href(f, f.page + 1))
                    + markup::NEXT_END@) + markup::PAGER_END@,
            )
            &&& f.page * 50 >= total ==> holds(
                pagination(f, total),
                markup::PAGER_TO_NEXT@ + markup::NO_NEXT@ + markup::PAGER_END@,
            )
        },
{
    if total > 50 {
        let previous = if f.page > 1 {
            markup::PREVIOUS_TO_LINK@ + escaped(page_href(f, f.page - 1)) + markup::PREVIOUS_END@
        } else {
            markup::NO_PREVIOUS@
        };
        let next = if f.page * 50 < total {
            markup::NEXT_TO_LINK@ + escaped(page_href(f, f.page + 1)) + markup::NEXT_END@
        } else {
            markup::NO_NEXT@
        };
        assert(f.page * 50 < total <==> f.page < page_count(total));
        let pieces = seq![
            markup::PAGER_TO_PREVIOUS@,
            previous,
            markup::PAGER_TO_CURRENT@,
            decimal(f.page),
            markup::PAGER_TO_PAGES@,
            decimal(page_count(total)),
            markup::PAGER_TO_NEXT@,
            next,
            markup::PAGER_END@,
        ];
        assert(pagination(f, total) == concat(pieces, 9)) by {
            reveal_with_fuel(concat, 10);
        }
        lemma_neighbours(pieces, 9, 0);
        lemma_neighbours(pieces, 9, 2);
        lemma_neighbours(pieces, 9, 4);
        lemma_neighbours(pieces, 9, 6);
    }
}

/// The number of entries is written out, with the word in its singular for one.
pub proof fn law_total_is_written_out(total: int)
    ensures
        total == 1 ==> total_label(total) == "1 händelse"@,
        total != 1 ==> total_label(total) == decimal(total) + " händelser"@,
{
}

/// The reply to a request for the log is its page.
pub proof fn law_reply_is_the_page(
    actor_email: Seq<char>,
    f: FiltersView,
    total: int,
    rows: Seq<AuditRow>,
    reply: Reply,
)
    requires
        is_answer(actor_email, f, total, rows, reply),
    ensures
        reply matches Reply::Html { status, body } && status == 200 && body@ == audit_page(actor_email, f, total, rows),
{
}

}
