//! The query manager: it knows the table names and writes the SQL of the
//! property-definitions queries.

use crate::sql::{
    builder_holds, builder_sql, emit_int_param, emit_sql, emit_start,
    emit_text_array_param, emit_text_param, param_count, render, text_array_fits, text_array_len,
    utf8_len, utf8_len_within_i32, SqlBuilder, SqlParts,
};
use crate::params::{opt_list_view, opt_view};
use crate::text::str_eq;
use vstd::prelude::*;
use vstd::seq_lib::lemma_concat_associative;
use vstd::string::*;

verus! {

/// The alias under which the count query joins the event properties.
pub const POSTHOG_EVENT_PROPERTY_TABLE_NAME_ALIAS: &'static str = "check_for_matching_event_property";

/// The settings that the query manager is made from.
pub struct Config {
    pub database_url: String,
    pub max_pg_connections: u32,
    pub enterprise_prop_defs_table_name: String,
    pub prop_defs_table_name: String,
    pub event_props_table_name: String,
}

/// Builds the queries of the property-definitions endpoint over the tables
/// that its configuration names.
pub struct QueryManager {
    enterprise_prop_defs_table: String,
    prop_defs_table: String,
    event_props_table: String,
}

/// Appends a copy of `s` to `v`.
fn push_copy(v: &mut Vec<String>, s: &str)
    ensures
        final(v).deep_view() == old(v).deep_view().push(s@),
{
    let ghost before = v.deep_view();
    let copy = String::from_str(s);
    let ghost copy_view = copy@;
    v.push(copy);
    proof {
        assert(v.deep_view()[before.len() as int] == copy_view);
        assert(v.deep_view() =~= before.push(s@));
    }
}

/// The hidden event properties, as a list.
pub fn hidden_event_properties() -> (res: Vec<String>)
    ensures
        res.deep_view() == events_hidden_property_definitions(),
{
    let mut v: Vec<String> = Vec::new();
    push_copy(&mut v, "distinct_id");
    push_copy(&mut v, "$set");
    push_copy(&mut v, "$set_once");
    push_copy(&mut v, "$initial_referrer");
    push_copy(&mut v, "$initial_referring_domain");
    push_copy(&mut v, "$groups");
    push_copy(&mut v, "$group_type");
    push_copy(&mut v, "$group_key");
    push_copy(&mut v, "$group_set");
    push_copy(&mut v, "$group_0");
    push_copy(&mut v, "$group_1");
    push_copy(&mut v, "$group_2");
    push_copy(&mut v, "$group_3");
    push_copy(&mut v, "$group_4");
    assert(v.deep_view() =~= events_hidden_property_definitions());
    v
}

/// The names that the count query binds for exclusion.
pub fn excluded_bind_values(is_event: bool, excludes: &Vec<String>) -> (res: Vec<String>)
    ensures
        res.deep_view() == excluded_names(is_event, excludes.deep_view()),
{
    let mut buf: Vec<String> = if is_event {
        hidden_event_properties()
    } else {
        Vec::new()
    };
    let ghost base = buf.deep_view();
    proof {
        assert(excludes.deep_view().take(0) =~= Seq::<Seq<char>>::empty());
        assert(base + excludes.deep_view().take(0) =~= base);
    }
    let mut i: usize = 0;
    while i < excludes.len()
        invariant
            i <= excludes.len(),
            buf.deep_view() == base + excludes.deep_view().take(i as int),
        decreases excludes.len() - i,
    {
        push_copy(&mut buf, excludes[i].as_str());
        proof {
            assert(excludes.deep_view().take(i + 1) =~= excludes.deep_view().take(i as int).push(
                excludes[i as int]@,
            ));
            assert(base + excludes.deep_view().take(i + 1) =~= (base + excludes.deep_view().take(
                i as int,
            )).push(excludes[i as int]@));
        }
        i = i + 1;
    }
    proof {
        assert(excludes.deep_view().take(excludes.len() as int) =~= excludes.deep_view());
        if !is_event {
            assert(base =~= Seq::<Seq<char>>::empty());
            assert(base + excludes.deep_view() =~= excludes.deep_view());
        }
    }
    buf
}

/// Event properties that are never offered for filtering.
pub open spec fn events_hidden_property_definitions() -> Seq<Seq<char>> {
    seq![
        "distinct_id"@,
        "$set"@,
        "$set_once"@,
        "$initial_referrer"@,
        "$initial_referring_domain"@,
        "$groups"@,
        "$group_type"@,
        "$group_key"@,
        "$group_set"@,
        "$group_0"@,
        "$group_1"@,
        "$group_2"@,
        "$group_3"@,
        "$group_4"@,
    ]
}

/// The property type is `event`.
pub open spec fn is_event_type(property_type: Option<Seq<char>>) -> bool {
    property_type == Some("event"@)
}

/// The join on event properties: inner when filtering by event names,
/// left otherwise.
pub open spec fn join_type_text(filter_by_event_names: Option<bool>) -> Seq<char> {
    if filter_by_event_names == Some(true) {
        "INNER JOIN"@
    } else {
        "LEFT JOIN"@
    }
}

/// The table expression the queries select from: the enterprise table
/// joined with the plain one when enterprise taxonomy is asked for, else the
/// plain table.
pub open spec fn from_clause_text(
    enterprise_table: Seq<char>,
    prop_defs_table: Seq<char>,
    use_enterprise_taxonomy: Option<bool>,
) -> Seq<char> {
    if use_enterprise_taxonomy == Some(true) {
        enterprise_table + " FULL OUTER JOIN "@ + prop_defs_table + " ON "@ + prop_defs_table
            + ".id="@ + enterprise_table + ".propertydefinition_ptr_id"@
    } else {
        prop_defs_table
    }
}

/// The names that the queries exclude: the hidden event properties for
/// event-typed queries, then the excluded properties of the request.
pub open spec fn excluded_names(is_event: bool, excludes: Seq<Seq<char>>) -> Seq<Seq<char>> {
    if is_event {
        events_hidden_property_definitions() + excludes
    } else {
        excludes
    }
}

/// Event names are filtered on: the filter is asked for and names are given.
pub open spec fn filters_event_names(
    filter_by_event_names: Option<bool>,
    event_names: Option<Seq<Seq<char>>>,
) -> bool {
    filter_by_event_names == Some(true) && event_names is Some && event_names->0.len() > 0
}

/// The text that opens the event-properties join.
pub open spec fn join_open_text(event_props_table: Seq<char>, filter_by_event_names: Option<bool>) -> Seq<char> {
    " "@ + join_type_text(filter_by_event_names) + " (SELECT DISTINCT property FROM "@
        + event_props_table + " WHERE COALESCE(project_id, team_id) = "@
}

/// The text that closes the event-properties join.
pub open spec fn join_close_text() -> Seq<char> {
    ") "@ + POSTHOG_EVENT_PROPERTY_TABLE_NAME_ALIAS@ + " ON "@ + POSTHOG_EVENT_PROPERTY_TABLE_NAME_ALIAS@
        + ".property = name"@
}

/// The join on the event-properties table (event-typed queries only): the
/// properties seen on events of the project, of the requested events when
/// filtering by event names.
pub open spec fn event_join_parts(
    event_props_table: Seq<char>,
    filter_by_event_names: Option<bool>,
    event_names: Option<Seq<Seq<char>>>,
) -> SqlParts {
    seq![Some(join_open_text(event_props_table, filter_by_event_names)), None] + (
    if filters_event_names(filter_by_event_names, event_names) {
        seq![Some(" AND event = ANY("@), None, Some(")"@)]
    } else {
        seq![]
    }) + seq![Some(join_close_text())]
}

/// The text that opens the `WHERE` clause.
pub open spec fn where_text(prop_defs_table: Seq<char>) -> Seq<char> {
    " WHERE COALESCE("@ + prop_defs_table + ".project_id, "@ + prop_defs_table + ".team_id) = "@
}

/// The text that opens the exclusion filter.
pub open spec fn exclude_text(prop_defs_table: Seq<char>) -> Seq<char> {
    " AND NOT "@ + prop_defs_table + ".name = ANY("@
}

/// The exclusion filter is written: excluded properties are given, and the
/// query is event-typed or the list is not empty.
pub open spec fn filters_excluded(
    property_type: Option<Seq<char>>,
    excluded_properties: Option<Seq<Seq<char>>>,
) -> bool {
    excluded_properties is Some && (is_event_type(property_type)
        || excluded_properties->0.len() > 0)
}

/// The name filter is written: properties are given and not empty.
pub open spec fn filters_properties(properties: Option<Seq<Seq<char>>>) -> bool {
    properties is Some && properties->0.len() > 0
}

/// The text of the numerical filter.
pub open spec fn numerical_text() -> Seq<char> {
    " AND is_numerical = true AND NOT name = ANY(ARRAY['distinct_id', 'timestamp'])"@
}

/// The start of the `WHERE` clause: project, property type and group type
/// index.
pub open spec fn where_head_parts(prop_defs_table: Seq<char>, property_type: Option<Seq<char>>) -> SqlParts {
    seq![Some(where_text(prop_defs_table)), None]
    + (if property_type is Some { seq![Some(" AND type = "@), None] } else { seq![] })
    + seq![Some(" AND COALESCE(group_type_index, -1) = "@), None]
}

/// The filter that excludes properties by name.
pub open spec fn exclusion_parts(
    prop_defs_table: Seq<char>,
    property_type: Option<Seq<char>>,
    excluded_properties: Option<Seq<Seq<char>>>,
) -> SqlParts {
    if filters_excluded(property_type, excluded_properties) {
        seq![Some(exclude_text(prop_defs_table)), None, Some(")"@)]
    } else {
        seq![]
    }
}

/// The filter that keeps the requested property names.
pub open spec fn name_filter_parts(properties: Option<Seq<Seq<char>>>) -> SqlParts {
    if filters_properties(properties) {
        seq![Some(" AND name = ANY("@), None, Some(")"@)]
    } else {
        seq![]
    }
}

/// The filter on numerical properties.
pub open spec fn numerical_parts(is_numerical: Option<bool>) -> SqlParts {
    if is_numerical == Some(true) {
        seq![Some(numerical_text())]
    } else {
        seq![]
    }
}

/// The pattern that a property name must match to contain `term`.
pub open spec fn like_pattern(term: Seq<char>) -> Seq<char> {
    "%"@ + term + "%"@
}

/// One case-insensitive match on the name for each non-empty search term,
/// each bound to `like_pattern` of the term.
pub open spec fn search_term_parts(terms: Seq<Seq<char>>) -> SqlParts
    decreases terms.len(),
{
    if terms.len() == 0 {
        seq![]
    } else {
        search_term_parts(terms.drop_last()) + if terms.last().len() > 0 {
            seq![Some(" AND name ILIKE "@), None]
        } else {
            seq![]
        }
    }
}

/// The search filter.
pub open spec fn search_parts(search: Option<Seq<Seq<char>>>) -> SqlParts {
    match search {
        Some(terms) => search_term_parts(terms),
        None => seq![],
    }
}

/// The filter on event names, bound as one array.
pub open spec fn event_names_filter_parts(
    filter_by_event_names: Option<bool>,
    event_names: Option<Seq<Seq<char>>>,
) -> SqlParts {
    if filters_event_names(filter_by_event_names, event_names) {
        seq![Some(" AND event = ANY("@), None, Some(")"@)]
    } else {
        seq![]
    }
}

/// The filter on feature-flag properties.
pub open spec fn feature_flag_parts(is_feature_flag: Option<bool>) -> SqlParts {
    match is_feature_flag {
        Some(true) => seq![Some(" AND (name LIKE '$feature/%')"@)],
        Some(false) => seq![Some(" AND (name NOT LIKE '$feature/%')"@)],
        None => seq![],
    }
}

/// The `WHERE` clause shared by both queries.
pub open spec fn where_parts(
    prop_defs_table: Seq<char>,
    property_type: Option<Seq<char>>,
    properties: Option<Seq<Seq<char>>>,
    excluded_properties: Option<Seq<Seq<char>>>,
    search: Option<Seq<Seq<char>>>,
    event_names: Option<Seq<Seq<char>>>,
    is_feature_flag: Option<bool>,
    is_numerical: Option<bool>,
    filter_by_event_names: Option<bool>,
) -> SqlParts {
    where_head_parts(prop_defs_table, property_type)
    + exclusion_parts(prop_defs_table, property_type, excluded_properties)
    + name_filter_parts(properties)
    + numerical_parts(is_numerical)
    + search_parts(search)
    + event_names_filter_parts(filter_by_event_names, event_names)
    + feature_flag_parts(is_feature_flag)
}

/// The join on event properties, for event-typed queries, and the `WHERE`
/// clause: everything both queries have after their table expression.
pub open spec fn filter_parts(
    prop_defs_table: Seq<char>,
    event_props_table: Seq<char>,
    property_type: Option<Seq<char>>,
    properties: Option<Seq<Seq<char>>>,
    excluded_properties: Option<Seq<Seq<char>>>,
    search: Option<Seq<Seq<char>>>,
    event_names: Option<Seq<Seq<char>>>,
    is_feature_flag: Option<bool>,
    is_numerical: Option<bool>,
    filter_by_event_names: Option<bool>,
) -> SqlParts {
    (if is_event_type(property_type) {
        event_join_parts(event_props_table, filter_by_event_names, event_names)
    } else {
        seq![]
    }) + where_parts(
        prop_defs_table,
        property_type,
        properties,
        excluded_properties,
        search,
        event_names,
        is_feature_flag,
        is_numerical,
        filter_by_event_names,
    )
}

/// The start of the count query.
pub open spec fn count_head_text(from_clause: Seq<char>) -> Seq<char> {
    "SELECT count(*) AS full_count FROM "@ + from_clause
}

/// The parts of the count query: the count over the table expression, then
/// the shared filters.
pub open spec fn count_query_parts(
    enterprise_table: Seq<char>,
    prop_defs_table: Seq<char>,
    event_props_table: Seq<char>,
    property_type: Option<Seq<char>>,
    properties: Option<Seq<Seq<char>>>,
    excluded_properties: Option<Seq<Seq<char>>>,
    search: Option<Seq<Seq<char>>>,
    event_names: Option<Seq<Seq<char>>>,
    is_feature_flag: Option<bool>,
    is_numerical: Option<bool>,
    use_enterprise_taxonomy: Option<bool>,
    filter_by_event_names: Option<bool>,
) -> SqlParts {
    seq![Some(count_head_text(from_clause_text(enterprise_table, prop_defs_table, use_enterprise_taxonomy)))]
    + filter_parts(
        prop_defs_table,
        event_props_table,
        property_type,
        properties,
        excluded_properties,
        search,
        event_names,
        is_feature_flag,
        is_numerical,
        filter_by_event_names,
    )
}

/// Whether a property was seen on the filtered events: the joined event
/// property is present (event-typed queries), else `NULL`.
pub open spec fn seen_on_events_text(property_type: Option<Seq<char>>) -> Seq<char> {
    if is_event_type(property_type) {
        POSTHOG_EVENT_PROPERTY_TABLE_NAME_ALIAS@ + ".property IS NOT NULL"@
    } else {
        "NULL"@
    }
}

/// The start of the property-definitions query: the definitions' columns and
/// whether each was seen on the filtered events.
pub open spec fn definitions_head_text(
    prop_defs_table: Seq<char>,
    property_type: Option<Seq<char>>,
    from_clause: Seq<char>,
) -> Seq<char> {
    "SELECT "@ + prop_defs_table + ".*, "@ + seen_on_events_text(property_type)
        + " AS is_seen_on_filtered_events FROM "@ + from_clause
}

/// The ordering of verified definitions, when asked for.
pub open spec fn verified_ordering_text(order_by_verified: bool) -> Seq<char> {
    if order_by_verified {
        "verified DESC NULLS LAST, "@
    } else {
        ""@
    }
}

/// The ordering of the page: seen properties first, then verified ones
/// when asked for, then by name.
pub open spec fn order_text(prop_defs_table: Seq<char>, order_by_verified: bool) -> Seq<char> {
    " ORDER BY is_seen_on_filtered_events DESC, "@ + verified_ordering_text(order_by_verified)
        + prop_defs_table + ".name ASC"@
}

/// The ordering and the page bounds: `LIMIT` and `OFFSET`, each bound.
pub open spec fn page_parts(prop_defs_table: Seq<char>, order_by_verified: bool) -> SqlParts {
    seq![Some(order_text(prop_defs_table, order_by_verified) + " LIMIT "@), None, Some(" OFFSET "@), None]
}

/// The parts of the property-definitions query: the columns over the table
/// expression, the shared filters, the ordering and the page bounds.
pub open spec fn definitions_query_parts(
    enterprise_table: Seq<char>,
    prop_defs_table: Seq<char>,
    event_props_table: Seq<char>,
    property_type: Option<Seq<char>>,
    properties: Option<Seq<Seq<char>>>,
    excluded_properties: Option<Seq<Seq<char>>>,
    search: Option<Seq<Seq<char>>>,
    event_names: Option<Seq<Seq<char>>>,
    is_feature_flag: Option<bool>,
    is_numerical: Option<bool>,
    use_enterprise_taxonomy: Option<bool>,
    filter_by_event_names: Option<bool>,
    order_by_verified: bool,
) -> SqlParts {
    seq![Some(definitions_head_text(
        prop_defs_table,
        property_type,
        from_clause_text(enterprise_table, prop_defs_table, use_enterprise_taxonomy),
    ))]
    + filter_parts(
        prop_defs_table,
        event_props_table,
        property_type,
        properties,
        excluded_properties,
        search,
        event_names,
        is_feature_flag,
        is_numerical,
        filter_by_event_names,
    ) + page_parts(prop_defs_table, order_by_verified)
}

/// Every value that the queries bind fits Postgres' encoding (at most
/// `i32::MAX` bytes each), and the count of bound values fits a `usize`.
pub open spec fn query_binds_fit(
    property_type: Option<Seq<char>>,
    properties: Option<Seq<Seq<char>>>,
    excluded_properties: Option<Seq<Seq<char>>>,
    search: Option<Seq<Seq<char>>>,
    event_names: Option<Seq<Seq<char>>>,
    filter_by_event_names: Option<bool>,
) -> bool {
    &&& property_type matches Some(t) ==> utf8_len(t) <= i32::MAX
    &&& filters_excluded(property_type, excluded_properties) ==> text_array_len(
        excluded_names(is_event_type(property_type), excluded_properties->0),
    ) <= i32::MAX
    &&& filters_properties(properties) ==> text_array_len(properties->0) <= i32::MAX
    &&& filters_event_names(filter_by_event_names, event_names) ==> text_array_len(event_names->0)
        <= i32::MAX
    &&& search matches Some(terms) ==> {
        &&& terms.len() + 16 <= usize::MAX
        &&& (forall|i: int|
            0 <= i < terms.len() ==> utf8_len(like_pattern(#[trigger] terms[i])) <= i32::MAX)
    }
}

/// The number of search terms, 0 without a search.
pub open spec fn search_len(search: Option<Seq<Seq<char>>>) -> nat {
    match search {
        Some(terms) => terms.len(),
        None => 0,
    }
}

impl QueryManager {
    /// The enterprise property-definitions table.
    pub closed spec fn enterprise_table(&self) -> Seq<char> {
        self.enterprise_prop_defs_table@
    }

    /// The property-definitions table.
    pub closed spec fn prop_defs_table(&self) -> Seq<char> {
        self.prop_defs_table@
    }

    /// The event-properties table.
    pub closed spec fn event_props_table(&self) -> Seq<char> {
        self.event_props_table@
    }

    /// A query manager over the tables that `cfg` names.
    pub fn new(cfg: &Config) -> (res: Self)
        ensures
            res.enterprise_table() == cfg.enterprise_prop_defs_table_name@,
            res.prop_defs_table() == cfg.prop_defs_table_name@,
            res.event_props_table() == cfg.event_props_table_name@,
    {
        QueryManager {
            enterprise_prop_defs_table: cfg.enterprise_prop_defs_table_name.clone(),
            prop_defs_table: cfg.prop_defs_table_name.clone(),
            event_props_table: cfg.event_props_table_name.clone(),
        }
    }

    /// The table expression that the queries select from.
    pub fn from_clause(&self, use_enterprise_taxonomy: &Option<bool>) -> (res: String)
        ensures
            res@ == from_clause_text(
                self.enterprise_table(),
                self.prop_defs_table(),
                *use_enterprise_taxonomy,
            ),
    {
        if let Some(true) = use_enterprise_taxonomy {
            let mut s = self.enterprise_prop_defs_table.clone();
            s.append(" FULL OUTER JOIN ");
            s.append(self.prop_defs_table.as_str());
            s.append(" ON ");
            s.append(self.prop_defs_table.as_str());
            s.append(".id=");
            s.append(self.enterprise_prop_defs_table.as_str());
            s.append(".propertydefinition_ptr_id");
            s
        } else {
            self.prop_defs_table.clone()
        }
    }

    /// `INNER JOIN` when filtering by event names, `LEFT JOIN` otherwise.
    pub fn event_property_join_type(&self, filter_by_event_names: &Option<bool>) -> (res: &str)
        ensures
            res@ == join_type_text(*filter_by_event_names),
    {
        if let Some(true) = filter_by_event_names {
            "INNER JOIN"
        } else {
            "LEFT JOIN"
        }
    }

    /// Whether the property type is `event`.
    pub fn is_prop_type_event(&self, property_type: &Option<String>) -> (res: bool)
        ensures
            res == is_event_type(opt_view(*property_type)),
    {
        match property_type {
            Some(t) => str_eq(t.as_str(), "event"),
            None => false,
        }
    }

    /// Writes the join on event properties.
    fn emit_event_join(
        &self,
        qb: &mut SqlBuilder,
        project_id: i32,
        event_names: &Option<Vec<String>>,
        filter_by_event_names: &Option<bool>,
        Ghost(parts): Ghost<SqlParts>,
    )
        requires
            builder_holds(*old(qb), parts),
            param_count(parts) + 2 <= usize::MAX,
            filters_event_names(*filter_by_event_names, opt_list_view(*event_names))
                ==> text_array_len(opt_list_view(*event_names)->0) <= i32::MAX,
        ensures
            builder_holds(
                *final(qb),
                parts + event_join_parts(
                    self.event_props_table(),
                    *filter_by_event_names,
                    opt_list_view(*event_names),
                ),
            ),
            param_count(
                parts + event_join_parts(
                    self.event_props_table(),
                    *filter_by_event_names,
                    opt_list_view(*event_names),
                ),
            ) <= param_count(parts) + 2,
    {
        let ghost p = parts;
        let mut open = String::from_str(" ");
        open.append(self.event_property_join_type(filter_by_event_names));
        open.append(" (SELECT DISTINCT property FROM ");
        open.append(self.event_props_table.as_str());
        open.append(" WHERE COALESCE(project_id, team_id) = ");
        emit_sql(qb, open.as_str(), Ghost(p));
        proof {
            p = p.push(Some(open@));
        }
        emit_int_param(qb, project_id, Ghost(p));
        proof {
            p = p.push(None);
        }
        // the inner query keeps only the requested event names
        if let Some(true) = filter_by_event_names {
            if let Some(names) = event_names {
                if names.len() > 0 {
                    emit_sql(qb, " AND event = ANY(", Ghost(p));
                    proof {
                        p = p.push(Some(" AND event = ANY("@));
                    }
                    emit_text_array_param(qb, names.clone(), Ghost(p));
                    proof {
                        p = p.push(None);
                    }
                    emit_sql(qb, ")", Ghost(p));
                    proof {
                        p = p.push(Some(")"@));
                    }
                }
            }
        }
        let close = join_close();
        emit_sql(qb, close.as_str(), Ghost(p));
        proof {
            p = p.push(Some(close@));
            assert(p =~= parts + event_join_parts(
                self.event_props_table(),
                *filter_by_event_names,
                opt_list_view(*event_names),
            ));
        }
    }

    /// Writes the start of the `WHERE` clause.
    fn emit_where_head(
        &self,
        qb: &mut SqlBuilder,
        project_id: i32,
        property_type: &Option<String>,
        group_type_index: i32,
        Ghost(parts): Ghost<SqlParts>,
    )
        requires
            builder_holds(*old(qb), parts),
            param_count(parts) + 3 <= usize::MAX,
            opt_view(*property_type) matches Some(t) ==> utf8_len(t) <= i32::MAX,
        ensures
            builder_holds(*final(qb), parts + where_head_parts(self.prop_defs_table(), opt_view(*property_type))),
            param_count(parts + where_head_parts(self.prop_defs_table(), opt_view(*property_type)))
                <= param_count(parts) + 3,
    {
        let ghost p = parts;
        let mut where_clause = String::from_str(" WHERE COALESCE(");
        where_clause.append(self.prop_defs_table.as_str());
        where_clause.append(".project_id, ");
        where_clause.append(self.prop_defs_table.as_str());
        where_clause.append(".team_id) = ");
        emit_sql(qb, where_clause.as_str(), Ghost(p));
        proof {
            p = p.push(Some(where_clause@));
        }
        emit_int_param(qb, project_id, Ghost(p));
        proof {
            p = p.push(None);
        }
        if let Some(prop_type) = property_type {
            emit_sql(qb, " AND type = ", Ghost(p));
            proof {
                p = p.push(Some(" AND type = "@));
            }
            emit_text_param(qb, prop_type.clone(), Ghost(p));
            proof {
                p = p.push(None);
            }
        }
        emit_sql(qb, " AND COALESCE(group_type_index, -1) = ", Ghost(p));
        proof {
            p = p.push(Some(" AND COALESCE(group_type_index, -1) = "@));
        }
        emit_int_param(qb, group_type_index, Ghost(p));
        proof {
            p = p.push(None);
            assert(p =~= parts + where_head_parts(self.prop_defs_table(), opt_view(*property_type)));
        }
    }

    /// Writes the exclusion filter.
    fn emit_exclusion(
        &self,
        qb: &mut SqlBuilder,
        property_type: &Option<String>,
        excluded_properties: &Option<Vec<String>>,
        Ghost(parts): Ghost<SqlParts>,
    )
        requires
            builder_holds(*old(qb), parts),
            param_count(parts) + 1 <= usize::MAX,
            filters_excluded(opt_view(*property_type), opt_list_view(*excluded_properties))
                ==> text_array_len(
                excluded_names(
                    is_event_type(opt_view(*property_type)),
                    opt_list_view(*excluded_properties)->0,
                ),
            ) <= i32::MAX,
        ensures
            builder_holds(
                *final(qb),
                parts + exclusion_parts(
                    self.prop_defs_table(),
                    opt_view(*property_type),
                    opt_list_view(*excluded_properties),
                ),
            ),
            param_count(parts + exclusion_parts(
                self.prop_defs_table(),
                opt_view(*property_type),
                opt_list_view(*excluded_properties),
            )) <= param_count(parts) + 1,
    {
        let ghost p = parts;
        let is_event = self.is_prop_type_event(property_type);
        if let Some(excludes) = excluded_properties {
            if is_event || excludes.len() > 0 {
                let mut exclude_clause = String::from_str(" AND NOT ");
                exclude_clause.append(self.prop_defs_table.as_str());
                exclude_clause.append(".name = ANY(");
                emit_sql(qb, exclude_clause.as_str(), Ghost(p));
                proof {
                    p = p.push(Some(exclude_clause@));
                }
                let buf = excluded_bind_values(is_event, excludes);
                emit_text_array_param(qb, buf, Ghost(p));
                proof {
                    p = p.push(None);
                }
                emit_sql(qb, ")", Ghost(p));
                proof {
                    p = p.push(Some(")"@));
                    assert(p =~= parts + seq![
                        Some(exclude_text(self.prop_defs_table())),
                        None,
                        Some(")"@),
                    ]);
                }
                return;
            }
        }
        assert(parts + Seq::<Option<Seq<char>>>::empty() =~= parts);
    }

    /// Writes the filter on property names.
    fn emit_name_filter(
        qb: &mut SqlBuilder,
        properties: &Option<Vec<String>>,
        Ghost(parts): Ghost<SqlParts>,
    )
        requires
            builder_holds(*old(qb), parts),
            param_count(parts) + 1 <= usize::MAX,
            filters_properties(opt_list_view(*properties)) ==> text_array_len(
                opt_list_view(*properties)->0,
            ) <= i32::MAX,
        ensures
            builder_holds(*final(qb), parts + name_filter_parts(opt_list_view(*properties))),
            param_count(parts + name_filter_parts(opt_list_view(*properties))) <= param_count(parts)
                + 1,
    {
        let ghost p = parts;
        if let Some(props) = properties {
            if props.len() > 0 {
                emit_sql(qb, " AND name = ANY(", Ghost(p));
                proof {
                    p = p.push(Some(" AND name = ANY("@));
                }
                emit_text_array_param(qb, props.clone(), Ghost(p));
                proof {
                    p = p.push(None);
                }
                emit_sql(qb, ")", Ghost(p));
                proof {
                    p = p.push(Some(")"@));
                    assert(p =~= parts + seq![Some(" AND name = ANY("@), None, Some(")"@)]);
                }
                return;
            }
        }
        assert(parts + Seq::<Option<Seq<char>>>::empty() =~= parts);
    }

    /// Writes the search filter: one match per non-empty term.
    fn emit_search_filter(
        qb: &mut SqlBuilder,
        search: &Option<Vec<String>>,
        Ghost(parts): Ghost<SqlParts>,
    )
        requires
            builder_holds(*old(qb), parts),
            param_count(parts) + search_len(opt_list_view(*search)) <= usize::MAX,
            opt_list_view(*search) matches Some(terms) ==> forall|i: int|
                0 <= i < terms.len() ==> utf8_len(like_pattern(#[trigger] terms[i])) <= i32::MAX,
        ensures
            builder_holds(*final(qb), parts + search_parts(opt_list_view(*search))),
            param_count(parts + search_parts(opt_list_view(*search))) <= param_count(parts)
                + search_len(opt_list_view(*search)),
    {
        let ghost p = parts;
        match search {
            Some(terms) => {
                let ghost ts = terms.deep_view();
                proof {
                    assert(ts.take(0) =~= Seq::<Seq<char>>::empty());
                    assert(parts + search_term_parts(ts.take(0)) =~= parts);
                }
                let mut i: usize = 0;
                while i < terms.len()
                    invariant
                        i <= terms.len(),
                        ts == terms.deep_view(),
                        param_count(parts) + ts.len() <= usize::MAX,
                        forall|j: int| 0 <= j < ts.len() ==> utf8_len(like_pattern(#[trigger] ts[j])) <= i32::MAX,
                        builder_holds(*qb, p),
                        p == parts + search_term_parts(ts.take(i as int)),
                        param_count(p) <= param_count(parts) + i,
                    decreases terms.len() - i,
                {
                    proof {
                        assert(ts.take(i + 1).drop_last() =~= ts.take(i as int));
                        assert(ts.take(i + 1).last() == ts[i as int]);
                        assert(ts[i as int] == terms[i as int]@);
                    }
                    let ghost before = p;
                    if !terms[i].as_str().is_empty() {
                        emit_sql(qb, " AND name ILIKE ", Ghost(p));
                        proof {
                            p = p.push(Some(" AND name ILIKE "@));
                        }
                        let mut pattern = String::from_str("%");
                        pattern.append(terms[i].as_str());
                        pattern.append("%");
                        emit_text_param(qb, pattern, Ghost(p));
                        proof {
                            p = p.push(None);
                            let piece: SqlParts = seq![Some(" AND name ILIKE "@), None];
                            assert(p =~= before + piece);
                            lemma_concat_associative(parts, search_term_parts(ts.take(i as int)), piece);
                        }
                    } else {
                        proof {
                            assert(search_term_parts(ts.take(i + 1)) =~= search_term_parts(ts.take(i as int)));
                        }
                    }
                    i = i + 1;
                }
                proof {
                    assert(ts.take(terms.len() as int) =~= ts);
                }
            },
            None => {
                assert(parts + Seq::<Option<Seq<char>>>::empty() =~= parts);
            },
        }
    }

    /// Writes the filter on event names, bound as one array.
    fn emit_event_names_filter(
        qb: &mut SqlBuilder,
        event_names: &Option<Vec<String>>,
        filter_by_event_names: &Option<bool>,
        Ghost(parts): Ghost<SqlParts>,
    )
        requires
            builder_holds(*old(qb), parts),
            param_count(parts) + 1 <= usize::MAX,
            filters_event_names(*filter_by_event_names, opt_list_view(*event_names))
                ==> text_array_len(opt_list_view(*event_names)->0) <= i32::MAX,
        ensures
            builder_holds(
                *final(qb),
                parts + event_names_filter_parts(*filter_by_event_names, opt_list_view(*event_names)),
            ),
            param_count(
                parts + event_names_filter_parts(*filter_by_event_names, opt_list_view(*event_names)),
            ) <= param_count(parts) + 1,
    {
        let ghost p = parts;
        if let Some(true) = filter_by_event_names {
            if let Some(names) = event_names {
                if names.len() > 0 {
                    emit_sql(qb, " AND event = ANY(", Ghost(p));
                    proof {
                        p = p.push(Some(" AND event = ANY("@));
                    }
                    emit_text_array_param(qb, names.clone(), Ghost(p));
                    proof {
                        p = p.push(None);
                    }
                    emit_sql(qb, ")", Ghost(p));
                    proof {
                        p = p.push(Some(")"@));
                        assert(p =~= parts + seq![Some(" AND event = ANY("@), None, Some(")"@)]);
                    }
                    return;
                }
            }
        }
        assert(parts + Seq::<Option<Seq<char>>>::empty() =~= parts);
    }

    /// Writes the `WHERE` clause.
    fn emit_where(
        &self,
        qb: &mut SqlBuilder,
        project_id: i32,
        property_type: &Option<String>,
        group_type_index: i32,
        properties: &Option<Vec<String>>,
        excluded_properties: &Option<Vec<String>>,
        search: &Option<Vec<String>>,
        event_names: &Option<Vec<String>>,
        is_feature_flag: &Option<bool>,
        is_numerical: &Option<bool>,
        filter_by_event_names: &Option<bool>,
        Ghost(parts): Ghost<SqlParts>,
    )
        requires
            builder_holds(*old(qb), parts),
            param_count(parts) + search_len(opt_list_view(*search)) + 6 <= usize::MAX,
            query_binds_fit(
                opt_view(*property_type),
                opt_list_view(*properties),
                opt_list_view(*excluded_properties),
                opt_list_view(*search),
                opt_list_view(*event_names),
                *filter_by_event_names,
            ),
        ensures
            builder_holds(
                *final(qb),
                parts + where_parts(
                    self.prop_defs_table(),
                    opt_view(*property_type),
                    opt_list_view(*properties),
                    opt_list_view(*excluded_properties),
                    opt_list_view(*search),
                    opt_list_view(*event_names),
                    *is_feature_flag,
                    *is_numerical,
                    *filter_by_event_names,
                ),
            ),
            param_count(parts + where_parts(
                self.prop_defs_table(),
                opt_view(*property_type),
                opt_list_view(*properties),
                opt_list_view(*excluded_properties),
                opt_list_view(*search),
                opt_list_view(*event_names),
                *is_feature_flag,
                *is_numerical,
                *filter_by_event_names,
            )) <= param_count(parts) + search_len(opt_list_view(*search)) + 6,
    {
        let ghost pt = opt_view(*property_type);
        let ghost p = parts;
        self.emit_where_head(qb, project_id, property_type, group_type_index, Ghost(p));
        let ghost w1 = where_head_parts(self.prop_defs_table(), pt);
        proof {
            p = p + w1;
        }
        self.emit_exclusion(qb, property_type, excluded_properties, Ghost(p));
        let ghost x2 = exclusion_parts(self.prop_defs_table(), pt, opt_list_view(*excluded_properties));
        proof {
            lemma_concat_associative(parts, w1, x2);
            p = p + x2;
        }
        let ghost w2 = w1 + x2;
        Self::emit_name_filter(qb, properties, Ghost(p));
        let ghost x3 = name_filter_parts(opt_list_view(*properties));
        proof {
            lemma_concat_associative(parts, w2, x3);
            p = p + x3;
        }
        let ghost w3 = w2 + x3;
        let ghost p3 = p;
        if let Some(true) = is_numerical {
            emit_sql(
                qb,
                " AND is_numerical = true AND NOT name = ANY(ARRAY['distinct_id', 'timestamp'])",
                Ghost(p),
            );
            proof {
                p = p.push(Some(numerical_text()));
            }
        } else {
            assert(p + Seq::<Option<Seq<char>>>::empty() =~= p);
        }
        let ghost x4 = numerical_parts(*is_numerical);
        proof {
            assert(p =~= p3 + x4);
            lemma_concat_associative(parts, w3, x4);
        }
        let ghost w4 = w3 + x4;
        Self::emit_search_filter(qb, search, Ghost(p));
        let ghost x5 = search_parts(opt_list_view(*search));
        proof {
            lemma_concat_associative(parts, w4, x5);
            p = p + x5;
        }
        let ghost w5 = w4 + x5;
        Self::emit_event_names_filter(qb, event_names, filter_by_event_names, Ghost(p));
        let ghost x6 = event_names_filter_parts(*filter_by_event_names, opt_list_view(*event_names));
        proof {
            lemma_concat_associative(parts, w5, x6);
            p = p + x6;
        }
        let ghost w6 = w5 + x6;
        let ghost p6 = p;
        match is_feature_flag {
            Some(true) => {
                emit_sql(qb, " AND (name LIKE '$feature/%')", Ghost(p));
                proof {
                    p = p.push(Some(" AND (name LIKE '$feature/%')"@));
                }
            },
            Some(false) => {
                emit_sql(qb, " AND (name NOT LIKE '$feature/%')", Ghost(p));
                proof {
                    p = p.push(Some(" AND (name NOT LIKE '$feature/%')"@));
                }
            },
            None => {
                assert(p + Seq::<Option<Seq<char>>>::empty() =~= p);
            },
        }
        let ghost x7 = feature_flag_parts(*is_feature_flag);
        proof {
            assert(p =~= p6 + x7);
            lemma_concat_associative(parts, w6, x7);
        }
    }

    /// Writes everything both queries have after their table expression:
    /// the join on event properties for event-typed queries, then the
    /// `WHERE` clause.
    fn emit_filters(
        &self,
        qb: &mut SqlBuilder,
        project_id: i32,
        property_type: &Option<String>,
        group_type_index: i32,
        properties: &Option<Vec<String>>,
        excluded_properties: &Option<Vec<String>>,
        search: &Option<Vec<String>>,
        event_names: &Option<Vec<String>>,
        is_feature_flag: &Option<bool>,
        is_numerical: &Option<bool>,
        filter_by_event_names: &Option<bool>,
        Ghost(parts): Ghost<SqlParts>,
    )
        requires
            builder_holds(*old(qb), parts),
            param_count(parts) + search_len(opt_list_view(*search)) + 8 <= usize::MAX,
            query_binds_fit(
                opt_view(*property_type),
                opt_list_view(*properties),
                opt_list_view(*excluded_properties),
                opt_list_view(*search),
                opt_list_view(*event_names),
                *filter_by_event_names,
            ),
        ensures
            builder_holds(
                *final(qb),
                parts + filter_parts(
                    self.prop_defs_table(),
                    self.event_props_table(),
                    opt_view(*property_type),
                    opt_list_view(*properties),
                    opt_list_view(*excluded_properties),
                    opt_list_view(*search),
                    opt_list_view(*event_names),
                    *is_feature_flag,
                    *is_numerical,
                    *filter_by_event_names,
                ),
            ),
            param_count(parts + filter_parts(
                self.prop_defs_table(),
                self.event_props_table(),
                opt_view(*property_type),
                opt_list_view(*properties),
                opt_list_view(*excluded_properties),
                opt_list_view(*search),
                opt_list_view(*event_names),
                *is_feature_flag,
                *is_numerical,
                *filter_by_event_names,
            )) <= param_count(parts) + search_len(opt_list_view(*search)) + 8,
    {
        let ghost p = parts;
        let ghost join = if is_event_type(opt_view(*property_type)) {
            event_join_parts(self.event_props_table(), *filter_by_event_names, opt_list_view(*event_names))
        } else {
            Seq::<Option<Seq<char>>>::empty()
        };
        // the join on event properties applies to event-typed queries only
        if self.is_prop_type_event(property_type) {
            self.emit_event_join(qb, project_id, event_names, filter_by_event_names, Ghost(p));
            proof {
                p = p + join;
            }
        } else {
            assert(p + join =~= p);
        }
        self.emit_where(
            qb,
            project_id,
            property_type,
            group_type_index,
            properties,
            excluded_properties,
            search,
            event_names,
            is_feature_flag,
            is_numerical,
            filter_by_event_names,
            Ghost(p),
        );
        proof {
            lemma_concat_associative(parts, join, where_parts(
                self.prop_defs_table(),
                opt_view(*property_type),
                opt_list_view(*properties),
                opt_list_view(*excluded_properties),
                opt_list_view(*search),
                opt_list_view(*event_names),
                *is_feature_flag,
                *is_numerical,
                *filter_by_event_names,
            ));
        }
    }

    /// The SQL of the count query over the property definitions of a
    /// project, filtered by the request's parameters. Table names are
    /// written into the text; every value is bound as a parameter.
    pub fn count_query(
        &self,
        project_id: i32,
        search: &Option<Vec<String>>,
        property_type: &Option<String>,
        group_type_index: i32,
        properties: &Option<Vec<String>>,
        excluded_properties: &Option<Vec<String>>,
        event_names: &Option<Vec<String>>,
        is_feature_flag: &Option<bool>,
        is_numerical: &Option<bool>,
        use_enterprise_taxonomy: &Option<bool>,
        filter_by_event_names: &Option<bool>,
    ) -> (res: String)
        requires
            query_binds_fit(
                opt_view(*property_type),
                opt_list_view(*properties),
                opt_list_view(*excluded_properties),
                opt_list_view(*search),
                opt_list_view(*event_names),
                *filter_by_event_names,
            ),
        ensures
            res@ == render(
                count_query_parts(
                    self.enterprise_table(),
                    self.prop_defs_table(),
                    self.event_props_table(),
                    opt_view(*property_type),
                    opt_list_view(*properties),
                    opt_list_view(*excluded_properties),
                    opt_list_view(*search),
                    opt_list_view(*event_names),
                    *is_feature_flag,
                    *is_numerical,
                    *use_enterprise_taxonomy,
                    *filter_by_event_names,
                ),
            ),
    {
        let from_clause = self.from_clause(use_enterprise_taxonomy);
        let mut head = String::from_str("SELECT count(*) AS full_count FROM ");
        head.append(from_clause.as_str());
        let mut qb = emit_start(head.as_str());
        let ghost parts: SqlParts = seq![Some(head@)];
        self.emit_filters(
            &mut qb,
            project_id,
            property_type,
            group_type_index,
            properties,
            excluded_properties,
            search,
            event_names,
            is_feature_flag,
            is_numerical,
            filter_by_event_names,
            Ghost(parts),
        );
        builder_sql(&qb)
    }

    /// The start of the property-definitions query.
    fn definitions_head(&self, property_type: &Option<String>, use_enterprise_taxonomy: &Option<bool>) -> (res: String)
        ensures
            res@ == definitions_head_text(
                self.prop_defs_table(),
                opt_view(*property_type),
                from_clause_text(self.enterprise_table(), self.prop_defs_table(), *use_enterprise_taxonomy),
            ),
    {
        let from_clause = self.from_clause(use_enterprise_taxonomy);
        let mut head = String::from_str("SELECT ");
        head.append(self.prop_defs_table.as_str());
        head.append(".*, ");
        if self.is_prop_type_event(property_type) {
            head.append(POSTHOG_EVENT_PROPERTY_TABLE_NAME_ALIAS);
            head.append(".property IS NOT NULL");
        } else {
            head.append("NULL");
        }
        head.append(" AS is_seen_on_filtered_events FROM ");
        head.append(from_clause.as_str());
        head
    }

    /// Writes the ordering and the page bounds.
    fn emit_page(
        &self,
        qb: &mut SqlBuilder,
        order_by_verified: bool,
        limit: i32,
        offset: i32,
        Ghost(parts): Ghost<SqlParts>,
    )
        requires
            builder_holds(*old(qb), parts),
            param_count(parts) + 2 <= usize::MAX,
        ensures
            builder_holds(*final(qb), parts + page_parts(self.prop_defs_table(), order_by_verified)),
    {
        let ghost p = parts;
        let verified_ordering = if order_by_verified {
            "verified DESC NULLS LAST, "
        } else {
            ""
        };
        let mut order = String::from_str(" ORDER BY is_seen_on_filtered_events DESC, ");
        order.append(verified_ordering);
        order.append(self.prop_defs_table.as_str());
        order.append(".name ASC");
        order.append(" LIMIT ");
        emit_sql(qb, order.as_str(), Ghost(p));
        proof {
            p = p.push(Some(order@));
        }
        emit_int_param(qb, limit, Ghost(p));
        proof {
            p = p.push(None);
        }
        emit_sql(qb, " OFFSET ", Ghost(p));
        proof {
            p = p.push(Some(" OFFSET "@));
        }
        emit_int_param(qb, offset, Ghost(p));
        proof {
            p = p.push(None);
            assert(p =~= parts + page_parts(self.prop_defs_table(), order_by_verified));
        }
    }

    /// The SQL of the page of property definitions: their columns and whether
    /// each was seen on the filtered events, with the count query's filters,
    /// ordered by that, then by verification when asked for, then by name,
    /// and bounded by `limit` and `offset`.
    pub fn property_definitions_query(
        &self,
        project_id: i32,
        search: &Option<Vec<String>>,
        property_type: &Option<String>,
        group_type_index: i32,
        properties: &Option<Vec<String>>,
        excluded_properties: &Option<Vec<String>>,
        event_names: &Option<Vec<String>>,
        is_feature_flag: &Option<bool>,
        is_numerical: &Option<bool>,
        use_enterprise_taxonomy: &Option<bool>,
        filter_by_event_names: &Option<bool>,
        order_by_verified: bool,
        limit: i32,
        offset: i32,
    ) -> (res: String)
        requires
            query_binds_fit(
                opt_view(*property_type),
                opt_list_view(*properties),
                opt_list_view(*excluded_properties),
                opt_list_view(*search),
                opt_list_view(*event_names),
                *filter_by_event_names,
            ),
        ensures
            res@ == render(
                definitions_query_parts(
                    self.enterprise_table(),
                    self.prop_defs_table(),
                    self.event_props_table(),
                    opt_view(*property_type),
                    opt_list_view(*properties),
                    opt_list_view(*excluded_properties),
                    opt_list_view(*search),
                    opt_list_view(*event_names),
                    *is_feature_flag,
                    *is_numerical,
                    *use_enterprise_taxonomy,
                    *filter_by_event_names,
                    order_by_verified,
                ),
            ),
    {
        let head = self.definitions_head(property_type, use_enterprise_taxonomy);
        let mut qb = emit_start(head.as_str());
        let ghost parts: SqlParts = seq![Some(head@)];
        self.emit_filters(
            &mut qb,
            project_id,
            property_type,
            group_type_index,
            properties,
            excluded_properties,
            search,
            event_names,
            is_feature_flag,
            is_numerical,
            filter_by_event_names,
            Ghost(parts),
        );
        let ghost filters = filter_parts(
            self.prop_defs_table(),
            self.event_props_table(),
            opt_view(*property_type),
            opt_list_view(*properties),
            opt_list_view(*excluded_properties),
            opt_list_view(*search),
            opt_list_view(*event_names),
            *is_feature_flag,
            *is_numerical,
            *filter_by_event_names,
        );
        self.emit_page(&mut qb, order_by_verified, limit, offset, Ghost(parts + filters));
        builder_sql(&qb)
    }

    /// Whether every value that the queries would bind fits Postgres'
    /// encoding; building them panics in `sqlx` otherwise.
    #[verifier::loop_isolation(false)]
    pub fn binds_fit(
        &self,
        property_type: &Option<String>,
        properties: &Option<Vec<String>>,
        excluded_properties: &Option<Vec<String>>,
        search: &Option<Vec<String>>,
        event_names: &Option<Vec<String>>,
        filter_by_event_names: &Option<bool>,
    ) -> (res: bool)
        ensures
            res == query_binds_fit(
                opt_view(*property_type),
                opt_list_view(*properties),
                opt_list_view(*excluded_properties),
                opt_list_view(*search),
                opt_list_view(*event_names),
                *filter_by_event_names,
            ),
    {
        let is_event = self.is_prop_type_event(property_type);
        if let Some(t) = property_type {
            if utf8_len_within_i32(t.as_str()).is_none() {
                return false;
            }
        }
        if let Some(excludes) = excluded_properties {
            if is_event || excludes.len() > 0 {
                let buf = excluded_bind_values(is_event, excludes);
                if !text_array_fits(&buf) {
                    return false;
                }
            }
        }
        if let Some(props) = properties {
            if props.len() > 0 && !text_array_fits(props) {
                return false;
            }
        }
        if let Some(true) = filter_by_event_names {
            if let Some(names) = event_names {
                if names.len() > 0 && !text_array_fits(names) {
                    return false;
                }
            }
        }
        if let Some(terms) = search {
            assert(terms.deep_view().len() == terms.len());
            if terms.len() > usize::MAX - 16 {
                return false;
            }
            let mut k: usize = 0;
            while k < terms.len()
                invariant
                    k <= terms.len(),
                    forall|i: int| 0 <= i < k ==> utf8_len(like_pattern(#[trigger] terms[i]@)) <= i32::MAX,
                decreases terms.len() - k,
            {
                let mut pattern = String::from_str("%");
                pattern.append(terms[k].as_str());
                pattern.append("%");
                if utf8_len_within_i32(pattern.as_str()).is_none() {
                    assert(terms.deep_view()[k as int] == terms[k as int]@);
                    return false;
                }
                k = k + 1;
            }
            assert forall|i: int| 0 <= i < terms.len() implies utf8_len(
                like_pattern(#[trigger] terms.deep_view()[i]),
            ) <= i32::MAX by {
                assert(terms.deep_view()[i] == terms[i]@);
            }
        }
        true
    }
}

/// The closing text of the event-properties join.
fn join_close() -> (res: String)
    ensures
        res@ == join_close_text(),
{
    let mut s = String::from_str(") ");
    s.append(POSTHOG_EVENT_PROPERTY_TABLE_NAME_ALIAS);
    s.append(" ON ");
    s.append(POSTHOG_EVENT_PROPERTY_TABLE_NAME_ALIAS);
    s.append(".property = name");
    s
}

} // verus!
