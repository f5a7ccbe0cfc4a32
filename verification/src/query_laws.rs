//! What the two queries hold, stated in the SQL text they are made of.

use crate::query::{
    count_query_parts, definitions_query_parts, event_join_parts, event_names_filter_parts,
    exclusion_parts, feature_flag_parts, filter_parts, name_filter_parts, numerical_parts,
    search_parts, search_term_parts, where_head_parts, where_parts,
    POSTHOG_EVENT_PROPERTY_TABLE_NAME_ALIAS,
};
use crate::sql::SqlParts;
use vstd::prelude::*;

verus! {

/// `piece` occurs in `whole`, its parts in a row.
pub open spec fn has_parts(whole: SqlParts, piece: SqlParts) -> bool {
    exists|a: SqlParts, b: SqlParts| #[trigger] (a + piece + b) == whole
}

/// A run of parts occurs in itself.
proof fn lemma_has_self(p: SqlParts)
    ensures
        has_parts(p, p),
{
    let e = Seq::<Option<Seq<char>>>::empty();
    assert(e + p + e =~= p);
}

/// A run that occurs in `x` occurs in `x` with parts added on either side.
proof fn lemma_has_extend(x: SqlParts, y: SqlParts, piece: SqlParts)
    requires
        has_parts(x, piece),
    ensures
        has_parts(x + y, piece),
        has_parts(y + x, piece),
{
    let (a, b) = choose|a: SqlParts, b: SqlParts| #[trigger] (a + piece + b) == x;
    assert((a + piece + (b + y)) =~= x + y);
    assert(((y + a) + piece + b) =~= y + x);
}

/// Each filter of the `WHERE` clause occurs in it.
proof fn lemma_where_has_each(
    prop_defs_table: Seq<char>,
    property_type: Option<Seq<char>>,
    properties: Option<Seq<Seq<char>>>,
    excluded_properties: Option<Seq<Seq<char>>>,
    search: Option<Seq<Seq<char>>>,
    event_names: Option<Seq<Seq<char>>>,
    is_feature_flag: Option<bool>,
    is_numerical: Option<bool>,
    filter_by_event_names: Option<bool>,
)
    ensures
        ({
            let w = where_parts(
                prop_defs_table,
                property_type,
                properties,
                excluded_properties,
                search,
                event_names,
                is_feature_flag,
                is_numerical,
                filter_by_event_names,
            );
            &&& has_parts(w, where_head_parts(prop_defs_table, property_type))
            &&& has_parts(w, exclusion_parts(prop_defs_table, property_type, excluded_properties))
            &&& has_parts(w, name_filter_parts(properties))
            &&& has_parts(w, numerical_parts(is_numerical))
            &&& has_parts(w, search_parts(search))
            &&& has_parts(w, event_names_filter_parts(filter_by_event_names, event_names))
            &&& has_parts(w, feature_flag_parts(is_feature_flag))
        }),
{
    let p1 = where_head_parts(prop_defs_table, property_type);
    let p2 = exclusion_parts(prop_defs_table, property_type, excluded_properties);
    let p3 = name_filter_parts(properties);
    let p4 = numerical_parts(is_numerical);
    let p5 = search_parts(search);
    let p6 = event_names_filter_parts(filter_by_event_names, event_names);
    let p7 = feature_flag_parts(is_feature_flag);
    lemma_has_self(p1);
    lemma_has_self(p2);
    lemma_has_self(p3);
    lemma_has_self(p4);
    lemma_has_self(p5);
    lemma_has_self(p6);
    lemma_has_self(p7);
    // p1
    lemma_has_extend(p1, p2, p1);
    lemma_has_extend(p1 + p2, p3, p1);
    lemma_has_extend(p1 + p2 + p3, p4, p1);
    lemma_has_extend(p1 + p2 + p3 + p4, p5, p1);
    lemma_has_extend(p1 + p2 + p3 + p4 + p5, p6, p1);
    lemma_has_extend(p1 + p2 + p3 + p4 + p5 + p6, p7, p1);
    // p2
    lemma_has_extend(p2, p1, p2);
    lemma_has_extend(p1 + p2, p3, p2);
    lemma_has_extend(p1 + p2 + p3, p4, p2);
    lemma_has_extend(p1 + p2 + p3 + p4, p5, p2);
    lemma_has_extend(p1 + p2 + p3 + p4 + p5, p6, p2);
    lemma_has_extend(p1 + p2 + p3 + p4 + p5 + p6, p7, p2);
    // p3
    lemma_has_extend(p3, p1 + p2, p3);
    lemma_has_extend(p1 + p2 + p3, p4, p3);
    lemma_has_extend(p1 + p2 + p3 + p4, p5, p3);
    lemma_has_extend(p1 + p2 + p3 + p4 + p5, p6, p3);
    lemma_has_extend(p1 + p2 + p3 + p4 + p5 + p6, p7, p3);
    // p4
    lemma_has_extend(p4, p1 + p2 + p3, p4);
    lemma_has_extend(p1 + p2 + p3 + p4, p5, p4);
    lemma_has_extend(p1 + p2 + p3 + p4 + p5, p6, p4);
    lemma_has_extend(p1 + p2 + p3 + p4 + p5 + p6, p7, p4);
    // p5
    lemma_has_extend(p5, p1 + p2 + p3 + p4, p5);
    lemma_has_extend(p1 + p2 + p3 + p4 + p5, p6, p5);
    lemma_has_extend(p1 + p2 + p3 + p4 + p5 + p6, p7, p5);
    // p6
    lemma_has_extend(p6, p1 + p2 + p3 + p4 + p5, p6);
    lemma_has_extend(p1 + p2 + p3 + p4 + p5 + p6, p7, p6);
    // p7
    lemma_has_extend(p7, p1 + p2 + p3 + p4 + p5 + p6, p7);
}

/// Whatever occurs in the `WHERE` clause occurs in the shared filters.
proof fn lemma_filter_has_where_piece(
    prop_defs_table: Seq<char>,
    event_props_table: Seq<char>,
    property_type: Option<Seq<char>>,
    properties: Option<Seq<Seq<char>>>,
    excluded_properties: Option<Seq<Seq<char>>>,
    search: Option<Seq<Seq<char>>>,
    event_names: Option<Seq<Seq<char>>>,
    is_feature_flag: Option<bool>,
    is_numerical: Option<bool>,
    filter_by_event_names: Option<bool>,
    piece: SqlParts,
)
    requires
        has_parts(
            where_parts(
                prop_defs_table,
                property_type,
                properties,
                excluded_properties,
                search,
                event_names,
                is_feature_flag,
                is_numerical,
                filter_by_event_names,
            ),
            piece,
        ),
    ensures
        has_parts(
            filter_parts(
                prop_defs_table,
                event_props_table,
                property_type,
                properties,
                excluded_properties,
                search,
                event_names,
                is_feature_flag,
                is_numerical,
                filter_by_event_names,
            ),
            piece,
        ),
{
    let w = where_parts(
        prop_defs_table,
        property_type,
        properties,
        excluded_properties,
        search,
        event_names,
        is_feature_flag,
        is_numerical,
        filter_by_event_names,
    );
    let j = if property_type == Some("event"@) {
        event_join_parts(event_props_table, filter_by_event_names, event_names)
    } else {
        Seq::<Option<Seq<char>>>::empty()
    };
    lemma_has_extend(w, j, piece);
}

/// Whatever occurs in the shared filters occurs in both queries.
proof fn lemma_queries_have_filter_piece(
    enterprise_table: Seq<char>,
    prop_defs_table: Seq<char>,
    event_props_table: Seq<char>,
    property_type: Option<Seq<char>>,
    properties: Option<Seq<Seq<char>>>,
    excluded_properties: Option<Seq<Seq<char>>>,
    search: Option<Seq<Seq<char>>>,
    event_names: Option<Seq<Seq<char>>>,
    is_feature_flag: Option<bool>,
    is_numerical: Option<bool>,
    use_enterprise_taxonomy: Option<bool>,
    filter_by_event_names: Option<bool>,
    order_by_verified: bool,
    piece: SqlParts,
)
    requires
        has_parts(
            filter_parts(
                prop_defs_table,
                event_props_table,
                property_type,
                properties,
                excluded_properties,
                search,
                event_names,
                is_feature_flag,
                is_numerical,
                filter_by_event_names,
            ),
            piece,
        ),
    ensures
        queries_have(
            enterprise_table,
            prop_defs_table,
            event_props_table,
            property_type,
            properties,
            excluded_properties,
            search,
            event_names,
            is_feature_flag,
            is_numerical,
            use_enterprise_taxonomy,
            filter_by_event_names,
            order_by_verified,
            piece,
        ),
{
    let f = filter_parts(
        prop_defs_table,
        event_props_table,
        property_type,
        properties,
        excluded_properties,
        search,
        event_names,
        is_feature_flag,
        is_numerical,
        filter_by_event_names,
    );
    let c = count_query_parts(
        enterprise_table,
        prop_defs_table,
        event_props_table,
        property_type,
        properties,
        excluded_properties,
        search,
        event_names,
        is_feature_flag,
        is_numerical,
        use_enterprise_taxonomy,
        filter_by_event_names,
    );
    lemma_has_extend(f, seq![c[0]], piece);
    assert(c == seq![c[0]] + f);
    let d = definitions_query_parts(
        enterprise_table,
        prop_defs_table,
        event_props_table,
        property_type,
        properties,
        excluded_properties,
        search,
        event_names,
        is_feature_flag,
        is_numerical,
        use_enterprise_taxonomy,
        filter_by_event_names,
        order_by_verified,
    );
    assert(d == seq![d[0]] + f + d.skip(1 + f.len() as int));
    lemma_has_extend(f, seq![d[0]], piece);
    lemma_has_extend(seq![d[0]] + f, d.skip(1 + f.len() as int), piece);
}

/// `piece` occurs in both the count query and the property-definitions
/// query built from these arguments.
pub open spec fn queries_have(
    enterprise_table: Seq<char>,
    prop_defs_table: Seq<char>,
    event_props_table: Seq<char>,
    property_type: Option<Seq<char>>,
    properties: Option<Seq<Seq<char>>>,
    excluded_properties: Option<Seq<Seq<char>>>,
    search: Option<Seq<Seq<char>>>,
    event_names: Option<Seq<Seq<char>>>,
    is_feature_flag: Option<bool>,
    is_numerical: Option<bool>,
    use_enterprise_taxonomy: Option<bool>,
    filter_by_event_names: Option<bool>,
    order_by_verified: bool,
    piece: SqlParts,
) -> bool {
    &&& has_parts(
        count_query_parts(
            enterprise_table,
            prop_defs_table,
            event_props_table,
            property_type,
            properties,
            excluded_properties,
            search,
            event_names,
            is_feature_flag,
            is_numerical,
            use_enterprise_taxonomy,
            filter_by_event_names,
        ),
        piece,
    )
    &&& has_parts(
        definitions_query_parts(
            enterprise_table,
            prop_defs_table,
            event_props_table,
            property_type,
            properties,
            excluded_properties,
            search,
            event_names,
            is_feature_flag,
            is_numerical,
            use_enterprise_taxonomy,
            filter_by_event_names,
            order_by_verified,
        ),
        piece,
    )
}

/// A non-empty search term gives a case-insensitive match on the name.
proof fn lemma_search_terms_have_match(terms: Seq<Seq<char>>, i: int)
    requires
        0 <= i < terms.len(),
        terms[i].len() > 0,
    ensures
        has_parts(search_term_parts(terms), seq![Some(" AND name ILIKE "@), None]),
    decreases terms.len(),
{
    let piece: SqlParts = seq![Some(" AND name ILIKE "@), None];
    if i == terms.len() - 1 {
        lemma_has_self(piece);
        lemma_has_extend(piece, search_term_parts(terms.drop_last()), piece);
    } else {
        assert(terms.drop_last()[i] == terms[i]);
        lemma_search_terms_have_match(terms.drop_last(), i);
        lemma_has_extend(
            search_term_parts(terms.drop_last()),
            if terms.last().len() > 0 { piece } else { Seq::<Option<Seq<char>>>::empty() },
            piece,
        );
    }
}

/// Both queries keep the rows that the request asks for: each filter that
/// the request's parameters call for stands in both queries' SQL, with the
/// value it compares against bound as a parameter.
pub proof fn law_queries_filter_by_request(
    enterprise_table: Seq<char>,
    prop_defs_table: Seq<char>,
    event_props_table: Seq<char>,
    property_type: Option<Seq<char>>,
    properties: Option<Seq<Seq<char>>>,
    excluded_properties: Option<Seq<Seq<char>>>,
    search: Option<Seq<Seq<char>>>,
    event_names: Option<Seq<Seq<char>>>,
    is_feature_flag: Option<bool>,
    is_numerical: Option<bool>,
    use_enterprise_taxonomy: Option<bool>,
    filter_by_event_names: Option<bool>,
    order_by_verified: bool,
)
    ensures
        // the project
        queries_have(
            enterprise_table, prop_defs_table, event_props_table, property_type, properties,
            excluded_properties, search, event_names, is_feature_flag, is_numerical,
            use_enterprise_taxonomy, filter_by_event_names, order_by_verified,
            seq![
                Some(" WHERE COALESCE("@ + prop_defs_table + ".project_id, "@ + prop_defs_table
                    + ".team_id) = "@),
                None,
            ],
        ),
        // the group type index
        queries_have(
            enterprise_table, prop_defs_table, event_props_table, property_type, properties,
            excluded_properties, search, event_names, is_feature_flag, is_numerical,
            use_enterprise_taxonomy, filter_by_event_names, order_by_verified,
            seq![Some(" AND COALESCE(group_type_index, -1) = "@), None],
        ),
        // the property type, when given
        property_type is Some ==> queries_have(
            enterprise_table, prop_defs_table, event_props_table, property_type, properties,
            excluded_properties, search, event_names, is_feature_flag, is_numerical,
            use_enterprise_taxonomy, filter_by_event_names, order_by_verified,
            seq![Some(" AND type = "@), None],
        ),
        // the excluded names, for a non-empty list or an event-typed query
        (excluded_properties matches Some(ex) && (ex.len() > 0 || property_type == Some("event"@)))
            ==> queries_have(
            enterprise_table, prop_defs_table, event_props_table, property_type, properties,
            excluded_properties, search, event_names, is_feature_flag, is_numerical,
            use_enterprise_taxonomy, filter_by_event_names, order_by_verified,
            seq![Some(" AND NOT "@ + prop_defs_table + ".name = ANY("@), None, Some(")"@)],
        ),
        // the requested names, for a non-empty list
        (properties matches Some(ps) && ps.len() > 0) ==> queries_have(
            enterprise_table, prop_defs_table, event_props_table, property_type, properties,
            excluded_properties, search, event_names, is_feature_flag, is_numerical,
            use_enterprise_taxonomy, filter_by_event_names, order_by_verified,
            seq![Some(" AND name = ANY("@), None, Some(")"@)],
        ),
        // numerical properties only
        is_numerical == Some(true) ==> queries_have(
            enterprise_table, prop_defs_table, event_props_table, property_type, properties,
            excluded_properties, search, event_names, is_feature_flag, is_numerical,
            use_enterprise_taxonomy, filter_by_event_names, order_by_verified,
            seq![Some(" AND is_numerical = true AND NOT name = ANY(ARRAY['distinct_id', 'timestamp'])"@)],
        ),
        // a match on the name for a non-empty search term
        (search matches Some(ts) && (exists|i: int| 0 <= i < ts.len() && #[trigger] ts[i].len() > 0))
            ==> queries_have(
            enterprise_table, prop_defs_table, event_props_table, property_type, properties,
            excluded_properties, search, event_names, is_feature_flag, is_numerical,
            use_enterprise_taxonomy, filter_by_event_names, order_by_verified,
            seq![Some(" AND name ILIKE "@), None],
        ),
        // the requested event names, when filtering by them
        (filter_by_event_names == Some(true) && (event_names matches Some(ns) && ns.len() > 0))
            ==> queries_have(
            enterprise_table, prop_defs_table, event_props_table, property_type, properties,
            excluded_properties, search, event_names, is_feature_flag, is_numerical,
            use_enterprise_taxonomy, filter_by_event_names, order_by_verified,
            seq![Some(" AND event = ANY("@), None, Some(")"@)],
        ),
        // feature-flag properties only, or none of them
        is_feature_flag == Some(true) ==> queries_have(
            enterprise_table, prop_defs_table, event_props_table, property_type, properties,
            excluded_properties, search, event_names, is_feature_flag, is_numerical,
            use_enterprise_taxonomy, filter_by_event_names, order_by_verified,
            seq![Some(" AND (name LIKE '$feature/%')"@)],
        ),
        is_feature_flag == Some(false) ==> queries_have(
            enterprise_table, prop_defs_table, event_props_table, property_type, properties,
            excluded_properties, search, event_names, is_feature_flag, is_numerical,
            use_enterprise_taxonomy, filter_by_event_names, order_by_verified,
            seq![Some(" AND (name NOT LIKE '$feature/%')"@)],
        ),
        // the join on the properties seen on the project's events, for
        // event-typed queries
        property_type == Some("event"@) ==> queries_have(
            enterprise_table, prop_defs_table, event_props_table, property_type, properties,
            excluded_properties, search, event_names, is_feature_flag, is_numerical,
            use_enterprise_taxonomy, filter_by_event_names, order_by_verified,
            seq![
                Some(" "@ + (if filter_by_event_names == Some(true) {
                    "INNER JOIN"@
                } else {
                    "LEFT JOIN"@
                }) + " (SELECT DISTINCT property FROM "@ + event_props_table
                    + " WHERE COALESCE(project_id, team_id) = "@),
                None,
            ],
        ),
{
    lemma_where_has_each(
        prop_defs_table,
        property_type,
        properties,
        excluded_properties,
        search,
        event_names,
        is_feature_flag,
        is_numerical,
        filter_by_event_names,
    );
    let w1 = where_head_parts(prop_defs_table, property_type);
    let project: SqlParts = seq![
        Some(" WHERE COALESCE("@ + prop_defs_table + ".project_id, "@ + prop_defs_table
            + ".team_id) = "@),
        None,
    ];
    let typ: SqlParts = seq![Some(" AND type = "@), None];
    let gti: SqlParts = seq![Some(" AND COALESCE(group_type_index, -1) = "@), None];
    let t = if property_type is Some { typ } else { Seq::<Option<Seq<char>>>::empty() };
    assert(w1 == project + t + gti);
    lemma_has_self(project);
    lemma_has_self(typ);
    lemma_has_self(gti);
    lemma_has_extend(project, t, project);
    lemma_has_extend(project + t, gti, project);
    lemma_has_extend(typ, project, typ);
    lemma_has_extend(project + typ, gti, typ);
    lemma_has_extend(gti, project + t, gti);
    let pd = prop_defs_table;
    let et = event_props_table;
    let pt = property_type;
    let w = where_parts(
        pd,
        pt,
        properties,
        excluded_properties,
        search,
        event_names,
        is_feature_flag,
        is_numerical,
        filter_by_event_names,
    );
    // the three pieces of the head of the `WHERE` clause stand in it
    lemma_has_extend_into(w1, w, project);
    lemma_has_extend_into(w1, w, gti);
    if pt is Some {
        lemma_has_extend_into(w1, w, typ);
    }
    // every piece of the `WHERE` clause stands in both queries
    assert forall|piece: SqlParts| has_parts(w, piece) implies queries_have(
        enterprise_table, pd, et, pt, properties, excluded_properties, search, event_names,
        is_feature_flag, is_numerical, use_enterprise_taxonomy, filter_by_event_names,
        order_by_verified, piece,
    ) by {
        lemma_filter_has_where_piece(
            pd, et, pt, properties, excluded_properties, search, event_names, is_feature_flag,
            is_numerical, filter_by_event_names, piece,
        );
        lemma_queries_have_filter_piece(
            enterprise_table, pd, et, pt, properties, excluded_properties, search, event_names,
            is_feature_flag, is_numerical, use_enterprise_taxonomy, filter_by_event_names,
            order_by_verified, piece,
        );
    }
    if search is Some && (exists|i: int| 0 <= i < search->0.len() && #[trigger] search->0[i].len() > 0) {
        let ts = search->0;
        let i = choose|i: int| 0 <= i < ts.len() && #[trigger] ts[i].len() > 0;
        lemma_search_terms_have_match(ts, i);
        lemma_has_extend_into(search_parts(search), w, seq![Some(" AND name ILIKE "@), None]);
    }
    if pt == Some("event"@) {
        let j = event_join_parts(et, filter_by_event_names, event_names);
        let open: SqlParts = seq![
            Some(" "@ + (if filter_by_event_names == Some(true) {
                "INNER JOIN"@
            } else {
                "LEFT JOIN"@
            }) + " (SELECT DISTINCT property FROM "@ + et + " WHERE COALESCE(project_id, team_id) = "@),
            None,
        ];
        assert(j == open + j.skip(2));
        lemma_has_self(open);
        lemma_has_extend(open, j.skip(2), open);
        let f = filter_parts(
            pd, et, pt, properties, excluded_properties, search, event_names, is_feature_flag,
            is_numerical, filter_by_event_names,
        );
        assert(f == j + w);
        lemma_has_extend(j, w, open);
        lemma_queries_have_filter_piece(
            enterprise_table, pd, et, pt, properties, excluded_properties, search, event_names,
            is_feature_flag, is_numerical, use_enterprise_taxonomy, filter_by_event_names,
            order_by_verified, open,
        );
    }
}

/// A run that occurs in `x`, where `x` occurs in `y`, occurs in `y`.
proof fn lemma_has_extend_into(x: SqlParts, y: SqlParts, piece: SqlParts)
    requires
        has_parts(x, piece),
        has_parts(y, x),
    ensures
        has_parts(y, piece),
{
    let (a, b) = choose|a: SqlParts, b: SqlParts| #[trigger] (a + piece + b) == x;
    let (c, d) = choose|c: SqlParts, d: SqlParts| #[trigger] (c + x + d) == y;
    assert(((c + a) + piece + (b + d)) =~= y);
}

/// Both queries select from the same table expression, written into their
/// text: the enterprise table joined with the plain one when enterprise
/// taxonomy is asked for, else the plain table. The page query also says
/// whether each property was seen on the filtered events.
pub proof fn law_queries_select_from_same_tables(
    enterprise_table: Seq<char>,
    prop_defs_table: Seq<char>,
    event_props_table: Seq<char>,
    property_type: Option<Seq<char>>,
    properties: Option<Seq<Seq<char>>>,
    excluded_properties: Option<Seq<Seq<char>>>,
    search: Option<Seq<Seq<char>>>,
    event_names: Option<Seq<Seq<char>>>,
    is_feature_flag: Option<bool>,
    is_numerical: Option<bool>,
    use_enterprise_taxonomy: Option<bool>,
    filter_by_event_names: Option<bool>,
    order_by_verified: bool,
)
    ensures
        ({
            let tables = if use_enterprise_taxonomy == Some(true) {
                enterprise_table + " FULL OUTER JOIN "@ + prop_defs_table + " ON "@
                    + prop_defs_table + ".id="@ + enterprise_table + ".propertydefinition_ptr_id"@
            } else {
                prop_defs_table
            };
            let seen = if property_type == Some("event"@) {
                POSTHOG_EVENT_PROPERTY_TABLE_NAME_ALIAS@ + ".property IS NOT NULL"@
            } else {
                "NULL"@
            };
            &&& count_query_parts(
                enterprise_table,
                prop_defs_table,
                event_props_table,
                property_type,
                properties,
                excluded_properties,
                search,
                event_names,
                is_feature_flag,
                is_numerical,
                use_enterprise_taxonomy,
                filter_by_event_names,
            )[0] == Some("SELECT count(*) AS full_count FROM "@ + tables)
            &&& definitions_query_parts(
                enterprise_table,
                prop_defs_table,
                event_props_table,
                property_type,
                properties,
                excluded_properties,
                search,
                event_names,
                is_feature_flag,
                is_numerical,
                use_enterprise_taxonomy,
                filter_by_event_names,
                order_by_verified,
            )[0] == Some(
                "SELECT "@ + prop_defs_table + ".*, "@ + seen + " AS is_seen_on_filtered_events FROM "@
                    + tables,
            )
        }),
{
}

/// The page query ends with its ordering (seen properties first, then
/// verified ones when asked for, then by name) and its `LIMIT` and `OFFSET`,
/// each bound.
pub proof fn law_definitions_query_orders_and_bounds_page(
    enterprise_table: Seq<char>,
    prop_defs_table: Seq<char>,
    event_props_table: Seq<char>,
    property_type: Option<Seq<char>>,
    properties: Option<Seq<Seq<char>>>,
    excluded_properties: Option<Seq<Seq<char>>>,
    search: Option<Seq<Seq<char>>>,
    event_names: Option<Seq<Seq<char>>>,
    is_feature_flag: Option<bool>,
    is_numerical: Option<bool>,
    use_enterprise_taxonomy: Option<bool>,
    filter_by_event_names: Option<bool>,
    order_by_verified: bool,
)
    ensures
        ({
            let d = definitions_query_parts(
                enterprise_table,
                prop_defs_table,
                event_props_table,
                property_type,
                properties,
                excluded_properties,
                search,
                event_names,
                is_feature_flag,
                is_numerical,
                use_enterprise_taxonomy,
                filter_by_event_names,
                order_by_verified,
            );
            let verified = if order_by_verified {
                "verified DESC NULLS LAST, "@
            } else {
                ""@
            };
            let tail: SqlParts = seq![
                Some(" ORDER BY is_seen_on_filtered_events DESC, "@ + verified + prop_defs_table
                    + ".name ASC"@ + " LIMIT "@),
                None,
                Some(" OFFSET "@),
                None,
            ];
            &&& d.len() >= 4
            &&& d.skip(d.len() - 4) == tail
        }),
{
    let d = definitions_query_parts(
        enterprise_table,
        prop_defs_table,
        event_props_table,
        property_type,
        properties,
        excluded_properties,
        search,
        event_names,
        is_feature_flag,
        is_numerical,
        use_enterprise_taxonomy,
        filter_by_event_names,
        order_by_verified,
    );
    assert(d.skip(d.len() - 4) =~= crate::query::page_parts(prop_defs_table, order_by_verified));
}

} // verus!
