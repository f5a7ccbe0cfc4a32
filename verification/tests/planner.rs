use property_defs_rs::api::{handle_prop_defs_by_project, PlanError};
use property_defs_rs::params::{
    parse_csv, parse_params, parse_search_terms, RawParams, DEFAULT_QUERY_LIMIT,
    DEFAULT_QUERY_OFFSET,
};
use property_defs_rs::query::{excluded_bind_values, hidden_event_properties, Config, QueryManager};
use property_defs_rs::response::PropDefResponse;

const PD: &str = "posthog_propertydefinition";

fn strings(v: &[&str]) -> Vec<String> {
    v.iter().map(|s| s.to_string()).collect()
}

fn config() -> Config {
    Config {
        database_url: "postgres://localhost/posthog".to_string(),
        max_pg_connections: 4,
        enterprise_prop_defs_table_name: "ee_enterprisepropertydefinition".to_string(),
        prop_defs_table_name: PD.to_string(),
        event_props_table_name: "posthog_eventproperty".to_string(),
    }
}

fn empty_raw() -> RawParams {
    RawParams {
        search: None,
        property_type: None,
        group_type_index: None,
        properties: None,
        is_numerical: None,
        is_feature_flag: None,
        excluded_properties: None,
        use_enterprise_taxonomy: None,
        filter_by_event_names: None,
        event_names: None,
        limit: None,
        offset: None,
    }
}

fn some(s: &str) -> Option<String> {
    Some(s.to_string())
}

const EP: &str = "posthog_eventproperty";

fn where_text() -> String {
    format!(" WHERE COALESCE({PD}.project_id, {PD}.team_id) = ")
}

const JOIN_CLOSE: &str =
    ") check_for_matching_event_property ON check_for_matching_event_property.property = name";

#[test]
fn search_terms_are_trimmed_and_lowercased() {
    assert_eq!(parse_search_terms("Foo  BAR"), strings(&["foo", "", "bar"]));
    assert_eq!(parse_search_terms("ÉTÉ\tx"), strings(&["été\tx"]));
    assert_eq!(parse_search_terms(""), strings(&[""]));
    assert_eq!(parse_search_terms("Straße"), strings(&["straße"]));
}

#[test]
fn csv_values_are_trimmed() {
    assert_eq!(parse_csv("a, b ,c"), strings(&["a", "b", "c"]));
    assert_eq!(parse_csv(""), strings(&[""]));
    assert_eq!(parse_csv(" $pageview ,, x"), strings(&["$pageview", "", "x"]));
}

#[test]
fn group_type_index_only_for_group_properties() {
    let mut raw = empty_raw();
    raw.property_type = some("group");
    raw.group_type_index = some("3");
    assert_eq!(parse_params(&raw).group_type_index, 3);

    raw.group_type_index = some("5");
    assert_eq!(parse_params(&raw).group_type_index, -1);
    raw.group_type_index = some("-1");
    assert_eq!(parse_params(&raw).group_type_index, -1);
    raw.group_type_index = some("x");
    assert_eq!(parse_params(&raw).group_type_index, -1);
    raw.group_type_index = None;
    assert_eq!(parse_params(&raw).group_type_index, -1);

    raw.property_type = some("event");
    raw.group_type_index = some("3");
    assert_eq!(parse_params(&raw).group_type_index, -1);
}

#[test]
fn property_type_must_be_a_parent_type() {
    for t in ["event", "person", "group", "session"] {
        let mut raw = empty_raw();
        raw.property_type = some(t);
        assert_eq!(parse_params(&raw).property_type, some(t));
    }
    let mut raw = empty_raw();
    raw.property_type = some("Event");
    assert_eq!(parse_params(&raw).property_type, None);
    raw.property_type = some("cohort");
    assert_eq!(parse_params(&raw).property_type, None);
}

#[test]
fn limit_and_offset_defaults() {
    let p = parse_params(&empty_raw());
    assert_eq!(p.limit, DEFAULT_QUERY_LIMIT);
    assert_eq!(p.offset, DEFAULT_QUERY_OFFSET);
    assert_eq!(p.limit, 0);
    assert_eq!(p.offset, 100);

    let mut raw = empty_raw();
    raw.limit = some("25");
    raw.offset = some("bad");
    let p = parse_params(&raw);
    assert_eq!(p.limit, 25);
    assert_eq!(p.offset, 100);
}

#[test]
fn boolean_and_list_parameters() {
    let mut raw = empty_raw();
    raw.is_numerical = some("true");
    raw.is_feature_flag = some("false");
    raw.use_enterprise_taxonomy = some("yes");
    raw.filter_by_event_names = some("true");
    raw.event_names = some("a, b");
    raw.properties = some("p1,p2");
    raw.excluded_properties = some(" x ");
    raw.search = some("Hello World");
    let p = parse_params(&raw);
    assert_eq!(p.is_numerical, Some(true));
    assert_eq!(p.is_feature_flag, Some(false));
    assert_eq!(p.use_enterprise_taxonomy, None);
    assert_eq!(p.filter_by_event_names, Some(true));
    assert_eq!(p.event_names, Some(strings(&["a", "b"])));
    assert_eq!(p.properties, Some(strings(&["p1", "p2"])));
    assert_eq!(p.excluded_properties, Some(strings(&["x"])));
    assert_eq!(p.search, Some(strings(&["hello", "world"])));

    let p = parse_params(&empty_raw());
    assert_eq!(p.search, None);
    assert_eq!(p.properties, None);
    assert_eq!(p.is_numerical, None);
}

#[test]
fn join_type_and_event_type() {
    let qm = QueryManager::new(&config());
    assert_eq!(qm.event_property_join_type(&Some(true)), "INNER JOIN");
    assert_eq!(qm.event_property_join_type(&Some(false)), "LEFT JOIN");
    assert_eq!(qm.event_property_join_type(&None), "LEFT JOIN");
    assert!(qm.is_prop_type_event(&some("event")));
    assert!(!qm.is_prop_type_event(&some("person")));
    assert!(!qm.is_prop_type_event(&None));
}

#[test]
fn from_clause_for_enterprise_taxonomy() {
    let qm = QueryManager::new(&config());
    assert_eq!(qm.from_clause(&None), PD);
    assert_eq!(qm.from_clause(&Some(false)), PD);
    assert_eq!(
        qm.from_clause(&Some(true)),
        format!(
            "ee_enterprisepropertydefinition FULL OUTER JOIN {PD} ON {PD}.id=ee_enterprisepropertydefinition.propertydefinition_ptr_id"
        )
    );
}

#[test]
fn hidden_properties_and_exclusions() {
    let hidden = hidden_event_properties();
    assert_eq!(hidden.len(), 14);
    assert_eq!(hidden[0], "distinct_id");
    assert_eq!(hidden[13], "$group_4");
    let excludes = strings(&["foo", "bar"]);
    let with_hidden = excluded_bind_values(true, &excludes);
    assert_eq!(with_hidden.len(), 16);
    assert_eq!(&with_hidden[14..], &excludes[..]);
    assert_eq!(excluded_bind_values(false, &excludes), excludes);
}

#[test]
fn count_query_for_person_properties() {
    let qm = QueryManager::new(&config());
    let sql = qm.count_query(
        1, &None, &some("person"), -1, &None, &None, &None, &None, &None, &None, &None,
    );
    let expected = format!(
        "SELECT count(*) AS full_count FROM {PD}{}$1 AND type = $2 AND COALESCE(group_type_index, -1) = $3",
        where_text()
    );
    assert_eq!(sql, expected);
}

#[test]
fn count_query_without_type() {
    let qm = QueryManager::new(&config());
    let sql = qm.count_query(
        7,
        &Some(strings(&["term"])),
        &None,
        2,
        &Some(Vec::new()),
        &Some(Vec::new()),
        &Some(strings(&["e"])),
        &Some(true),
        &Some(false),
        &Some(true),
        &Some(false),
    );
    let expected = [
        "SELECT count(*) AS full_count FROM ee_enterprisepropertydefinition FULL OUTER JOIN ",
        PD,
        " ON ",
        PD,
        ".id=ee_enterprisepropertydefinition.propertydefinition_ptr_id",
        &where_text(),
        "$1 AND COALESCE(group_type_index, -1) = $2 AND name ILIKE $3 AND (name LIKE '$feature/%')",
    ]
    .concat();
    assert_eq!(sql, expected);
}

#[test]
fn count_query_for_filtered_event_properties() {
    let qm = QueryManager::new(&config());
    let sql = qm.count_query(
        1,
        &None,
        &some("event"),
        -1,
        &Some(strings(&["a"])),
        &Some(strings(&["foo"])),
        &Some(strings(&["$pageview", "click"])),
        &Some(false),
        &Some(true),
        &None,
        &Some(true),
    );
    let expected = [
        "SELECT count(*) AS full_count FROM ",
        PD,
        " INNER JOIN (SELECT DISTINCT property FROM ",
        EP,
        " WHERE COALESCE(project_id, team_id) = $1 AND event = ANY($2)",
        JOIN_CLOSE,
        &where_text(),
        "$3 AND type = $4 AND COALESCE(group_type_index, -1) = $5",
        &format!(" AND NOT {PD}.name = ANY($6)"),
        " AND name = ANY($7)",
        " AND is_numerical = true AND NOT name = ANY(ARRAY['distinct_id', 'timestamp'])",
        " AND event = ANY($8)",
        " AND (name NOT LIKE '$feature/%')",
    ]
    .concat();
    assert_eq!(sql, expected);
}

#[test]
fn count_query_for_unfiltered_event_properties() {
    let qm = QueryManager::new(&config());
    let sql = qm.count_query(
        3, &None, &some("event"), -1, &None, &Some(Vec::new()), &Some(strings(&["x"])), &None,
        &None, &None, &None,
    );
    let expected = [
        "SELECT count(*) AS full_count FROM ",
        PD,
        " LEFT JOIN (SELECT DISTINCT property FROM ",
        EP,
        " WHERE COALESCE(project_id, team_id) = $1",
        JOIN_CLOSE,
        &where_text(),
        "$2 AND type = $3 AND COALESCE(group_type_index, -1) = $4",
        &format!(" AND NOT {PD}.name = ANY($5)"),
    ]
    .concat();
    assert_eq!(sql, expected);
}

#[test]
fn count_query_matches_each_non_empty_search_term() {
    let qm = QueryManager::new(&config());
    let sql = qm.count_query(
        1,
        &Some(strings(&["foo", "", "bar"])),
        &some("person"),
        -1,
        &None,
        &None,
        &None,
        &None,
        &None,
        &None,
        &None,
    );
    let expected = format!(
        "SELECT count(*) AS full_count FROM {PD}{}$1 AND type = $2 AND COALESCE(group_type_index, -1) = $3 AND name ILIKE $4 AND name ILIKE $5",
        where_text()
    );
    assert_eq!(sql, expected);
}

#[test]
fn binds_fit_for_ordinary_requests() {
    let qm = QueryManager::new(&config());
    assert!(qm.binds_fit(
        &some("event"),
        &Some(strings(&["a"])),
        &Some(strings(&["b"])),
        &Some(strings(&["c", ""])),
        &Some(strings(&["d"])),
        &Some(true),
    ));
}

#[test]
fn property_definitions_query_for_person_properties() {
    let qm = QueryManager::new(&config());
    let sql = qm.property_definitions_query(
        1, &None, &some("person"), -1, &None, &None, &None, &None, &None, &None, &None, true, 10, 0,
    );
    let expected = [
        "SELECT ",
        PD,
        ".*, NULL AS is_seen_on_filtered_events FROM ",
        PD,
        &where_text(),
        "$1 AND type = $2 AND COALESCE(group_type_index, -1) = $3",
        " ORDER BY is_seen_on_filtered_events DESC, verified DESC NULLS LAST, ",
        PD,
        ".name ASC LIMIT $4 OFFSET $5",
    ]
    .concat();
    assert_eq!(sql, expected);
}

#[test]
fn property_definitions_query_for_event_properties() {
    let qm = QueryManager::new(&config());
    let sql = qm.property_definitions_query(
        1,
        &Some(strings(&["url"])),
        &some("event"),
        -1,
        &None,
        &None,
        &Some(strings(&["$pageview"])),
        &None,
        &None,
        &None,
        &Some(true),
        false,
        100,
        200,
    );
    let expected = [
        "SELECT ",
        PD,
        ".*, check_for_matching_event_property.property IS NOT NULL AS is_seen_on_filtered_events FROM ",
        PD,
        " INNER JOIN (SELECT DISTINCT property FROM ",
        EP,
        " WHERE COALESCE(project_id, team_id) = $1 AND event = ANY($2)",
        JOIN_CLOSE,
        &where_text(),
        "$3 AND type = $4 AND COALESCE(group_type_index, -1) = $5",
        " AND name ILIKE $6 AND event = ANY($7)",
        " ORDER BY is_seen_on_filtered_events DESC, ",
        PD,
        ".name ASC LIMIT $8 OFFSET $9",
    ]
    .concat();
    assert_eq!(sql, expected);
}

#[test]
fn both_queries_share_their_filters() {
    let qm = QueryManager::new(&config());
    let count = qm.count_query(
        4, &Some(strings(&["a"])), &some("event"), -1, &Some(strings(&["p"])), &Some(strings(&["x"])),
        &Some(strings(&["e"])), &Some(true), &Some(true), &Some(true), &Some(true),
    );
    let props = qm.property_definitions_query(
        4, &Some(strings(&["a"])), &some("event"), -1, &Some(strings(&["p"])), &Some(strings(&["x"])),
        &Some(strings(&["e"])), &Some(true), &Some(true), &Some(true), &Some(true), true, 5, 0,
    );
    let count_filters = &count[count.find(" INNER JOIN").unwrap()..];
    let props_filters = &props[props.find(" INNER JOIN").unwrap()..props.find(" ORDER BY").unwrap()];
    assert_eq!(count_filters, props_filters);
}

#[test]
fn default_response_is_empty() {
    let r = PropDefResponse::default();
    assert_eq!(r.count, 0);
    assert!(r.next.is_none());
    assert!(r.prev.is_none());
    assert!(r.results.is_empty());
}

#[test]
fn handler_rejects_a_missing_property_type() {
    let qm = QueryManager::new(&config());
    assert!(matches!(
        handle_prop_defs_by_project(&qm, 1, &empty_raw()),
        Err(PlanError::MissingPropertyType)
    ));
    let mut raw = empty_raw();
    raw.property_type = some("cohort");
    assert!(matches!(
        handle_prop_defs_by_project(&qm, 1, &raw),
        Err(PlanError::MissingPropertyType)
    ));
}

#[test]
fn handler_plans_both_queries() {
    let qm = QueryManager::new(&config());
    let mut raw = empty_raw();
    raw.property_type = some("group");
    raw.group_type_index = some("2");
    raw.search = some("Foo");
    raw.limit = some("10");
    let plan = match handle_prop_defs_by_project(&qm, 9, &raw) {
        Ok(plan) => plan,
        Err(_) => panic!("request fits"),
    };
    assert_eq!(plan.project_id, 9);
    assert!(plan.order_by_verified);
    assert_eq!(plan.params.group_type_index, 2);
    assert_eq!(plan.params.property_type, some("group"));
    assert_eq!(plan.params.search, Some(strings(&["foo"])));
    assert_eq!(plan.params.limit, 10);
    assert_eq!(plan.params.offset, 100);
    let expected = format!(
        "SELECT count(*) AS full_count FROM {PD}{}$1 AND type = $2 AND COALESCE(group_type_index, -1) = $3 AND name ILIKE $4",
        where_text()
    );
    assert_eq!(plan.count_query, expected);
    assert!(plan.props_query.ends_with(" LIMIT $5 OFFSET $6"));
    assert_eq!(plan.response.count, 0);
    assert!(plan.response.results.is_empty());
}

#[test]
fn queries_bind_index_and_paging() {
    let qm = QueryManager::new(&config());
    let mut raw1 = empty_raw();
    raw1.property_type = some("event");
    raw1.event_names = some("a,b");
    raw1.filter_by_event_names = some("true");
    let mut raw2 = empty_raw();
    raw2.property_type = some("event");
    raw2.event_names = some("a,b");
    raw2.filter_by_event_names = some("true");
    raw2.limit = some("5");
    raw2.offset = some("50");
    raw2.group_type_index = some("1");
    let p1 = handle_prop_defs_by_project(&qm, 1, &raw1).ok().unwrap();
    let p2 = handle_prop_defs_by_project(&qm, 1, &raw2).ok().unwrap();
    assert_eq!(p1.count_query, p2.count_query);
    assert_eq!(p1.props_query, p2.props_query);
    raw2.search = some("x");
    let p3 = handle_prop_defs_by_project(&qm, 1, &raw2).ok().unwrap();
    assert_ne!(p1.count_query, p3.count_query);
}
