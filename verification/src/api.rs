//! The property-definitions endpoint, apart from its HTTP plumbing: from a
//! project and the raw request parameters to the queries it runs and the
//! body it answers with.

use crate::params::{
    opt_list_view, opt_view, parse_params, parsed_from, spec_csv, spec_opt_bool,
    spec_property_type, spec_search, PropDefParams, RawParams,
};
use crate::query::{count_query_parts, definitions_query_parts, query_binds_fit, QueryManager};
use crate::response::PropDefResponse;
use crate::sql::render;
use vstd::prelude::*;

verus! {

/// Why the endpoint turns a request down.
pub enum PlanError {
    /// The request names no parent property type (`type` is missing or
    /// names none of them).
    MissingPropertyType,
    /// A value that the queries bind is too large for Postgres' encoding.
    BindTooLarge,
}

/// What the endpoint makes of a request.
pub struct PropDefPlan {
    /// The project whose definitions are asked for.
    pub project_id: i32,
    /// The parsed request parameters that both queries are built from.
    pub params: PropDefParams,
    /// Whether verified definitions come first.
    pub order_by_verified: bool,
    /// The SQL that counts the matching property definitions.
    pub count_query: String,
    /// The SQL that selects the page of property definitions.
    pub props_query: String,
    /// The body of the answer.
    pub response: PropDefResponse,
}

/// The count query that `qmgr` builds from parsed parameters.
pub open spec fn params_count_query(qmgr: QueryManager, p: PropDefParams) -> Seq<char> {
    render(
        count_query_parts(
            qmgr.enterprise_table(),
            qmgr.prop_defs_table(),
            qmgr.event_props_table(),
            opt_view(p.property_type),
            opt_list_view(p.properties),
            opt_list_view(p.excluded_properties),
            opt_list_view(p.search),
            opt_list_view(p.event_names),
            p.is_feature_flag,
            p.is_numerical,
            p.use_enterprise_taxonomy,
            p.filter_by_event_names,
        ),
    )
}

/// The property-definitions query that `qmgr` builds from parsed
/// parameters.
pub open spec fn params_definitions_query(
    qmgr: QueryManager,
    p: PropDefParams,
    order_by_verified: bool,
) -> Seq<char> {
    render(
        definitions_query_parts(
            qmgr.enterprise_table(),
            qmgr.prop_defs_table(),
            qmgr.event_props_table(),
            opt_view(p.property_type),
            opt_list_view(p.properties),
            opt_list_view(p.excluded_properties),
            opt_list_view(p.search),
            opt_list_view(p.event_names),
            p.is_feature_flag,
            p.is_numerical,
            p.use_enterprise_taxonomy,
            p.filter_by_event_names,
            order_by_verified,
        ),
    )
}

/// The request names a parent property type.
pub open spec fn request_has_type(raw: RawParams) -> bool {
    spec_property_type(opt_view(raw.property_type)) is Some
}

/// Every value that the request's queries bind fits Postgres' encoding.
pub open spec fn request_fits(raw: RawParams) -> bool {
    query_binds_fit(
        spec_property_type(opt_view(raw.property_type)),
        spec_csv(opt_view(raw.properties)),
        spec_csv(opt_view(raw.excluded_properties)),
        spec_search(opt_view(raw.search)),
        spec_csv(opt_view(raw.event_names)),
        spec_opt_bool(opt_view(raw.filter_by_event_names)),
    )
}

/// Parses the request's parameters, turns the request down when it names no
/// parent property type, and builds both queries from the parsed
/// parameters; the answer is the empty response.
pub fn handle_prop_defs_by_project(
    qmgr: &QueryManager,
    project_id: i32,
    raw: &RawParams,
) -> (res: Result<PropDefPlan, PlanError>)
    ensures
        res matches Err(PlanError::MissingPropertyType) <==> !request_has_type(*raw),
        res matches Err(PlanError::BindTooLarge) <==> request_has_type(*raw) && !request_fits(*raw),
        res matches Ok(plan) ==> {
            &&& parsed_from(*raw, plan.params)
            &&& plan.project_id == project_id
            &&& plan.order_by_verified
            &&& plan.count_query@ == params_count_query(*qmgr, plan.params)
            &&& plan.props_query@ == params_definitions_query(*qmgr, plan.params, true)
            &&& plan.props_query@ == render(
                definitions_query_parts(
                    qmgr.enterprise_table(),
                    qmgr.prop_defs_table(),
                    qmgr.event_props_table(),
                    opt_view(plan.params.property_type),
                    opt_list_view(plan.params.properties),
                    opt_list_view(plan.params.excluded_properties),
                    opt_list_view(plan.params.search),
                    opt_list_view(plan.params.event_names),
                    plan.params.is_feature_flag,
                    plan.params.is_numerical,
                    plan.params.use_enterprise_taxonomy,
                    plan.params.filter_by_event_names,
                    plan.order_by_verified,
                ),
            )
            &&& plan.response.is_empty()
        },
{
    let params = parse_params(raw);
    if params.property_type.is_none() {
        return Err(PlanError::MissingPropertyType);
    }
    if !qmgr.binds_fit(
        &params.property_type,
        &params.properties,
        &params.excluded_properties,
        &params.search,
        &params.event_names,
        &params.filter_by_event_names,
    ) {
        return Err(PlanError::BindTooLarge);
    }
    let order_by_verified = true;
    let count_query = qmgr.count_query(
        project_id,
        &params.search,
        &params.property_type,
        params.group_type_index,
        &params.properties,
        &params.excluded_properties,
        &params.event_names,
        &params.is_feature_flag,
        &params.is_numerical,
        &params.use_enterprise_taxonomy,
        &params.filter_by_event_names,
    );
    let props_query = qmgr.property_definitions_query(
        project_id,
        &params.search,
        &params.property_type,
        params.group_type_index,
        &params.properties,
        &params.excluded_properties,
        &params.event_names,
        &params.is_feature_flag,
        &params.is_numerical,
        &params.use_enterprise_taxonomy,
        &params.filter_by_event_names,
        order_by_verified,
        params.limit,
        params.offset,
    );
    Ok(
        PropDefPlan {
            project_id,
            params,
            order_by_verified,
            count_query,
            props_query,
            response: PropDefResponse::default(),
        },
    )
}

} // verus!
