//! The request parameters of the property-definitions endpoint: the raw
//! query-string values and what the endpoint makes of them.

use crate::text::{
    lowercase, parse_bool, parse_i32, spec_parse_bool, spec_parse_i32, spec_trim, split_char, split_on,
    str_eq, str_to_lowercase, trim,
};
use vstd::prelude::*;
use vstd::string::*;

verus! {

/// Group type indexes run from 0 up to, and without, this limit.
pub const GROUP_TYPE_LIMIT: i32 = 5;

/// The `limit` used when the request has none, or one that is no `i32`.
pub const DEFAULT_QUERY_LIMIT: i32 = 0;

/// The `offset` used when the request has none, or one that is no `i32`.
pub const DEFAULT_QUERY_OFFSET: i32 = 100;

/// The raw value of each query-string parameter that the endpoint reads,
/// `None` where the request does not carry it.
pub struct RawParams {
    pub search: Option<String>,
    /// The `type` parameter.
    pub property_type: Option<String>,
    pub group_type_index: Option<String>,
    pub properties: Option<String>,
    pub is_numerical: Option<String>,
    pub is_feature_flag: Option<String>,
    pub excluded_properties: Option<String>,
    pub use_enterprise_taxonomy: Option<String>,
    pub filter_by_event_names: Option<String>,
    pub event_names: Option<String>,
    pub limit: Option<String>,
    pub offset: Option<String>,
}

/// The parameters after parsing.
pub struct PropDefParams {
    /// Lowercased, trimmed search terms.
    pub search: Option<Vec<String>>,
    /// One of the parent property types, when the request names one.
    pub property_type: Option<String>,
    /// A group type index in range for `group` properties, else -1.
    pub group_type_index: i32,
    pub properties: Option<Vec<String>>,
    pub is_numerical: Option<bool>,
    pub is_feature_flag: Option<bool>,
    pub excluded_properties: Option<Vec<String>>,
    pub use_enterprise_taxonomy: Option<bool>,
    pub filter_by_event_names: Option<bool>,
    pub event_names: Option<Vec<String>>,
    pub limit: i32,
    pub offset: i32,
}

/// The text of an optional string.
pub open spec fn opt_view(o: Option<String>) -> Option<Seq<char>> {
    match o {
        Some(s) => Some(s@),
        None => None,
    }
}

/// The texts of an optional list of strings.
pub open spec fn opt_list_view(o: Option<Vec<String>>) -> Option<Seq<Seq<char>>> {
    match o {
        Some(v) => Some(v.deep_view()),
        None => None,
    }
}

/// The parent property types that the `type` parameter may name.
pub open spec fn is_parent_property_type(s: Seq<char>) -> bool {
    ||| s == "event"@
    ||| s == "person"@
    ||| s == "group"@
    ||| s == "session"@
}

/// The search terms of a raw `search` value: the pieces between single
/// spaces, each trimmed and then lowercased.
pub open spec fn search_terms(raw: Seq<char>) -> Seq<Seq<char>> {
    split_char(raw, ' ').map_values(|p: Seq<char>| lowercase(spec_trim(p)))
}

/// The values of a comma-separated raw value, each trimmed.
pub open spec fn csv_values(raw: Seq<char>) -> Seq<Seq<char>> {
    split_char(raw, ',').map_values(|p: Seq<char>| spec_trim(p))
}

/// The `search` parameter after parsing.
pub open spec fn spec_search(raw: Option<Seq<char>>) -> Option<Seq<Seq<char>>> {
    match raw {
        Some(s) => Some(search_terms(s)),
        None => None,
    }
}

/// A comma-separated parameter after parsing.
pub open spec fn spec_csv(raw: Option<Seq<char>>) -> Option<Seq<Seq<char>>> {
    match raw {
        Some(s) => Some(csv_values(s)),
        None => None,
    }
}

/// The `type` parameter after parsing: kept only when it names a parent
/// property type.
pub open spec fn spec_property_type(raw: Option<Seq<char>>) -> Option<Seq<char>> {
    match raw {
        Some(s) => if is_parent_property_type(s) {
            Some(s)
        } else {
            None
        },
        None => None,
    }
}

/// The `group_type_index` parameter after parsing: the index when the type
/// is `group` and the index parses and lies in `0..GROUP_TYPE_LIMIT`, and -1
/// when it is missing or present but invalid.
pub open spec fn spec_group_type_index(
    raw: Option<Seq<char>>,
    property_type: Option<Seq<char>>,
) -> i32 {
    match raw {
        Some(s) => match spec_parse_i32(s) {
            Some(g) => if property_type == Some("group"@) && 0 <= g && g < GROUP_TYPE_LIMIT {
                g
            } else {
                -1i32
            },
            None => -1i32,
        },
        None => -1i32,
    }
}

/// A boolean parameter after parsing: `None` when missing or invalid.
pub open spec fn spec_opt_bool(raw: Option<Seq<char>>) -> Option<bool> {
    match raw {
        Some(s) => spec_parse_bool(s),
        None => None,
    }
}

/// An integer parameter after parsing, `default` when missing or invalid.
pub open spec fn spec_int_or(raw: Option<Seq<char>>, default: i32) -> i32 {
    match raw {
        Some(s) => match spec_parse_i32(s) {
            Some(v) => v,
            None => default,
        },
        None => default,
    }
}

/// `raw` parses into `p`.
pub open spec fn parsed_from(raw: RawParams, p: PropDefParams) -> bool {
    let property_type = spec_property_type(opt_view(raw.property_type));
    &&& opt_list_view(p.search) == spec_search(opt_view(raw.search))
    &&& opt_view(p.property_type) == property_type
    &&& p.group_type_index == spec_group_type_index(opt_view(raw.group_type_index), property_type)
    &&& opt_list_view(p.properties) == spec_csv(opt_view(raw.properties))
    &&& p.is_numerical == spec_opt_bool(opt_view(raw.is_numerical))
    &&& p.is_feature_flag == spec_opt_bool(opt_view(raw.is_feature_flag))
    &&& opt_list_view(p.excluded_properties) == spec_csv(opt_view(raw.excluded_properties))
    &&& p.use_enterprise_taxonomy == spec_opt_bool(opt_view(raw.use_enterprise_taxonomy))
    &&& p.filter_by_event_names == spec_opt_bool(opt_view(raw.filter_by_event_names))
    &&& opt_list_view(p.event_names) == spec_csv(opt_view(raw.event_names))
    &&& p.limit == spec_int_or(opt_view(raw.limit), DEFAULT_QUERY_LIMIT)
    &&& p.offset == spec_int_or(opt_view(raw.offset), DEFAULT_QUERY_OFFSET)
}

/// Splits a `search` value at single spaces, trims each piece and
/// lowercases it.
pub fn parse_search_terms(raw: &str) -> (res: Vec<String>)
    ensures
        res.deep_view() == search_terms(raw@),
{
    let pieces = split_on(raw, ' ');
    let mut terms: Vec<String> = Vec::new();
    let mut i: usize = 0;
    while i < pieces.len()
        invariant
            i <= pieces.len(),
            pieces.deep_view() == split_char(raw@, ' '),
            terms.len() == i,
            terms.deep_view() =~= split_char(raw@, ' ').take(i as int).map_values(
                |p: Seq<char>| lowercase(spec_trim(p)),
            ),
        decreases pieces.len() - i,
    {
        let trimmed = trim(pieces[i].as_str());
        let term = str_to_lowercase(trimmed.as_str());
        let ghost before = terms.deep_view();
        let ghost term_view = term@;
        terms.push(term);
        proof {
            assert(pieces[i as int]@ == split_char(raw@, ' ')[i as int]);
            assert(terms.deep_view() =~= before.push(term_view));
            assert(split_char(raw@, ' ').take(i + 1) =~= split_char(raw@, ' ').take(i as int).push(
                split_char(raw@, ' ')[i as int],
            ));
        }
        i = i + 1;
    }
    proof {
        assert(split_char(raw@, ' ').take(pieces.len() as int) =~= split_char(raw@, ' '));
    }
    terms
}

/// Splits a comma-separated value and trims each piece.
pub fn parse_csv(raw: &str) -> (res: Vec<String>)
    ensures
        res.deep_view() == csv_values(raw@),
{
    let pieces = split_on(raw, ',');
    let mut values: Vec<String> = Vec::new();
    let mut i: usize = 0;
    while i < pieces.len()
        invariant
            i <= pieces.len(),
            pieces.deep_view() == split_char(raw@, ','),
            values.len() == i,
            values.deep_view() =~= split_char(raw@, ',').take(i as int).map_values(
                |p: Seq<char>| spec_trim(p),
            ),
        decreases pieces.len() - i,
    {
        let value = trim(pieces[i].as_str());
        let ghost before = values.deep_view();
        let ghost value_view = value@;
        values.push(value);
        proof {
            assert(pieces[i as int]@ == split_char(raw@, ',')[i as int]);
            assert(values.deep_view() =~= before.push(value_view));
            assert(split_char(raw@, ',').take(i + 1) =~= split_char(raw@, ',').take(i as int).push(
                split_char(raw@, ',')[i as int],
            ));
        }
        i = i + 1;
    }
    proof {
        assert(split_char(raw@, ',').take(pieces.len() as int) =~= split_char(raw@, ','));
    }
    values
}

/// Whether `s` names one of the parent property types.
pub fn is_parent_type(s: &str) -> (res: bool)
    ensures
        res == is_parent_property_type(s@),
{
    str_eq(s, "event") || str_eq(s, "person") || str_eq(s, "group") || str_eq(s, "session")
}

/// Parses every parameter of the request.
pub fn parse_params(raw: &RawParams) -> (p: PropDefParams)
    ensures
        parsed_from(*raw, p),
{
    let search = match &raw.search {
        Some(s) => Some(parse_search_terms(s.as_str())),
        None => None,
    };
    let property_type = match &raw.property_type {
        Some(s) => if is_parent_type(s.as_str()) {
            Some(s.clone())
        } else {
            None
        },
        None => None,
    };
    let is_group = match &property_type {
        Some(pt) => str_eq(pt.as_str(), "group"),
        None => false,
    };
    let group_type_index: i32 = match &raw.group_type_index {
        Some(s) => match parse_i32(s.as_str()) {
            Some(gti) => if is_group && gti >= 0 && gti < GROUP_TYPE_LIMIT {
                gti
            } else {
                -1
            },
            None => -1,
        },
        None => -1,
    };
    let properties = match &raw.properties {
        Some(s) => Some(parse_csv(s.as_str())),
        None => None,
    };
    let is_numerical = match &raw.is_numerical {
        Some(s) => parse_bool(s.as_str()),
        None => None,
    };
    let is_feature_flag = match &raw.is_feature_flag {
        Some(s) => parse_bool(s.as_str()),
        None => None,
    };
    let excluded_properties = match &raw.excluded_properties {
        Some(s) => Some(parse_csv(s.as_str())),
        None => None,
    };
    let use_enterprise_taxonomy = match &raw.use_enterprise_taxonomy {
        Some(s) => parse_bool(s.as_str()),
        None => None,
    };
    let filter_by_event_names = match &raw.filter_by_event_names {
        Some(s) => parse_bool(s.as_str()),
        None => None,
    };
    let event_names = match &raw.event_names {
        Some(s) => Some(parse_csv(s.as_str())),
        None => None,
    };
    let limit: i32 = match &raw.limit {
        Some(s) => match parse_i32(s.as_str()) {
            Some(v) => v,
            None => DEFAULT_QUERY_LIMIT,
        },
        None => DEFAULT_QUERY_LIMIT,
    };
    let offset: i32 = match &raw.offset {
        Some(s) => match parse_i32(s.as_str()) {
            Some(v) => v,
            None => DEFAULT_QUERY_OFFSET,
        },
        None => DEFAULT_QUERY_OFFSET,
    };
    PropDefParams {
        search,
        property_type,
        group_type_index,
        properties,
        is_numerical,
        is_feature_flag,
        excluded_properties,
        use_enterprise_taxonomy,
        filter_by_event_names,
        event_names,
        limit,
        offset,
    }
}

} // verus!
