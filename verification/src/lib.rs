//! Query planning for the property-definitions API: request parameter
//! parsing and SQL text construction, with their contracts.

pub mod api;
pub mod laws;
pub mod params;
pub mod query_laws;
pub mod query;
pub mod response;
pub mod sql;
pub mod text;
