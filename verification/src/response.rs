//! The body that the property-definitions endpoint answers with.

use vstd::prelude::*;

verus! {

/// A page of property definitions.
pub struct PropDefResponse {
    pub count: u32,
    pub next: Option<String>,
    pub prev: Option<String>,
    pub results: Vec<PropDef>,
}

/// One property definition.
pub struct PropDef {
    pub id: String,
    pub name: String,
    pub description: String,
    pub is_numeric: bool,
    /// UTC, ISO 8601.
    pub updated_at: String,
    pub updated_by: Person,
    pub is_seen_on_filtered_events: Option<String>,
    pub property_type: String,
    pub verified: bool,
    /// UTC, ISO 8601.
    pub verified_at: String,
    pub verified_by: Person,
    pub tags: Vec<String>,
}

/// A user as the response shows one.
pub struct Person {
    pub id: u32,
    pub uuid: String,
    pub distinct_id: String,
    pub first_name: String,
    pub last_name: String,
    pub email: String,
    pub is_email_verified: bool,
    pub hedgehog_config: HedgehogConfig,
}

/// A user's hedgehog settings.
pub struct HedgehogConfig {
    pub use_as_profile: bool,
    pub color: String,
    pub accessories: Vec<String>,
    pub role_at_organization: Option<String>,
}

impl PropDefResponse {
    /// The response holds no definition and links no other page.
    pub open spec fn is_empty(&self) -> bool {
        &&& self.count == 0
        &&& self.next is None
        &&& self.prev is None
        &&& self.results@.len() == 0
    }
}

impl Default for PropDefResponse {
    /// The empty response.
    fn default() -> (res: Self)
        ensures
            res.is_empty(),
    {
        PropDefResponse { count: 0, next: None, prev: None, results: Vec::new() }
    }
}

} // verus!
