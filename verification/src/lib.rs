//! Verified core of an OCSF (Open Cybersecurity Schema Framework) query
//! service: a versioned schema repository with derived indices, an event
//! builder, a minimal structural event validator, and a keyword classifier
//! that maps free-text log lines to taxonomy classes.

use vstd::prelude::*;

pub mod categories;
pub mod errors;
pub mod event;
pub mod event_generator;
pub mod json;
pub mod mapper;
pub mod schema;
pub mod schema_browser;
pub mod outside;
pub mod table;
pub mod text;
pub mod validation;
pub mod validator;
pub mod version_tools;

pub use categories::OcsfCategory;
pub use event::{EventExample, OcsfEvent};
pub use schema::{OcsfSchema, SchemaInfo};
pub use validation::{ValidationError, ValidationReport};

verus! {

/// Integer division by 1000 links a class identifier to its category
/// identifier throughout the taxonomy.
pub fn category_of_class_uid(class_uid: u32) -> (r: u32)
    ensures
        r == class_uid / 1000,
{
    class_uid / 1000
}

} // verus!
