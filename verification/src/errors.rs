//! The operation errors. Degradation (an unknown schema version) is not an
//! error: it falls back to the built-in minimal schema. These are the hard
//! failures that reach the caller.

use vstd::prelude::*;

verus! {

#[derive(Clone, Copy, Debug, PartialEq, Eq, Structural)]
pub enum OcsfError {
    /// Every stored version is a pre-release.
    NoStableVersion,
    /// The requested event class is not in the loaded schema.
    EventClassNotFound,
    /// A structured field source is not a JSON object.
    InvalidFieldSource,
    /// The document handed to the validator is not JSON at all.
    InvalidEventJson,
    /// No canned examples exist for the requested event class.
    NoExamples,
}

impl OcsfError {
    /// A human-readable description of the failure.
    pub fn message(&self) -> (r: String)
        ensures
            r@ == match *self {
                OcsfError::NoStableVersion => "No stable OCSF versions found"@,
                OcsfError::EventClassNotFound => "Event class not found"@,
                OcsfError::InvalidFieldSource => "Invalid JSON in field source"@,
                OcsfError::InvalidEventJson => "Event is not valid JSON"@,
                OcsfError::NoExamples => "No examples available for event class"@,
            },
    {
        match self {
            OcsfError::NoStableVersion => String::from_str("No stable OCSF versions found"),
            OcsfError::EventClassNotFound => String::from_str("Event class not found"),
            OcsfError::InvalidFieldSource => String::from_str("Invalid JSON in field source"),
            OcsfError::InvalidEventJson => String::from_str("Event is not valid JSON"),
            OcsfError::NoExamples => String::from_str("No examples available for event class"),
        }
    }
}

} // verus!
