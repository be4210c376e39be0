//! The six primary OCSF categories with their fixed numbering and texts.

use vstd::prelude::*;

verus! {

/// A primary category of the taxonomy. Two further numbers are reserved and
/// have no variant here.
#[derive(Debug, Clone, Copy, PartialEq, Eq, Structural)]
pub enum OcsfCategory {
    SystemActivity,
    Findings,
    IdentityAccessManagement,
    NetworkActivity,
    Discovery,
    ApplicationActivity,
}

impl OcsfCategory {
    /// The category's display name.
    pub fn name(&self) -> (r: &str)
        ensures
            r@ == match *self {
                OcsfCategory::SystemActivity => "System Activity"@,
                OcsfCategory::Findings => "Findings"@,
                OcsfCategory::IdentityAccessManagement => "Identity & Access Management"@,
                OcsfCategory::NetworkActivity => "Network Activity"@,
                OcsfCategory::Discovery => "Discovery"@,
                OcsfCategory::ApplicationActivity => "Application Activity"@,
            },
    {
        match self {
            OcsfCategory::SystemActivity => "System Activity",
            OcsfCategory::Findings => "Findings",
            OcsfCategory::IdentityAccessManagement => "Identity & Access Management",
            OcsfCategory::NetworkActivity => "Network Activity",
            OcsfCategory::Discovery => "Discovery",
            OcsfCategory::ApplicationActivity => "Application Activity",
        }
    }

    /// The category's one-line description.
    pub fn description(&self) -> (r: &str)
        ensures
            r@ == match *self {
                OcsfCategory::SystemActivity => "Operating system and device-level events"@,
                OcsfCategory::Findings => "Security findings from scanning, detection, and analysis"@,
                OcsfCategory::IdentityAccessManagement => "Authentication, authorization, and account management"@,
                OcsfCategory::NetworkActivity => "Network connections and traffic"@,
                OcsfCategory::Discovery => "Resource and asset discovery"@,
                OcsfCategory::ApplicationActivity => "Application-specific events"@,
            },
    {
        match self {
            OcsfCategory::SystemActivity => "Operating system and device-level events",
            OcsfCategory::Findings => "Security findings from scanning, detection, and analysis",
            OcsfCategory::IdentityAccessManagement => "Authentication, authorization, and account management",
            OcsfCategory::NetworkActivity => "Network connections and traffic",
            OcsfCategory::Discovery => "Resource and asset discovery",
            OcsfCategory::ApplicationActivity => "Application-specific events",
        }
    }

    /// The category's number: the thousands digit of its classes' numbers.
    pub fn uid(&self) -> (r: u32)
        ensures
            r == match *self {
                OcsfCategory::SystemActivity => 1u32,
                OcsfCategory::Findings => 2u32,
                OcsfCategory::IdentityAccessManagement => 3u32,
                OcsfCategory::NetworkActivity => 4u32,
                OcsfCategory::Discovery => 5u32,
                OcsfCategory::ApplicationActivity => 6u32,
            },
    {
        match self {
            OcsfCategory::SystemActivity => 1,
            OcsfCategory::Findings => 2,
            OcsfCategory::IdentityAccessManagement => 3,
            OcsfCategory::NetworkActivity => 4,
            OcsfCategory::Discovery => 5,
            OcsfCategory::ApplicationActivity => 6,
        }
    }
}

} // verus!
