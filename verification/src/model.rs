//! Route descriptors and registration event kinds.

use vstd::prelude::*;

verus! {

/// One discovered route: the dispatch metadata announced to the gateway
/// for a single handler.  Immutable once captured.
#[derive(Debug, Clone)]
pub struct UriInfo {
    /// The rule path.
    pub path: String,
    /// The rule name.
    pub rule_name: String,
    /// The handler module name, when one is known.
    pub service_name: Option<String>,
    /// The handler method name.
    pub method_name: String,
}

/// The kind of a registration event sent to the gateway.
#[derive(Debug, Copy, Clone)]
pub enum EventType {
    /// Register event type.
    REGISTER,
    /// Updated event type.
    UPDATED,
    /// Deleted event type.
    DELETED,
    /// Ignored event type.
    IGNORED,
    /// Offline event type.
    OFFLINE,
}

impl UriInfo {
    /// A copy of this descriptor, equal field for field.
    pub fn duplicate(&self) -> (r: UriInfo)
        ensures
            r == *self,
    {
        let r = UriInfo {
            path: self.path.clone(),
            rule_name: self.rule_name.clone(),
            service_name: self.service_name.clone(),
            method_name: self.method_name.clone(),
        };
        r
    }
}

impl EventType {
    /// The wire name of the event, as the gateway expects it.
    pub fn as_str(&self) -> (r: &'static str)
        ensures
            r@ == self.spec_str(),
    {
        match self {
            EventType::REGISTER => "REGISTER",
            EventType::UPDATED => "UPDATED",
            EventType::DELETED => "DELETED",
            EventType::IGNORED => "IGNORED",
            EventType::OFFLINE => "OFFLINE",
        }
    }

    /// The wire name of the event, at the specification level.
    pub open spec fn spec_str(self) -> Seq<char> {
        match self {
            EventType::REGISTER => "REGISTER"@,
            EventType::UPDATED => "UPDATED"@,
            EventType::DELETED => "DELETED"@,
            EventType::IGNORED => "IGNORED"@,
            EventType::OFFLINE => "OFFLINE"@,
        }
    }
}

} // verus!
