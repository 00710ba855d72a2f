//! Client-side registration engine for the ShenYu API gateway.
//!
//! The crate turns a loaded configuration and a list of discovered routes
//! into the authenticated HTTP calls that announce (and later retract) a
//! service's endpoints against one or more gateway instances.  All decision
//! logic lives here and is verified; the surrounding I/O (HTTP transport,
//! YAML loading, interface enumeration) stays outside and drives the types
//! of this crate with plain values.

use vstd::prelude::*;

pub mod broadcast;
pub mod client;
pub mod config;
pub mod headers;
pub mod host;
pub mod model;
pub mod payload;
pub mod router;
pub mod text;
pub mod token;

verus! {

use crate::model::UriInfo;

/// A source of route descriptors: supplies the application name and the
/// ordered list of routes that the registration engine announces.
pub trait IRouter {
    /// The name of the application being registered.
    fn app_name(&self) -> &str;

    /// The route descriptors captured so far, in insertion order.
    fn uri_infos(&self) -> &Vec<UriInfo>;
}

} // verus!
