//! A framework-independent route collector.
//!
//! The collector records an application name and the descriptors of the
//! routes added to it, in order; a thin adapter per web framework wires
//! the same routes into that framework and keeps a collector alongside.

use vstd::prelude::*;

use crate::IRouter;
use crate::model::UriInfo;

verus! {

/// A router that records the routes to announce to the gateway.
#[derive(Debug)]
pub struct ShenYuRouter {
    app_name: String,
    uri_infos: Vec<UriInfo>,
}

impl ShenYuRouter {
    /// The recorded application name, at the specification level.
    pub closed spec fn spec_app_name(self) -> Seq<char> {
        self.app_name@
    }

    /// The recorded descriptors, at the specification level.
    pub closed spec fn spec_uri_infos(self) -> Seq<UriInfo> {
        self.uri_infos@
    }

    /// An empty router for the named application.
    pub fn new(app_name: &str) -> (r: Self)
        ensures
            r.spec_app_name() == app_name@,
            r.spec_uri_infos() == Seq::<UriInfo>::empty(),
    {
        let r = ShenYuRouter { app_name: app_name.to_owned(), uri_infos: Vec::new() };
        proof {
            assert(r.spec_uri_infos() =~= Seq::<UriInfo>::empty());
        }
        r
    }

    /// Record a descriptor as it stands.
    pub fn uri_info(self, uri_info: UriInfo) -> (r: Self)
        ensures
            r.spec_app_name() == self.spec_app_name(),
            r.spec_uri_infos() == self.spec_uri_infos().push(uri_info),
    {
        let mut s = self;
        s.uri_infos.push(uri_info);
        s
    }

    /// Record a route: its rule name is its path, and it has no
    /// service name.
    pub fn route(self, path: &str, method: &str) -> (r: Self)
        ensures
            r.spec_app_name() == self.spec_app_name(),
            r.spec_uri_infos().len() == self.spec_uri_infos().len() + 1,
            forall|i: int|
                0 <= i < self.spec_uri_infos().len() ==> r.spec_uri_infos()[i]
                    == self.spec_uri_infos()[i],
            r.spec_uri_infos().last().path@ == path@,
            r.spec_uri_infos().last().rule_name@ == path@,
            r.spec_uri_infos().last().service_name is None,
            r.spec_uri_infos().last().method_name@ == method@,
    {
        let info = UriInfo {
            path: path.to_owned(),
            rule_name: path.to_owned(),
            service_name: None,
            method_name: method.to_owned(),
        };
        let mut s = self;
        s.uri_infos.push(info);
        s
    }

    /// Take over every descriptor of a nested router, in its order.
    /// The nested routes' paths are announced as they were recorded.
    pub fn nest(self, path: &str, route: ShenYuRouter) -> (r: Self)
        ensures
            r.spec_app_name() == self.spec_app_name(),
            r.spec_uri_infos() == self.spec_uri_infos() + route.spec_uri_infos(),
    {
        let _ = path;
        let mut s = self;
        let mut other = route;
        s.uri_infos.append(&mut other.uri_infos);
        s
    }

    /// Take over every descriptor of another router, in its order.
    pub fn merge(self, other: ShenYuRouter) -> (r: Self)
        ensures
            r.spec_app_name() == self.spec_app_name(),
            r.spec_uri_infos() == self.spec_uri_infos() + other.spec_uri_infos(),
    {
        let mut s = self;
        let mut o = other;
        s.uri_infos.append(&mut o.uri_infos);
        s
    }
}

impl IRouter for ShenYuRouter {
    fn app_name(&self) -> &str {
        self.app_name.as_str()
    }

    fn uri_infos(&self) -> &Vec<UriInfo> {
        &self.uri_infos
    }
}

} // verus!
