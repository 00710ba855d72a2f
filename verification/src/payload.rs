//! The payloads of the registration operations.
//!
//! Each payload is a plain record whose fields correspond one to one to
//! the members of the JSON body sent to the gateway; the surrounding
//! program encodes them.  The `*_matches` predicates say exactly how a
//! payload's fields derive from the client's state, and are what the
//! builders' contracts promise.

use vstd::prelude::*;

use crate::model::EventType;

verus! {

/// The body of a metadata registration: one route's dispatch metadata.
pub struct MetadataPayload {
    /// `appName`: the application name.
    pub app_name: String,
    /// `contextPath`.
    pub context_path: String,
    /// `path`: the context path followed by the route path.
    pub path: String,
    /// `pathDesc`: always empty.
    pub path_desc: String,
    /// `rpcType`.
    pub rpc_type: String,
    /// `ruleName`: the context path followed by the rule name.
    pub rule_name: String,
    /// `serviceName`: the application name again.
    pub service_name: String,
    /// `methodName`: the handler method, or empty.
    pub method_name: String,
    /// `parameterTypes`: always empty.
    pub parameter_types: String,
    /// `rpcExt`: always empty.
    pub rpc_ext: String,
    /// `host`: the advertised address.
    pub host: String,
    /// `port`: the advertised port.
    pub port: u16,
    /// `namespaceId`.
    pub namespace_id: String,
    /// `enabled`: whether the route is switched on.
    pub enabled: bool,
    /// `registerMetaData`: always empty.
    pub register_meta_data: String,
    /// `pluginNames`: always empty.
    pub plugin_names: Vec<String>,
}

/// The body of a URI registration or an offline deregistration: the
/// service's reachable location under one namespace.
pub struct UriPayload {
    /// `appName`.
    pub app_name: String,
    /// `contextPath`.
    pub context_path: String,
    /// `protocol`: the RPC flavour.
    pub protocol: String,
    /// `rpcType`: the RPC flavour again.
    pub rpc_type: String,
    /// `host`: the advertised address.
    pub host: String,
    /// `port`: the advertised port.
    pub port: u16,
    /// `namespaceId`.
    pub namespace_id: String,
    /// `eventType`: `REGISTER` on registration, `OFFLINE` on
    /// deregistration.
    pub event_type: EventType,
}

/// The body of a discovery-configuration registration.
pub struct DiscoveryPayload {
    /// `name`: `default` followed by the discovery flavour.
    pub name: String,
    /// `selectorName`: the context path.
    pub selector_name: String,
    /// `handler`: always the literal `{}`.
    pub handler: String,
    /// `listenerNode`.
    pub listener_node: String,
    /// `serverList`.
    pub server_list: String,
    /// `props`: the discovery properties, carried through unchanged.
    pub props: Vec<(String, String)>,
    /// `discoveryType`.
    pub discovery_type: String,
    /// `pluginName`.
    pub plugin_name: String,
}

/// How a metadata payload's fields derive from the client's state and
/// one route under one namespace.
pub open spec fn metadata_payload_matches(
    p: MetadataPayload,
    app_name: Seq<char>,
    ctx: Seq<char>,
    path: Seq<char>,
    rule_name: Seq<char>,
    method: Seq<char>,
    rpc: Seq<char>,
    host: Seq<char>,
    port: u16,
    ns: Seq<char>,
    enabled: bool,
) -> bool {
    &&& p.app_name@ == app_name
    &&& p.context_path@ == ctx
    &&& p.path@ == ctx + path
    &&& p.path_desc@ == Seq::<char>::empty()
    &&& p.rpc_type@ == rpc
    &&& p.rule_name@ == ctx + rule_name
    &&& p.service_name@ == app_name
    &&& p.method_name@ == method
    &&& p.parameter_types@ == Seq::<char>::empty()
    &&& p.rpc_ext@ == Seq::<char>::empty()
    &&& p.host@ == host
    &&& p.port == port
    &&& p.namespace_id@ == ns
    &&& p.enabled == enabled
    &&& p.register_meta_data@ == Seq::<char>::empty()
    &&& p.plugin_names@.len() == 0
}

/// How a URI (or offline) payload's fields derive from the client's
/// state and one namespace.
pub open spec fn uri_payload_matches(
    p: UriPayload,
    app_name: Seq<char>,
    ctx: Seq<char>,
    rpc: Seq<char>,
    host: Seq<char>,
    port: u16,
    ns: Seq<char>,
    ev: EventType,
) -> bool {
    &&& p.app_name@ == app_name
    &&& p.context_path@ == ctx
    &&& p.protocol@ == rpc
    &&& p.rpc_type@ == rpc
    &&& p.host@ == host
    &&& p.port == port
    &&& p.namespace_id@ == ns
    &&& p.event_type == ev
}

/// How a discovery payload's fields derive from the discovery section
/// and the context path.
pub open spec fn discovery_payload_matches(
    p: DiscoveryPayload,
    discovery_type: Seq<char>,
    ctx: Seq<char>,
    register_path: Seq<char>,
    server_lists: Seq<char>,
    props: Seq<(String, String)>,
    plugin_name: Seq<char>,
) -> bool {
    &&& p.name@ == "default"@ + discovery_type
    &&& p.selector_name@ == ctx
    &&& p.handler@ == "{}"@
    &&& p.listener_node@ == register_path
    &&& p.server_list@ == server_lists
    &&& p.props@ == props
    &&& p.discovery_type@ == discovery_type
    &&& p.plugin_name@ == plugin_name
}

/// The body of one registration call, of whichever operation.
pub enum RegistrationPayload {
    /// A metadata registration body.
    Metadata(MetadataPayload),
    /// A URI registration or offline deregistration body.
    Uri(UriPayload),
    /// A discovery-configuration body.
    Discovery(DiscoveryPayload),
}

/// One broadcast to perform: the endpoint list of the operation and the
/// payload to post to every endpoint on it.
pub struct BroadcastJob {
    /// The endpoints to post to, in order.
    pub urls: Vec<String>,
    /// The body to post.
    pub payload: RegistrationPayload,
}

} // verus!
