//! Typed configuration sections.
//!
//! The configuration is loaded from a YAML document outside this crate
//! and handed in as plain values; field names mirror the document keys
//! exactly.  Key→value property sections are held as ordered pairs, and
//! looked up by the first matching key.

use vstd::prelude::*;

verus! {

/// The root of the configuration document: a single `shenyu` section.
pub struct EnvConfig {
    /// The whole client configuration.
    pub shenyu: ShenYuConfig,
}

/// The client configuration: the three sections the registration engine
/// consumes.
pub struct ShenYuConfig {
    /// How to reach the gateway instances and authenticate against them.
    pub register: RegisterConfig,
    /// What location the service advertises.
    pub uri: UriConfig,
    /// What discovery configuration the gateway is told to use.
    pub discovery: DiscoveryConfig,
}

/// Gateway registration settings.
pub struct RegisterConfig {
    /// The transport tag, e.g. `http`.
    pub register_type: String,
    /// The gateway base URLs, comma-separated.
    pub servers: String,
    /// Credentials and other properties; must contain the keys
    /// `username` and `password`.
    pub props: Vec<(String, String)>,
    /// Namespace ids, semicolon-separated; a well-known default is used
    /// when absent.
    pub namespace_id: Option<String>,
}

/// Advertised-location settings.
pub struct UriConfig {
    /// The application name.
    pub app_name: String,
    /// An advertised host override; may be left empty.
    pub host: String,
    /// The advertised port.
    pub port: u16,
    /// The context path all announced routes live under.
    pub context_path: String,
    /// The deployment environment tag.
    pub environment: String,
    /// The RPC flavour announced for every route.
    pub rpc_type: String,
}

/// Discovery-configuration settings.
pub struct DiscoveryConfig {
    /// The discovery protocol.
    pub protocol: String,
    /// The discovery flavour, e.g. `local`.
    pub discovery_type: String,
    /// The server list handed to the gateway for discovery.
    pub server_lists: String,
    /// The node the gateway listens on.
    pub register_path: String,
    /// The gateway plugin that consumes the configuration.
    pub plugin_name: String,
    /// Free-form discovery properties.
    pub props: Vec<(String, String)>,
}

/// The value of the first pair whose key equals `key`, if any.
pub open spec fn spec_prop_lookup(props: Seq<(String, String)>, key: Seq<char>) -> Option<
    Seq<char>,
>
    decreases props.len(),
{
    if props.len() == 0 {
        None
    } else if props.first().0@ == key {
        Some(props.first().1@)
    } else {
        spec_prop_lookup(props.drop_first(), key)
    }
}

/// Look up a property by key: the value of the first matching pair.
pub fn prop_get(props: &Vec<(String, String)>, key: &str) -> (r: Option<String>)
    ensures
        r is Some <==> spec_prop_lookup(props@, key@) is Some,
        r matches Some(v) ==> spec_prop_lookup(props@, key@) == Some(v@),
{
    let key_string: String = key.to_owned();
    let mut i: usize = 0;
    proof {
        assert(props@.skip(0) =~= props@);
    }
    while i < props.len()
        invariant
            i <= props@.len(),
            key_string@ == key@,
            spec_prop_lookup(props@, key@) == spec_prop_lookup(props@.skip(i as int), key@),
        decreases props@.len() - i,
    {
        proof {
            assert(props@.skip(i as int).first() == props@[i as int]);
            assert(props@.skip(i as int).drop_first() =~= props@.skip(i + 1));
        }
        if props[i].0.eq(&key_string) {
            return Some(props[i].1.clone());
        }
        i = i + 1;
    }
    proof {
        assert(props@.skip(props@.len() as int) =~= Seq::<(String, String)>::empty());
    }
    None
}

} // verus!
