//! The registration client.
//!
//! Construction derives, from the configuration, the per-operation
//! endpoint lists and the namespace list, resolves the advertised host,
//! and seeds the shared header map.  The registration and offline
//! operations then turn the client's state into broadcast jobs — one
//! payload per route and namespace, posted to every configured gateway —
//! which the surrounding program performs over HTTP.

use dashmap::DashMap;
use vstd::prelude::*;

use crate::broadcast::BroadcastRun;
use crate::config::ShenYuConfig;
use crate::config::prop_get;
use crate::config::spec_prop_lookup;
use crate::headers::dash_get;
use crate::headers::dash_insert;
use crate::headers::dash_new;
use crate::headers::map_entries;
use crate::headers::no_entries;
use crate::host::HostCandidate;
use crate::host::select_host;
use crate::host::spec_select_host;
use crate::host::ipv4_text;
use crate::host::spec_ipv4_text;
use crate::model::EventType;
use crate::model::UriInfo;
use crate::payload::BroadcastJob;
use crate::payload::DiscoveryPayload;
use crate::payload::MetadataPayload;
use crate::payload::RegistrationPayload;
use crate::payload::UriPayload;
use crate::payload::discovery_payload_matches;
use crate::payload::metadata_payload_matches;
use crate::payload::uri_payload_matches;
use crate::text::concat2;
use crate::text::copy_strings;
use crate::text::spec_split;
use crate::text::split_on;
use crate::text::views_of;
use crate::token::TokenFetch;
use vstd::string::StrSliceExecFns;

verus! {

/// Gateway path suffix of the metadata registration operation.
pub const REGISTER_META_DATA_SUFFIX: &'static str = "/shenyu-client/register-metadata";

/// Gateway path suffix of the URI registration operation.
pub const REGISTER_URI_SUFFIX: &'static str = "/shenyu-client/register-uri";

/// Gateway path suffix of the discovery-configuration operation.
pub const REGISTER_DISCOVERY_CONFIG_SUFFIX: &'static str = "/shenyu-client/register-discoveryConfig";

/// Gateway path suffix of the offline deregistration operation.
pub const REGISTER_OFFLINE_SUFFIX: &'static str = "/shenyu-client/offline";

/// Gateway path suffix of the login operation.
pub const PLATFORM_LOGIN_SUFFIX: &'static str = "/platform/login";

/// The namespace id used when the configuration names none.
pub const SYS_DEFAULT_NAMESPACE_ID: &'static str = "649330b6-c2d7-4edc-be8e-8a54df9eb385";

/// Each entry of `list` is the matching entry of `base` followed by
/// `suffix`.
pub open spec fn spec_endpoints_of(list: Seq<String>, base: Seq<String>, suffix: Seq<char>) -> bool {
    &&& list.len() == base.len()
    &&& forall|i: int| 0 <= i < base.len() ==> (#[trigger] list[i])@ == base[i]@ + suffix
}

/// Append the operation's path suffix to every base URL, in order.
pub fn derive_endpoints(base: &Vec<String>, suffix: &str) -> (r: Vec<String>)
    ensures
        spec_endpoints_of(r@, base@, suffix@),
{
    let mut r: Vec<String> = Vec::new();
    let mut i: usize = 0;
    while i < base.len()
        invariant
            i <= base@.len(),
            r@.len() == i,
            forall|j: int| 0 <= j < i ==> (#[trigger] r@[j])@ == base@[j]@ + suffix@,
        decreases base@.len() - i,
    {
        r.push(concat2(base[i].as_str(), suffix));
        i = i + 1;
    }
    r
}

/// The namespace ids a configured value stands for: the default
/// namespace when absent, otherwise the segments of the value split on
/// `;`, kept as they are.
pub open spec fn spec_namespaces(ns: Option<String>) -> Seq<Seq<char>> {
    match ns {
        None => seq![SYS_DEFAULT_NAMESPACE_ID@],
        Some(s) => spec_split(s@, ';'),
    }
}

/// Parse the configured namespace ids; the result is never empty.
pub fn parse_namespaces(ns: &Option<String>) -> (r: Vec<String>)
    ensures
        views_of(r@) == spec_namespaces(*ns),
        r@.len() >= 1,
{
    match ns {
        None => {
            let mut r: Vec<String> = Vec::new();
            r.push(SYS_DEFAULT_NAMESPACE_ID.to_owned());
            proof {
                assert(views_of(r@) =~= spec_namespaces(*ns));
            }
            r
        },
        Some(s) => {
            let r = split_on(s.as_str(), ';');
            proof {
                crate::text::lemma_split_len(s@, ';');
                assert(views_of(r@) =~= spec_split(s@, ';'));
            }
            r
        },
    }
}

/// The registration client: the configuration it was built from and the
/// state derived from it once, at construction.
pub struct ShenyuClient {
    /// The headers of every outgoing request.  Always holds the JSON
    /// content type; after a successful token fetch, also the access
    /// token.  Concurrency-safe, because the shutdown path reads it too.
    pub headers: DashMap<String, String>,
    /// The application name being registered.
    pub app_name: String,
    /// The configuration the client was built from.
    pub env: ShenYuConfig,
    /// The advertised address, resolved once at construction.
    pub host: String,
    /// The advertised port.
    pub port: u16,
    /// The namespace ids to register under.
    pub namespace_ids: Vec<String>,
    /// The configured gateway base URLs, in input order.
    pub gateway_base_urls: Vec<String>,
    /// Metadata endpoints: one per gateway.
    pub register_meta_data_path_list: Vec<String>,
    /// URI registration endpoints: one per gateway.
    pub register_uri_list: Vec<String>,
    /// Login endpoints: one per gateway.
    pub register_token_servers: Vec<String>,
    /// Discovery-configuration endpoints: one per gateway.
    pub register_discover_config_servers: Vec<String>,
    /// Offline endpoints: one per gateway.
    pub register_offline_servers: Vec<String>,
    /// The routes to announce.
    pub uri_infos: Vec<UriInfo>,
}

impl ShenyuClient {
    /// The state a constructed client is in: every derived list follows
    /// from the configuration, and the required pieces are present.
    pub open spec fn wf(self) -> bool {
        &&& self.env.register.servers@.len() > 0
        &&& views_of(self.gateway_base_urls@) == spec_split(self.env.register.servers@, ',')
        &&& spec_endpoints_of(
            self.register_meta_data_path_list@,
            self.gateway_base_urls@,
            REGISTER_META_DATA_SUFFIX@,
        )
        &&& spec_endpoints_of(
            self.register_uri_list@,
            self.gateway_base_urls@,
            REGISTER_URI_SUFFIX@,
        )
        &&& spec_endpoints_of(
            self.register_token_servers@,
            self.gateway_base_urls@,
            PLATFORM_LOGIN_SUFFIX@,
        )
        &&& spec_endpoints_of(
            self.register_discover_config_servers@,
            self.gateway_base_urls@,
            REGISTER_DISCOVERY_CONFIG_SUFFIX@,
        )
        &&& spec_endpoints_of(
            self.register_offline_servers@,
            self.gateway_base_urls@,
            REGISTER_OFFLINE_SUFFIX@,
        )
        &&& views_of(self.namespace_ids@) == spec_namespaces(self.env.register.namespace_id)
        &&& self.namespace_ids@.len() >= 1
        &&& spec_prop_lookup(self.env.register.props@, "username"@) is Some
        &&& spec_prop_lookup(self.env.register.props@, "password"@) is Some
        &&& map_entries(self.headers).contains_pair(
            "Content-Type"@,
            "application/json;charset=UTF-8"@,
        )
    }

    /// Build a client from the configuration, the routes to announce,
    /// and the machine's interface addresses.  Fails — and the service
    /// is expected not to start — when the server list is empty, when no
    /// non-loopback IPv4 address can be chosen, or when the credentials
    /// lack `username` or `password`.
    pub fn new(
        config: ShenYuConfig,
        app_name: &str,
        uri_infos: &[UriInfo],
        port: u16,
        candidates: &Vec<HostCandidate>,
    ) -> (r: Result<ShenyuClient, String>)
        ensures
            ({
                let servers_empty = config.register.servers@.len() == 0;
                let no_host = spec_select_host(candidates@) is None;
                let no_creds = spec_prop_lookup(config.register.props@, "username"@) is None
                    || spec_prop_lookup(config.register.props@, "password"@) is None;
                match r {
                    Err(e) => {
                        &&& (servers_empty || no_host || no_creds)
                        &&& servers_empty ==> e@ == "shenyu.register.servers is empty"@
                        &&& (!servers_empty && no_host) ==> e@
                            == "Failed to determine local IP address"@
                        &&& (!servers_empty && !no_host && no_creds) ==> e@
                            == "shenyu.register.props is missing username or password"@
                    },
                    Ok(c) => {
                        &&& !servers_empty
                        &&& !no_host
                        &&& !no_creds
                        &&& c.wf()
                        &&& c.app_name@ == app_name@
                        &&& c.port == port
                        &&& c.env == config
                        &&& c.uri_infos@ == uri_infos@
                        &&& (spec_select_host(candidates@) matches Some(h) && c.host@
                            == spec_ipv4_text(h))
                        &&& map_entries(c.headers) == no_entries().insert(
                            "Content-Type"@,
                            "application/json;charset=UTF-8"@,
                        )
                    },
                }
            }),
    {
        if config.register.servers.as_str().unicode_len() == 0 {
            return Err("shenyu.register.servers is empty".to_owned());
        }
        let host = match select_host(candidates) {
            Some(h) => ipv4_text(&h),
            None => {
                return Err("Failed to determine local IP address".to_owned());
            },
        };
        let username = prop_get(&config.register.props, "username");
        let password = prop_get(&config.register.props, "password");
        if username.is_none() || password.is_none() {
            return Err("shenyu.register.props is missing username or password".to_owned());
        }
        let base = split_on(config.register.servers.as_str(), ',');
        let meta_list = derive_endpoints(&base, REGISTER_META_DATA_SUFFIX);
        let uri_list = derive_endpoints(&base, REGISTER_URI_SUFFIX);
        let token_list = derive_endpoints(&base, PLATFORM_LOGIN_SUFFIX);
        let discovery_list = derive_endpoints(&base, REGISTER_DISCOVERY_CONFIG_SUFFIX);
        let offline_list = derive_endpoints(&base, REGISTER_OFFLINE_SUFFIX);
        let namespace_ids = parse_namespaces(&config.register.namespace_id);
        let mut headers = dash_new();
        dash_insert(
            &mut headers,
            "Content-Type".to_owned(),
            "application/json;charset=UTF-8".to_owned(),
        );
        let mut infos: Vec<UriInfo> = Vec::new();
        let mut i: usize = 0;
        while i < uri_infos.len()
            invariant
                i <= uri_infos@.len(),
                infos@ =~= uri_infos@.take(i as int),
            decreases uri_infos@.len() - i,
        {
            infos.push(uri_infos[i].duplicate());
            proof {
                assert(uri_infos@.take(i + 1) =~= uri_infos@.take(i as int).push(
                    uri_infos@[i as int],
                ));
            }
            i = i + 1;
        }
        proof {
            assert(uri_infos@.take(uri_infos@.len() as int) =~= uri_infos@);
        }
        let c = ShenyuClient {
            headers,
            app_name: app_name.to_owned(),
            env: config,
            host,
            port,
            namespace_ids,
            gateway_base_urls: base,
            register_meta_data_path_list: meta_list,
            register_uri_list: uri_list,
            register_token_servers: token_list,
            register_discover_config_servers: discovery_list,
            register_offline_servers: offline_list,
            uri_infos: infos,
        };
        proof {
            assert(views_of(c.gateway_base_urls@) =~= spec_split(c.env.register.servers@, ','));
        }
        Ok(c)
    }

    /// The value a header currently has, if the header is present.
    pub fn header_value(&self, key: &str) -> (r: Option<String>)
        ensures
            r is Some <==> map_entries(self.headers).contains_key(key@),
            r matches Some(v) ==> v@ == map_entries(self.headers)[key@],
    {
        dash_get(&self.headers, key)
    }

    /// The configured credentials, for the login call's query
    /// parameters.
    pub fn credentials(&self) -> (r: (String, String))
        requires
            spec_prop_lookup(self.env.register.props@, "username"@) is Some,
            spec_prop_lookup(self.env.register.props@, "password"@) is Some,
        ensures
            Some(r.0@) == spec_prop_lookup(self.env.register.props@, "username"@),
            Some(r.1@) == spec_prop_lookup(self.env.register.props@, "password"@),
    {
        let username = prop_get(&self.env.register.props, "username").unwrap();
        let password = prop_get(&self.env.register.props, "password").unwrap();
        (username, password)
    }

    /// A fresh walk over the login endpoints, for obtaining the register
    /// token.
    pub fn token_fetch(&self) -> (r: TokenFetch)
        ensures
            r.wf(),
            r.spec_urls() == views_of(self.register_token_servers@),
            r.spec_next() == 0,
    {
        TokenFetch::new(copy_strings(&self.register_token_servers))
    }

    /// A fresh broadcast run over one job's endpoints.
    pub fn broadcast_run(job: &BroadcastJob) -> (r: BroadcastRun)
        ensures
            r.wf(),
            r.spec_urls() == views_of(job.urls@),
            r.spec_next() == 0,
            r.spec_successes() == Seq::<bool>::empty(),
    {
        BroadcastRun::new(copy_strings(&job.urls))
    }

    /// `job` is a URI-shaped broadcast for namespace `ns` with event
    /// `ev`, aimed at the endpoints of `urls`.
    pub open spec fn spec_uri_job(
        self,
        job: BroadcastJob,
        ns: Seq<char>,
        ev: EventType,
        urls: Seq<String>,
    ) -> bool {
        &&& views_of(job.urls@) == views_of(urls)
        &&& job.payload matches RegistrationPayload::Uri(p) && uri_payload_matches(
            p,
            self.app_name@,
            self.env.uri.context_path@,
            self.env.uri.rpc_type@,
            self.host@,
            self.port,
            ns,
            ev,
        )
    }

    /// `job` is a metadata broadcast for the given path, rule, method
    /// and namespace, aimed at the metadata endpoints.
    pub open spec fn spec_metadata_job(
        self,
        job: BroadcastJob,
        path_part: Seq<char>,
        rule_part: Seq<char>,
        method_part: Seq<char>,
        ns: Seq<char>,
        enabled: bool,
    ) -> bool {
        &&& views_of(job.urls@) == views_of(self.register_meta_data_path_list@)
        &&& job.payload matches RegistrationPayload::Metadata(p) && metadata_payload_matches(
            p,
            self.app_name@,
            self.env.uri.context_path@,
            path_part,
            rule_part,
            method_part,
            self.env.uri.rpc_type@,
            self.host@,
            self.port,
            ns,
            enabled,
        )
    }

    /// The jobs announcing every route under every namespace: routes in
    /// order, namespaces in order within each route.
    pub open spec fn spec_metadata_jobs(self, jobs: Seq<BroadcastJob>, enabled: bool) -> bool {
        let nns = self.namespace_ids@.len() as int;
        &&& jobs.len() == self.uri_infos@.len() * nns
        &&& forall|ri: int, ni: int|
            #![trigger self.uri_infos@[ri], self.namespace_ids@[ni]]
            0 <= ri < self.uri_infos@.len() && 0 <= ni < nns ==> self.spec_metadata_job(
                jobs[ri * nns + ni],
                self.uri_infos@[ri].path@,
                self.uri_infos@[ri].rule_name@,
                self.uri_infos@[ri].method_name@,
                self.namespace_ids@[ni]@,
                enabled,
            )
    }

    /// `job` is the discovery-configuration broadcast, aimed at the
    /// discovery endpoints.
    pub open spec fn spec_discovery_job(self, job: BroadcastJob) -> bool {
        &&& views_of(job.urls@) == views_of(self.register_discover_config_servers@)
        &&& job.payload matches RegistrationPayload::Discovery(p) && discovery_payload_matches(
            p,
            self.env.discovery.discovery_type@,
            self.env.uri.context_path@,
            self.env.discovery.register_path@,
            self.env.discovery.server_lists@,
            self.env.discovery.props@,
            self.env.discovery.plugin_name@,
        )
    }

    /// `a` and `b` agree on everything but the header map.
    pub open spec fn same_core(a: ShenyuClient, b: ShenyuClient) -> bool {
        &&& a.app_name == b.app_name
        &&& a.env == b.env
        &&& a.host == b.host
        &&& a.port == b.port
        &&& a.namespace_ids == b.namespace_ids
        &&& a.gateway_base_urls == b.gateway_base_urls
        &&& a.register_meta_data_path_list == b.register_meta_data_path_list
        &&& a.register_uri_list == b.register_uri_list
        &&& a.register_token_servers == b.register_token_servers
        &&& a.register_discover_config_servers == b.register_discover_config_servers
        &&& a.register_offline_servers == b.register_offline_servers
        &&& a.uri_infos == b.uri_infos
    }

    /// One URI-shaped payload for one namespace.
    fn build_uri_payload(&self, namespace_id: &String, ev: EventType) -> (p: UriPayload)
        ensures
            uri_payload_matches(
                p,
                self.app_name@,
                self.env.uri.context_path@,
                self.env.uri.rpc_type@,
                self.host@,
                self.port,
                namespace_id@,
                ev,
            ),
    {
        UriPayload {
            app_name: self.app_name.clone(),
            context_path: self.env.uri.context_path.clone(),
            protocol: self.env.uri.rpc_type.clone(),
            rpc_type: self.env.uri.rpc_type.clone(),
            host: self.host.clone(),
            port: self.port,
            namespace_id: namespace_id.clone(),
            event_type: ev,
        }
    }

    /// One metadata payload for one namespace.
    fn build_metadata_payload(
        &self,
        path_part: &str,
        rule_part: &str,
        method_part: &str,
        namespace_id: &String,
        enabled: bool,
    ) -> (p: MetadataPayload)
        ensures
            metadata_payload_matches(
                p,
                self.app_name@,
                self.env.uri.context_path@,
                path_part@,
                rule_part@,
                method_part@,
                self.env.uri.rpc_type@,
                self.host@,
                self.port,
                namespace_id@,
                enabled,
            ),
    {
        MetadataPayload {
            app_name: self.app_name.clone(),
            context_path: self.env.uri.context_path.clone(),
            path: concat2(self.env.uri.context_path.as_str(), path_part),
            path_desc: String::new(),
            rpc_type: self.env.uri.rpc_type.clone(),
            rule_name: concat2(self.env.uri.context_path.as_str(), rule_part),
            service_name: self.app_name.clone(),
            method_name: method_part.to_owned(),
            parameter_types: String::new(),
            rpc_ext: String::new(),
            host: self.host.clone(),
            port: self.port,
            namespace_id: namespace_id.clone(),
            enabled,
            register_meta_data: String::new(),
            plugin_names: Vec::new(),
        }
    }

    /// The URI registration jobs: one per namespace, in namespace
    /// order, each aimed at every URI endpoint, with event `REGISTER`.
    pub fn register_uri(&self) -> (jobs: Vec<BroadcastJob>)
        ensures
            jobs@.len() == self.namespace_ids@.len(),
            forall|i: int|
                0 <= i < jobs@.len() ==> self.spec_uri_job(
                    #[trigger] jobs@[i],
                    self.namespace_ids@[i]@,
                    EventType::REGISTER,
                    self.register_uri_list@,
                ),
    {
        let mut jobs: Vec<BroadcastJob> = Vec::new();
        let mut i: usize = 0;
        while i < self.namespace_ids.len()
            invariant
                i <= self.namespace_ids@.len(),
                jobs@.len() == i,
                forall|j: int|
                    0 <= j < i ==> self.spec_uri_job(
                        #[trigger] jobs@[j],
                        self.namespace_ids@[j]@,
                        EventType::REGISTER,
                        self.register_uri_list@,
                    ),
            decreases self.namespace_ids@.len() - i,
        {
            let p = self.build_uri_payload(&self.namespace_ids[i], EventType::REGISTER);
            jobs.push(
                BroadcastJob {
                    urls: copy_strings(&self.register_uri_list),
                    payload: RegistrationPayload::Uri(p),
                },
            );
            i = i + 1;
        }
        jobs
    }

    /// The offline deregistration jobs: one per namespace, in namespace
    /// order, each aimed at every offline endpoint, with event
    /// `OFFLINE`.
    pub fn offline_register(&self) -> (jobs: Vec<BroadcastJob>)
        ensures
            jobs@.len() == self.namespace_ids@.len(),
            forall|i: int|
                0 <= i < jobs@.len() ==> self.spec_uri_job(
                    #[trigger] jobs@[i],
                    self.namespace_ids@[i]@,
                    EventType::OFFLINE,
                    self.register_offline_servers@,
                ),
    {
        let mut jobs: Vec<BroadcastJob> = Vec::new();
        let mut i: usize = 0;
        while i < self.namespace_ids.len()
            invariant
                i <= self.namespace_ids@.len(),
                jobs@.len() == i,
                forall|j: int|
                    0 <= j < i ==> self.spec_uri_job(
                        #[trigger] jobs@[j],
                        self.namespace_ids@[j]@,
                        EventType::OFFLINE,
                        self.register_offline_servers@,
                    ),
            decreases self.namespace_ids@.len() - i,
        {
            let p = self.build_uri_payload(&self.namespace_ids[i], EventType::OFFLINE);
            jobs.push(
                BroadcastJob {
                    urls: copy_strings(&self.register_offline_servers),
                    payload: RegistrationPayload::Uri(p),
                },
            );
            i = i + 1;
        }
        jobs
    }

    /// The metadata jobs of one route (or of the wildcard path when
    /// `register_all` is set): one per namespace, in namespace order.
    /// An absent rule name falls back to the path; an absent method
    /// name becomes empty.
    pub fn register_metadata(
        &self,
        register_all: bool,
        path: Option<&str>,
        method: Option<&str>,
        rule_name: Option<&str>,
        enabled: bool,
    ) -> (jobs: Vec<BroadcastJob>)
        ensures
            ({
                let path_part = spec_meta_path_part(register_all, spec_opt_view(path));
                let rule_part = spec_meta_rule_part(
                    register_all,
                    spec_opt_view(path),
                    spec_opt_view(rule_name),
                );
                let method_part = spec_opt_view_or_empty(method);
                &&& jobs@.len() == self.namespace_ids@.len()
                &&& forall|i: int|
                    0 <= i < jobs@.len() ==> self.spec_metadata_job(
                        #[trigger] jobs@[i],
                        path_part,
                        rule_part,
                        method_part,
                        self.namespace_ids@[i]@,
                        enabled,
                    )
            }),
    {
        let path_s: String = if register_all {
            "**".to_owned()
        } else {
            match path {
                Some(p) => p.to_owned(),
                None => String::new(),
            }
        };
        let rule_s: String = match rule_name {
            Some(r) => r.to_owned(),
            None => path_s.clone(),
        };
        let method_s: String = match method {
            Some(m) => m.to_owned(),
            None => String::new(),
        };
        let mut jobs: Vec<BroadcastJob> = Vec::new();
        let mut i: usize = 0;
        while i < self.namespace_ids.len()
            invariant
                i <= self.namespace_ids@.len(),
                jobs@.len() == i,
                path_s@ == spec_meta_path_part(register_all, spec_opt_view(path)),
                rule_s@ == spec_meta_rule_part(
                    register_all,
                    spec_opt_view(path),
                    spec_opt_view(rule_name),
                ),
                method_s@ == spec_opt_view_or_empty(method),
                forall|j: int|
                    0 <= j < i ==> self.spec_metadata_job(
                        #[trigger] jobs@[j],
                        path_s@,
                        rule_s@,
                        method_s@,
                        self.namespace_ids@[j]@,
                        enabled,
                    ),
            decreases self.namespace_ids@.len() - i,
        {
            let p = self.build_metadata_payload(
                path_s.as_str(),
                rule_s.as_str(),
                method_s.as_str(),
                &self.namespace_ids[i],
                enabled,
            );
            jobs.push(
                BroadcastJob {
                    urls: copy_strings(&self.register_meta_data_path_list),
                    payload: RegistrationPayload::Metadata(p),
                },
            );
            i = i + 1;
        }
        jobs
    }

    /// The metadata jobs of every route under every namespace: routes
    /// in order, namespaces in order within each route.
    pub fn register_all_metadata(&self, enabled: bool) -> (jobs: Vec<BroadcastJob>)
        ensures
            self.spec_metadata_jobs(jobs@, enabled),
    {
        let mut jobs: Vec<BroadcastJob> = Vec::new();
        let ghost nns = self.namespace_ids@.len() as int;
        let mut ri: usize = 0;
        while ri < self.uri_infos.len()
            invariant
                ri <= self.uri_infos@.len(),
                nns == self.namespace_ids@.len() as int,
                jobs@.len() == ri * nns,
                forall|r: int, n: int|
                    #![trigger self.uri_infos@[r], self.namespace_ids@[n]]
                    0 <= r < ri && 0 <= n < nns ==> self.spec_metadata_job(
                        jobs@[r * nns + n],
                        self.uri_infos@[r].path@,
                        self.uri_infos@[r].rule_name@,
                        self.uri_infos@[r].method_name@,
                        self.namespace_ids@[n]@,
                        enabled,
                    ),
            decreases self.uri_infos@.len() - ri,
        {
            let route = &self.uri_infos[ri];
            let mut chunk = self.register_metadata(
                false,
                Some(route.path.as_str()),
                Some(route.method_name.as_str()),
                Some(route.rule_name.as_str()),
                enabled,
            );
            let ghost pre = jobs@;
            let ghost chunk_view = chunk@;
            jobs.append(&mut chunk);
            proof {
                assert((ri + 1) as int * nns == ri as int * nns + nns) by (nonlinear_arith);
                assert forall|r: int, n: int|
                    #![trigger self.uri_infos@[r], self.namespace_ids@[n]]
                    0 <= r < ri + 1 && 0 <= n < nns implies self.spec_metadata_job(
                    jobs@[r * nns + n],
                    self.uri_infos@[r].path@,
                    self.uri_infos@[r].rule_name@,
                    self.uri_infos@[r].method_name@,
                    self.namespace_ids@[n]@,
                    enabled,
                ) by {
                    if r < ri {
                        assert(0 <= r * nns + n && r * nns + n < ri as int * nns)
                            by (nonlinear_arith)
                            requires
                                0 <= r,
                                r < ri as int,
                                0 <= n,
                                n < nns,
                        ;
                        assert(jobs@[r * nns + n] == pre[r * nns + n]);
                    } else {
                        assert(r * nns + n == pre.len() + n) by (nonlinear_arith)
                            requires
                                r == ri as int,
                                pre.len() == ri as int * nns,
                        ;
                        assert(jobs@[r * nns + n] == chunk_view[n]);
                    }
                }
            }
            ri = ri + 1;
        }
        jobs
    }

    /// The discovery-configuration job: one payload, aimed at every
    /// discovery endpoint.
    pub fn register_discovery_config(&self) -> (job: BroadcastJob)
        ensures
            self.spec_discovery_job(job),
    {
        let mut props: Vec<(String, String)> = Vec::new();
        let mut i: usize = 0;
        while i < self.env.discovery.props.len()
            invariant
                i <= self.env.discovery.props@.len(),
                props@ =~= self.env.discovery.props@.take(i as int),
            decreases self.env.discovery.props@.len() - i,
        {
            let pair = &self.env.discovery.props[i];
            props.push((pair.0.clone(), pair.1.clone()));
            proof {
                assert(self.env.discovery.props@.take(i + 1) =~= self.env.discovery.props@.take(
                    i as int,
                ).push(self.env.discovery.props@[i as int]));
            }
            i = i + 1;
        }
        proof {
            assert(self.env.discovery.props@.take(self.env.discovery.props@.len() as int)
                =~= self.env.discovery.props@);
        }
        let p = DiscoveryPayload {
            name: concat2("default", self.env.discovery.discovery_type.as_str()),
            selector_name: self.env.uri.context_path.clone(),
            handler: "{}".to_owned(),
            listener_node: self.env.discovery.register_path.clone(),
            server_list: self.env.discovery.server_lists.clone(),
            props,
            discovery_type: self.env.discovery.discovery_type.clone(),
            plugin_name: self.env.discovery.plugin_name.clone(),
        };
        BroadcastJob {
            urls: copy_strings(&self.register_discover_config_servers),
            payload: RegistrationPayload::Discovery(p),
        }
    }

    /// The whole registration sequence, driven by the outcome of the
    /// token fetch.  Without a token the sequence is aborted before any
    /// registrar runs.  With one, the token becomes a header on every
    /// later request, and the jobs returned are the metadata jobs (all
    /// routes enabled), then the URI jobs, then the discovery job —
    /// always all three groups, whatever their individual outcomes.
    pub fn register(&mut self, token: Option<String>) -> (r: Result<Vec<BroadcastJob>, String>)
        ensures
            Self::same_core(*final(self), *old(self)),
            old(self).wf() ==> final(self).wf(),
            token is None ==> (r matches Err(e) && e@ == "cannot obtain register token"@
                && map_entries(final(self).headers) == map_entries(old(self).headers)),
            token matches Some(t) ==> map_entries(final(self).headers) == map_entries(
                old(self).headers,
            ).insert("X-Access-Token"@, t@),
            token is Some ==> (r matches Ok(jobs) && {
                let nns = old(self).namespace_ids@.len() as int;
                let nm = old(self).uri_infos@.len() * nns;
                &&& jobs@.len() == nm + nns + 1
                &&& old(self).spec_metadata_jobs(jobs@.take(nm), true)
                &&& forall|i: int|
                    0 <= i < nns ==> old(self).spec_uri_job(
                        #[trigger] jobs@[nm + i],
                        old(self).namespace_ids@[i]@,
                        EventType::REGISTER,
                        old(self).register_uri_list@,
                    )
                &&& old(self).spec_discovery_job(jobs@[nm + nns])
            }),
    {
        match token {
            None => Err("cannot obtain register token".to_owned()),
            Some(t) => {
                proof {
                    reveal_strlit("X-Access-Token");
                    reveal_strlit("Content-Type");
                }
                dash_insert(&mut self.headers, "X-Access-Token".to_owned(), t);
                proof {
                    assert(("X-Access-Token"@).len() != ("Content-Type"@).len());
                    assert("X-Access-Token"@ != "Content-Type"@);
                    if old(self).wf() {
                        assert(map_entries(self.headers).contains_pair(
                            "Content-Type"@,
                            "application/json;charset=UTF-8"@,
                        ));
                    }
                }
                let mut jobs = self.register_all_metadata(true);
                let ghost meta_view = jobs@;
                let mut uri_jobs = self.register_uri();
                let ghost uri_view = uri_jobs@;
                let disc = self.register_discovery_config();
                let ghost disc_view = disc;
                jobs.append(&mut uri_jobs);
                jobs.push(disc);
                proof {
                    let nm = meta_view.len() as int;
                    let nu = uri_view.len() as int;
                    assert(jobs@.take(nm) =~= meta_view);
                    assert(forall|i: int|
                        0 <= i < nu ==> jobs@[nm + i] == #[trigger] uri_view[i]);
                    assert(jobs@[nm + nu] == disc_view);
                }
                Ok(jobs)
            },
        }
    }
}

/// The view of an optional borrowed text.
pub open spec fn spec_opt_view(o: Option<&str>) -> Option<Seq<char>> {
    match o {
        Some(s) => Some(s@),
        None => None,
    }
}

/// The view of an optional borrowed text, empty when absent.
pub open spec fn spec_opt_view_or_empty(o: Option<&str>) -> Seq<char> {
    match o {
        Some(s) => s@,
        None => Seq::empty(),
    }
}

/// The path a metadata registration announces, before the context path
/// is prepended: the wildcard in register-everything mode, else the
/// given path, else empty.
pub open spec fn spec_meta_path_part(register_all: bool, path: Option<Seq<char>>) -> Seq<char> {
    if register_all {
        "**"@
    } else {
        match path {
            Some(p) => p,
            None => Seq::empty(),
        }
    }
}

/// The rule name a metadata registration announces, before the context
/// path is prepended: the given rule name, falling back to the path.
pub open spec fn spec_meta_rule_part(
    register_all: bool,
    path: Option<Seq<char>>,
    rule: Option<Seq<char>>,
) -> Seq<char> {
    match rule {
        Some(r) => r,
        None => spec_meta_path_part(register_all, path),
    }
}

} // verus!
