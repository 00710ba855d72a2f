use shenyu_client_rust::client::ShenyuClient;
use shenyu_client_rust::client::parse_namespaces;
use shenyu_client_rust::client::SYS_DEFAULT_NAMESPACE_ID;
use shenyu_client_rust::config::DiscoveryConfig;
use shenyu_client_rust::config::RegisterConfig;
use shenyu_client_rust::config::ShenYuConfig;
use shenyu_client_rust::config::UriConfig;
use shenyu_client_rust::host::HostCandidate;
use shenyu_client_rust::model::EventType;
use shenyu_client_rust::model::UriInfo;
use shenyu_client_rust::payload::RegistrationPayload;

fn sample_config(servers: &str, namespace_id: Option<&str>) -> ShenYuConfig {
    ShenYuConfig {
        register: RegisterConfig {
            register_type: "http".to_string(),
            servers: servers.to_string(),
            props: vec![
                ("username".to_string(), "admin".to_string()),
                ("password".to_string(), "123456".to_string()),
            ],
            namespace_id: namespace_id.map(|s| s.to_string()),
        },
        uri: UriConfig {
            app_name: "shenyu_client_app".to_string(),
            host: String::new(),
            port: 9527,
            context_path: "/api".to_string(),
            environment: "dev".to_string(),
            rpc_type: "http".to_string(),
        },
        discovery: DiscoveryConfig {
            protocol: "http".to_string(),
            discovery_type: "local".to_string(),
            server_lists: "http://127.0.0.1:9095".to_string(),
            register_path: "/register".to_string(),
            plugin_name: "divide".to_string(),
            props: vec![("open".to_string(), "true".to_string())],
        },
    }
}

fn lan_candidates() -> Vec<HostCandidate> {
    vec![HostCandidate::V4 { a: 192, b: 168, c: 0, d: 7 }]
}

fn sample_routes() -> Vec<UriInfo> {
    vec![
        UriInfo {
            path: "/health".to_string(),
            rule_name: "/health".to_string(),
            service_name: None,
            method_name: "get".to_string(),
        },
        UriInfo {
            path: "/users".to_string(),
            rule_name: "/users".to_string(),
            service_name: None,
            method_name: "post".to_string(),
        },
    ]
}

#[test]
fn endpoint_lists_follow_servers_in_order() {
    let config = sample_config("http://a,http://b,http://c", None);
    let routes = sample_routes();
    let client =
        ShenyuClient::new(config, "shenyu_client_app", &routes, 9527, &lan_candidates()).unwrap();
    assert_eq!(client.gateway_base_urls, vec!["http://a", "http://b", "http://c"]);
    for (list, suffix) in [
        (&client.register_meta_data_path_list, "/shenyu-client/register-metadata"),
        (&client.register_uri_list, "/shenyu-client/register-uri"),
        (&client.register_token_servers, "/platform/login"),
        (&client.register_discover_config_servers, "/shenyu-client/register-discoveryConfig"),
        (&client.register_offline_servers, "/shenyu-client/offline"),
    ] {
        assert_eq!(list.len(), 3);
        assert_eq!(list[0], format!("http://a{}", suffix));
        assert_eq!(list[1], format!("http://b{}", suffix));
        assert_eq!(list[2], format!("http://c{}", suffix));
    }
}

#[test]
fn empty_server_segments_are_kept_as_given() {
    // Base URLs are never re-validated: an empty segment stays and
    // gets its suffixes like any other.
    let config = sample_config("http://a,", None);
    let routes = sample_routes();
    let client =
        ShenyuClient::new(config, "shenyu_client_app", &routes, 9527, &lan_candidates()).unwrap();
    assert_eq!(client.gateway_base_urls, vec!["http://a", ""]);
    assert_eq!(client.register_uri_list[1], "/shenyu-client/register-uri");
}

#[test]
fn prop_lookup_takes_the_first_matching_pair() {
    let props = vec![
        ("username".to_string(), "first".to_string()),
        ("username".to_string(), "second".to_string()),
    ];
    let found = shenyu_client_rust::config::prop_get(&props, "username");
    assert_eq!(found, Some("first".to_string()));
    assert_eq!(shenyu_client_rust::config::prop_get(&props, "password"), None);
}

#[test]
fn absent_namespace_config_yields_the_default() {
    let parsed = parse_namespaces(&None);
    assert_eq!(parsed, vec![SYS_DEFAULT_NAMESPACE_ID.to_string()]);
    assert_eq!(SYS_DEFAULT_NAMESPACE_ID, "649330b6-c2d7-4edc-be8e-8a54df9eb385");
}

#[test]
fn namespaces_split_on_semicolon_in_order() {
    let parsed = parse_namespaces(&Some("a;b;c".to_string()));
    assert_eq!(parsed, vec!["a", "b", "c"]);
}

#[test]
fn empty_namespace_segments_are_preserved() {
    let parsed = parse_namespaces(&Some("a;;b".to_string()));
    assert_eq!(parsed, vec!["a", "", "b"]);
}

#[test]
fn construction_fails_on_empty_servers() {
    let config = sample_config("", None);
    let routes = sample_routes();
    let res = ShenyuClient::new(config, "shenyu_client_app", &routes, 9527, &lan_candidates());
    assert_eq!(res.err().unwrap(), "shenyu.register.servers is empty");
}

#[test]
fn construction_fails_without_a_qualifying_address() {
    let config = sample_config("http://a", None);
    let routes = sample_routes();
    let only_loopback = vec![
        HostCandidate::V4 { a: 127, b: 0, c: 0, d: 1 },
        HostCandidate::V6Other,
    ];
    let res = ShenyuClient::new(config, "shenyu_client_app", &routes, 9527, &only_loopback);
    assert_eq!(res.err().unwrap(), "Failed to determine local IP address");
}

#[test]
fn construction_fails_without_credentials() {
    let mut config = sample_config("http://a", None);
    config.register.props = vec![("username".to_string(), "admin".to_string())];
    let routes = sample_routes();
    let res = ShenyuClient::new(config, "shenyu_client_app", &routes, 9527, &lan_candidates());
    assert_eq!(res.err().unwrap(), "shenyu.register.props is missing username or password");
}

#[test]
fn construction_resolves_the_host_once() {
    let config = sample_config("http://a", None);
    let routes = sample_routes();
    let candidates = vec![
        HostCandidate::V4 { a: 127, b: 0, c: 0, d: 1 },
        HostCandidate::V6MappedV4 { a: 10, b: 0, c: 0, d: 42 },
        HostCandidate::V4 { a: 192, b: 168, c: 0, d: 7 },
    ];
    let client =
        ShenyuClient::new(config, "shenyu_client_app", &routes, 9527, &candidates).unwrap();
    assert_eq!(client.host, "10.0.0.42");
}

#[test]
fn construction_seeds_the_content_type_header() {
    let config = sample_config("http://a", None);
    let routes = sample_routes();
    let client =
        ShenyuClient::new(config, "shenyu_client_app", &routes, 9527, &lan_candidates()).unwrap();
    assert_eq!(
        client.header_value("Content-Type"),
        Some("application/json;charset=UTF-8".to_string())
    );
    assert_eq!(client.header_value("X-Access-Token"), None);
}

#[test]
fn credentials_come_from_the_props() {
    let config = sample_config("http://a", None);
    let routes = sample_routes();
    let client =
        ShenyuClient::new(config, "shenyu_client_app", &routes, 9527, &lan_candidates()).unwrap();
    let (username, password) = client.credentials();
    assert_eq!(username, "admin");
    assert_eq!(password, "123456");
}

#[test]
fn register_without_a_token_aborts() {
    let config = sample_config("http://a", None);
    let routes = sample_routes();
    let mut client =
        ShenyuClient::new(config, "shenyu_client_app", &routes, 9527, &lan_candidates()).unwrap();
    let res = client.register(None);
    assert_eq!(res.err().unwrap(), "cannot obtain register token");
    assert_eq!(client.header_value("X-Access-Token"), None);
}

#[test]
fn register_with_a_token_sets_the_header_and_plans_all_groups() {
    let config = sample_config("http://a,http://b", Some("ns1;ns2"));
    let routes = sample_routes();
    let mut client =
        ShenyuClient::new(config, "shenyu_client_app", &routes, 9527, &lan_candidates()).unwrap();
    let jobs = client.register(Some("T".to_string())).unwrap();
    assert_eq!(client.header_value("X-Access-Token"), Some("T".to_string()));
    // 2 routes x 2 namespaces metadata jobs, 2 uri jobs, 1 discovery job.
    assert_eq!(jobs.len(), 7);
    assert!(matches!(jobs[0].payload, RegistrationPayload::Metadata(_)));
    assert!(matches!(jobs[3].payload, RegistrationPayload::Metadata(_)));
    assert!(matches!(jobs[4].payload, RegistrationPayload::Uri(_)));
    assert!(matches!(jobs[5].payload, RegistrationPayload::Uri(_)));
    assert!(matches!(jobs[6].payload, RegistrationPayload::Discovery(_)));
}

#[test]
fn zero_routes_still_register_uri_and_discovery() {
    let config = sample_config("http://a", None);
    let routes: Vec<UriInfo> = Vec::new();
    let mut client =
        ShenyuClient::new(config, "shenyu_client_app", &routes, 9527, &lan_candidates()).unwrap();
    let jobs = client.register(Some("T".to_string())).unwrap();
    assert_eq!(jobs.len(), 2);
    assert!(matches!(jobs[0].payload, RegistrationPayload::Uri(_)));
    assert!(matches!(jobs[1].payload, RegistrationPayload::Discovery(_)));
    assert_eq!(client.register_all_metadata(true).len(), 0);
}

#[test]
fn metadata_payload_fields_derive_from_route_and_config() {
    let config = sample_config("http://a", Some("ns1"));
    let routes = sample_routes();
    let client =
        ShenyuClient::new(config, "shenyu_client_app", &routes, 9527, &lan_candidates()).unwrap();
    let jobs = client.register_all_metadata(true);
    assert_eq!(jobs.len(), 2);
    assert_eq!(jobs[0].urls, vec!["http://a/shenyu-client/register-metadata"]);
    match &jobs[0].payload {
        RegistrationPayload::Metadata(p) => {
            assert_eq!(p.app_name, "shenyu_client_app");
            assert_eq!(p.context_path, "/api");
            assert_eq!(p.path, "/api/health");
            assert_eq!(p.path_desc, "");
            assert_eq!(p.rpc_type, "http");
            assert_eq!(p.rule_name, "/api/health");
            assert_eq!(p.service_name, "shenyu_client_app");
            assert_eq!(p.method_name, "get");
            assert_eq!(p.parameter_types, "");
            assert_eq!(p.rpc_ext, "");
            assert_eq!(p.host, "192.168.0.7");
            assert_eq!(p.port, 9527);
            assert_eq!(p.namespace_id, "ns1");
            assert!(p.enabled);
            assert_eq!(p.register_meta_data, "");
            assert!(p.plugin_names.is_empty());
        },
        _ => panic!("expected a metadata payload"),
    }
}

#[test]
fn uri_payload_fields_derive_from_config() {
    let config = sample_config("http://a", Some("ns1"));
    let routes = sample_routes();
    let client =
        ShenyuClient::new(config, "shenyu_client_app", &routes, 9527, &lan_candidates()).unwrap();
    let jobs = client.register_uri();
    assert_eq!(jobs.len(), 1);
    assert_eq!(jobs[0].urls, vec!["http://a/shenyu-client/register-uri"]);
    match &jobs[0].payload {
        RegistrationPayload::Uri(p) => {
            assert_eq!(p.app_name, "shenyu_client_app");
            assert_eq!(p.context_path, "/api");
            assert_eq!(p.protocol, "http");
            assert_eq!(p.rpc_type, "http");
            assert_eq!(p.host, "192.168.0.7");
            assert_eq!(p.port, 9527);
            assert_eq!(p.namespace_id, "ns1");
            assert_eq!(p.event_type.as_str(), "REGISTER");
        },
        _ => panic!("expected a uri payload"),
    }
}

#[test]
fn offline_payload_for_ns1_has_event_type_offline() {
    let config = sample_config("http://a", Some("ns1"));
    let routes = sample_routes();
    let client =
        ShenyuClient::new(config, "shenyu_client_app", &routes, 9527, &lan_candidates()).unwrap();
    let jobs = client.offline_register();
    assert_eq!(jobs.len(), 1);
    assert_eq!(jobs[0].urls, vec!["http://a/shenyu-client/offline"]);
    match &jobs[0].payload {
        RegistrationPayload::Uri(p) => {
            assert_eq!(p.namespace_id, "ns1");
            assert_eq!(p.event_type.as_str(), "OFFLINE");
            assert!(matches!(p.event_type, EventType::OFFLINE));
        },
        _ => panic!("expected a uri-shaped offline payload"),
    }
}

#[test]
fn discovery_payload_fields_derive_from_config() {
    let config = sample_config("http://a", None);
    let routes = sample_routes();
    let client =
        ShenyuClient::new(config, "shenyu_client_app", &routes, 9527, &lan_candidates()).unwrap();
    let job = client.register_discovery_config();
    assert_eq!(job.urls, vec!["http://a/shenyu-client/register-discoveryConfig"]);
    match &job.payload {
        RegistrationPayload::Discovery(p) => {
            assert_eq!(p.name, "defaultlocal");
            assert_eq!(p.selector_name, "/api");
            assert_eq!(p.handler, "{}");
            assert_eq!(p.listener_node, "/register");
            assert_eq!(p.server_list, "http://127.0.0.1:9095");
            assert_eq!(p.props, vec![("open".to_string(), "true".to_string())]);
            assert_eq!(p.discovery_type, "local");
            assert_eq!(p.plugin_name, "divide");
        },
        _ => panic!("expected a discovery payload"),
    }
}

#[test]
fn register_all_wildcard_mode_uses_the_wildcard_path() {
    let config = sample_config("http://a", Some("ns1"));
    let routes = sample_routes();
    let client =
        ShenyuClient::new(config, "shenyu_client_app", &routes, 9527, &lan_candidates()).unwrap();
    let jobs = client.register_metadata(true, None, None, None, true);
    assert_eq!(jobs.len(), 1);
    match &jobs[0].payload {
        RegistrationPayload::Metadata(p) => {
            assert_eq!(p.path, "/api**");
            assert_eq!(p.rule_name, "/api**");
            assert_eq!(p.method_name, "");
        },
        _ => panic!("expected a metadata payload"),
    }
}
