use shenyu_client_rust::IRouter;
use shenyu_client_rust::model::UriInfo;
use shenyu_client_rust::router::ShenYuRouter;

#[test]
fn it_works() {
    let binding = ShenYuRouter::new("shenyu_client_app");
    let app = binding
        .nest("/api", ShenYuRouter::new("api"))
        .route("/health", "get")
        .route("/users", "post");
    let uri_infos = app.uri_infos();
    assert_eq!(uri_infos.len(), 2);
    assert_eq!(uri_infos[0].path, "/health");
    assert_eq!(uri_infos[1].path, "/users");
}

#[test]
fn routes_record_method_and_rule_name() {
    let app = ShenYuRouter::new("shenyu_client_app").route("/health", "get");
    assert_eq!(app.app_name(), "shenyu_client_app");
    let infos = app.uri_infos();
    assert_eq!(infos[0].rule_name, "/health");
    assert_eq!(infos[0].method_name, "get");
    assert!(infos[0].service_name.is_none());
}

#[test]
fn nest_and_merge_take_over_descriptors_in_order() {
    let inner = ShenYuRouter::new("api").route("/health", "get");
    let other = ShenYuRouter::new("other").route("/users", "post");
    let app = ShenYuRouter::new("shenyu_client_app").nest("/api", inner).merge(other);
    let infos = app.uri_infos();
    assert_eq!(infos.len(), 2);
    assert_eq!(infos[0].path, "/health");
    assert_eq!(infos[1].path, "/users");
}

#[test]
fn uri_info_records_a_descriptor_as_given() {
    let descriptor = UriInfo {
        path: "/orders".to_string(),
        rule_name: "orders-rule".to_string(),
        service_name: Some("orders".to_string()),
        method_name: "put".to_string(),
    };
    let app = ShenYuRouter::new("shenyu_client_app").uri_info(descriptor);
    let infos = app.uri_infos();
    assert_eq!(infos.len(), 1);
    assert_eq!(infos[0].rule_name, "orders-rule");
    assert_eq!(infos[0].service_name.as_deref(), Some("orders"));
}

#[test]
fn duplicate_copies_a_descriptor() {
    let descriptor = UriInfo {
        path: "/orders".to_string(),
        rule_name: "orders-rule".to_string(),
        service_name: None,
        method_name: "put".to_string(),
    };
    let copy = descriptor.duplicate();
    assert_eq!(copy.path, descriptor.path);
    assert_eq!(copy.rule_name, descriptor.rule_name);
    assert_eq!(copy.method_name, descriptor.method_name);
    assert!(copy.service_name.is_none());
}
