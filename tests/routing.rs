use kubeclient::json::Field;
use kubeclient::manifest::resource_from_fields;
use kubeclient::errors::ErrorKind;
use kubeclient::manifest::{api_prefix, format_for_extension, kind_info, parse_manifest, ManifestFormat};
use kubeclient::routes::{KindRoute, ResourceRoute};
use kubeclient::upsert::{target_for, Method, Step, Upsert};

const BASE: &str = "https://k8s.example:6443";

#[test]
fn kind_route_without_namespace() {
    let route = KindRoute::new("/api/v1", "nodes");
    assert_eq!(route.build(BASE).unwrap(), "https://k8s.example:6443/api/v1/nodes");
}

#[test]
fn kind_route_with_namespace_and_query() {
    let mut route = KindRoute::new("/apis/apps/v1", "deployments");
    route.namespace("prod");
    route.query(vec![
        ("labelSelector".to_string(), "app=web".to_string()),
        ("limit".to_string(), "5".to_string()),
    ]);
    assert_eq!(
        route.build(BASE).unwrap(),
        "https://k8s.example:6443/apis/apps/v1/namespaces/prod/deployments?labelSelector=app%3Dweb&limit=5"
    );
}

#[test]
fn resource_route_paths() {
    let mut route = ResourceRoute::new("/api/v1", "configmaps", "cfg");
    assert_eq!(route.build(BASE).unwrap(), "https://k8s.example:6443/api/v1/configmaps/cfg");
    route.namespace("ns1");
    assert_eq!(route.build(BASE).unwrap(), "https://k8s.example:6443/api/v1/namespaces/ns1/configmaps/cfg");
}

#[test]
fn route_with_unusable_base_is_url_error() {
    let route = KindRoute::new("/api/v1", "pods");
    let e = route.build("not a url").unwrap_err();
    assert!(matches!(e.kind(), ErrorKind::Url));
    assert!(e.cause().is_some());
}

#[test]
fn api_root_selection() {
    assert_eq!(api_prefix("v1"), "/api/v1");
    assert_eq!(api_prefix("apps/v1"), "/apis/apps/v1");
    assert_eq!(api_prefix("vendor.io/v1"), "/api/vendor.io/v1");
    assert_eq!(api_prefix(""), "/apis/");
}

#[test]
fn extensions_are_case_insensitive() {
    assert_eq!(format_for_extension("json"), Some(ManifestFormat::Json));
    assert_eq!(format_for_extension("JSON"), Some(ManifestFormat::Json));
    assert_eq!(format_for_extension("Yaml"), Some(ManifestFormat::Yaml));
    assert_eq!(format_for_extension("yml"), Some(ManifestFormat::Yaml));
    assert_eq!(format_for_extension("txt"), None);
}

#[test]
fn kind_table_entries() {
    let cm = kind_info("ConfigMap").unwrap();
    assert_eq!(cm.plural, "configmaps");
    assert_eq!(cm.default_namespace.as_deref(), Some("default"));
    let ns = kind_info("Namespace").unwrap();
    assert_eq!(ns.plural, "namespaces");
    assert_eq!(ns.default_namespace, None);
    assert!(kind_info("Gizmo").is_none());
}

fn urls_for(manifest: &str, format: ManifestFormat) -> (String, String) {
    let m = parse_manifest(format, manifest.as_bytes()).unwrap();
    let t = target_for(BASE, &m.resource).unwrap();
    (t.collection_url, t.item_url)
}

#[test]
fn config_map_apply_probes_then_creates() {
    let doc = r#"{"apiVersion":"v1","kind":"ConfigMap","metadata":{"name":"cfg","namespace":"ns1"},"data":{"k":"v"}}"#;
    let m = parse_manifest(ManifestFormat::Json, doc.as_bytes()).unwrap();
    assert_eq!(m.body.value()["data"]["k"], "v");
    let t = target_for(BASE, &m.resource).unwrap();
    let (mut session, first) = Upsert::apply(&t);
    assert_eq!(first.method, Method::Get);
    assert_eq!(first.url, "https://k8s.example:6443/api/v1/namespaces/ns1/configmaps/cfg");
    match session.on_response(404) {
        Step::Send(req) => {
            assert_eq!(req.method, Method::Post);
            assert_eq!(req.url, "https://k8s.example:6443/api/v1/namespaces/ns1/configmaps");
        }
        other => panic!("expected a create, got {:?}", other),
    }
    assert!(matches!(session.on_response(201), Step::Return));
    assert!(session.is_done());
}

#[test]
fn deployment_uses_kind_default_namespace() {
    let doc = "apiVersion: apps/v1\nkind: Deployment\nmetadata:\n  name: web\n";
    let (collection, item) = urls_for(doc, ManifestFormat::Yaml);
    assert_eq!(collection, "https://k8s.example:6443/apis/apps/v1/namespaces/default/deployments");
    assert_eq!(item, "https://k8s.example:6443/apis/apps/v1/namespaces/default/deployments/web");
}

#[test]
fn explicit_namespace_wins_over_default() {
    let doc = r#"{"apiVersion":"apps/v1","kind":"Deployment","metadata":{"name":"web","namespace":"edge"}}"#;
    let (_, item) = urls_for(doc, ManifestFormat::Json);
    assert_eq!(item, "https://k8s.example:6443/apis/apps/v1/namespaces/edge/deployments/web");
}

#[test]
fn cluster_scoped_kind_has_no_namespace_segment() {
    let doc = r#"{"apiVersion":"v1","kind":"Namespace","metadata":{"name":"team-a"}}"#;
    let (collection, item) = urls_for(doc, ManifestFormat::Json);
    assert_eq!(collection, "https://k8s.example:6443/api/v1/namespaces");
    assert_eq!(item, "https://k8s.example:6443/api/v1/namespaces/team-a");
}

#[test]
fn apply_of_existing_resource_returns_probe_answer() {
    let doc = r#"{"apiVersion":"v1","kind":"Secret","metadata":{"name":"s"}}"#;
    let m = parse_manifest(ManifestFormat::Json, doc.as_bytes()).unwrap();
    let t = target_for(BASE, &m.resource).unwrap();
    let (mut session, first) = Upsert::apply(&t);
    assert_eq!(first.method, Method::Get);
    assert!(matches!(session.on_response(200), Step::Return));
    assert!(session.is_done());
}

#[test]
fn apply_probe_failure_fails() {
    let doc = r#"{"apiVersion":"v1","kind":"Secret","metadata":{"name":"s"}}"#;
    let m = parse_manifest(ManifestFormat::Json, doc.as_bytes()).unwrap();
    let t = target_for(BASE, &m.resource).unwrap();
    let (mut session, _) = Upsert::apply(&t);
    assert!(matches!(session.on_response(403), Step::Fail));
}

#[test]
fn replace_puts_to_item_url() {
    let doc = r#"{"apiVersion":"v1","kind":"Service","metadata":{"name":"api","namespace":"ns2"}}"#;
    let m = parse_manifest(ManifestFormat::Json, doc.as_bytes()).unwrap();
    let t = target_for(BASE, &m.resource).unwrap();
    let (mut session, first) = Upsert::replace(&t);
    assert_eq!(first.method, Method::Put);
    assert_eq!(first.url, "https://k8s.example:6443/api/v1/namespaces/ns2/services/api");
    assert!(matches!(session.on_response(404), Step::Fail));
    assert!(session.is_done());
}

#[test]
fn missing_name_is_not_a_parse_failure() {
    let doc = r#"{"apiVersion":"v1","kind":"Pod","metadata":{}}"#;
    let m = parse_manifest(ManifestFormat::Json, doc.as_bytes()).unwrap();
    assert!(m.resource.name.is_none());
}

#[test]
fn malformed_manifests_are_parse_failures() {
    for doc in [
        "{not json",
        r#"{"kind":"Pod","metadata":{"name":"p"}}"#,
        r#"{"apiVersion":"v1","kind":"Gizmo","metadata":{"name":"p"}}"#,
        r#"{"apiVersion":"v1","kind":"Pod"}"#,
        r#"{"apiVersion":"v1","kind":"Pod","metadata":{"name":7}}"#,
    ] {
        let e = parse_manifest(ManifestFormat::Json, doc.as_bytes()).err().unwrap();
        assert!(matches!(e.kind(), ErrorKind::ResourceFileParsing), "{}", doc);
    }
    let e = parse_manifest(ManifestFormat::Json, b"{not json").err().unwrap();
    assert!(e.cause().is_some());
    let e = parse_manifest(ManifestFormat::Yaml, b"key: [unclosed").err().unwrap();
    assert!(matches!(e.kind(), ErrorKind::ResourceFileParsing));
}

#[test]
fn projection_from_fields() {
    let text = |s: &str| Field::Text(s.to_string());
    let m = resource_from_fields(text("apps/v1"), text("StatefulSet"), true, text("db"), Field::Absent).unwrap();
    assert_eq!(m.api_version, "apps/v1");
    assert_eq!(m.kind.plural, "statefulsets");
    assert_eq!(m.name.as_deref(), Some("db"));
    assert_eq!(m.namespace, None);
    assert_eq!(m.resolved_namespace(), Some("default"));
    assert_eq!(m.collection_path(), "/apis/apps/v1/namespaces/default/statefulsets");

    let unnamed = resource_from_fields(text("v1"), text("Node"), true, Field::Absent, Field::Absent).unwrap();
    assert!(unnamed.name.is_none());
    assert_eq!(unnamed.resolved_namespace(), None);
    assert_eq!(unnamed.collection_path(), "/api/v1/nodes");

    for r in [
        resource_from_fields(Field::Absent, text("Pod"), true, text("p"), Field::Absent),
        resource_from_fields(text("v1"), Field::Malformed, true, text("p"), Field::Absent),
        resource_from_fields(text("v1"), text("Widget"), true, text("p"), Field::Absent),
        resource_from_fields(text("v1"), text("Pod"), false, text("p"), Field::Absent),
        resource_from_fields(text("v1"), text("Pod"), true, Field::Malformed, Field::Absent),
        resource_from_fields(text("v1"), text("Pod"), true, text("p"), Field::Malformed),
    ] {
        assert!(matches!(r.unwrap_err().kind(), ErrorKind::ResourceFileParsing));
    }
}

#[test]
fn null_namespace_reads_as_absent() {
    let doc = r#"{"apiVersion":"v1","kind":"Pod","metadata":{"name":"p","namespace":null}}"#;
    let (_, item) = urls_for(doc, ManifestFormat::Json);
    assert_eq!(item, "https://k8s.example:6443/api/v1/namespaces/default/pods/p");
}
