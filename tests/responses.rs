use kubeclient::json::{Field, NumberField};
use kubeclient::protocol::status_from_fields;
use kubeclient::client::{plan_client, ClusterEndpoint, Credentials};
use kubeclient::errors::{Error, ErrorKind, Status};
use kubeclient::protocol::{check_response, decode_status, exists_outcome, response_error, status_error};
use kubeclient::upsert::{conclude, Step};

const NOT_FOUND: &str = r#"{"kind":"Status","code":404,"reason":"NotFound","message":"pods \"x\" not found"}"#;
const FORBIDDEN: &str = r#"{"kind":"Status","code":403,"reason":"Forbidden","message":"no access"}"#;

#[test]
fn exists_on_each_code() {
    assert_eq!(exists_outcome(200, b"{}").unwrap(), true);
    assert_eq!(exists_outcome(404, NOT_FOUND.as_bytes()).unwrap(), false);
    let e = exists_outcome(403, FORBIDDEN.as_bytes()).unwrap_err();
    assert_eq!(e.http_status(), Some(403));
    assert_eq!(e.kubernetes_status().unwrap().reason, "Forbidden");
    let e = exists_outcome(500, br#"{"code":500,"reason":"InternalError","message":"boom"}"#).unwrap_err();
    assert_eq!(e.http_status(), Some(500));
    assert!(e.is_kubernetes_status());
}

#[test]
fn status_body_round_trips() {
    let e = response_error(403, FORBIDDEN.as_bytes());
    assert!(e.is_kubernetes_status());
    assert_eq!(e.http_status(), Some(403));
    let s = e.kubernetes_status().unwrap();
    assert_eq!(s.code, 403);
    assert_eq!(s.reason, "Forbidden");
    assert_eq!(s.message, "no access");
}

#[test]
fn undecodable_failure_body_is_json_error() {
    let e = response_error(502, b"<html>bad gateway</html>");
    assert!(matches!(e.kind(), ErrorKind::Json));
    assert!(!e.is_kubernetes_status());
    assert_eq!(e.http_status(), None);
    assert!(e.kubernetes_status().is_none());
    assert!(e.cause().is_some());
}

#[test]
fn status_decoding_defaults_and_rejects() {
    let s = decode_status(b"{}").unwrap();
    assert_eq!((s.code, s.reason.as_str(), s.message.as_str()), (0, "", ""));
    assert!(decode_status(br#"{"code":70000}"#).is_err());
    assert!(decode_status(br#"{"reason":3}"#).is_err());
    assert!(decode_status(b"[]").is_err());
}

#[test]
fn check_response_passes_success_body() {
    assert_eq!(check_response(201, b"created".to_vec()).unwrap(), b"created".to_vec());
    let e = check_response(409, br#"{"code":409,"reason":"AlreadyExists","message":"exists"}"#.to_vec()).unwrap_err();
    assert_eq!(e.http_status(), Some(409));
    assert_eq!(e.kubernetes_status().unwrap().reason, "AlreadyExists");
}

#[test]
fn conclude_returns_or_fails() {
    assert_eq!(conclude(&Step::Return, 200, b"body".to_vec()).unwrap().unwrap(), b"body".to_vec());
    let e = conclude(&Step::Fail, 404, NOT_FOUND.as_bytes().to_vec()).unwrap().unwrap_err();
    assert_eq!(e.http_status(), Some(404));
}

#[test]
fn status_error_accessors() {
    let status = Status { code: 409, reason: "Conflict".to_string(), message: "m".to_string() };
    let e = status_error(409, status);
    assert_eq!(e.http_status(), Some(409));
    assert_eq!(e.kubernetes_status().unwrap().reason, "Conflict");
    let plain = Error::new(ErrorKind::Request);
    assert!(!plain.is_kubernetes_status());
    assert!(matches!(Error::from(ErrorKind::Config).kind(), ErrorKind::Config));
}

fn endpoint() -> ClusterEndpoint {
    ClusterEndpoint {
        server: "https://k8s.example:6443".to_string(),
        ca_cert: None,
        client_certificate: None,
        client_key: None,
        username: None,
        password: None,
        token: None,
    }
}

#[test]
fn basic_auth_wins_over_bearer() {
    let mut ep = endpoint();
    ep.username = Some("admin".to_string());
    ep.password = Some("pw".to_string());
    ep.token = Some("tok".to_string());
    let plan = plan_client(&ep).unwrap();
    assert!(matches!(plan.credentials, Credentials::Basic { ref username, ref password } if username == "admin" && password == "pw"));
}

#[test]
fn bearer_when_password_missing() {
    let mut ep = endpoint();
    ep.username = Some("admin".to_string());
    ep.token = Some("tok".to_string());
    let plan = plan_client(&ep).unwrap();
    assert!(matches!(plan.credentials, Credentials::Bearer(ref t) if t == "tok"));
}

#[test]
fn anonymous_and_tls_flags() {
    let mut ep = endpoint();
    ep.ca_cert = Some(vec![1, 2, 3]);
    ep.client_certificate = Some(vec![4]);
    let plan = plan_client(&ep).unwrap();
    assert!(matches!(plan.credentials, Credentials::Anonymous));
    assert!(plan.trust_ca);
    assert!(!plan.identity);
    ep.client_key = Some(vec![5]);
    assert!(plan_client(&ep).unwrap().identity);
}

#[test]
fn status_fields_are_kept_unaltered() {
    let s = status_from_fields(
        NumberField::Number(409),
        Field::Text("AlreadyExists".to_string()),
        Field::Text("configmaps \"cfg\" already exists".to_string()),
    )
    .unwrap();
    assert_eq!(s.code, 409);
    assert_eq!(s.reason, "AlreadyExists");
    assert_eq!(s.message, "configmaps \"cfg\" already exists");
    let s = status_from_fields(NumberField::Absent, Field::Absent, Field::Absent).unwrap();
    assert_eq!((s.code, s.reason.as_str(), s.message.as_str()), (0, "", ""));
    assert!(status_from_fields(NumberField::Number(65536), Field::Absent, Field::Absent).is_none());
    assert!(status_from_fields(NumberField::Number(65535), Field::Absent, Field::Absent).is_some());
    assert!(status_from_fields(NumberField::Malformed, Field::Absent, Field::Absent).is_none());
    assert!(status_from_fields(NumberField::Absent, Field::Malformed, Field::Absent).is_none());
    assert!(status_from_fields(NumberField::Absent, Field::Absent, Field::Malformed).is_none());
}

#[test]
fn bearer_token_must_be_a_header_value() {
    let mut ep = endpoint();
    ep.token = Some("bad\ntoken".to_string());
    let e = plan_client(&ep).err().unwrap();
    assert!(matches!(e.kind(), ErrorKind::Config));
    ep.username = Some("admin".to_string());
    ep.password = Some("pw".to_string());
    assert!(plan_client(&ep).is_ok());
}
