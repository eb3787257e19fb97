use vstd::prelude::*;
use vstd::string::StringExecFns;
use crate::errors::{Error, ErrorKind};

verus! {

/// What one authenticated client is built from: the cluster's server URL,
/// its CA certificate, and the user's credentials.
pub struct ClusterEndpoint {
    pub server: String,
    pub ca_cert: Option<Vec<u8>>,
    pub client_certificate: Option<Vec<u8>>,
    pub client_key: Option<Vec<u8>>,
    pub username: Option<String>,
    pub password: Option<String>,
    pub token: Option<String>,
}

/// The default `Authorization` header of a client.
#[derive(Debug)]
pub enum Credentials {
    Basic { username: String, password: String },
    Bearer(String),
    Anonymous,
}

/// How to build the client for an endpoint.
#[derive(Debug)]
pub struct ClientPlan {
    /// Trust the endpoint's CA certificate as a root.
    pub trust_ca: bool,
    /// Present the endpoint's client certificate and key as identity.
    pub identity: bool,
    pub credentials: Credentials,
}

/// The credentials an endpoint selects: basic where both username and
/// password are set, else bearer where a token is set, else none.
pub open spec fn credentials_of(ep: ClusterEndpoint) -> Credentials {
    match (ep.username, ep.password) {
        (Some(u), Some(p)) => Credentials::Basic { username: u, password: p },
        _ => match ep.token {
            Some(t) => Credentials::Bearer(t),
            None => Credentials::Anonymous,
        },
    }
}

fn copy_text(s: &String) -> (r: String)
    ensures
        r == *s,
{
    s.clone()
}

/// Whether an HTTP header value can be made from a text.
pub uninterp spec fn header_value_ok(s: Seq<char>) -> bool;

/// Relies on `reqwest::header::HeaderValue::from_str`: whether the text is
/// a valid header value depends on the text alone.
#[verifier::external_body]
fn valid_header_value(s: &str) -> (r: bool)
    ensures
        r == header_value_ok(s@),
{
    reqwest::header::HeaderValue::from_str(s).is_ok()
}

/// Whether an endpoint's credentials can be sent: a bearer token must make
/// a valid `Authorization: Bearer {token}` header value.
pub open spec fn credentials_sendable(c: Credentials) -> bool {
    match c {
        Credentials::Bearer(t) => header_value_ok("Bearer "@ + t@),
        _ => true,
    }
}

/// Decides how to build the client for an endpoint. Fails with
/// `ErrorKind::Config` exactly where the selected bearer token cannot be
/// sent as a header.
pub fn plan_client(ep: &ClusterEndpoint) -> (r: Result<ClientPlan, Error>)
    ensures
        match r {
            Ok(p) => {
                &&& credentials_sendable(credentials_of(*ep))
                &&& p.trust_ca == ep.ca_cert is Some
                &&& p.identity == (ep.client_certificate is Some && ep.client_key is Some)
                &&& p.credentials == credentials_of(*ep)
            },
            Err(e) => !credentials_sendable(credentials_of(*ep)) && e.spec_kind() is Config,
        },
{
    let credentials = match (&ep.username, &ep.password) {
        (Some(u), Some(p)) => Credentials::Basic { username: copy_text(u), password: copy_text(p) },
        _ => match &ep.token {
            Some(t) => {
                let mut header = "Bearer ".to_owned();
                header.append(t.as_str());
                if !valid_header_value(header.as_str()) {
                    return Err(Error::new(ErrorKind::Config));
                }
                Credentials::Bearer(copy_text(t))
            },
            None => Credentials::Anonymous,
        },
    };
    Ok(ClientPlan {
        trust_ca: ep.ca_cert.is_some(),
        identity: ep.client_certificate.is_some() && ep.client_key.is_some(),
        credentials,
    })
}

} // verus!
