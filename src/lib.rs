//! Client-side logic for the Kubernetes API server: the routes that map a
//! kind, namespace and name to a request path, the routing projection of
//! resource manifests, the apply / replace upsert protocol, the handling of
//! failure answers and their Status bodies, and the choice of TLS material
//! and credentials for a client.

pub mod errors;
pub mod text;
pub mod routes;
pub mod json;
pub mod manifest;
pub mod protocol;
pub mod upsert;
pub mod client;
