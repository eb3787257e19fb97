use vstd::prelude::*;
use crate::errors::{Error, ErrorKind};
use crate::json::{Field, JsonTree, Tree, is_object, json_of, member, member_of, parse_json, parse_yaml, text_field, text_field_of, yaml_of};
use crate::routes::{kind_path, kind_path_of, resource_path_of};
use vstd::string::StringExecFns;
use crate::text::{begins_with_v, lower_of, lowercase, same_text, starts_with_v};

verus! {

/// The encoding of a manifest file, chosen by its extension.
#[derive(PartialEq, Eq, Structural, Clone, Copy, Debug)]
pub enum ManifestFormat {
    Json,
    Yaml,
}

/// The format that an already lower-cased extension names.
pub open spec fn format_of(ext: Seq<char>) -> Option<ManifestFormat> {
    if ext == "json"@ {
        Some(ManifestFormat::Json)
    } else if ext == "yaml"@ || ext == "yml"@ {
        Some(ManifestFormat::Yaml)
    } else {
        None
    }
}

/// The format of a lower-cased extension.
pub fn format_of_lowered(ext: &str) -> (r: Option<ManifestFormat>)
    ensures
        r == format_of(ext@),
{
    if same_text(ext, "json") {
        Some(ManifestFormat::Json)
    } else if same_text(ext, "yaml") || same_text(ext, "yml") {
        Some(ManifestFormat::Yaml)
    } else {
        None
    }
}

/// The format of a file extension, compared without regard to case.
pub fn format_for_extension(ext: &str) -> (r: Option<ManifestFormat>)
    ensures
        r == format_of(lower_of(ext@)),
{
    let lowered = lowercase(ext);
    format_of_lowered(lowered.as_str())
}

/// What a manifest's `kind` routes to: the plural path segment, and the
/// namespace used when the manifest names none.
#[derive(Debug)]
pub struct KindInfo {
    pub plural: String,
    pub default_namespace: Option<String>,
}

impl KindInfo {
    pub open spec fn view(&self) -> (Seq<char>, Option<Seq<char>>) {
        (self.plural@, opt_string(self.default_namespace))
    }
}

pub open spec fn opt_string(o: Option<String>) -> Option<Seq<char>> {
    match o {
        Some(s) => Some(s@),
        None => None,
    }
}

/// The kinds this library routes. Namespaced kinds default to `default`;
/// cluster-scoped kinds have no namespace segment.
pub open spec fn kind_table(kind: Seq<char>) -> Option<(Seq<char>, Option<Seq<char>>)> {
    let ns = Some("default"@);
    if kind == "Pod"@ { Some(("pods"@, ns)) }
    else if kind == "Service"@ { Some(("services"@, ns)) }
    else if kind == "ConfigMap"@ { Some(("configmaps"@, ns)) }
    else if kind == "Secret"@ { Some(("secrets"@, ns)) }
    else if kind == "ServiceAccount"@ { Some(("serviceaccounts"@, ns)) }
    else if kind == "PersistentVolumeClaim"@ { Some(("persistentvolumeclaims"@, ns)) }
    else if kind == "Deployment"@ { Some(("deployments"@, ns)) }
    else if kind == "DaemonSet"@ { Some(("daemonsets"@, ns)) }
    else if kind == "StatefulSet"@ { Some(("statefulsets"@, ns)) }
    else if kind == "ReplicaSet"@ { Some(("replicasets"@, ns)) }
    else if kind == "Job"@ { Some(("jobs"@, ns)) }
    else if kind == "CronJob"@ { Some(("cronjobs"@, ns)) }
    else if kind == "Ingress"@ { Some(("ingresses"@, ns)) }
    else if kind == "NetworkPolicy"@ { Some(("networkpolicies"@, ns)) }
    else if kind == "Namespace"@ { Some(("namespaces"@, None)) }
    else if kind == "Node"@ { Some(("nodes"@, None)) }
    else if kind == "PersistentVolume"@ { Some(("persistentvolumes"@, None)) }
    else { None }
}

fn info(plural: &str, namespaced: bool) -> (r: KindInfo)
    ensures
        r.plural@ == plural@,
        r.default_namespace is Some == namespaced,
        namespaced ==> r.default_namespace->0@ == "default"@,
{
    KindInfo {
        plural: plural.to_owned(),
        default_namespace: if namespaced { Some("default".to_owned()) } else { None },
    }
}

/// Looks a kind up in the table of routed kinds.
pub fn kind_info(kind: &str) -> (r: Option<KindInfo>)
    ensures
        match r {
            Some(i) => kind_table(kind@) == Some(i.view()),
            None => kind_table(kind@) is None,
        },
{
    if same_text(kind, "Pod") { Some(info("pods", true)) }
    else if same_text(kind, "Service") { Some(info("services", true)) }
    else if same_text(kind, "ConfigMap") { Some(info("configmaps", true)) }
    else if same_text(kind, "Secret") { Some(info("secrets", true)) }
    else if same_text(kind, "ServiceAccount") { Some(info("serviceaccounts", true)) }
    else if same_text(kind, "PersistentVolumeClaim") { Some(info("persistentvolumeclaims", true)) }
    else if same_text(kind, "Deployment") { Some(info("deployments", true)) }
    else if same_text(kind, "DaemonSet") { Some(info("daemonsets", true)) }
    else if same_text(kind, "StatefulSet") { Some(info("statefulsets", true)) }
    else if same_text(kind, "ReplicaSet") { Some(info("replicasets", true)) }
    else if same_text(kind, "Job") { Some(info("jobs", true)) }
    else if same_text(kind, "CronJob") { Some(info("cronjobs", true)) }
    else if same_text(kind, "Ingress") { Some(info("ingresses", true)) }
    else if same_text(kind, "NetworkPolicy") { Some(info("networkpolicies", true)) }
    else if same_text(kind, "Namespace") { Some(info("namespaces", false)) }
    else if same_text(kind, "Node") { Some(info("nodes", false)) }
    else if same_text(kind, "PersistentVolume") { Some(info("persistentvolumes", false)) }
    else { None }
}

/// The routing projection of a manifest: its `apiVersion`, its kind, and
/// `metadata.name` / `metadata.namespace`.
#[derive(Debug)]
pub struct MinimalResource {
    pub api_version: String,
    pub kind_name: String,
    pub kind: KindInfo,
    pub name: Option<String>,
    pub namespace: Option<String>,
}

impl MinimalResource {
    /// The kind is one of the routed kinds, with the information the table gives.
    pub open spec fn wf(&self) -> bool {
        kind_table(self.kind_name@) == Some(self.kind.view())
    }

    /// The namespace a manifest is routed to: its own `metadata.namespace`,
    /// else its kind's default, else none (a cluster-scoped resource).
    pub open spec fn spec_namespace(&self) -> Option<Seq<char>> {
        match self.namespace {
            Some(n) => Some(n@),
            None => opt_string(self.kind.default_namespace),
        }
    }

    /// `/api/{apiVersion}` for an `apiVersion` that begins with `v`, else
    /// `/apis/{apiVersion}`.
    pub open spec fn spec_api(&self) -> Seq<char> {
        api_prefix_of(self.api_version@)
    }

    /// The collection path a manifest is created under.
    pub open spec fn spec_collection_path(&self) -> Seq<char> {
        kind_path_of(self.spec_api(), self.spec_namespace(), self.kind.plural@)
    }

    /// The item path a manifest is probed and replaced at.
    pub open spec fn spec_item_path(&self) -> Seq<char>
        recommends
            self.name is Some,
    {
        resource_path_of(self.spec_api(), self.spec_namespace(), self.kind.plural@, self.name->0@)
    }

    /// The namespace a manifest is routed to.
    pub fn resolved_namespace(&self) -> (r: Option<&str>)
        ensures
            match r {
                Some(t) => self.spec_namespace() == Some(t@),
                None => self.spec_namespace() is None,
            },
    {
        match &self.namespace {
            Some(n) => Some(n.as_str()),
            None => match &self.kind.default_namespace {
                Some(d) => Some(d.as_str()),
                None => None,
            },
        }
    }

    /// The path root and group-version of a manifest.
    pub fn api(&self) -> (r: String)
        ensures
            r@ == self.spec_api(),
    {
        api_prefix(self.api_version.as_str())
    }

    /// The collection path of a manifest.
    pub fn collection_path(&self) -> (r: String)
        ensures
            r@ == self.spec_collection_path(),
    {
        let api = self.api();
        kind_path(api.as_str(), self.resolved_namespace(), self.kind.plural.as_str())
    }
}

/// The path root that an `apiVersion` selects, followed by `/` and the
/// `apiVersion` itself.
pub open spec fn api_prefix_of(api_version: Seq<char>) -> Seq<char> {
    (if starts_with_v(api_version) { "/api"@ } else { "/apis"@ }) + "/"@ + api_version
}

/// Builds `{root}/{apiVersion}`.
pub fn api_prefix(api_version: &str) -> (r: String)
    ensures
        r@ == api_prefix_of(api_version@),
{
    let mut s = if begins_with_v(api_version) { "/api".to_owned() } else { "/apis".to_owned() };
    s.append("/");
    s.append(api_version);
    s
}

/// Whether read fields make a routing projection: `apiVersion` and `kind`
/// are strings, the kind is routed, `metadata` is an object, and its
/// `name` and `namespace` are strings or absent. Each field is given as
/// `None` where malformed and `Some(None)` where absent.
pub open spec fn resource_fields_ok(
    api_version: Option<Option<Seq<char>>>,
    kind: Option<Option<Seq<char>>>,
    metadata_is_object: bool,
    name: Option<Option<Seq<char>>>,
    namespace: Option<Option<Seq<char>>>,
) -> bool {
    &&& api_version matches Some(Some(_))
    &&& kind matches Some(Some(k)) && kind_table(k) is Some
    &&& metadata_is_object
    &&& name is Some
    &&& namespace is Some
}

/// Whether a projection holds exactly the given fields.
pub open spec fn resource_holds(
    m: MinimalResource,
    api_version: Option<Option<Seq<char>>>,
    kind: Option<Option<Seq<char>>>,
    name: Option<Option<Seq<char>>>,
    namespace: Option<Option<Seq<char>>>,
) -> bool {
    &&& m.wf()
    &&& api_version == Some(Some(m.api_version@))
    &&& kind == Some(Some(m.kind_name@))
    &&& name == Some(opt_string(m.name))
    &&& namespace == Some(opt_string(m.namespace))
}

/// Assembles the routing projection from the fields read off a manifest.
/// Fails with `ErrorKind::ResourceFileParsing` exactly where the fields
/// make none. A missing `metadata.name` is no failure here.
pub fn resource_from_fields(
    api_version: Field,
    kind: Field,
    metadata_is_object: bool,
    name: Field,
    namespace: Field,
) -> (r: Result<MinimalResource, Error>)
    ensures
        r is Ok == resource_fields_ok(api_version@, kind@, metadata_is_object, name@, namespace@),
        r matches Ok(m) ==> resource_holds(m, api_version@, kind@, name@, namespace@),
        r matches Err(e) ==> e.spec_kind() is ResourceFileParsing,
{
    let api_version = match api_version {
        Field::Text(t) => t,
        _ => return Err(Error::new(ErrorKind::ResourceFileParsing)),
    };
    let kind_name = match kind {
        Field::Text(t) => t,
        _ => return Err(Error::new(ErrorKind::ResourceFileParsing)),
    };
    let kind = match kind_info(kind_name.as_str()) {
        Some(k) => k,
        None => return Err(Error::new(ErrorKind::ResourceFileParsing)),
    };
    if !metadata_is_object {
        return Err(Error::new(ErrorKind::ResourceFileParsing));
    }
    let name = match name {
        Field::Absent => None,
        Field::Text(t) => Some(t),
        Field::Malformed => return Err(Error::new(ErrorKind::ResourceFileParsing)),
    };
    let namespace = match namespace {
        Field::Absent => None,
        Field::Text(t) => Some(t),
        Field::Malformed => return Err(Error::new(ErrorKind::ResourceFileParsing)),
    };
    Ok(MinimalResource { api_version, kind_name, kind, name, namespace })
}

/// The `metadata` member of a manifest, where it is an object.
pub open spec fn metadata_of(t: JsonTree) -> Option<JsonTree> {
    match member_of(t, "metadata"@) {
        Some(JsonTree::Object(m)) => Some(JsonTree::Object(m)),
        _ => None,
    }
}

/// Whether a manifest's content has a routing projection.
pub open spec fn tree_fields_ok(t: JsonTree) -> bool {
    &&& metadata_of(t) is Some
    &&& resource_fields_ok(
        text_field_of(t, "apiVersion"@),
        text_field_of(t, "kind"@),
        true,
        text_field_of(metadata_of(t)->0, "name"@),
        text_field_of(metadata_of(t)->0, "namespace"@),
    )
}

/// Whether a projection holds exactly what a manifest's content says.
pub open spec fn projection_of(m: MinimalResource, t: JsonTree) -> bool {
    &&& metadata_of(t) is Some
    &&& resource_holds(
        m,
        text_field_of(t, "apiVersion"@),
        text_field_of(t, "kind"@),
        text_field_of(metadata_of(t)->0, "name"@),
        text_field_of(metadata_of(t)->0, "namespace"@),
    )
}

/// Projects a manifest's content onto its routing fields. Fails with
/// `ErrorKind::ResourceFileParsing` exactly where it has no projection.
pub fn project(body: &Tree) -> (r: Result<MinimalResource, Error>)
    ensures
        r is Ok == tree_fields_ok(body@),
        r matches Ok(m) ==> projection_of(m, body@),
        r matches Err(e) ==> e.spec_kind() is ResourceFileParsing,
{
    let api_version = text_field(body, "apiVersion");
    let kind = text_field(body, "kind");
    match member(body, "metadata") {
        Some(metadata) => {
            if is_object(&metadata) {
                resource_from_fields(api_version, kind, true, text_field(&metadata, "name"), text_field(&metadata, "namespace"))
            } else {
                Err(Error::new(ErrorKind::ResourceFileParsing))
            }
        },
        None => Err(Error::new(ErrorKind::ResourceFileParsing)),
    }
}

/// A manifest whose content has a routing projection but no
/// `metadata.name` is no parse failure: it parses, its projection names no
/// resource, and so it cannot meet the precondition of `target_for`.
pub proof fn lemma_missing_name_is_not_a_parse_failure(m: MinimalResource, t: JsonTree)
    requires
        projection_of(m, t),
        text_field_of(metadata_of(t)->0, "name"@) == Some(None::<Seq<char>>),
    ensures
        tree_fields_ok(t),
        m.name is None,
{
}

/// A parsed manifest: the full document, sent as the request body, and
/// its routing projection.
pub struct Manifest {
    pub body: Tree,
    pub resource: MinimalResource,
}

/// What a manifest file's bytes hold in the given format.
pub open spec fn document_of(format: ManifestFormat, bytes: Seq<u8>) -> Option<JsonTree> {
    match format {
        ManifestFormat::Json => json_of(bytes),
        ManifestFormat::Yaml => yaml_of(bytes),
    }
}

/// Parses a manifest file's bytes in the given format, then projects it.
/// Succeeds exactly where the bytes are one document that has a routing
/// projection; every failure is `ErrorKind::ResourceFileParsing`.
pub fn parse_manifest(format: ManifestFormat, bytes: &[u8]) -> (r: Result<Manifest, Error>)
    ensures
        r is Ok == (document_of(format, bytes@) matches Some(t) && tree_fields_ok(t)),
        r matches Ok(m) ==> document_of(format, bytes@) == Some(m.body@) && projection_of(m.resource, m.body@),
        r matches Err(e) ==> e.spec_kind() is ResourceFileParsing,
{
    let parsed = match format {
        ManifestFormat::Json => parse_json(bytes),
        ManifestFormat::Yaml => parse_yaml(bytes),
    };
    let body = match parsed {
        Ok(b) => b,
        Err(cause) => return Err(Error::caused_by(ErrorKind::ResourceFileParsing, cause)),
    };
    let resource = project(&body)?;
    Ok(Manifest { body, resource })
}

} // verus!
