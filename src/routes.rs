use vstd::prelude::*;
use crate::errors::{Error, ErrorKind};
use vstd::string::StringExecFns;

verus! {

/// The view of an optional borrowed text.
pub open spec fn opt_text(o: Option<&str>) -> Option<Seq<char>> {
    match o {
        Some(t) => Some(t@),
        None => None,
    }
}

/// The view of a list of query pairs.
pub open spec fn pairs_view(q: Seq<(String, String)>) -> Seq<(Seq<char>, Seq<char>)> {
    q.map_values(|p: (String, String)| (p.0@, p.1@))
}

/// The collection path of a kind: `{api}/namespaces/{ns}/{kind}`, or
/// `{api}/{kind}` without a namespace.
pub open spec fn kind_path_of(api: Seq<char>, ns: Option<Seq<char>>, kind: Seq<char>) -> Seq<char> {
    match ns {
        Some(n) => api + "/namespaces/"@ + n + "/"@ + kind,
        None => api + "/"@ + kind,
    }
}

/// The item path of a named resource: its kind's collection path, `/`, its name.
pub open spec fn resource_path_of(
    api: Seq<char>,
    ns: Option<Seq<char>>,
    kind: Seq<char>,
    name: Seq<char>,
) -> Seq<char> {
    kind_path_of(api, ns, kind) + "/"@ + name
}

/// What `Url::join` gives for a base URL and a path, in text form, when
/// the base parses and the join succeeds.
pub uninterp spec fn url_join_of(base: Seq<char>, path: Seq<char>) -> Option<Seq<char>>;

/// What appending form-encoded query pairs in order gives for a URL.
pub uninterp spec fn url_with_query_of(
    url: Seq<char>,
    pairs: Seq<(Seq<char>, Seq<char>)>,
) -> Option<Seq<char>>;

/// Relies on `url::Url::parse` of the base and `url::Url::join` with the
/// path: the outcome depends on the two texts alone; a failure is
/// described in words.
#[verifier::external_body]
fn join_url(base: &str, path: &str) -> (r: Result<String, String>)
    ensures
        match r {
            Ok(u) => url_join_of(base@, path@) == Some(u@),
            Err(_) => url_join_of(base@, path@) is None,
        },
{
    let b = url::Url::parse(base).map_err(|e| e.to_string())?;
    b.join(path).map(String::from).map_err(|e| e.to_string())
}

/// Relies on `url::Url::query_pairs_mut` and `extend_pairs`: the pairs
/// are appended in order, form-encoded, to the URL's query; a failure to
/// parse the URL is described in words.
#[verifier::external_body]
fn add_query(url: &str, pairs: &Vec<(String, String)>) -> (r: Result<String, String>)
    ensures
        match r {
            Ok(u) => url_with_query_of(url@, pairs_view(pairs@)) == Some(u@),
            Err(_) => url_with_query_of(url@, pairs_view(pairs@)) is None,
        },
{
    let mut u = url::Url::parse(url).map_err(|e| e.to_string())?;
    u.query_pairs_mut().extend_pairs(pairs.iter());
    Ok(String::from(u))
}

/// Builds the collection path of a kind.
pub fn kind_path(api: &str, ns: Option<&str>, kind: &str) -> (r: String)
    ensures
        r@ == kind_path_of(api@, opt_text(ns), kind@),
{
    let mut s = api.to_owned();
    if let Some(n) = ns {
        s.append("/namespaces/");
        s.append(n);
    }
    s.append("/");
    s.append(kind);
    s
}

/// Builds the item path of a named resource.
pub fn resource_path(api: &str, ns: Option<&str>, kind: &str, name: &str) -> (r: String)
    ensures
        r@ == resource_path_of(api@, opt_text(ns), kind@, name@),
{
    let mut s = kind_path(api, ns, kind);
    s.append("/");
    s.append(name);
    s
}

/// The URL that joining `path` onto `base`, then appending `query`, gives,
/// or `None` where either step fails.
pub open spec fn url_for(
    base: Seq<char>,
    path: Seq<char>,
    query: Option<Seq<(Seq<char>, Seq<char>)>>,
) -> Option<Seq<char>> {
    match url_join_of(base, path) {
        None => None,
        Some(u) => match query {
            None => Some(u),
            Some(q) => url_with_query_of(u, q),
        },
    }
}

/// Joins a path onto a base URL and appends the query pairs, if any.
/// Fails with `ErrorKind::Url` exactly where that cannot be done.
pub fn resolve(base: &str, path: &str, query: &Option<Vec<(String, String)>>) -> (r: Result<String, Error>)
    ensures
        match url_for(base@, path@, opt_pairs(*query)) {
            Some(u) => r matches Ok(s) && s@ == u,
            None => r matches Err(e) && e.spec_kind() is Url,
        },
{
    match join_url(base, path) {
        Err(cause) => Err(Error::caused_by(ErrorKind::Url, cause)),
        Ok(u) => match query {
            None => Ok(u),
            Some(q) => match add_query(&u, q) {
                Ok(v) => Ok(v),
                Err(cause) => Err(Error::caused_by(ErrorKind::Url, cause)),
            },
        },
    }
}

pub open spec fn opt_pairs(q: Option<Vec<(String, String)>>) -> Option<Seq<(Seq<char>, Seq<char>)>> {
    match q {
        Some(v) => Some(pairs_view(v@)),
        None => None,
    }
}

/// Collection-level route: an API group-version, a kind's plural name and
/// an optional namespace, with optional query pairs.
pub struct KindRoute<'a> {
    api: &'a str,
    namespace: Option<&'a str>,
    kind: &'a str,
    query: Option<Vec<(String, String)>>,
}

/// Item-level route: a collection route plus a resource name.
pub struct ResourceRoute<'a> {
    api: &'a str,
    namespace: Option<&'a str>,
    kind: &'a str,
    resource: &'a str,
    query: Option<Vec<(String, String)>>,
}

impl<'a> KindRoute<'a> {
    pub closed spec fn spec_api(&self) -> Seq<char> {
        self.api@
    }

    pub closed spec fn spec_namespace(&self) -> Option<Seq<char>> {
        opt_text(self.namespace)
    }

    pub closed spec fn spec_kind(&self) -> Seq<char> {
        self.kind@
    }

    pub closed spec fn spec_query(&self) -> Option<Seq<(Seq<char>, Seq<char>)>> {
        opt_pairs(self.query)
    }

    /// The relative path this route addresses.
    pub open spec fn spec_path(&self) -> Seq<char> {
        kind_path_of(self.spec_api(), self.spec_namespace(), self.spec_kind())
    }

    pub fn new(api: &'a str, kind: &'a str) -> (r: KindRoute<'a>)
        ensures
            r.spec_api() == api@,
            r.spec_kind() == kind@,
            r.spec_namespace() is None,
            r.spec_query() is None,
    {
        KindRoute { api, kind, namespace: None, query: None }
    }

    pub fn namespace(&mut self, namespace: &'a str)
        ensures
            final(self).spec_api() == old(self).spec_api(),
            final(self).spec_kind() == old(self).spec_kind(),
            final(self).spec_namespace() == Some(namespace@),
            final(self).spec_query() == old(self).spec_query(),
    {
        self.namespace = Some(namespace);
    }

    /// Sets the query pairs, replacing any set before; they are appended in
    /// this order.
    pub fn query(&mut self, pairs: Vec<(String, String)>)
        ensures
            final(self).spec_api() == old(self).spec_api(),
            final(self).spec_kind() == old(self).spec_kind(),
            final(self).spec_namespace() == old(self).spec_namespace(),
            final(self).spec_query() == Some(pairs_view(pairs@)),
    {
        self.query = Some(pairs);
    }

    /// The absolute URL of this route under `base_url`.
    pub fn build(&self, base_url: &str) -> (r: Result<String, Error>)
        ensures
            match url_for(base_url@, self.spec_path(), self.spec_query()) {
                Some(u) => r matches Ok(s) && s@ == u,
                None => r matches Err(e) && e.spec_kind() is Url,
            },
    {
        let path = kind_path(self.api, self.namespace, self.kind);
        resolve(base_url, path.as_str(), &self.query)
    }
}

impl<'a> ResourceRoute<'a> {
    pub closed spec fn spec_api(&self) -> Seq<char> {
        self.api@
    }

    pub closed spec fn spec_namespace(&self) -> Option<Seq<char>> {
        opt_text(self.namespace)
    }

    pub closed spec fn spec_kind(&self) -> Seq<char> {
        self.kind@
    }

    pub closed spec fn spec_resource(&self) -> Seq<char> {
        self.resource@
    }

    pub closed spec fn spec_query(&self) -> Option<Seq<(Seq<char>, Seq<char>)>> {
        opt_pairs(self.query)
    }

    /// The relative path this route addresses.
    pub open spec fn spec_path(&self) -> Seq<char> {
        resource_path_of(self.spec_api(), self.spec_namespace(), self.spec_kind(), self.spec_resource())
    }

    pub fn new(api: &'a str, kind: &'a str, resource: &'a str) -> (r: ResourceRoute<'a>)
        ensures
            r.spec_api() == api@,
            r.spec_kind() == kind@,
            r.spec_resource() == resource@,
            r.spec_namespace() is None,
            r.spec_query() is None,
    {
        ResourceRoute { api, kind, resource, namespace: None, query: None }
    }

    pub fn namespace(&mut self, namespace: &'a str)
        ensures
            final(self).spec_api() == old(self).spec_api(),
            final(self).spec_kind() == old(self).spec_kind(),
            final(self).spec_resource() == old(self).spec_resource(),
            final(self).spec_namespace() == Some(namespace@),
            final(self).spec_query() == old(self).spec_query(),
    {
        self.namespace = Some(namespace);
    }

    /// The absolute URL of this route under `base_url`.
    pub fn build(&self, base_url: &str) -> (r: Result<String, Error>)
        ensures
            match url_for(base_url@, self.spec_path(), self.spec_query()) {
                Some(u) => r matches Ok(s) && s@ == u,
                None => r matches Err(e) && e.spec_kind() is Url,
            },
    {
        let path = resource_path(self.api, self.namespace, self.kind, self.resource);
        resolve(base_url, path.as_str(), &self.query)
    }
}

} // verus!
