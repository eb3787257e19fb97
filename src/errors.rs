use vstd::prelude::*;

verus! {

/// A structured error body returned by the API server (`kind: "Status"`).
#[derive(Debug)]
pub struct Status {
    pub code: u16,
    pub reason: String,
    pub message: String,
}

impl Status {
    /// The code, reason and message.
    pub open spec fn view(&self) -> (u16, Seq<char>, Seq<char>) {
        (self.code, self.reason@, self.message@)
    }

    /// A field-by-field copy.
    pub fn duplicate(&self) -> (r: Status)
        ensures
            r == *self,
    {
        Status { code: self.code, reason: self.reason.clone(), message: self.message.clone() }
    }
}

/// The flat taxonomy of every failure this library reports.
#[derive(Debug)]
pub enum ErrorKind {
    /// TLS material (CA or client identity) could not be assembled.
    Pkcs,
    /// The HTTP client could not be built.
    ReqwestInit,
    /// A URL could not be formed from the base URL and a path.
    Url,
    /// The server could not be reached.
    Request,
    /// A response body did not decode as expected.
    Json,
    /// A manifest file could not be read.
    ResourceFileIo,
    /// A manifest file's content is malformed.
    ResourceFileParsing,
    /// The server answered with a non-success HTTP code and this Status body.
    Status(u16, Status),
    /// The cluster configuration is unusable.
    Config,
    /// No usable context in the cluster configuration.
    ConfigContext,
}

impl ErrorKind {
    /// A variant-by-variant copy.
    pub fn duplicate(&self) -> (r: ErrorKind)
        ensures
            r == *self,
    {
        match self {
            ErrorKind::Pkcs => ErrorKind::Pkcs,
            ErrorKind::ReqwestInit => ErrorKind::ReqwestInit,
            ErrorKind::Url => ErrorKind::Url,
            ErrorKind::Request => ErrorKind::Request,
            ErrorKind::Json => ErrorKind::Json,
            ErrorKind::ResourceFileIo => ErrorKind::ResourceFileIo,
            ErrorKind::ResourceFileParsing => ErrorKind::ResourceFileParsing,
            ErrorKind::Status(c, s) => ErrorKind::Status(*c, s.duplicate()),
            ErrorKind::Config => ErrorKind::Config,
            ErrorKind::ConfigContext => ErrorKind::ConfigContext,
        }
    }
}

/// The error type of every fallible operation of this library.
#[derive(Debug)]
pub struct Error {
    inner: ErrorKind,
    cause: Option<String>,
}

impl Error {
    /// The error's kind.
    pub closed spec fn spec_kind(&self) -> ErrorKind {
        self.inner
    }

    /// The description of the lower-level failure, if one was kept.
    pub closed spec fn spec_cause(&self) -> Option<Seq<char>> {
        match self.cause {
            Some(c) => Some(c@),
            None => None,
        }
    }

    /// An error of the given kind, with no underlying cause.
    pub fn new(kind: ErrorKind) -> (r: Error)
        ensures
            r.spec_kind() == kind,
            r.spec_cause() is None,
    {
        Error { inner: kind, cause: None }
    }

    /// An error of the given kind, keeping the description of the
    /// lower-level failure that caused it.
    pub fn caused_by(kind: ErrorKind, cause: String) -> (r: Error)
        ensures
            r.spec_kind() == kind,
            r.spec_cause() == Some(cause@),
    {
        Error { inner: kind, cause: Some(cause) }
    }

    /// The description of the lower-level failure, if one was kept.
    pub fn cause(&self) -> (r: Option<&str>)
        ensures
            match r {
                Some(c) => self.spec_cause() == Some(c@),
                None => self.spec_cause() is None,
            },
    {
        match &self.cause {
            Some(c) => Some(c.as_str()),
            None => None,
        }
    }

    /// The error's kind.
    pub fn kind(&self) -> (r: ErrorKind)
        ensures
            r == self.spec_kind(),
    {
        self.inner.duplicate()
    }

    /// Whether the server reported this error with a Status body.
    pub fn is_kubernetes_status(&self) -> (r: bool)
        ensures
            r == self.spec_kind() is Status,
    {
        if let ErrorKind::Status(_, _) = &self.inner {
            true
        } else {
            false
        }
    }

    /// The Status body the server sent, if this is a Status error.
    pub fn kubernetes_status(&self) -> (r: Option<&Status>)
        ensures
            match self.spec_kind() {
                ErrorKind::Status(_, s) => r == Some(&s),
                _ => r is None,
            },
    {
        if let ErrorKind::Status(_, s) = &self.inner {
            Some(s)
        } else {
            None
        }
    }

    /// The HTTP code the server answered with, if this is a Status error.
    pub fn http_status(&self) -> (r: Option<u16>)
        ensures
            match self.spec_kind() {
                ErrorKind::Status(c, _) => r == Some(c),
                _ => r is None,
            },
    {
        if let ErrorKind::Status(c, _) = &self.inner {
            Some(*c)
        } else {
            None
        }
    }
}

impl From<ErrorKind> for Error {
    fn from(kind: ErrorKind) -> (r: Error) {
        Error { inner: kind, cause: None }
    }
}

impl vstd::std_specs::convert::FromSpecImpl<ErrorKind> for Error {
    open spec fn obeys_from_spec() -> bool {
        true
    }

    closed spec fn from_spec(kind: ErrorKind) -> Error {
        Error { inner: kind, cause: None }
    }
}

} // verus!
