//! The errors of the library.

use vstd::prelude::*;
use vstd::string::*;

verus! {

#[verifier::external_type_specification]
#[verifier::external_body]
pub struct ExHyperError(hyper::Error);

#[verifier::external_type_specification]
#[verifier::external_body]
pub struct ExHttpError(hyper::http::Error);

#[verifier::external_type_specification]
#[verifier::external_body]
pub struct ExTlsError(native_tls::Error);

#[verifier::external_type_specification]
#[verifier::external_body]
pub struct ExIoError(std::io::Error);

/// The kind of an error; a failure of an outside library carries that
/// library's error.
#[derive(Debug)]
pub enum ErrKind {
    /// A transport failure of the HTTP client.
    Hyper(hyper::Error),
    /// A request that could not be built.
    HyperHTTP(hyper::http::Error),
    /// A failure to set up TLS.
    HyperTLS(native_tls::Error),
    /// An I/O failure.
    Io(std::io::Error),
    /// A text that is no UUID.
    ParseUuid(uuid::parser::ParseError),
    /// A value that could not be written as JSON.
    SerdeJson(serde_json::Error),
    /// A plain message.
    Str(String),
    /// A missing or unreadable environment variable, with its description.
    Var(String),
    /// A collector that answered with a status other than success.
    Run,
}

/// The description of a kind whose text is the library's own: a plain
/// message, an environment failure, or the run failure. The other kinds are
/// described by their outside error.
pub open spec fn own_description(k: &ErrKind) -> Option<Seq<char>> {
    match k {
        ErrKind::Str(t) => Some(t@),
        ErrKind::Var(t) => Some(t@),
        ErrKind::Run => Some("An error has occurred during run"@),
        _ => None,
    }
}

/// `s` describes an error of kind `k`: the text that the outside error
/// writes of itself, or the library's own text for the other kinds.
pub open spec fn describes(k: &ErrKind, s: String) -> bool {
    match k {
        ErrKind::Hyper(e) => to_string_from_display_ensures::<hyper::Error>(e, s),
        ErrKind::HyperHTTP(e) => to_string_from_display_ensures::<hyper::http::Error>(e, s),
        ErrKind::HyperTLS(e) => to_string_from_display_ensures::<native_tls::Error>(e, s),
        ErrKind::Io(e) => to_string_from_display_ensures::<std::io::Error>(e, s),
        ErrKind::ParseUuid(e) => to_string_from_display_ensures::<uuid::parser::ParseError>(e, s),
        ErrKind::SerdeJson(e) => to_string_from_display_ensures::<serde_json::Error>(e, s),
        _ => own_description(k) == Some(s@),
    }
}

impl ErrKind {
    /// The text that describes the error: the outside error's own text for
    /// a failure of an outside library.
    pub fn description(&self) -> (r: String)
        ensures
            describes(self, r),
            own_description(self) matches Some(t) ==> r@ == t,
    {
        match self {
            ErrKind::Hyper(e) => e.to_string(),
            ErrKind::HyperHTTP(e) => e.to_string(),
            ErrKind::HyperTLS(e) => e.to_string(),
            ErrKind::Io(e) => e.to_string(),
            ErrKind::ParseUuid(e) => e.to_string(),
            ErrKind::SerdeJson(e) => e.to_string(),
            ErrKind::Str(t) => t.clone(),
            ErrKind::Var(t) => t.clone(),
            ErrKind::Run => String::from_str("An error has occurred during run"),
        }
    }
}

/// An error of the library.
#[derive(Debug)]
pub struct EchoError {
    pub inner: ErrKind,
}

/// The heading of every error's message.
pub const ERROR_HEADING: &'static str = "libechoexec error";

impl EchoError {
    pub open spec fn spec_kind(&self) -> &ErrKind {
        &self.inner
    }

    /// The kind of the error.
    #[verifier::when_used_as_spec(spec_kind)]
    pub fn kind(&self) -> (r: &ErrKind)
        ensures
            r == self.spec_kind(),
    {
        &self.inner
    }

    /// The heading shared by all errors of the library.
    pub fn description(&self) -> (r: &str)
        ensures
            r@ == ERROR_HEADING@,
    {
        ERROR_HEADING
    }

    /// The full message: the heading, then the description of the kind.
    pub fn message(&self) -> (r: String)
        ensures
            exists|d: String| #[trigger]
                describes(self.spec_kind(), d) && r@ == ERROR_HEADING@ + ": "@ + d@,
            own_description(self.spec_kind()) matches Some(t) ==> r@ == ERROR_HEADING@ + ": "@ + t,
    {
        let mut out = String::from_str(ERROR_HEADING);
        out.append(": ");
        let d = self.inner.description();
        out.append(d.as_str());
        proof {
            assert(describes(self.spec_kind(), d));
        }
        out
    }
}

impl From<ErrKind> for EchoError {
    fn from(inner: ErrKind) -> (r: EchoError) {
        EchoError { inner }
    }
}

impl vstd::std_specs::convert::FromSpecImpl<ErrKind> for EchoError {
    open spec fn obeys_from_spec() -> bool {
        true
    }

    open spec fn from_spec(inner: ErrKind) -> EchoError {
        EchoError { inner }
    }
}

impl From<String> for EchoError {
    fn from(inner: String) -> (r: EchoError) {
        EchoError { inner: ErrKind::Str(inner) }
    }
}

impl vstd::std_specs::convert::FromSpecImpl<String> for EchoError {
    open spec fn obeys_from_spec() -> bool {
        true
    }

    open spec fn from_spec(inner: String) -> EchoError {
        EchoError { inner: ErrKind::Str(inner) }
    }
}

impl From<&str> for EchoError {
    fn from(inner: &str) -> (r: EchoError)
        ensures
            r.spec_kind() matches ErrKind::Str(t) && t@ == inner@,
    {
        EchoError { inner: ErrKind::Str(String::from_str(inner)) }
    }
}

/// A value of the library cannot be written from a text in spec code, so
/// what `from` returns is stated on `from` itself.
impl vstd::std_specs::convert::FromSpecImpl<&str> for EchoError {
    open spec fn obeys_from_spec() -> bool {
        false
    }

    open spec fn from_spec(inner: &str) -> EchoError {
        vstd::pervasive::arbitrary()
    }
}

impl From<hyper::Error> for EchoError {
    fn from(inner: hyper::Error) -> (r: EchoError) {
        EchoError { inner: ErrKind::Hyper(inner) }
    }
}

impl vstd::std_specs::convert::FromSpecImpl<hyper::Error> for EchoError {
    open spec fn obeys_from_spec() -> bool {
        true
    }

    open spec fn from_spec(inner: hyper::Error) -> EchoError {
        EchoError { inner: ErrKind::Hyper(inner) }
    }
}

impl From<hyper::http::Error> for EchoError {
    fn from(inner: hyper::http::Error) -> (r: EchoError) {
        EchoError { inner: ErrKind::HyperHTTP(inner) }
    }
}

impl vstd::std_specs::convert::FromSpecImpl<hyper::http::Error> for EchoError {
    open spec fn obeys_from_spec() -> bool {
        true
    }

    open spec fn from_spec(inner: hyper::http::Error) -> EchoError {
        EchoError { inner: ErrKind::HyperHTTP(inner) }
    }
}

impl From<native_tls::Error> for EchoError {
    fn from(inner: native_tls::Error) -> (r: EchoError) {
        EchoError { inner: ErrKind::HyperTLS(inner) }
    }
}

impl vstd::std_specs::convert::FromSpecImpl<native_tls::Error> for EchoError {
    open spec fn obeys_from_spec() -> bool {
        true
    }

    open spec fn from_spec(inner: native_tls::Error) -> EchoError {
        EchoError { inner: ErrKind::HyperTLS(inner) }
    }
}

impl From<std::io::Error> for EchoError {
    fn from(inner: std::io::Error) -> (r: EchoError) {
        EchoError { inner: ErrKind::Io(inner) }
    }
}

impl vstd::std_specs::convert::FromSpecImpl<std::io::Error> for EchoError {
    open spec fn obeys_from_spec() -> bool {
        true
    }

    open spec fn from_spec(inner: std::io::Error) -> EchoError {
        EchoError { inner: ErrKind::Io(inner) }
    }
}

impl From<uuid::parser::ParseError> for EchoError {
    fn from(inner: uuid::parser::ParseError) -> (r: EchoError) {
        EchoError { inner: ErrKind::ParseUuid(inner) }
    }
}

impl vstd::std_specs::convert::FromSpecImpl<uuid::parser::ParseError> for EchoError {
    open spec fn obeys_from_spec() -> bool {
        true
    }

    open spec fn from_spec(inner: uuid::parser::ParseError) -> EchoError {
        EchoError { inner: ErrKind::ParseUuid(inner) }
    }
}

impl From<serde_json::Error> for EchoError {
    fn from(inner: serde_json::Error) -> (r: EchoError) {
        EchoError { inner: ErrKind::SerdeJson(inner) }
    }
}

impl vstd::std_specs::convert::FromSpecImpl<serde_json::Error> for EchoError {
    open spec fn obeys_from_spec() -> bool {
        true
    }

    open spec fn from_spec(inner: serde_json::Error) -> EchoError {
        EchoError { inner: ErrKind::SerdeJson(inner) }
    }
}

} // verus!
