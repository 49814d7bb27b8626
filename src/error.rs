use vstd::prelude::*;

verus! {

/// Every failure that the library reports.
#[derive(Debug, Clone)]
pub enum WazuhError {
    /// The remote API rejected the request.
    ApiError { code: i32, message: String },
    /// No credentials, no token, or a failed login.
    AuthenticationError(String),
    /// Bad TLS material or another configuration problem.
    ConfigError(String),
    /// A connection could not be made or broke.
    NetworkError(String),
    /// A body could not be encoded or decoded.
    SerializationError(String),
    InvalidInput(String),
    NotFound(String),
    PermissionDenied(String),
    /// A network call ran past the configured timeout.
    Timeout,
    Unknown(String),
}

/// The mathematical value of a [`WazuhError`]: the same variants over
/// character sequences.
pub ghost enum ErrorView {
    Api { code: int, message: Seq<char> },
    Authentication(Seq<char>),
    Config(Seq<char>),
    Network(Seq<char>),
    Serialization(Seq<char>),
    InvalidInput(Seq<char>),
    NotFound(Seq<char>),
    PermissionDenied(Seq<char>),
    Timeout,
    Unknown(Seq<char>),
}

impl View for WazuhError {
    type V = ErrorView;

    open spec fn view(&self) -> ErrorView {
        match self {
            WazuhError::ApiError { code, message } => ErrorView::Api {
                code: *code as int,
                message: message@,
            },
            WazuhError::AuthenticationError(m) => ErrorView::Authentication(m@),
            WazuhError::ConfigError(m) => ErrorView::Config(m@),
            WazuhError::NetworkError(m) => ErrorView::Network(m@),
            WazuhError::SerializationError(m) => ErrorView::Serialization(m@),
            WazuhError::InvalidInput(m) => ErrorView::InvalidInput(m@),
            WazuhError::NotFound(m) => ErrorView::NotFound(m@),
            WazuhError::PermissionDenied(m) => ErrorView::PermissionDenied(m@),
            WazuhError::Timeout => ErrorView::Timeout,
            WazuhError::Unknown(m) => ErrorView::Unknown(m@),
        }
    }
}

/// How a local file operation failed, as far as the error taxonomy cares.
#[derive(Debug, Clone, Copy, PartialEq, Eq)]
pub enum FileFailure {
    NotFound,
    PermissionDenied,
    Other,
}

#[verifier::external_type_specification]
#[verifier::external_body]
pub struct ExReqwestError(reqwest::Error);

/// Relies on reqwest::Error::is_timeout: whether the failure was a timeout.
#[verifier::external_body]
fn transport_timed_out(e: &reqwest::Error) -> (r: bool) {
    e.is_timeout()
}

/// Relies on reqwest::Error::is_connect: whether connecting failed.
#[verifier::external_body]
fn transport_connect_failed(e: &reqwest::Error) -> (r: bool) {
    e.is_connect()
}

/// Relies on reqwest::Error's Display impl, through `to_string`.
#[verifier::external_body]
fn transport_error_text(e: &reqwest::Error) -> (r: String) {
    e.to_string()
}

impl WazuhError {
    /// Classifies a transport failure: a timeout becomes `Timeout`, a failed
    /// connection a `NetworkError` that says so, anything else a
    /// `NetworkError` with the failure's text.
    pub fn from_transport_parts(timed_out: bool, connect: bool, text: &str) -> (r: WazuhError)
        ensures
            timed_out ==> r@ == ErrorView::Timeout,
            !timed_out && connect ==> r@ == ErrorView::Network(
                "Connection failed: "@ + text@,
            ),
            !timed_out && !connect ==> r@ == ErrorView::Network(text@),
    {
        if timed_out {
            WazuhError::Timeout
        } else if connect {
            let mut m = String::from_str("Connection failed: ");
            m.append(text);
            WazuhError::NetworkError(m)
        } else {
            WazuhError::NetworkError(String::from_str(text))
        }
    }

    /// Classifies a failure reported by the HTTP transport.
    pub fn from_transport(e: &reqwest::Error) -> (r: WazuhError)
        ensures
            r@ is Timeout || r@ is Network,
    {
        let timed_out = transport_timed_out(e);
        let connect = transport_connect_failed(e);
        let text = transport_error_text(e);
        WazuhError::from_transport_parts(timed_out, connect, text.as_str())
    }

    /// Classifies a failed local file operation.
    pub fn from_file_failure(kind: FileFailure, text: String) -> (r: WazuhError)
        ensures
            kind == FileFailure::NotFound ==> r@ == ErrorView::NotFound(text@),
            kind == FileFailure::PermissionDenied ==> r@ == ErrorView::PermissionDenied(text@),
            kind == FileFailure::Other ==> r@ == ErrorView::Unknown(text@),
    {
        match kind {
            FileFailure::NotFound => WazuhError::NotFound(text),
            FileFailure::PermissionDenied => WazuhError::PermissionDenied(text),
            FileFailure::Other => WazuhError::Unknown(text),
        }
    }
}

} // verus!
