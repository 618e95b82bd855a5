//! Errors of the Schlep-engine client.
use vstd::prelude::*;

verus! {

#[verifier::external_type_specification]
#[verifier::external_body]
pub struct ExUrlParseError(url::ParseError);

/// The outcome of an operation of the client.
pub type Result<T> = core::result::Result<T, Error>;

/// What can go wrong in a call to the platform.
#[derive(Debug)]
pub enum Error {
    /// The HTTP exchange itself failed (connection, DNS, TLS, timeout);
    /// holds the transport's description of the cause.
    Http(String),
    /// A successful response whose body does not decode into the expected type.
    InvalidResponse(String),
    /// The server answered with a status outside 200..=299.
    Api { code: u16, message: String },
    /// Invalid local setup, found before any network call.
    Config(String),
    /// A value could not be encoded or decoded as JSON; holds the cause.
    Serialization(String),
    /// An address could not be parsed.
    UrlParse(url::ParseError),
    /// The streaming channel could not be opened.
    WebSocket(String),
}

/// The abstract value of an error: its kind, and its texts as sequences.
pub enum ErrorView {
    Http(Seq<char>),
    InvalidResponse(Seq<char>),
    Api { code: u16, message: Seq<char> },
    Config(Seq<char>),
    Serialization(Seq<char>),
    UrlParse(url::ParseError),
    WebSocket(Seq<char>),
}

impl View for Error {
    type V = ErrorView;

    open spec fn view(&self) -> ErrorView {
        match self {
            Error::Http(m) => ErrorView::Http(m@),
            Error::InvalidResponse(m) => ErrorView::InvalidResponse(m@),
            Error::Api { code, message } => ErrorView::Api { code: *code, message: message@ },
            Error::Config(m) => ErrorView::Config(m@),
            Error::Serialization(m) => ErrorView::Serialization(m@),
            Error::UrlParse(e) => ErrorView::UrlParse(*e),
            Error::WebSocket(m) => ErrorView::WebSocket(m@),
        }
    }
}

impl Error {
    /// An API error with the given status code and message.
    pub fn api_error(code: u16, message: String) -> (r: Error)
        ensures
            r == (Error::Api { code, message }),
    {
        Error::Api { code, message }
    }

    /// A configuration error with the given message.
    pub fn config_error(message: String) -> (r: Error)
        ensures
            r == Error::Config(message),
    {
        Error::Config(message)
    }

    /// An invalid-response error with the given message.
    pub fn invalid_response(message: String) -> (r: Error)
        ensures
            r == Error::InvalidResponse(message),
    {
        Error::InvalidResponse(message)
    }
}

} // verus!
