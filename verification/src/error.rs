//! The client's error type.

use crate::foreign::{
    invalid_uri_display, invalid_uri_text, io_error_display, status_display, transport_display,
    transport_text,
};
use vstd::prelude::*;

verus! {

pub type Result<T> = std::result::Result<T, Error>;

/// The error type of the client.
///
/// Each variant owns the failure that it labels. A value is built once, where the
/// failure arises, and is not changed afterwards.
#[derive(Debug)]
pub enum Error {
    /// Invalid arguments
    InvalidArgs(String),
    /// Invalid URI
    InvalidUri(http::uri::InvalidUri),
    /// IO error
    IOError(std::io::Error),
    /// Transport error
    TransportError(tonic::transport::Error),
    /// gRPC status
    GRPCStatus(tonic::Status),
}

/// A rendered error: the category's prefix, a colon and a space, then the detail.
pub open spec fn rendered(prefix: Seq<char>, detail: Seq<char>) -> Seq<char> {
    prefix + ": "@ + detail
}

/// Joins a category prefix and a detail text into one line.
pub fn render(prefix: &str, detail: &str) -> (text: String)
    ensures
        text@ == rendered(prefix@, detail@),
{
    let mut text = String::from_str(prefix);
    text.append(": ");
    text.append(detail);
    text
}

impl Error {
    /// The prefix that names the category of this error.
    pub open spec fn prefix(&self) -> Seq<char> {
        match self {
            Error::InvalidArgs(_) => "invalid arguments"@,
            Error::InvalidUri(_) => "invalid uri"@,
            Error::IOError(_) => "io error"@,
            Error::TransportError(_) => "transport error"@,
            Error::GRPCStatus(_) => "grep request error"@,
        }
    }

    /// Whether `text` is a rendering of this error.
    ///
    /// For a message, a URI failure and a transport failure there is exactly one:
    /// the prefix, then the payload's own text. An I/O failure and a status word
    /// their text anew each time they are asked, so of those only the prefix and
    /// the separator are fixed.
    pub open spec fn renders_to(&self, text: Seq<char>) -> bool {
        match self {
            Error::InvalidArgs(m) => text == rendered(self.prefix(), m@),
            Error::InvalidUri(e) => text == rendered(self.prefix(), invalid_uri_text(*e)),
            Error::TransportError(e) => text == rendered(self.prefix(), transport_text(*e)),
            Error::IOError(_) | Error::GRPCStatus(_) => exists|detail: Seq<char>|
                text == rendered(self.prefix(), detail),
        }
    }

    /// Renders the error on one line: the category's prefix, then what the payload
    /// says of itself.
    pub fn to_string(&self) -> (text: String)
        ensures
            self.renders_to(text@),
    {
        match self {
            Error::InvalidArgs(m) => render("invalid arguments", m.as_str()),
            Error::InvalidUri(e) => {
                let detail = invalid_uri_display(e);
                render("invalid uri", detail.as_str())
            },
            Error::IOError(e) => {
                let detail = io_error_display(e);
                let text = render("io error", detail.as_str());
                assert(text@ == rendered(self.prefix(), detail@));
                text
            },
            Error::TransportError(e) => {
                let detail = transport_display(e);
                render("transport error", detail.as_str())
            },
            Error::GRPCStatus(e) => {
                let detail = status_display(e);
                let text = render("grep request error", detail.as_str());
                assert(text@ == rendered(self.prefix(), detail@));
                text
            },
        }
    }
}

/// Every error has a rendering, whatever its payload holds: an empty message
/// renders to the prefix and the separator alone.
pub proof fn lemma_every_error_renders(e: Error)
    ensures
        exists|text: Seq<char>| e.renders_to(text),
        e matches Error::InvalidArgs(m) && m@.len() == 0 ==> e.renders_to(e.prefix() + ": "@),
{
    let detail = match e {
        Error::InvalidArgs(m) => m@,
        Error::InvalidUri(u) => invalid_uri_text(u),
        Error::TransportError(t) => transport_text(t),
        Error::IOError(_) | Error::GRPCStatus(_) => Seq::empty(),
    };
    assert(e.renders_to(rendered(e.prefix(), detail)));
    assert(rendered(e.prefix(), Seq::empty()) =~= e.prefix() + ": "@);
}

/// Every rendering of an error opens with the prefix of its category, a colon and
/// a space; what follows is the payload's text.
pub proof fn lemma_rendering_opens_with_prefix(e: Error, text: Seq<char>)
    requires
        e.renders_to(text),
    ensures
        (e.prefix() + ": "@).is_prefix_of(text),
        e matches Error::InvalidArgs(m) ==> text.skip((e.prefix() + ": "@).len() as int) == m@,
{
    let head = e.prefix() + ": "@;
    let detail = choose|detail: Seq<char>| text == rendered(e.prefix(), detail);
    assert(text == rendered(e.prefix(), detail));
    assert(text.subrange(0, head.len() as int) =~= head);
    assert(text.skip(head.len() as int) =~= detail);
}

/// A message, a URI failure and a transport failure have one rendering each: two
/// texts that render the same such error are the same text.
pub proof fn lemma_rendering_is_unique(e: Error, first: Seq<char>, second: Seq<char>)
    requires
        e.renders_to(first),
        e.renders_to(second),
        !(e is IOError),
        !(e is GRPCStatus),
    ensures
        first == second,
{
}

/// Each conversion gives the variant of its source and keeps the failure as it
/// was handed over.
pub proof fn lemma_conversion_keeps_payload(
    uri: http::uri::InvalidUri,
    io: std::io::Error,
    transport: tonic::transport::Error,
    status: tonic::Status,
)
    ensures
        <Error as vstd::std_specs::convert::FromSpec<http::uri::InvalidUri>>::from_spec(uri)
            == Error::InvalidUri(uri),
        <Error as vstd::std_specs::convert::FromSpec<std::io::Error>>::from_spec(io)
            == Error::IOError(io),
        <Error as vstd::std_specs::convert::FromSpec<tonic::transport::Error>>::from_spec(
            transport,
        ) == Error::TransportError(transport),
        <Error as vstd::std_specs::convert::FromSpec<tonic::Status>>::from_spec(status)
            == Error::GRPCStatus(status),
{
}

impl From<http::uri::InvalidUri> for Error {
    #[inline]
    fn from(e: http::uri::InvalidUri) -> (err: Self) {
        Error::InvalidUri(e)
    }
}

impl vstd::std_specs::convert::FromSpecImpl<http::uri::InvalidUri> for Error {
    open spec fn obeys_from_spec() -> bool {
        true
    }

    open spec fn from_spec(e: http::uri::InvalidUri) -> Error {
        Error::InvalidUri(e)
    }
}

impl From<std::io::Error> for Error {
    #[inline]
    fn from(e: std::io::Error) -> (err: Self) {
        Error::IOError(e)
    }
}

impl vstd::std_specs::convert::FromSpecImpl<std::io::Error> for Error {
    open spec fn obeys_from_spec() -> bool {
        true
    }

    open spec fn from_spec(e: std::io::Error) -> Error {
        Error::IOError(e)
    }
}

impl From<tonic::transport::Error> for Error {
    #[inline]
    fn from(e: tonic::transport::Error) -> (err: Self) {
        Error::TransportError(e)
    }
}

impl vstd::std_specs::convert::FromSpecImpl<tonic::transport::Error> for Error {
    open spec fn obeys_from_spec() -> bool {
        true
    }

    open spec fn from_spec(e: tonic::transport::Error) -> Error {
        Error::TransportError(e)
    }
}

impl From<tonic::Status> for Error {
    #[inline]
    fn from(e: tonic::Status) -> (err: Self) {
        Error::GRPCStatus(e)
    }
}

impl vstd::std_specs::convert::FromSpecImpl<tonic::Status> for Error {
    open spec fn obeys_from_spec() -> bool {
        true
    }

    open spec fn from_spec(e: tonic::Status) -> Error {
        Error::GRPCStatus(e)
    }
}

} // verus!
