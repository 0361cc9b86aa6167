//! The failure types of the layers below the client, as opaque values, and the
//! text that each of them renders to.
//!
//! Nothing here is proved: the types belong to other crates, and the functions
//! only hand a value to its own `Display`. What is claimed of each is said above it.

use tonic::transport::Error as TransportFailure;
use vstd::prelude::*;

verus! {

/// A failed attempt to parse an endpoint address.
#[verifier::external_type_specification]
#[verifier::external_body]
pub struct ExInvalidUri(http::uri::InvalidUri);

/// A failed socket or file operation.
#[verifier::external_type_specification]
#[verifier::external_body]
pub struct ExIoError(std::io::Error);

/// A failure to set up or keep the channel to the server.
#[verifier::external_type_specification]
#[verifier::external_body]
pub struct ExTransportFailure(TransportFailure);

/// The status of a remote call that did not succeed.
#[verifier::external_type_specification]
#[verifier::external_body]
pub struct ExStatus(tonic::Status);

/// The text that `http::uri::InvalidUri` displays: a fixed phrase for the kind of
/// defect that the parser found, and so the same for the same value.
pub uninterp spec fn invalid_uri_text(e: http::uri::InvalidUri) -> Seq<char>;

/// The text that `tonic::transport::Error` displays: a fixed phrase for the kind of
/// failure. The cause that the value may carry takes no part in it.
pub uninterp spec fn transport_text(e: TransportFailure) -> Seq<char>;

/// Calls `Display` of `http::uri::InvalidUri`. Claimed: the text is the one that
/// belongs to this value. Writing a `&str` into a `String` does not fail.
#[verifier::external_body]
pub(crate) fn invalid_uri_display(e: &http::uri::InvalidUri) -> (text: String)
    ensures
        text@ == invalid_uri_text(*e),
{
    e.to_string()
}

/// Calls `Display` of `std::io::Error`. Nothing is claimed of the text: for a
/// failure that the operating system reported it is the system's own message,
/// which is not the same on every machine.
#[verifier::external_body]
pub(crate) fn io_error_display(e: &std::io::Error) -> (text: String) {
    e.to_string()
}

/// Calls `Display` of `tonic::transport::Error`. Claimed: the text is the one that
/// belongs to this value.
#[verifier::external_body]
pub(crate) fn transport_display(e: &TransportFailure) -> (text: String)
    ensures
        text@ == transport_text(*e),
{
    e.to_string()
}

/// Calls `Display` of `tonic::Status`. Nothing is claimed of the text: after the
/// code and the message it shows the debug form of the cause, which any error
/// type may have supplied.
#[verifier::external_body]
pub(crate) fn status_display(e: &tonic::Status) -> (text: String) {
    e.to_string()
}

} // verus!
