//! The classified failures of a transfer.

use vstd::prelude::*;
use vstd::std_specs::convert::FromSpecImpl;

verus! {

/// `curl::Error`, the failure that the transport reports. Trusted as an opaque
/// value: nothing is claimed of what it holds.
#[verifier::external_type_specification]
#[verifier::external_body]
pub struct ExCurlError(curl::Error);

/// `std::io::Error`, the failure of a local file operation. Trusted as an
/// opaque value: nothing is claimed of what it holds.
#[verifier::external_type_specification]
#[verifier::external_body]
pub struct ExIoError(std::io::Error);

/// `serde_json::Error`, the failure to read a structured payload. Trusted as
/// an opaque value: nothing is claimed of what it holds.
#[verifier::external_type_specification]
#[verifier::external_body]
pub struct ExJsonError(serde_json::Error);

/// `url::ParseError`, the reason why a string is no absolute URL. Trusted as
/// an opaque value: nothing is claimed of what it holds.
#[verifier::external_type_specification]
#[verifier::external_body]
pub struct ExUrlParseError(url::ParseError);

/// Why a transfer failed. Each variant is one class of failure and carries the
/// lower-level value unchanged, so that a caller can branch on the class and
/// still report the cause.
#[derive(Debug)]
pub enum DlErr {
    /// The transport failed: name resolution, connection, TLS, protocol.
    CurlErr(curl::Error),
    /// The local file system refused the create or the write.
    IoErr(std::io::Error),
    /// A structured payload could not be decoded.
    JsonErr(serde_json::Error),
    /// A decoded payload did not have the expected shape.
    DowncastFailure { msg: String },
    /// The source is no absolute URL.
    UrlErr(url::ParseError),
}

pub type DlResult<T> = Result<T, DlErr>;

impl From<curl::Error> for DlErr {
    fn from(err: curl::Error) -> (e: DlErr) {
        DlErr::CurlErr(err)
    }
}

impl FromSpecImpl<curl::Error> for DlErr {
    open spec fn obeys_from_spec() -> bool {
        true
    }

    open spec fn from_spec(err: curl::Error) -> DlErr {
        DlErr::CurlErr(err)
    }
}

impl From<std::io::Error> for DlErr {
    fn from(err: std::io::Error) -> (e: DlErr) {
        DlErr::IoErr(err)
    }
}

impl FromSpecImpl<std::io::Error> for DlErr {
    open spec fn obeys_from_spec() -> bool {
        true
    }

    open spec fn from_spec(err: std::io::Error) -> DlErr {
        DlErr::IoErr(err)
    }
}

impl From<serde_json::Error> for DlErr {
    fn from(err: serde_json::Error) -> (e: DlErr) {
        DlErr::JsonErr(err)
    }
}

impl FromSpecImpl<serde_json::Error> for DlErr {
    open spec fn obeys_from_spec() -> bool {
        true
    }

    open spec fn from_spec(err: serde_json::Error) -> DlErr {
        DlErr::JsonErr(err)
    }
}

impl From<url::ParseError> for DlErr {
    fn from(err: url::ParseError) -> (e: DlErr) {
        DlErr::UrlErr(err)
    }
}

impl FromSpecImpl<url::ParseError> for DlErr {
    open spec fn obeys_from_spec() -> bool {
        true
    }

    open spec fn from_spec(err: url::ParseError) -> DlErr {
        DlErr::UrlErr(err)
    }
}

} // verus!
