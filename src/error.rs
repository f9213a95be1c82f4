//! The ways a download can fail.
use vstd::prelude::*;

verus! {

/// The stage at which a download failed, and why.
#[derive(Debug, PartialEq, Eq)]
pub enum DownloadError {
    /// A calendar date that does not exist.
    InvalidDate,
    /// The request could not be completed (connection, TLS, name resolution).
    Transport(String),
    /// The provider answered with a status other than success, and this body.
    HttpStatus { status: u16, body: Vec<u8> },
    /// The file could not be created or written.
    Io(String),
}

} // verus!
