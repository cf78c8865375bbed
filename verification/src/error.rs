//! Error types of the bridge.

use vstd::prelude::*;

verus! {

/// `std::io::Error`, the error of the underlying transport. The library
/// never looks inside one: it hands each on as it came.
#[verifier::external_type_specification]
#[verifier::external_body]
pub struct ExIoError(std::io::Error);

/// Why one direction of a bridge stopped with something other than an
/// orderly end of stream after data.
#[derive(Debug)]
pub enum BridgeError {
    /// A read, a write or a flush failed. The transport's error is kept
    /// unchanged.
    IoError(std::io::Error),
    /// The source reported end of stream before it delivered a single byte.
    Eof,
}

impl From<std::io::Error> for BridgeError {
    fn from(err: std::io::Error) -> (result: Self) {
        BridgeError::IoError(err)
    }
}

impl vstd::std_specs::convert::FromSpecImpl<std::io::Error> for BridgeError {
    open spec fn obeys_from_spec() -> bool {
        true
    }

    open spec fn from_spec(err: std::io::Error) -> Self {
        BridgeError::IoError(err)
    }
}

/// A configuration value that the service refuses before it accepts any
/// connection.
#[derive(Debug, Clone, Copy, PartialEq, Eq, Structural)]
pub enum ConfigError {
    /// The buffer size was zero.
    ZeroBufferSize,
}

/// A failure at start-up. It ends the service before a single connection
/// is accepted; the variant names the step that failed.
#[derive(Debug)]
pub enum StartupError {
    /// The file left at the socket path could not be removed.
    RemoveStale(std::io::Error),
    /// The local endpoint could not be bound.
    Bind(std::io::Error),
}

} // verus!
