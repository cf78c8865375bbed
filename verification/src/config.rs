//! Configuration values: the size of a copy task's buffer and the
//! validation of a TCP address.

use crate::error::ConfigError;
use vstd::prelude::*;
use vstd::string::StringExecFns;

verus! {

/// The buffer size used when none is given.
pub const DEFAULT_BUFFER_SIZE: usize = 4096;

/// The number of bytes that one copy task reads at most in one read.
/// It is never zero.
#[derive(Clone, Copy, Debug, PartialEq, Eq, Structural)]
pub struct BufferSize {
    bytes: usize,
}

impl View for BufferSize {
    type V = nat;

    closed spec fn view(&self) -> nat {
        self.bytes as nat
    }
}

impl BufferSize {
    #[verifier::type_invariant]
    spec fn positive(self) -> bool {
        self.bytes > 0
    }

    /// Accepts every size but zero.
    pub fn new(bytes: usize) -> (result: Result<BufferSize, ConfigError>)
        ensures
            bytes == 0 ==> result == Err::<BufferSize, ConfigError>(ConfigError::ZeroBufferSize),
            bytes > 0 ==> result is Ok && result->Ok_0@ == bytes,
    {
        if bytes == 0 {
            Err(ConfigError::ZeroBufferSize)
        } else {
            Ok(BufferSize { bytes })
        }
    }

    /// The size in bytes.
    pub fn get(&self) -> (bytes: usize)
        ensures
            bytes == self@,
            bytes > 0,
    {
        proof {
            use_type_invariant(self);
        }
        self.bytes
    }
}

impl Default for BufferSize {
    fn default() -> (size: BufferSize)
        ensures
            size@ == DEFAULT_BUFFER_SIZE,
    {
        BufferSize { bytes: DEFAULT_BUFFER_SIZE }
    }
}

/// What `validate_tcp_address` answers for an address, as a value of the
/// model: the address itself where it resolves, a message that names it
/// where it does not.
pub open spec fn validated_address(addr: Seq<char>, resolves: bool) -> Result<Seq<char>, Seq<char>> {
    if resolves {
        Ok(addr)
    } else {
        Err("Invalid TCP address: "@ + addr)
    }
}

/// Turns the outcome of resolving `addr` as a socket address into the
/// validated address or the message for the user. `resolves` says whether
/// the system could resolve `addr`.
pub fn validate_tcp_address(addr: &str, resolves: bool) -> (result: Result<String, String>)
    ensures
        match validated_address(addr@, resolves) {
            Ok(text) => result is Ok && result->Ok_0@ == text,
            Err(text) => result is Err && result->Err_0@ == text,
        },
{
    if resolves {
        Ok(String::from_str(addr))
    } else {
        Err(String::from_str("Invalid TCP address: ").concat(addr))
    }
}

} // verus!
