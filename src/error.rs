//! The failure kinds of a verification attempt.

use vstd::prelude::*;

verus! {

/// Why a verification attempt stopped.
#[derive(Debug, PartialEq, Eq)]
pub enum VerifyError {
    /// The provider returned no record for the address.
    NotFound,
    /// The request failed, or its response was not the expected envelope.
    TransportError,
    /// The provider's own status field reported a failure; carries its message.
    ProviderError(String),
    /// The compiler version is not a `major.minor.patch` triple.
    MalformedVersion,
    /// A wrapped standard-input document could not be read.
    MalformedStandardInput,
    /// The EVM target names no known revision.
    UnknownEvmVersion,
    /// The toolchain for the resolved version could not be obtained.
    ToolchainAcquisitionError,
    /// The toolchain rejected the compiler input.
    CompilationFailure,
}

} // verus!
