//! The metadata record that an explorer publishes for a verified contract.

use vstd::prelude::*;

verus! {

/// One contract-metadata record, as the provider returns it.
pub struct ContractInfo {
    /// Source text: plain Solidity, or a brace-wrapped standard-input document.
    pub source_code: String,
    pub abi: String,
    pub contract_name: String,
    pub file_name: Option<String>,
    /// Raw compiler version, such as `v0.8.19+commit.7dd6d404`.
    pub compiler_version: String,
    pub optimization_used: String,
    pub runs: String,
    pub constructor_arguments: String,
    /// EVM target; `default` in any casing leaves the choice to the toolchain.
    pub evm_version: String,
    pub library: String,
    pub license_type: String,
    pub proxy: String,
    pub implementation: String,
    pub swarm_source: String,
}

} // verus!
