//! The verified steps of a verification attempt, between fetching and compiling.

use vstd::prelude::*;

use crate::error::VerifyError;
use crate::normalize::{get_compiler_input, normalized, CompilerDocument};
use crate::record::ContractInfo;
use crate::version::{is_version_text, resolve, spells, version_core, ToolchainVersion};

verus! {

/// What the toolchain needs to reproduce a deployment.
pub struct CompilationPlan {
    /// The release that compiled the deployment.
    pub version: ToolchainVersion,
    /// The input to hand that release.
    pub document: CompilerDocument,
}

/// Resolves the compiler version of a fetched record, then normalizes its source.
///
/// The first failure is returned unchanged.
pub fn prepare_compilation(info: &ContractInfo) -> (r: Result<CompilationPlan, VerifyError>)
    ensures
        !is_version_text(version_core(info.compiler_version@)) ==> r == Err::<
            CompilationPlan,
            VerifyError,
        >(VerifyError::MalformedVersion),
        is_version_text(version_core(info.compiler_version@)) ==> match r {
            Ok(plan) => spells(version_core(info.compiler_version@), plan.version) && normalized(
                *info,
                Ok::<CompilerDocument, VerifyError>(plan.document),
            ),
            Err(e) => normalized(*info, Err::<CompilerDocument, VerifyError>(e)),
        },
{
    let version = match resolve(info.compiler_version.as_str()) {
        Ok(v) => v,
        Err(e) => {
            return Err(e);
        },
    };
    match get_compiler_input(info) {
        Ok(document) => Ok(CompilationPlan { version, document }),
        Err(e) => Err(e),
    }
}

} // verus!
