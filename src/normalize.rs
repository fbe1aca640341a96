//! Classification of a record's source text and its conversion into compiler input.

use vstd::prelude::*;

use std::str::FromStr;

use foundry_compilers::artifacts::CompilerInput;
use foundry_compilers::EvmVersion;

use crate::error::VerifyError;
use crate::record::ContractInfo;
use crate::text::{chars_of, string_of};

verus! {

/// foundry-compilers' EVM revision enum. Its variants carry no data and are public, so
/// contracts may name them.
#[verifier::external_type_specification]
pub struct ExEvmVersion(EvmVersion);

/// foundry-compilers' standard compiler input, carried through unopened.
#[verifier::external_type_specification]
#[verifier::external_body]
pub struct ExCompilerInput(CompilerInput);

/// serde_json's error, only ever mapped to `MalformedStandardInput`.
#[verifier::external_type_specification]
#[verifier::external_body]
pub struct ExJsonError(serde_json::Error);

/// The EVM revision that `EvmVersion::from_str` maps the exact name `s` to.
pub open spec fn evm_version_named(s: Seq<char>) -> Option<EvmVersion> {
    if s == "homestead"@ {
        Some(EvmVersion::Homestead)
    } else if s == "tangerineWhistle"@ {
        Some(EvmVersion::TangerineWhistle)
    } else if s == "spuriousDragon"@ {
        Some(EvmVersion::SpuriousDragon)
    } else if s == "byzantium"@ {
        Some(EvmVersion::Byzantium)
    } else if s == "constantinople"@ {
        Some(EvmVersion::Constantinople)
    } else if s == "petersburg"@ {
        Some(EvmVersion::Petersburg)
    } else if s == "istanbul"@ {
        Some(EvmVersion::Istanbul)
    } else if s == "berlin"@ {
        Some(EvmVersion::Berlin)
    } else if s == "london"@ {
        Some(EvmVersion::London)
    } else if s == "paris"@ {
        Some(EvmVersion::Paris)
    } else if s == "shanghai"@ {
        Some(EvmVersion::Shanghai)
    } else if s == "cancun"@ {
        Some(EvmVersion::Cancun)
    } else {
        None
    }
}

/// Relies on foundry-compilers' `EvmVersion::from_str`: a case-sensitive match of the
/// whole string against the revision names above, failing on any other string.
#[verifier::external_body]
fn parse_evm_version(s: &str) -> (r: Option<EvmVersion>)
    ensures
        r == evm_version_named(s@),
{
    EvmVersion::from_str(s).ok()
}

/// `s` is a complete standard compiler-input document in JSON.
pub uninterp spec fn is_standard_input(s: Seq<char>) -> bool;

/// Relies on `serde_json::from_str` deserializing foundry-compilers' `CompilerInput`:
/// whether it succeeds depends on the text alone.
#[verifier::external_body]
fn parse_standard_input(s: &str) -> (r: Result<CompilerInput, serde_json::Error>)
    ensures
        r is Ok == is_standard_input(s@),
{
    serde_json::from_str(s)
}

/// One source file of a compiler input.
pub struct SourceFile {
    pub path: String,
    pub content: String,
}

/// A compiler input assembled from a single source file.
pub struct SourceDocument {
    /// Always `Solidity`.
    pub language: String,
    /// Exactly one file.
    pub sources: Vec<SourceFile>,
    /// `None` leaves the EVM target to the toolchain.
    pub evm_version: Option<EvmVersion>,
}

/// A normalized compiler input.
pub enum CompilerDocument {
    /// A standard-input document published as such, used as it was parsed.
    Standard(CompilerInput),
    /// A document built around one plain source file.
    SingleFile(SourceDocument),
}

/// The source text is a standard-input document wrapped in one extra pair of braces.
pub open spec fn is_wrapped_standard_input(s: Seq<char>) -> bool {
    s.len() >= 2 && s[0] == '{' && s[1] == '{'
}

/// The text inside the outer pair of braces.
pub open spec fn unwrapped(s: Seq<char>) -> Seq<char> {
    s.subrange(1, s.len() - 1)
}

/// `s` equals `default` up to ASCII case.
pub open spec fn is_default_sentinel(s: Seq<char>) -> bool {
    &&& s.len() == 7
    &&& forall|i: int| 0 <= i < 7 ==> #[trigger] s[i] == "default"@[i] || s[i] == "DEFAULT"@[i]
}

/// The path under which a single-file record's source is compiled.
pub open spec fn single_file_path(info: ContractInfo) -> Seq<char> {
    match info.file_name {
        Some(f) => if f@.len() > 0 {
            f@
        } else {
            info.contract_name@ + ".sol"@
        },
        None => info.contract_name@ + ".sol"@,
    }
}

/// `r` is the result of normalizing the single-file record `info`.
pub open spec fn single_file_result(info: ContractInfo, r: Result<SourceDocument, VerifyError>) -> bool {
    let evm = info.evm_version@;
    if is_default_sentinel(evm) || evm_version_named(evm) is Some {
        &&& r matches Ok(d)
        &&& d.language@ == "Solidity"@
        &&& d.sources@.len() == 1
        &&& d.sources@[0].path@ == single_file_path(info)
        &&& d.sources@[0].content@ == info.source_code@
        &&& d.evm_version == if is_default_sentinel(evm) {
            None
        } else {
            evm_version_named(evm)
        }
    } else {
        r == Err::<SourceDocument, VerifyError>(VerifyError::UnknownEvmVersion)
    }
}

/// Whether `s` is the `default` sentinel, in any ASCII casing.
fn is_default(s: &str) -> (r: bool)
    ensures
        r == is_default_sentinel(s@),
{
    proof {
        reveal_strlit("default");
        reveal_strlit("DEFAULT");
    }
    let cs = chars_of(s);
    let lower = chars_of("default");
    let upper = chars_of("DEFAULT");
    if cs.len() != 7 {
        return false;
    }
    let mut i: usize = 0;
    while i < 7
        invariant
            cs@ == s@,
            cs@.len() == 7,
            lower@ == "default"@,
            upper@ == "DEFAULT"@,
            lower@.len() == 7,
            upper@.len() == 7,
            0 <= i <= 7,
            forall|k: int| 0 <= k < i ==> #[trigger] cs@[k] == lower@[k] || cs@[k] == upper@[k],
        decreases 7 - i,
    {
        if cs[i] != lower[i] && cs[i] != upper[i] {
            assert(!(cs@[i as int] == "default"@[i as int] || cs@[i as int] == "DEFAULT"@[i as int]));
            return false;
        }
        i = i + 1;
    }
    true
}

/// The EVM target that a record's `evmVersion` asks for.
pub fn evm_target(evm: &str) -> (r: Result<Option<EvmVersion>, VerifyError>)
    ensures
        is_default_sentinel(evm@) ==> r == Ok::<Option<EvmVersion>, VerifyError>(None),
        !is_default_sentinel(evm@) ==> r == match evm_version_named(evm@) {
            Some(v) => Ok::<Option<EvmVersion>, VerifyError>(Some(v)),
            None => Err(VerifyError::UnknownEvmVersion),
        },
{
    if is_default(evm) {
        Ok(None)
    } else {
        match parse_evm_version(evm) {
            Some(v) => Ok(Some(v)),
            None => Err(VerifyError::UnknownEvmVersion),
        }
    }
}

/// Builds the compiler input for a record whose source is one plain file.
pub fn single_file_document(info: &ContractInfo) -> (r: Result<SourceDocument, VerifyError>)
    ensures
        single_file_result(*info, r),
{
    let evm_version = match evm_target(info.evm_version.as_str()) {
        Ok(t) => t,
        Err(e) => {
            return Err(e);
        },
    };
    let path = match &info.file_name {
        Some(f) => if f.as_str().is_empty() {
            info.contract_name.clone().concat(".sol")
        } else {
            f.clone()
        },
        None => info.contract_name.clone().concat(".sol"),
    };
    let content = info.source_code.clone();
    let mut sources: Vec<SourceFile> = Vec::new();
    sources.push(SourceFile { path, content });
    Ok(SourceDocument { language: "Solidity".to_owned(), sources, evm_version })
}

/// Turns the outcome of reading a standard-input document into a compiler input.
pub fn standard_document(parsed: Result<CompilerInput, serde_json::Error>) -> (r: Result<
    CompilerDocument,
    VerifyError,
>)
    ensures
        r == match parsed {
            Ok(c) => Ok::<CompilerDocument, VerifyError>(CompilerDocument::Standard(c)),
            Err(_) => Err(VerifyError::MalformedStandardInput),
        },
{
    match parsed {
        Ok(c) => Ok(CompilerDocument::Standard(c)),
        Err(_) => Err(VerifyError::MalformedStandardInput),
    }
}

/// `r` is the result of normalizing the record `info`.
pub open spec fn normalized(info: ContractInfo, r: Result<CompilerDocument, VerifyError>) -> bool {
    if is_wrapped_standard_input(info.source_code@) {
        &&& r is Ok <==> is_standard_input(unwrapped(info.source_code@))
        &&& r matches Ok(d) ==> d is Standard
        &&& r matches Err(e) ==> e == VerifyError::MalformedStandardInput
    } else {
        match r {
            Ok(CompilerDocument::SingleFile(d)) => single_file_result(
                info,
                Ok::<SourceDocument, VerifyError>(d),
            ),
            Ok(CompilerDocument::Standard(_)) => false,
            Err(e) => single_file_result(info, Err::<SourceDocument, VerifyError>(e)),
        }
    }
}

/// A wrapped standard-input record normalizes the same way whatever its other fields
/// say, its EVM target included: only the source text decides.
pub proof fn lemma_standard_input_ignores_other_fields(
    a: ContractInfo,
    b: ContractInfo,
    ra: Result<CompilerDocument, VerifyError>,
    rb: Result<CompilerDocument, VerifyError>,
)
    requires
        a.source_code@ == b.source_code@,
        is_wrapped_standard_input(a.source_code@),
        normalized(a, ra),
        normalized(b, rb),
    ensures
        ra is Ok <==> rb is Ok,
        ra matches Ok(d) ==> d is Standard,
        rb matches Ok(d) ==> d is Standard,
        ra is Err ==> ra == rb,
{
}

/// Normalizes a record's source into a compiler input.
///
/// A brace-wrapped standard-input document is parsed and used as it stands, its own
/// settings included; any other source text is one file, compiled under the record's
/// file name (or `<contractName>.sol`) for the EVM target that the record names.
pub fn get_compiler_input(info: &ContractInfo) -> (r: Result<CompilerDocument, VerifyError>)
    ensures
        normalized(*info, r),
{
    let cs = chars_of(info.source_code.as_str());
    let n = cs.len();
    if n >= 2 && cs[0] == '{' && cs[1] == '{' {
        let inner = string_of(&cs, 1, n - 1);
        standard_document(parse_standard_input(inner.as_str()))
    } else {
        match single_file_document(info) {
            Ok(d) => Ok(CompilerDocument::SingleFile(d)),
            Err(e) => Err(e),
        }
    }
}

} // verus!
