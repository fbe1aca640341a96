use contract_verify::error::VerifyError;
use contract_verify::record::ContractInfo;
use contract_verify::version::{extract_compiler_version, resolve, ToolchainVersion};

fn record_with_version(v: &str) -> ContractInfo {
    ContractInfo {
        source_code: String::new(),
        abi: String::new(),
        contract_name: String::from("Token"),
        file_name: None,
        compiler_version: String::from(v),
        optimization_used: String::new(),
        runs: String::new(),
        constructor_arguments: String::new(),
        evm_version: String::from("default"),
        library: String::new(),
        license_type: String::new(),
        proxy: String::new(),
        implementation: String::new(),
        swarm_source: String::new(),
    }
}

fn triple(major: u64, minor: u64, patch: u64) -> ToolchainVersion {
    ToolchainVersion { major, minor, patch }
}

#[test]
fn resolve_drops_prefix_and_commit() {
    assert_eq!(resolve("v1.2.3+commit.abcdef"), Ok(triple(1, 2, 3)));
    assert_eq!(resolve("v0.7.6+commit.7338295f"), Ok(triple(0, 7, 6)));
}

#[test]
fn extract_drops_prefix_and_commit() {
    let info = record_with_version("v1.2.3+commit.abcdef");
    assert_eq!(extract_compiler_version(&info), "1.2.3");
}

#[test]
fn plain_version_is_kept() {
    assert_eq!(resolve("0.8.19"), Ok(triple(0, 8, 19)));
    assert_eq!(extract_compiler_version(&record_with_version("0.8.19")), "0.8.19");
}

#[test]
fn only_the_first_plus_splits() {
    assert_eq!(resolve("v0.8.4+commit.c7e474f2+extra"), Ok(triple(0, 8, 4)));
    assert_eq!(extract_compiler_version(&record_with_version("0.8.4+a+b")), "0.8.4");
}

#[test]
fn only_one_leading_v_is_dropped() {
    assert_eq!(extract_compiler_version(&record_with_version("vv1.2.3")), "v1.2.3");
    assert_eq!(resolve("vv1.2.3"), Err(VerifyError::MalformedVersion));
}

#[test]
fn empty_and_short_versions_are_malformed() {
    assert_eq!(resolve(""), Err(VerifyError::MalformedVersion));
    assert_eq!(resolve("vX.Y"), Err(VerifyError::MalformedVersion));
    assert_eq!(resolve("v"), Err(VerifyError::MalformedVersion));
    assert_eq!(resolve("+commit.abc"), Err(VerifyError::MalformedVersion));
}

#[test]
fn wrong_arity_and_digits_are_malformed() {
    assert_eq!(resolve("1.2"), Err(VerifyError::MalformedVersion));
    assert_eq!(resolve("1.2.3.4"), Err(VerifyError::MalformedVersion));
    assert_eq!(resolve("1..3"), Err(VerifyError::MalformedVersion));
    assert_eq!(resolve("1.2.x"), Err(VerifyError::MalformedVersion));
    assert_eq!(resolve("1.2.3-rc1"), Err(VerifyError::MalformedVersion));
    assert_eq!(resolve("01.2.3"), Err(VerifyError::MalformedVersion));
}

#[test]
fn components_fit_in_u64() {
    assert_eq!(
        resolve("18446744073709551615.0.10"),
        Ok(triple(u64::MAX, 0, 10))
    );
    assert_eq!(resolve("18446744073709551616.0.0"), Err(VerifyError::MalformedVersion));
}
