use contract_verify::error::VerifyError;
use contract_verify::fetch::select_record;
use contract_verify::normalize::CompilerDocument;
use contract_verify::pipeline::prepare_compilation;
use contract_verify::record::ContractInfo;
use contract_verify::version::ToolchainVersion;

fn record(name: &str, file: Option<&str>, version: &str, source: &str) -> ContractInfo {
    ContractInfo {
        source_code: String::from(source),
        abi: String::from("[]"),
        contract_name: String::from(name),
        file_name: file.map(String::from),
        compiler_version: String::from(version),
        optimization_used: String::from("0"),
        runs: String::from("200"),
        constructor_arguments: String::new(),
        evm_version: String::from("Default"),
        library: String::new(),
        license_type: String::new(),
        proxy: String::from("0"),
        implementation: String::new(),
        swarm_source: String::new(),
    }
}

#[test]
fn zero_results_is_not_found() {
    assert_eq!(select_record("1", "OK", Vec::new()).err(), Some(VerifyError::NotFound));
    assert_eq!(select_record("0", "NOTOK", Vec::new()).err(), Some(VerifyError::NotFound));
}

#[test]
fn failing_status_is_provider_error() {
    let got = select_record("0", "NOTOK", vec![record("Uni", None, "v0.5.16", "")]);
    assert_eq!(got.err(), Some(VerifyError::ProviderError(String::from("NOTOK"))));
}

#[test]
fn first_record_is_selected() {
    let records = vec![
        record("Uni", None, "v0.5.16+commit.9c3226ce", "contract Uni {}"),
        record("Other", None, "v0.8.0", ""),
    ];
    match select_record("1", "OK", records) {
        Ok(info) => assert_eq!(info.contract_name, "Uni"),
        Err(e) => panic!("unexpected {:?}", e),
    }
}

#[test]
fn single_file_deployment_is_prepared() {
    let info = record("Uni", None, "v0.7.6+commit.7338295f", "pragma solidity =0.7.6; contract Uni {}");
    match prepare_compilation(&info) {
        Ok(plan) => {
            assert_eq!(plan.version, ToolchainVersion { major: 0, minor: 7, patch: 6 });
            match plan.document {
                CompilerDocument::SingleFile(doc) => {
                    assert_eq!(doc.sources.len(), 1);
                    assert_eq!(doc.sources[0].path, "Uni.sol");
                    assert_eq!(doc.evm_version, None);
                }
                CompilerDocument::Standard(_) => panic!("expected a single-file document"),
            }
        }
        Err(e) => panic!("unexpected {:?}", e),
    }
}

#[test]
fn version_failure_comes_first() {
    let mut info = record("Uni", None, "latest", "contract Uni {}");
    info.evm_version = String::from("not-a-target");
    assert!(matches!(prepare_compilation(&info), Err(VerifyError::MalformedVersion)));
    info.compiler_version = String::from("v0.8.20+commit.a1b79de6");
    assert!(matches!(prepare_compilation(&info), Err(VerifyError::UnknownEvmVersion)));
}
