use stellar_backend::deploy::{
    deploy_config, deploy_response, deploy_start, deploy_step, looks_like_contract_id,
    parse_contract_id, DeployAction, DeployConfig, DeployPhase, Deployed, ProcessEvent,
};
use stellar_backend::models::{CoreError, ProcessOutput};

const HASH: &str = "00112233445566778899aabbccddeeff00112233445566778899aabbccddeeff";
const CID: &str = "CAAQCAIBAEAQCAIBAEAQCAIBAEAQCAIBAEAQCAIBAEAQCAIBAEAQC6HD";

fn some(s: &str) -> Option<String> {
    Some(s.to_string())
}

fn config() -> DeployConfig {
    deploy_config(some("SKEY"), some("http://rpc"), some("pass"), None, None).ok().unwrap()
}

fn exited(code: i32, stdout: &str, stderr: &str) -> ProcessEvent {
    ProcessEvent::Exited(ProcessOutput {
        exit_code: Some(code),
        stdout: stdout.to_string(),
        stderr: stderr.to_string(),
    })
}

#[test]
fn config_defaults_network_to_testnet() {
    let c = config();
    assert_eq!(c.network, "testnet");
    let c = deploy_config(some("S"), some("R"), some("P"), some("mainnet"), some("GDEST")).ok().unwrap();
    assert_eq!(c.network, "mainnet");
    assert_eq!(c.proof_destination, some("GDEST"));
}

#[test]
fn missing_config_is_config_error() {
    assert!(matches!(deploy_config(None, some("R"), some("P"), None, None), Err(CoreError::Config(_))));
    assert!(matches!(deploy_config(some("S"), None, some("P"), None, None), Err(CoreError::Config(_))));
    assert!(matches!(deploy_config(some("S"), some("R"), None, None, None), Err(CoreError::Config(_))));
}

#[test]
fn missing_artifact_fails_before_any_command() {
    let c = config();
    assert!(matches!(deploy_start(&c, true, None), DeployAction::Fail(CoreError::NotFound(_))));
    assert!(matches!(
        deploy_start(&c, false, some("x.wasm")),
        DeployAction::Fail(CoreError::NotFound(_))
    ));
}

#[test]
fn deploy_command_is_verbose() {
    let c = config();
    match deploy_start(&c, true, some("p/counter.wasm")) {
        DeployAction::Run { next, command } => {
            assert!(matches!(next, DeployPhase::Deploying));
            assert_eq!(command.program, "stellar");
            assert_eq!(
                command.args,
                vec![
                    "--verbose", "contract", "deploy", "--wasm", "p/counter.wasm", "--source",
                    "SKEY", "--rpc-url", "http://rpc", "--network-passphrase", "pass"
                ]
            );
        }
        _ => panic!("expected a command"),
    }
}

#[test]
fn failed_deploy_carries_stderr() {
    let c = config();
    match deploy_step(&c, DeployPhase::Deploying, exited(1, "", "boom")) {
        DeployAction::Fail(CoreError::Toolchain(e)) => assert_eq!(e, "boom"),
        _ => panic!("expected a toolchain error"),
    }
}

#[test]
fn spawn_failure_is_spawn_error() {
    let c = config();
    let r = deploy_step(&c, DeployPhase::Deploying, ProcessEvent::SpawnFailed("no stellar".to_string()));
    assert!(matches!(r, DeployAction::Fail(CoreError::Spawn(_))));
}

#[test]
fn missing_hash_fails_deploy() {
    let c = config();
    let r = deploy_step(&c, DeployPhase::Deploying, exited(0, CID, "deployed, no hash"));
    assert!(matches!(r, DeployAction::Fail(CoreError::Extraction(_))));
}

#[test]
fn missing_contract_id_fails_deploy() {
    let c = config();
    let stderr = format!("transaction hash: {}", HASH);
    let r = deploy_step(&c, DeployPhase::Deploying, exited(0, "  \n\n", &stderr));
    assert!(matches!(r, DeployAction::Fail(CoreError::Extraction(_))));
}

#[test]
fn contract_id_is_last_non_blank_line() {
    assert_eq!(parse_contract_id(&format!("banner\n  {}  \n\n", CID)), some(CID));
    assert_eq!(parse_contract_id("\n \n"), None);
    assert!(looks_like_contract_id(CID));
    assert!(!looks_like_contract_id("GABC"));
}

#[test]
fn address_failure_is_fatal() {
    let c = config();
    let phase = DeployPhase::DerivingAddress { contract_id: CID.to_string(), transaction_hash: HASH.to_string() };
    assert!(phase.is_well_formed());
    let r = deploy_step(&c, phase, exited(1, "", "bad key"));
    assert!(matches!(r, DeployAction::Fail(CoreError::Toolchain(_))));
}

#[test]
fn proof_failure_is_swallowed() {
    let c = config();
    let phase = DeployPhase::SendingProof {
        contract_id: CID.to_string(),
        transaction_hash: HASH.to_string(),
        deployer_address: "GADDR".to_string(),
    };
    match deploy_step(&c, phase, exited(2, "", "proof failed")) {
        DeployAction::Done(d) => {
            assert_eq!(d.contract_id, CID);
            assert!(d.proof_tx_hash.is_none());
        }
        _ => panic!("expected completion"),
    }
}

#[test]
fn response_builds_explorer_url_and_fee() {
    let d = Deployed {
        contract_id: CID.to_string(),
        transaction_hash: HASH.to_string(),
        deployer_address: "GADDR".to_string(),
        proof_tx_hash: some("p"),
    };
    assert!(d.is_well_formed());
    let r = deploy_response(d, "testnet", 1_700_000_000);
    assert!(r.success);
    assert_eq!(r.explorer_url, format!("https://testnet.stellarchain.io/contracts/{}", CID));
    assert_eq!(r.fee, some("100000"));
    assert_eq!(r.details.timestamp, 1_700_000_000);
    assert_eq!(r.details.ledger_sequence, 0);
}
