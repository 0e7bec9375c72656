use test_infra::accounts::{
    discover_root, funding_transfer, is_funded, Account, Address, ProvisionError, U256,
    FUNDING_AMOUNT,
};
use test_infra::confirm::{
    confirm_step, deployment_outcome, transfer_outcome, ConfirmPolicy, ConfirmState, DeployError,
    Observation, Receipt,
};
use test_infra::flow::{
    deploy_next, provision_next, DeployAction, DeployStage, ProvisionAction, ProvisionStage, Reply,
};
use test_infra::gate::{check_solc, check_version, reported_version, SolcError};
use test_infra::hex::decode_bytecode;
use test_infra::keys::{generate_private_key, PrivateKey};
use test_infra::outcome::{
    check_preconditions, exit_code, failing_cases, outcome_of, verify_calls, CallValue,
    CaseError, RunError, TestOutcome,
};
use test_infra::probe::{probe_step, ProbePolicy, ProbeStep};
use test_infra::version::{parse_version, CompilerVersion};

fn v(major: u64, minor: u64, patch: u64) -> CompilerVersion {
    CompilerVersion { major, minor, patch }
}

fn addr(n: u8) -> Address {
    Address { bytes: [n; 20] }
}

fn account(n: u8, balance: u128) -> Account {
    Account { address: addr(n), balance: U256::from_u128(balance) }
}

const SOLC_OUTPUT: &str =
    "solc, the solidity compiler commandline interface\nVersion: 0.8.19+commit.7dd6d404.Linux.g++\n";

// Runs the probe against an endpoint that accepts connections from `listen` on,
// returning whether it was reported up and when the probe returned.
fn simulate_probe(p: &ProbePolicy, listen: Option<u64>) -> (bool, u64) {
    let mut elapsed: u64 = 0;
    loop {
        let connected = matches!(listen, Some(l) if l <= elapsed);
        match probe_step(p, elapsed, connected) {
            ProbeStep::Up => return (true, elapsed),
            ProbeStep::GiveUp => return (false, elapsed),
            ProbeStep::RetryAfter(d) => elapsed += d,
        }
    }
}

// Polls a transaction through `obs`, returning the state it settles in.
fn simulate_polls(p: &ConfirmPolicy, obs: &[Observation]) -> ConfirmState {
    let mut polls: u64 = 0;
    for o in obs {
        match confirm_step(p, polls, o) {
            ConfirmState::Pending(n) => polls = n,
            s => return s,
        }
    }
    ConfirmState::Pending(polls)
}

#[test]
fn parse_plain_version() {
    assert_eq!(parse_version(b"0.8.19"), Some(v(0, 8, 19)));
    assert_eq!(parse_version(b"10.200.3000"), Some(v(10, 200, 3000)));
}

#[test]
fn parse_rejects_deviations() {
    assert_eq!(parse_version(b""), None);
    assert_eq!(parse_version(b"0.8"), None);
    assert_eq!(parse_version(b"0.8.19.1"), None);
    assert_eq!(parse_version(b"0..19"), None);
    assert_eq!(parse_version(b".8.19"), None);
    assert_eq!(parse_version(b"0.8."), None);
    assert_eq!(parse_version(b"0.8.1x"), None);
    assert_eq!(parse_version(b"0.8.99999999999999999999"), None);
}

#[test]
fn parse_largest_part() {
    assert_eq!(parse_version(b"0.0.18446744073709551615"), Some(v(0, 0, u64::MAX)));
    assert_eq!(parse_version(b"0.0.18446744073709551616"), None);
}

#[test]
fn version_from_compiler_output() {
    assert_eq!(reported_version(SOLC_OUTPUT.as_bytes()), Some(v(0, 8, 19)));
    assert_eq!(reported_version(b"Version: 1.2.3"), Some(v(1, 2, 3)));
    assert_eq!(reported_version(b"no version here"), None);
    assert_eq!(reported_version(b"Version: 0.8"), None);
    assert_eq!(reported_version(b"Version: 0.8.19\nVersion: 0.9.0\n"), Some(v(0, 8, 19)));
}

#[test]
fn gate_accepts_ceiling_and_below() {
    assert_eq!(check_version(v(0, 8, 19)), Ok(()));
    assert_eq!(check_version(v(0, 8, 0)), Ok(()));
    assert_eq!(check_version(v(0, 7, 99)), Ok(()));
    assert_eq!(check_solc(Some(SOLC_OUTPUT.as_bytes())), Ok(()));
}

#[test]
fn gate_rejects_above_ceiling() {
    assert_eq!(check_version(v(0, 8, 20)), Err(SolcError::IncompatibleVersion(v(0, 8, 20))));
    assert_eq!(check_version(v(0, 9, 0)), Err(SolcError::IncompatibleVersion(v(0, 9, 0))));
    assert_eq!(check_version(v(1, 0, 0)), Err(SolcError::IncompatibleVersion(v(1, 0, 0))));
    assert_eq!(
        check_solc(Some(b"Version: 0.8.20+commit.a1b79de6.Linux.g++")),
        Err(SolcError::IncompatibleVersion(v(0, 8, 20)))
    );
}

#[test]
fn gate_reports_missing_tool_and_bad_output() {
    assert_eq!(check_solc(None), Err(SolcError::ToolMissing));
    assert_eq!(check_solc(Some(b"command not found")), Err(SolcError::UnparseableOutput));
    assert_eq!(check_solc(Some(b"Version: x.y.z")), Err(SolcError::UnparseableOutput));
}

#[test]
fn probe_never_listening_gives_up_at_deadline() {
    let p = ProbePolicy { interval_ms: 1000, deadline_ms: 10_000 };
    assert_eq!(simulate_probe(&p, None), (false, 10_000));
    let q = ProbePolicy { interval_ms: 3000, deadline_ms: 10_000 };
    assert_eq!(simulate_probe(&q, None), (false, 10_000));
}

#[test]
fn probe_listening_reports_up_before_deadline() {
    let p = ProbePolicy { interval_ms: 1000, deadline_ms: 10_000 };
    assert_eq!(simulate_probe(&p, Some(0)), (true, 0));
    assert_eq!(simulate_probe(&p, Some(2500)), (true, 3000));
    assert_eq!(simulate_probe(&p, Some(10_000)), (true, 10_000));
    let q = ProbePolicy { interval_ms: 3000, deadline_ms: 10_000 };
    assert_eq!(simulate_probe(&q, Some(9500)), (true, 10_000));
}

#[test]
fn probe_step_decisions() {
    let p = ProbePolicy { interval_ms: 1000, deadline_ms: 2500 };
    assert_eq!(probe_step(&p, 0, true), ProbeStep::Up);
    assert_eq!(probe_step(&p, 0, false), ProbeStep::RetryAfter(1000));
    assert_eq!(probe_step(&p, 2000, false), ProbeStep::RetryAfter(500));
    assert_eq!(probe_step(&p, 2500, false), ProbeStep::GiveUp);
}

#[test]
fn two_keys_differ() {
    let a = generate_private_key().unwrap();
    let b = generate_private_key().unwrap();
    assert_ne!(a.bytes, b.bytes);
}

#[test]
fn key_hex_form() {
    let mut bytes = [0u8; 32];
    bytes[0] = 0xab;
    bytes[1] = 0x05;
    bytes[31] = 0xf0;
    let hex = PrivateKey { bytes }.to_hex();
    assert_eq!(hex.len(), 64);
    let expected = format!("ab05{}f0", "00".repeat(29));
    assert_eq!(String::from_utf8(hex).unwrap(), expected);
}

#[test]
fn root_is_richest_account() {
    let accounts = vec![account(1, 10), account(2, 50), account(3, 5)];
    let root = discover_root(&accounts).unwrap();
    assert_eq!(root, account(2, 50));
    assert_eq!(root.balance, U256::from_u128(50));
}

#[test]
fn root_tie_goes_to_first() {
    let accounts = vec![account(1, 7), account(2, 9), account(3, 9)];
    assert_eq!(discover_root(&accounts).unwrap().address, addr(2));
}

#[test]
fn root_compares_full_width() {
    let big = Account { address: addr(4), balance: U256 { hi: 1, lo: 0 } };
    let accounts = vec![account(1, u128::MAX), big];
    assert_eq!(discover_root(&accounts).unwrap().address, addr(4));
}

#[test]
fn root_needs_accounts() {
    assert_eq!(discover_root(&vec![]), Err(ProvisionError::NoAccountsAvailable));
}

#[test]
fn funding_moves_exact_amount() {
    let root = account(9, 1_000_000_000_000_000_000_000);
    let t = funding_transfer(&root, &addr(1));
    assert_eq!(t.from, addr(9));
    assert_eq!(t.to, addr(1));
    assert_eq!(t.value, U256::from_u128(FUNDING_AMOUNT));
    assert!(is_funded(&U256::from_u128(FUNDING_AMOUNT)));
    assert!(!is_funded(&U256::from_u128(FUNDING_AMOUNT - 1)));
    assert!(!is_funded(&U256::from_u128(0)));
    assert!(!is_funded(&U256 { hi: 1, lo: FUNDING_AMOUNT }));
}

fn mined(head: u64, block: u64, success: bool, contract: Option<Address>) -> Observation {
    Observation { head, receipt: Some(Receipt { block, success, contract }) }
}

fn unmined(head: u64) -> Observation {
    Observation { head, receipt: None }
}

#[test]
fn deployment_confirmed_gives_address() {
    let p = ConfirmPolicy { confirmations: 1, max_polls: 5, poll_interval_ms: 1000 };
    let s = simulate_polls(&p, &[unmined(1), mined(2, 2, true, Some(addr(7)))]);
    assert_eq!(deployment_outcome(&s), Ok(addr(7)));
}

#[test]
fn deployment_waits_for_depth() {
    let p = ConfirmPolicy { confirmations: 3, max_polls: 5, poll_interval_ms: 1000 };
    let obs = [mined(2, 2, true, Some(addr(7))), mined(3, 2, true, Some(addr(7)))];
    assert_eq!(simulate_polls(&p, &obs), ConfirmState::Pending(2));
    let obs = [obs[0], obs[1], mined(4, 2, true, Some(addr(7)))];
    assert_eq!(deployment_outcome(&simulate_polls(&p, &obs)), Ok(addr(7)));
}

#[test]
fn reverted_deployment_fails() {
    let p = ConfirmPolicy { confirmations: 1, max_polls: 5, poll_interval_ms: 1000 };
    let s = simulate_polls(&p, &[unmined(1), mined(2, 2, false, None)]);
    assert!(matches!(s, ConfirmState::Rejected(_)));
    assert_eq!(deployment_outcome(&s), Err(DeployError::DeploymentFailed));
}

#[test]
fn unmined_deployment_times_out() {
    let p = ConfirmPolicy { confirmations: 1, max_polls: 3, poll_interval_ms: 1000 };
    let s = simulate_polls(&p, &[unmined(1), unmined(2), unmined(3), unmined(4)]);
    assert_eq!(s, ConfirmState::TimedOut);
    assert_eq!(deployment_outcome(&s), Err(DeployError::DeploymentTimeout));
    assert_ne!(DeployError::DeploymentTimeout, DeployError::DeploymentFailed);
}

#[test]
fn deployment_without_contract_fails() {
    let p = ConfirmPolicy { confirmations: 1, max_polls: 3, poll_interval_ms: 1000 };
    let s = simulate_polls(&p, &[mined(1, 1, true, None)]);
    assert_eq!(deployment_outcome(&s), Err(DeployError::DeploymentFailed));
}

#[test]
fn transfer_outcomes() {
    let rec = Receipt { block: 1, success: true, contract: None };
    assert_eq!(transfer_outcome(&ConfirmState::Confirmed(rec)), Ok(()));
    assert_eq!(transfer_outcome(&ConfirmState::Rejected(rec)), Err(ProvisionError::TransferFailed));
    assert_eq!(transfer_outcome(&ConfirmState::TimedOut), Err(ProvisionError::TransferTimeout));
}

#[test]
fn deployed_contract_returns_literals() {
    let expected = vec![CallValue::Uint(U256::from_u128(10)), CallValue::Bool(true)];
    let got = vec![CallValue::Uint(U256::from_u128(10)), CallValue::Bool(true)];
    assert_eq!(verify_calls(&expected, &got), Ok(()));
    assert_eq!(outcome_of(verify_calls(&expected, &got)), TestOutcome::Passed);
}

#[test]
fn wrong_literal_is_a_failure() {
    let expected = vec![CallValue::Uint(U256::from_u128(10)), CallValue::Bool(true)];
    let got = vec![CallValue::Uint(U256::from_u128(10)), CallValue::Bool(false)];
    let r = verify_calls(&expected, &got);
    assert_eq!(r, Err(CaseError::CallMismatch(1)));
    assert_eq!(outcome_of(r), TestOutcome::Failed(CaseError::CallMismatch(1)));
    let short = vec![CallValue::Uint(U256::from_u128(11))];
    assert_eq!(verify_calls(&expected, &short), Err(CaseError::CallMismatch(0)));
    let fewer = vec![CallValue::Uint(U256::from_u128(10))];
    assert_eq!(verify_calls(&expected, &fewer), Err(CaseError::CallMismatch(1)));
}

#[test]
fn harness_errors_are_errored() {
    let e = CaseError::Deploy(DeployError::DeploymentTimeout);
    assert_eq!(outcome_of(Err(e)), TestOutcome::Errored(e));
    let e = CaseError::Provision(ProvisionError::ImportFailed);
    assert_eq!(outcome_of(Err(e)), TestOutcome::Errored(e));
}

#[test]
fn preconditions_order() {
    assert_eq!(check_preconditions(false, Ok(())), Err(RunError::Unreachable));
    assert_eq!(check_preconditions(false, Err(SolcError::ToolMissing)), Err(RunError::Unreachable));
    assert_eq!(
        check_preconditions(true, Err(SolcError::ToolMissing)),
        Err(RunError::Compiler(SolcError::ToolMissing))
    );
    assert_eq!(check_preconditions(true, Ok(())), Ok(()));
}

#[test]
fn exit_status() {
    let failed = TestOutcome::Failed(CaseError::CallMismatch(0));
    assert_eq!(exit_code(Ok(()), &vec![TestOutcome::Passed, TestOutcome::Passed]), 0);
    assert_eq!(exit_code(Ok(()), &vec![]), 0);
    assert_eq!(exit_code(Ok(()), &vec![TestOutcome::Passed, failed]), 1);
    assert_eq!(exit_code(Err(RunError::Unreachable), &vec![]), 1);
    assert_eq!(failing_cases(&vec![failed, TestOutcome::Passed, failed]), vec![0, 2]);
}

#[test]
fn bytecode_file_decodes() {
    assert_eq!(decode_bytecode(b"6080aBff"), Some(vec![0x60, 0x80, 0xab, 0xff]));
    assert_eq!(decode_bytecode(b"0x6080\n"), Some(vec![0x60, 0x80]));
    assert_eq!(decode_bytecode(b"0X00 \r\n\t"), Some(vec![0x00]));
    assert_eq!(decode_bytecode(b""), Some(vec![]));
    assert_eq!(decode_bytecode(b"0x"), Some(vec![]));
    assert_eq!(decode_bytecode(b"608"), None);
    assert_eq!(decode_bytecode(b"60g0"), None);
    assert_eq!(decode_bytecode(b"60 80"), None);
}

#[test]
fn balance_mismatch_is_a_failure() {
    assert_eq!(outcome_of(Err(CaseError::WrongBalance)), TestOutcome::Failed(CaseError::WrongBalance));
    assert_eq!(outcome_of(Err(CaseError::Panicked)), TestOutcome::Errored(CaseError::Panicked));
}

// Drives the provisioning flow with `replies` (the first answers the import)
// and returns the transfers it submitted and its result.
fn drive_provision(
    p: &ConfirmPolicy,
    root: &Account,
    replies: &[Reply],
) -> (Vec<test_infra::accounts::Transfer>, Option<Result<Address, ProvisionError>>) {
    let mut stage = ProvisionStage::Importing;
    let mut sent = Vec::new();
    for r in replies {
        let (next, action) = provision_next(p, root, stage, *r);
        stage = next;
        match action {
            ProvisionAction::Send(t) => sent.push(t),
            ProvisionAction::Poll => {}
            ProvisionAction::Finish(res) => return (sent, Some(res)),
        }
    }
    (sent, None)
}

fn drive_deploy(p: &ConfirmPolicy, replies: &[Reply]) -> Option<Result<Address, DeployError>> {
    let mut stage = DeployStage::Creating;
    for r in replies {
        let (next, action) = deploy_next(p, stage, *r);
        stage = next;
        if let DeployAction::Finish(res) = action {
            return Some(res);
        }
    }
    None
}

#[test]
fn provision_success_sends_funding_once() {
    let p = ConfirmPolicy { confirmations: 1, max_polls: 5, poll_interval_ms: 1000 };
    let root = account(9, 500);
    let replies = [
        Reply::Imported(addr(1)),
        Reply::Accepted,
        Reply::Observed(unmined(3)),
        Reply::Observed(mined(4, 4, true, None)),
    ];
    let (sent, res) = drive_provision(&p, &root, &replies);
    assert_eq!(res, Some(Ok(addr(1))));
    assert_eq!(sent, vec![funding_transfer(&root, &addr(1))]);
    assert_eq!(sent[0].value, U256::from_u128(FUNDING_AMOUNT));
}

#[test]
fn provision_step_errors() {
    let p = ConfirmPolicy { confirmations: 1, max_polls: 2, poll_interval_ms: 1000 };
    let root = account(9, 500);
    assert_eq!(drive_provision(&p, &root, &[Reply::Refused]).1, Some(Err(ProvisionError::ImportFailed)));
    assert_eq!(
        drive_provision(&p, &root, &[Reply::Imported(addr(1)), Reply::Refused]).1,
        Some(Err(ProvisionError::TransferFailed))
    );
    let rejected = [Reply::Imported(addr(1)), Reply::Accepted, Reply::Observed(mined(2, 2, false, None))];
    assert_eq!(drive_provision(&p, &root, &rejected).1, Some(Err(ProvisionError::TransferFailed)));
    let slow = [Reply::Imported(addr(1)), Reply::Accepted, Reply::Observed(unmined(1)), Reply::Refused];
    assert_eq!(drive_provision(&p, &root, &slow).1, Some(Err(ProvisionError::TransferTimeout)));
}

#[test]
fn deploy_flow_outcomes() {
    let p = ConfirmPolicy { confirmations: 2, max_polls: 3, poll_interval_ms: 1000 };
    let ok = [
        Reply::Accepted,
        Reply::Observed(mined(5, 5, true, Some(addr(3)))),
        Reply::Observed(mined(6, 5, true, Some(addr(3)))),
    ];
    assert_eq!(drive_deploy(&p, &ok), Some(Ok(addr(3))));
    assert_eq!(drive_deploy(&p, &[Reply::Refused]), Some(Err(DeployError::DeploymentFailed)));
    let reverted = [Reply::Accepted, Reply::Observed(mined(6, 5, false, None))];
    assert_eq!(drive_deploy(&p, &reverted), Some(Err(DeployError::DeploymentFailed)));
    let never = [Reply::Accepted, Reply::Observed(unmined(1)), Reply::Refused, Reply::Observed(unmined(3))];
    assert_eq!(drive_deploy(&p, &never), Some(Err(DeployError::DeploymentTimeout)));
}

#[test]
fn funding_amount_is_one_hundred_coins() {
    assert_eq!(FUNDING_AMOUNT, 10u128.pow(20));
    assert_eq!(FUNDING_AMOUNT, 100 * 10u128.pow(18));
}
