use genesis_verify::model::{
    account_from_str, validator_config, AccountAddress, NetworkAddress, StoreSnapshot,
    ValidatorConfig, ValidatorInfo, ValidatorSet, ValidatorSetQuery,
};
use genesis_verify::verify::{verify_genesis, GenesisOutcome, GenesisStage, GenesisState};
use genesis_verify::waypoint::Waypoint;

fn account(c: char) -> AccountAddress {
    AccountAddress { hex: vec![c; 64] }
}

fn account_str(c: char) -> String {
    c.to_string().repeat(64)
}

fn sample_config() -> ValidatorConfig {
    ValidatorConfig {
        consensus_public_key: vec![0xaa, 0xbb],
        validator_network_addresses: Ok(vec![NetworkAddress { noise_key: Some(vec![0x11]) }]),
        fullnode_network_addresses: Ok(vec![NetworkAddress { noise_key: Some(vec![0x22]) }]),
    }
}

fn registered_set() -> ValidatorSetQuery {
    ValidatorSetQuery::Available(ValidatorSet {
        payload: vec![ValidatorInfo { account_address: account('b'), config: sample_config() }],
    })
}

fn expected_waypoint() -> Waypoint {
    Waypoint { version: 5, hash: vec!['c'; 64] }
}

fn consistent_snapshot() -> StoreSnapshot {
    StoreSnapshot {
        consensus_key: Ok(vec![0xaa, 0xbb]),
        fullnode_network_key: Ok(vec![0x22]),
        owner_key: Ok(vec![0x33]),
        operator_key: Ok(vec![0x44]),
        validator_network_key: Ok(vec![0x11]),
        operator_account: Ok(account_str('a')),
        owner_account: Ok(account_str('b')),
        safety_data: Ok("safe".to_string()),
        waypoint: Ok(expected_waypoint().to_text()),
    }
}

fn computed() -> Option<GenesisOutcome> {
    Some(GenesisOutcome::Computed(GenesisState {
        expected_waypoint: expected_waypoint(),
        validator_set: registered_set(),
    }))
}

fn comparison_section(report: &str) -> &str {
    let marker = "====\n";
    let cut = report.rfind(marker).expect("report ends with a break line") + marker.len();
    &report[cut..]
}

#[test]
fn account_parse_accepts_canonical_and_rejects_rest() {
    let a = account_from_str(&account_str('b')).expect("64 lowercase hex digits");
    assert_eq!(a.hex, vec!['b'; 64]);
    assert!(account_from_str("").is_none());
    assert!(account_from_str(&"B".repeat(64)).is_none());
    assert!(account_from_str(&"b".repeat(63)).is_none());
}

#[test]
fn validator_config_finds_first_matching_entry() {
    let mut first = sample_config();
    first.consensus_public_key = vec![0x01];
    let mut second = sample_config();
    second.consensus_public_key = vec![0x02];
    let query = ValidatorSetQuery::Available(ValidatorSet {
        payload: vec![
            ValidatorInfo { account_address: account('a'), config: first },
            ValidatorInfo { account_address: account('b'), config: second },
            ValidatorInfo { account_address: account('b'), config: sample_config() },
        ],
    });
    let config = validator_config(&account('b'), query).expect("account is registered");
    assert_eq!(config.consensus_public_key, vec![0x02]);
}

#[test]
fn validator_config_reports_missing_set() {
    let err = validator_config(&account('b'), ValidatorSetQuery::Absent).unwrap_err();
    assert_eq!(err.message().as_str(), "ValidatorSet does not exist");
}

#[test]
fn validator_config_reports_view_failure() {
    let err = validator_config(
        &account('b'),
        ValidatorSetQuery::ViewFailed("io stalled".to_string()),
    )
    .unwrap_err();
    assert_eq!(err.message().as_str(), "Can't create latest db state view io stalled");
}

#[test]
fn validator_config_reports_read_failure() {
    let err = validator_config(
        &account('b'),
        ValidatorSetQuery::ReadFailed("bad bytes".to_string()),
    )
    .unwrap_err();
    assert_eq!(err.message().as_str(), "ValidatorSet issue bad bytes");
}

#[test]
fn validator_config_reports_unknown_account() {
    let err = validator_config(&account('e'), registered_set()).unwrap_err();
    assert_eq!(err.message(), &format!("Unable to find Validator account {}", account_str('e')));
}

#[test]
fn unparsed_genesis_is_fatal_and_yields_no_report() {
    let r = verify_genesis(
        &consistent_snapshot(),
        Some(GenesisOutcome::Failed(GenesisStage::Parse, "unexpected end of input".to_string())),
    );
    let err = r.expect_err("a corrupt genesis file is fatal");
    assert_eq!(err.message().as_str(), "Unable to parse genesis: unexpected end of input");
}

#[test]
fn failed_commit_is_fatal() {
    let r = verify_genesis(
        &consistent_snapshot(),
        Some(GenesisOutcome::Failed(GenesisStage::Commit, "disk full".to_string())),
    );
    assert_eq!(r.unwrap_err().message().as_str(), "Unable to commit genesis: disk full");
}

#[test]
fn unregistered_account_is_fatal_with_genesis() {
    let mut snapshot = consistent_snapshot();
    snapshot.owner_account = Ok(account_str('e'));
    let err = verify_genesis(&snapshot, computed()).unwrap_err();
    assert_eq!(err.message(), &format!("Unable to find Validator account {}", account_str('e')));
}

#[test]
fn unregistered_account_still_reports_without_genesis() {
    let mut snapshot = consistent_snapshot();
    snapshot.owner_account = Ok(account_str('e'));
    let report = verify_genesis(&snapshot, None).expect("no comparison requested");
    assert!(report.contains(&format!("owner_account - {}\n", account_str('e'))));
}

#[test]
fn consistent_store_compares_clean() {
    let report = verify_genesis(&consistent_snapshot(), computed()).expect("all prerequisites hold");
    assert_eq!(
        comparison_section(&report),
        "waypoint - match\nconsensus - match\nvalidator_network - match\nfullnode_network - match\n"
    );
}

#[test]
fn different_stored_checkpoint_mismatches_alone() {
    let mut snapshot = consistent_snapshot();
    let other = Waypoint { version: 6, hash: vec!['c'; 64] };
    snapshot.waypoint = Ok(other.to_text());
    let report = verify_genesis(&snapshot, computed()).expect("a mismatch is not fatal");
    assert_eq!(
        comparison_section(&report),
        "waypoint - MISMATCH\nconsensus - match\nvalidator_network - match\nfullnode_network - match\n"
    );
}

#[test]
fn missing_key_shows_error_in_both_sections() {
    let mut snapshot = consistent_snapshot();
    snapshot.consensus_key = Err("Key not found: consensus".to_string());
    let report = verify_genesis(&snapshot, computed()).expect("a field-level failure is not fatal");
    assert!(report.contains("consensus - Key not found: consensus\n"));
    assert_eq!(
        comparison_section(&report),
        "waypoint - match\nconsensus - Key not found: consensus\nvalidator_network - match\nfullnode_network - match\n"
    );
}

#[test]
fn absent_embedded_key_never_matches() {
    let mut config = sample_config();
    config.validator_network_addresses = Ok(vec![NetworkAddress { noise_key: None }]);
    let genesis = Some(GenesisOutcome::Computed(GenesisState {
        expected_waypoint: expected_waypoint(),
        validator_set: ValidatorSetQuery::Available(ValidatorSet {
            payload: vec![ValidatorInfo { account_address: account('b'), config }],
        }),
    }));
    let report = verify_genesis(&consistent_snapshot(), genesis).expect("not fatal");
    assert!(comparison_section(&report).contains("validator_network - MISMATCH\n"));
}

#[test]
fn undecodable_address_list_shows_decode_error() {
    let mut config = sample_config();
    config.fullnode_network_addresses = Err("malformed address encoding".to_string());
    let genesis = Some(GenesisOutcome::Computed(GenesisState {
        expected_waypoint: expected_waypoint(),
        validator_set: ValidatorSetQuery::Available(ValidatorSet {
            payload: vec![ValidatorInfo { account_address: account('b'), config }],
        }),
    }));
    let report = verify_genesis(&consistent_snapshot(), genesis).expect("not fatal");
    assert_eq!(
        comparison_section(&report),
        "waypoint - match\nconsensus - match\nvalidator_network - match\nfullnode_network - malformed address encoding\n"
    );
}

#[test]
fn empty_address_list_never_matches() {
    let mut config = sample_config();
    config.validator_network_addresses = Ok(vec![]);
    let genesis = Some(GenesisOutcome::Computed(GenesisState {
        expected_waypoint: expected_waypoint(),
        validator_set: ValidatorSetQuery::Available(ValidatorSet {
            payload: vec![ValidatorInfo { account_address: account('b'), config }],
        }),
    }));
    let report = verify_genesis(&consistent_snapshot(), genesis).expect("not fatal");
    assert!(comparison_section(&report).contains("validator_network - MISMATCH\n"));
}

#[test]
fn only_first_address_is_checked() {
    let mut config = sample_config();
    config.validator_network_addresses = Ok(vec![
        NetworkAddress { noise_key: Some(vec![0x99]) },
        NetworkAddress { noise_key: Some(vec![0x11]) },
    ]);
    let genesis = Some(GenesisOutcome::Computed(GenesisState {
        expected_waypoint: expected_waypoint(),
        validator_set: ValidatorSetQuery::Available(ValidatorSet {
            payload: vec![ValidatorInfo { account_address: account('b'), config }],
        }),
    }));
    let report = verify_genesis(&consistent_snapshot(), genesis).expect("not fatal");
    assert!(comparison_section(&report).contains("validator_network - MISMATCH\n"));
}

#[test]
fn unreadable_stored_checkpoint_is_fatal_in_comparison() {
    let mut snapshot = consistent_snapshot();
    snapshot.waypoint = Err("storage offline".to_string());
    let err = verify_genesis(&snapshot, computed()).unwrap_err();
    assert_eq!(err.message().as_str(), "storage offline");
}

#[test]
fn empty_stored_checkpoint_is_fatal_in_comparison() {
    let mut snapshot = consistent_snapshot();
    snapshot.waypoint = Ok(String::new());
    let err = verify_genesis(&snapshot, computed()).unwrap_err();
    assert_eq!(err.message().as_str(), "Invalid waypoint");
}

#[test]
fn ledger_and_waypoint_stage_messages_have_no_prefix() {
    let r = verify_genesis(
        &consistent_snapshot(),
        Some(GenesisOutcome::Failed(GenesisStage::OpenLedger, "lock held".to_string())),
    );
    assert_eq!(r.unwrap_err().message().as_str(), "lock held");
    let r = verify_genesis(
        &consistent_snapshot(),
        Some(GenesisOutcome::Failed(GenesisStage::ComputeWaypoint, "execution error".to_string())),
    );
    assert_eq!(r.unwrap_err().message().as_str(), "execution error");
}

#[test]
fn open_and_read_stage_messages_carry_their_prefix() {
    let r = verify_genesis(
        &consistent_snapshot(),
        Some(GenesisOutcome::Failed(GenesisStage::OpenFile, "no such file".to_string())),
    );
    assert_eq!(r.unwrap_err().message().as_str(), "Unable to open genesis file: no such file");
    let r = verify_genesis(
        &consistent_snapshot(),
        Some(GenesisOutcome::Failed(GenesisStage::ReadFile, "interrupted".to_string())),
    );
    assert_eq!(r.unwrap_err().message().as_str(), "Unable to read genesis: interrupted");
}

#[test]
fn empty_validator_set_reports_account_not_found() {
    let query = ValidatorSetQuery::Available(ValidatorSet { payload: vec![] });
    let err = validator_config(&account('b'), query).unwrap_err();
    assert_eq!(err.message(), &format!("Unable to find Validator account {}", account_str('b')));
}

#[test]
fn report_is_fully_populated_when_every_read_fails() {
    let snapshot = StoreSnapshot {
        consensus_key: Err("e1".to_string()),
        fullnode_network_key: Err("e2".to_string()),
        owner_key: Err("e3".to_string()),
        operator_key: Err("e4".to_string()),
        validator_network_key: Err("e5".to_string()),
        operator_account: Err("e6".to_string()),
        owner_account: Err("e7".to_string()),
        safety_data: Err("e8".to_string()),
        waypoint: Err("e9".to_string()),
    };
    let report = verify_genesis(&snapshot, None).expect("field-level failures are never fatal");
    for line in [
        "consensus - e1\n",
        "fullnode_network - e2\n",
        "owner - e3\n",
        "operator - e4\n",
        "validator_network - e5\n",
        "operator_account - e6\n",
        "owner_account - e7\n",
        "safety_data - e8\n",
        "waypoint - e9\n",
    ] {
        assert!(report.contains(line));
    }
}

#[test]
fn malformed_owner_account_is_fatal_in_comparison() {
    let mut snapshot = consistent_snapshot();
    snapshot.owner_account = Ok("0xshort".to_string());
    let err = verify_genesis(&snapshot, computed()).unwrap_err();
    assert_eq!(err.message().as_str(), "Invalid account address");
}
