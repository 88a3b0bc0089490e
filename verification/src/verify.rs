//! The verification driver: recomputed-vs-stored comparison, the two-tier
//! error rules (field-level problems are rendered inline, prerequisite
//! failures are fatal), and the report assembly.

use vstd::prelude::*;
use crate::model::{
    account_from_str, bytes_equal, validator_config, validator_config_spec, NetworkAddress,
    StoreSnapshot, ValidatorSetQuery, VerifyError,
};
use crate::report::{
    assert_line, dump_spec, field_line, waypoint_line, write_assert, write_dump, write_field,
};
use crate::waypoint::{
    is_hex64, is_waypoint_str, lemma_waypoint_str_injective, lemma_waypoint_str_of_wf,
    waypoint_from_str, Waypoint,
};
use vstd::string::{StrSliceExecFns, StringExecFns};

verus! {

/// The step of the genesis recomputation that failed.
#[derive(Debug)]
pub enum GenesisStage {
    /// Opening the ephemeral ledger.
    OpenLedger,
    /// Opening the genesis file.
    OpenFile,
    /// Reading the genesis file.
    ReadFile,
    /// Deserializing the genesis transaction.
    Parse,
    /// Computing the checkpoint that the transaction would produce.
    ComputeWaypoint,
    /// Committing the transaction to the ephemeral ledger.
    Commit,
}

/// The fatal message for a failed recomputation step, from the step and the
/// underlying error's text.
pub open spec fn stage_message(stage: GenesisStage, detail: Seq<char>) -> Seq<char> {
    match stage {
        GenesisStage::OpenLedger => detail,
        GenesisStage::OpenFile => "Unable to open genesis file: "@ + detail,
        GenesisStage::ReadFile => "Unable to read genesis: "@ + detail,
        GenesisStage::Parse => "Unable to parse genesis: "@ + detail,
        GenesisStage::ComputeWaypoint => detail,
        GenesisStage::Commit => "Unable to commit genesis: "@ + detail,
    }
}

/// Builds the fatal error for a failed recomputation step.
pub fn stage_error(stage: &GenesisStage, detail: String) -> (e: VerifyError)
    ensures
        e.message_spec() == stage_message(*stage, detail@),
{
    let prefix: Option<&str> = match stage {
        GenesisStage::OpenLedger => None,
        GenesisStage::ComputeWaypoint => None,
        GenesisStage::OpenFile => Some("Unable to open genesis file: "),
        GenesisStage::ReadFile => Some("Unable to read genesis: "),
        GenesisStage::Parse => Some("Unable to parse genesis: "),
        GenesisStage::Commit => Some("Unable to commit genesis: "),
    };
    match prefix {
        None => VerifyError::UnexpectedError(detail),
        Some(p) => {
            let mut m = String::new();
            m.append(p);
            m.append(detail.as_str());
            proof {
                assert((Seq::<char>::empty() + p@) + detail@ =~= p@ + detail@);
            }
            VerifyError::UnexpectedError(m)
        },
    }
}

/// What the recomputation derived: the canonical checkpoint of the genesis
/// transaction, and the outcome of the validator-set query against the
/// committed state.
#[derive(Debug)]
pub struct GenesisState {
    /// The checkpoint the genesis transaction produces on an empty ledger.
    pub expected_waypoint: Waypoint,
    /// The validator set read back from the committed state.
    pub validator_set: ValidatorSetQuery,
}

/// The outcome of recomputing the ledger state from a genesis file.
#[derive(Debug)]
pub enum GenesisOutcome {
    /// A recomputation step failed, with the underlying error's text.
    Failed(GenesisStage, String),
    /// The recomputation succeeded.
    Computed(GenesisState),
}

/// The transport identity key a decoded address list vouches for: the
/// embedded key of the first address, if the list is nonempty and its first
/// address carries one.
///
/// Known limitation, kept deliberately: a validator may register several
/// addresses, but only the first of each traffic class is checked, so a key
/// that moved to a later address reads as a mismatch.
pub open spec fn expected_network_key(addrs: Vec<NetworkAddress>) -> Option<Seq<u8>> {
    if addrs@.len() == 0 {
        None
    } else {
        match addrs@[0].noise_key {
            Option::None => None,
            Option::Some(k) => Some(k@),
        }
    }
}

/// The comparison line for the consensus key.
pub open spec fn consensus_line(stored: Result<Vec<u8>, String>, expected: Seq<u8>) -> Seq<char> {
    match stored {
        Ok(k) => assert_line("consensus"@, k@ == expected),
        Err(e) => field_line("consensus"@, e@),
    }
}

/// The comparison line for a network transport key: the stored key must
/// equal the embedded key of the first registered address; an absent
/// embedded key never matches. A failed store read, or an on-chain address
/// list that did not decode, shows the underlying error's text instead of a
/// boolean (the store read takes precedence when both failed).
pub open spec fn network_line(
    name: Seq<char>,
    stored: Result<Vec<u8>, String>,
    addrs: Result<Vec<NetworkAddress>, String>,
) -> Seq<char> {
    match stored {
        Ok(k) => match addrs {
            Ok(v) => assert_line(name, expected_network_key(v) == Some(k@)),
            Err(d) => field_line(name, d@),
        },
        Err(e) => field_line(name, e@),
    }
}

/// Appends the comparison line for one network transport key.
pub fn write_network(
    buffer: &mut String,
    name: &str,
    stored: &Result<Vec<u8>, String>,
    addrs: &Result<Vec<NetworkAddress>, String>,
)
    ensures
        final(buffer)@ == old(buffer)@ + network_line(name@, *stored, *addrs),
{
    match stored {
        Err(e) => write_field(buffer, name, e.as_str()),
        Ok(k) => {
            match addrs {
                Err(d) => write_field(buffer, name, d.as_str()),
                Ok(v) => {
                    let same = if v.len() == 0 {
                        false
                    } else {
                        match &v[0].noise_key {
                            None => false,
                            Some(ek) => bytes_equal(k, ek),
                        }
                    };
                    write_assert(buffer, name, same);
                },
            }
        },
    }
}

/// What the comparison produces: the comparison section's text, or the
/// message of the fatal failure that stopped it. Fatal are only the
/// prerequisites: an unreadable or unparseable stored checkpoint, an
/// unreadable or malformed owner account, and an unresolvable validator
/// registration.
pub open spec fn compare_verdict(snap: StoreSnapshot, st: GenesisState) -> Result<
    Seq<char>,
    Seq<char>,
> {
    match snap.waypoint {
        Err(e) => Result::Err(e@),
        Ok(s) => {
            if !is_waypoint_str(s@) {
                Result::Err("Invalid waypoint"@)
            } else {
                match snap.owner_account {
                    Err(e) => Result::Err(e@),
                    Ok(a) => {
                        if !is_hex64(a@) {
                            Result::Err("Invalid account address"@)
                        } else {
                            match validator_config_spec(st.validator_set, a@) {
                                Result::Err(m) => Result::Err(m),
                                Result::Ok(config) => Result::Ok(
                                    assert_line(
                                        "waypoint"@,
                                        s@ == st.expected_waypoint.str_spec(),
                                    ) + consensus_line(
                                        snap.consensus_key,
                                        config.consensus_public_key@,
                                    ) + network_line(
                                        "validator_network"@,
                                        snap.validator_network_key,
                                        config.validator_network_addresses,
                                    ) + network_line(
                                        "fullnode_network"@,
                                        snap.fullnode_network_key,
                                        config.fullnode_network_addresses,
                                    ),
                                ),
                            }
                        }
                    },
                }
            }
        },
    }
}

/// Compares the recomputed genesis state against the stored values and
/// appends the comparison section, or returns the fatal error that stopped
/// the comparison.
#[verifier::rlimit(100)]
pub fn compare_genesis(snapshot: &StoreSnapshot, buffer: &mut String, state: GenesisState) -> (r:
    Result<(), VerifyError>)
    requires
        state.expected_waypoint.wf(),
    ensures
        match compare_verdict(*snapshot, state) {
            Result::Ok(section) => r is Ok && final(buffer)@ == old(buffer)@ + section,
            Result::Err(m) => r matches Err(e) && e.message_spec() == m,
        },
{
    let ghost gstate = state;
    // Prerequisite: the stored checkpoint must be present and canonical.
    let stored_waypoint = match &snapshot.waypoint {
        Err(e) => {
            return Err(VerifyError::UnexpectedError(e.clone()));
        },
        Ok(s) => {
            match waypoint_from_str(s.as_str()) {
                None => {
                    return Err(VerifyError::UnexpectedError(String::from_str("Invalid waypoint")));
                },
                Some(w) => w,
            }
        },
    };
    proof {
        lemma_waypoint_str_of_wf(stored_waypoint);
    }
    let matched = stored_waypoint.equals(&state.expected_waypoint);
    proof {
        let s = snapshot.waypoint->Ok_0;
        if matched {
            assert(stored_waypoint.str_spec() == state.expected_waypoint.str_spec());
        }
        if s@ == state.expected_waypoint.str_spec() {
            lemma_waypoint_str_injective(stored_waypoint, state.expected_waypoint);
        }
        assert(matched == (s@ == state.expected_waypoint.str_spec()));
    }
    write_assert(buffer, "waypoint", matched);
    // Prerequisite: the owner account must be present and well-formed.
    let account = match &snapshot.owner_account {
        Err(e) => {
            return Err(VerifyError::UnexpectedError(e.clone()));
        },
        Ok(a) => {
            match account_from_str(a.as_str()) {
                None => {
                    return Err(
                        VerifyError::UnexpectedError(String::from_str("Invalid account address")),
                    );
                },
                Some(acct) => acct,
            }
        },
    };
    // Prerequisite: the account must be registered in the recomputed state.
    let config = match validator_config(&account, state.validator_set) {
        Err(e) => {
            return Err(e);
        },
        Ok(c) => c,
    };
    // The consensus key.
    match &snapshot.consensus_key {
        Err(e) => write_field(buffer, "consensus", e.as_str()),
        Ok(k) => {
            let same = bytes_equal(k, &config.consensus_public_key);
            write_assert(buffer, "consensus", same);
        },
    }
    // The two transport keys, each against the first registered address of
    // its traffic class.
    write_network(
        buffer,
        "validator_network",
        &snapshot.validator_network_key,
        &config.validator_network_addresses,
    );
    write_network(
        buffer,
        "fullnode_network",
        &snapshot.fullnode_network_key,
        &config.fullnode_network_addresses,
    );
    proof {
        let section = compare_verdict(*snapshot, gstate)->Ok_0;
        assert(buffer@ =~= old(buffer)@ + section);
    }
    Ok(())
}

/// Builds the full report for one store snapshot: the dump section always,
/// and, when a genesis recomputation was run and succeeded, the comparison
/// section. A failed recomputation or a failed comparison prerequisite is
/// fatal: the error is returned and no report is produced.
pub fn verify_genesis(snapshot: &StoreSnapshot, genesis: Option<GenesisOutcome>) -> (r: Result<
    String,
    VerifyError,
>)
    requires
        match genesis {
            Some(GenesisOutcome::Computed(st)) => st.expected_waypoint.wf(),
            _ => true,
        },
    ensures
        match genesis {
            None => r matches Ok(out) && out@ == dump_spec(*snapshot),
            Some(GenesisOutcome::Failed(stage, detail)) => r matches Err(e) && e.message_spec()
                == stage_message(stage, detail@),
            Some(GenesisOutcome::Computed(st)) => match compare_verdict(*snapshot, st) {
                Result::Ok(section) => r matches Ok(out) && out@ == dump_spec(*snapshot) + section,
                Result::Err(m) => r matches Err(e) && e.message_spec() == m,
            },
        },
{
    let mut buffer = String::new();
    write_dump(&mut buffer, snapshot);
    proof {
        assert(Seq::<char>::empty() + dump_spec(*snapshot) =~= dump_spec(*snapshot));
    }
    match genesis {
        None => Ok(buffer),
        Some(GenesisOutcome::Failed(stage, detail)) => Err(stage_error(&stage, detail)),
        Some(GenesisOutcome::Computed(st)) => {
            let ghost gst = st;
            match compare_genesis(snapshot, &mut buffer, st) {
                Err(e) => Err(e),
                Ok(_) => {
                    proof {
                        let section = compare_verdict(*snapshot, gst)->Ok_0;
                        assert(dump_spec(*snapshot) + section =~= buffer@);
                    }
                    Ok(buffer)
                },
            }
        },
    }
}

/// A report line determines its value: two lines for the same field are
/// equal only when their values are.
pub proof fn lemma_field_line_injective(name: Seq<char>, v1: Seq<char>, v2: Seq<char>)
    requires
        field_line(name, v1) == field_line(name, v2),
    ensures
        v1 == v2,
{
    let l1 = field_line(name, v1);
    let l2 = field_line(name, v2);
    assert(l1.len() == name.len() + " - "@.len() + v1.len() + "\n"@.len());
    assert(l2.len() == name.len() + " - "@.len() + v2.len() + "\n"@.len());
    let start = name.len() + " - "@.len();
    assert(v1 =~= l1.subrange(start as int, start as int + v1.len() as int));
    assert(v2 =~= l2.subrange(start as int, start as int + v2.len() as int));
}

/// An empty stored checkpoint string is shown as `empty` in the dump: it is
/// the "not yet set" sentinel, not an error and not a mismatch.
pub proof fn lemma_empty_checkpoint_shown_as_empty(name: Seq<char>, s: String)
    requires
        s@.len() == 0,
    ensures
        waypoint_line(name, Result::Ok(s)) == field_line(name, "empty"@),
{
}

/// A field whose store read failed is shown as its fetch error's text, both
/// in the dump and, for the compared keys, in the comparison section — where
/// it is distinguishable from an explicit `MISMATCH` line and from a `match`
/// line whenever the error text differs from those words.
pub proof fn lemma_fetch_error_shown_inline(
    name: Seq<char>,
    e: String,
    addrs: Result<Vec<NetworkAddress>, String>,
    expected_key: Seq<u8>,
)
    ensures
        crate::report::key_line(name, Result::Err(e)) == field_line(name, e@),
        crate::report::string_line(name, Result::Err(e)) == field_line(name, e@),
        waypoint_line(name, Result::Err(e)) == field_line(name, e@),
        consensus_line(Result::Err(e), expected_key) == field_line("consensus"@, e@),
        network_line(name, Result::Err(e), addrs) == field_line(name, e@),
        e@ != "match"@ ==> network_line(name, Result::Err(e), addrs) != assert_line(name, true),
        e@ != "MISMATCH"@ ==> network_line(name, Result::Err(e), addrs) != assert_line(
            name,
            false,
        ),
{
    if network_line(name, Result::Err(e), addrs) == assert_line(name, true) {
        lemma_field_line_injective(name, e@, "match"@);
    }
    if network_line(name, Result::Err(e), addrs) == assert_line(name, false) {
        lemma_field_line_injective(name, e@, "MISMATCH"@);
    }
}

/// An on-chain address list that did not decode is shown as the underlying
/// decode error's text in its comparison line, not as a boolean — the same
/// inline treatment a failed store read gets, and distinguishable from a
/// `match` or `MISMATCH` line whenever the error text differs from those
/// words.
pub proof fn lemma_undecodable_addresses_shown_inline(name: Seq<char>, stored: Vec<u8>, d: String)
    ensures
        network_line(name, Result::Ok(stored), Result::Err(d)) == field_line(name, d@),
        d@ != "match"@ ==> network_line(name, Result::Ok(stored), Result::Err(d)) != assert_line(
            name,
            true,
        ),
        d@ != "MISMATCH"@ ==> network_line(name, Result::Ok(stored), Result::Err(d))
            != assert_line(name, false),
{
    if network_line(name, Result::Ok(stored), Result::Err(d)) == assert_line(name, true) {
        lemma_field_line_injective(name, d@, "match"@);
    }
    if network_line(name, Result::Ok(stored), Result::Err(d)) == assert_line(name, false) {
        lemma_field_line_injective(name, d@, "MISMATCH"@);
    }
}

/// An owner account that is not registered in the recomputed validator set
/// is fatal to a verification run with a genesis file, with the exact
/// account-not-found message. (Without a genesis file no comparison runs and
/// `verify_genesis` always succeeds: its contract promises a report for
/// every snapshot.)
pub proof fn lemma_unregistered_account_is_fatal(
    snap: StoreSnapshot,
    st: GenesisState,
    s: String,
    a: String,
)
    requires
        snap.waypoint == Result::<String, String>::Ok(s),
        is_waypoint_str(s@),
        snap.owner_account == Result::<String, String>::Ok(a),
        is_hex64(a@),
        st.validator_set matches ValidatorSetQuery::Available(set) && !crate::model::has_match(
            set.payload@,
            a@,
        ),
    ensures
        compare_verdict(snap, st) == Result::<Seq<char>, Seq<char>>::Err(
            "Unable to find Validator account "@ + a@,
        ),
{
    let set = st.validator_set->Available_0;
    crate::model::lemma_find_first(set.payload@, a@);
}

/// A store that holds exactly the recomputed values — the canonical
/// checkpoint string, the registered consensus key, and each transport key
/// equal to the embedded key of the first registered address of its class —
/// compares clean: the comparison section is four `match` lines.
pub proof fn lemma_consistent_store_all_match(snap: StoreSnapshot, st: GenesisState)
    requires
        st.expected_waypoint.wf(),
        snap.waypoint matches Ok(s) && s@ == st.expected_waypoint.str_spec(),
        snap.owner_account matches Ok(a) && ({
            &&& is_hex64(a@)
            &&& validator_config_spec(st.validator_set, a@) matches Ok(config) && ({
                &&& snap.consensus_key matches Ok(k) && k@ == config.consensus_public_key@
                &&& snap.validator_network_key matches Ok(nk)
                    && config.validator_network_addresses matches Ok(va) && expected_network_key(
                    va,
                ) == Some(nk@)
                &&& snap.fullnode_network_key matches Ok(fk)
                    && config.fullnode_network_addresses matches Ok(fa) && expected_network_key(
                    fa,
                ) == Some(fk@)
            })
        }),
    ensures
        compare_verdict(snap, st) == Result::<Seq<char>, Seq<char>>::Ok(
            assert_line("waypoint"@, true) + assert_line("consensus"@, true) + assert_line(
                "validator_network"@,
                true,
            ) + assert_line("fullnode_network"@, true),
        ),
{
    lemma_waypoint_str_of_wf(st.expected_waypoint);
}

/// The same consistent store, except that the stored checkpoint is a
/// different (still canonical) checkpoint: only the checkpoint line reads
/// `MISMATCH`; the key comparisons still read `match`.
pub proof fn lemma_checkpoint_mismatch_is_isolated(snap: StoreSnapshot, st: GenesisState)
    requires
        st.expected_waypoint.wf(),
        snap.waypoint matches Ok(s) && is_waypoint_str(s@) && s@ != st.expected_waypoint.str_spec(),
        snap.owner_account matches Ok(a) && ({
            &&& is_hex64(a@)
            &&& validator_config_spec(st.validator_set, a@) matches Ok(config) && ({
                &&& snap.consensus_key matches Ok(k) && k@ == config.consensus_public_key@
                &&& snap.validator_network_key matches Ok(nk)
                    && config.validator_network_addresses matches Ok(va) && expected_network_key(
                    va,
                ) == Some(nk@)
                &&& snap.fullnode_network_key matches Ok(fk)
                    && config.fullnode_network_addresses matches Ok(fa) && expected_network_key(
                    fa,
                ) == Some(fk@)
            })
        }),
    ensures
        compare_verdict(snap, st) == Result::<Seq<char>, Seq<char>>::Ok(
            assert_line("waypoint"@, false) + assert_line("consensus"@, true) + assert_line(
                "validator_network"@,
                true,
            ) + assert_line("fullnode_network"@, true),
        ),
{
}

} // verus!
