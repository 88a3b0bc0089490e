//! The data the verification logic works on: account identifiers, the
//! on-chain validator registration records, the secure-store snapshot, and
//! the error type for fatal failures.

use vstd::prelude::*;
use crate::digits::push_chars;
use crate::waypoint::is_hex64;
use vstd::string::StringExecFns;

verus! {

/// A validator account identifier, held in its canonical textual form:
/// 64 lowercase hexadecimal characters.
#[derive(Debug, Clone)]
pub struct AccountAddress {
    /// The lowercase hexadecimal characters of the account identifier.
    pub hex: Vec<char>,
}

impl AccountAddress {
    /// A well-formed account identifier.
    pub open spec fn wf(self) -> bool {
        is_hex64(self.hex@)
    }
}

/// Parses an account identifier: exactly 64 lowercase hexadecimal characters.
pub fn account_from_str(s: &str) -> (r: Option<AccountAddress>)
    ensures
        match r {
            Some(a) => a.wf() && a.hex@ == s@,
            None => !is_hex64(s@),
        },
{
    match crate::waypoint::hex_chars_of_str(s) {
        Some(hex) => Some(AccountAddress { hex }),
        None => None,
    }
}

/// One registered network address. Only what the verification reads is held:
/// the transport identity key embedded in the address, if the address uses
/// the encrypted transport.
#[derive(Debug, Clone)]
pub struct NetworkAddress {
    /// The embedded transport identity public key, if any.
    pub noise_key: Option<Vec<u8>>,
}

/// The on-chain registration record of one validator: its consensus public
/// key and its registered network addresses for the two traffic classes.
/// An address list carries the decode error's text when the on-chain
/// encoding of that list could not be decoded.
#[derive(Debug)]
pub struct ValidatorConfig {
    /// The registered consensus public key.
    pub consensus_public_key: Vec<u8>,
    /// Addresses for validator-to-validator traffic, in registration order.
    pub validator_network_addresses: Result<Vec<NetworkAddress>, String>,
    /// Addresses for fullnode-facing traffic, in registration order.
    pub fullnode_network_addresses: Result<Vec<NetworkAddress>, String>,
}

/// One entry of the on-chain validator set.
#[derive(Debug)]
pub struct ValidatorInfo {
    /// The validator's account identifier.
    pub account_address: AccountAddress,
    /// The validator's registration record.
    pub config: ValidatorConfig,
}

/// The on-chain validator set: the registered validators in on-chain order.
#[derive(Debug)]
pub struct ValidatorSet {
    /// The registration entries.
    pub payload: Vec<ValidatorInfo>,
}

/// The outcome of asking the recomputed ledger for the validator set record.
#[derive(Debug)]
pub enum ValidatorSetQuery {
    /// The record was read and decoded.
    Available(ValidatorSet),
    /// The record does not exist in the recomputed state.
    Absent,
    /// The point-in-time state view could not be created.
    ViewFailed(String),
    /// The record could not be read or decoded.
    ReadFailed(String),
}

/// A fatal verification failure. Field-level fetch problems are never fatal;
/// they are rendered inline in the report instead.
#[derive(Debug)]
pub enum VerifyError {
    /// A failure described by its message text.
    UnexpectedError(String),
}

impl VerifyError {
    /// The message text of this error.
    pub open spec fn message_spec(self) -> Seq<char> {
        match self {
            VerifyError::UnexpectedError(m) => m@,
        }
    }

    /// Returns the message text of this error.
    pub fn message(&self) -> (s: &String)
        ensures
            s@ == self.message_spec(),
    {
        match self {
            VerifyError::UnexpectedError(m) => m,
        }
    }
}

/// One point-in-time read of every store field the report shows. Each field
/// carries either its value or the display text of its fetch error.
#[derive(Debug)]
pub struct StoreSnapshot {
    /// The consensus signing public key, as bytes.
    pub consensus_key: Result<Vec<u8>, String>,
    /// The fullnode-facing network transport public key, as bytes.
    pub fullnode_network_key: Result<Vec<u8>, String>,
    /// The owner public key, as bytes.
    pub owner_key: Result<Vec<u8>, String>,
    /// The operator public key, as bytes.
    pub operator_key: Result<Vec<u8>, String>,
    /// The validator-facing network transport public key, as bytes.
    pub validator_network_key: Result<Vec<u8>, String>,
    /// The operator account identifier, as stored.
    pub operator_account: Result<String, String>,
    /// The owner account identifier, as stored.
    pub owner_account: Result<String, String>,
    /// The consensus safety-tracking record, already rendered as text.
    pub safety_data: Result<String, String>,
    /// The stored checkpoint string.
    pub waypoint: Result<String, String>,
}

/// Whether `payload[i]` is the first entry registered under `account`.
pub open spec fn first_match_at(payload: Seq<ValidatorInfo>, account: Seq<char>, i: int) -> bool {
    &&& 0 <= i < payload.len()
    &&& payload[i].account_address.hex@ == account
    &&& forall|j: int| 0 <= j < i ==> (#[trigger] payload[j]).account_address.hex@ != account
}

/// Whether some entry of `payload` is registered under `account`.
pub open spec fn has_match(payload: Seq<ValidatorInfo>, account: Seq<char>) -> bool {
    exists|i: int|
        0 <= i < payload.len() && (#[trigger] payload[i]).account_address.hex@ == account
}

/// The registration record of the first entry registered under `account`,
/// if any.
pub open spec fn find_first(payload: Seq<ValidatorInfo>, account: Seq<char>) -> Option<
    ValidatorConfig,
>
    decreases payload.len(),
{
    if payload.len() == 0 {
        None
    } else if payload[0].account_address.hex@ == account {
        Some(payload[0].config)
    } else {
        find_first(payload.drop_first(), account)
    }
}

/// `find_first` succeeds exactly on the accounts that have an entry, and
/// returns the record at the first matching position.
pub proof fn lemma_find_first(payload: Seq<ValidatorInfo>, account: Seq<char>)
    ensures
        find_first(payload, account) is Some <==> has_match(payload, account),
        forall|i: int|
            first_match_at(payload, account, i) ==> find_first(payload, account) == Some(
                payload[i].config,
            ),
    decreases payload.len(),
{
    if payload.len() != 0 && payload[0].account_address.hex@ != account {
        lemma_find_first(payload.drop_first(), account);
        let rest = payload.drop_first();
        if has_match(payload, account) {
            let w = choose|i: int|
                0 <= i < payload.len() && (#[trigger] payload[i]).account_address.hex@ == account;
            assert(rest[w - 1] == payload[w]);
            assert(has_match(rest, account));
        }
        if has_match(rest, account) {
            let w = choose|i: int|
                0 <= i < rest.len() && (#[trigger] rest[i]).account_address.hex@ == account;
            assert(payload[w + 1] == rest[w]);
            assert(has_match(payload, account));
        }
        assert forall|i: int| first_match_at(payload, account, i) implies find_first(
            payload,
            account,
        ) == Some(payload[i].config) by {
            assert(i >= 1);
            assert(rest[i - 1] == payload[i]);
            assert forall|j: int| 0 <= j < i - 1 implies (#[trigger] rest[j]).account_address.hex@
                != account by {
                assert(payload[j + 1] == rest[j]);
            }
            assert(first_match_at(rest, account, i - 1));
        }
    }
}

/// What resolving the registration record for `account` yields: the first
/// matching entry's record, or the exact fatal message.
pub open spec fn validator_config_spec(
    query: ValidatorSetQuery,
    account: Seq<char>,
) -> Result<ValidatorConfig, Seq<char>> {
    match query {
        ValidatorSetQuery::Available(set) => {
            match find_first(set.payload@, account) {
                Some(c) => Result::Ok(c),
                None => Result::Err("Unable to find Validator account "@ + account),
            }
        },
        ValidatorSetQuery::Absent => Result::Err("ValidatorSet does not exist"@),
        ValidatorSetQuery::ViewFailed(e) => Result::Err("Can't create latest db state view "@ + e@),
        ValidatorSetQuery::ReadFailed(e) => Result::Err("ValidatorSet issue "@ + e@),
    }
}

/// Resolves the on-chain registration record for `validator_account` from the
/// recomputed ledger's validator set, returning the first matching entry's
/// record, or the fatal error when the set is unavailable or the account is
/// not registered.
pub fn validator_config(validator_account: &AccountAddress, query: ValidatorSetQuery) -> (r: Result<
    ValidatorConfig,
    VerifyError,
>)
    ensures
        match validator_config_spec(query, validator_account.hex@) {
            Result::Ok(c) => r matches Ok(rc) && rc == c,
            Result::Err(m) => r matches Err(e) && e.message_spec() == m,
        },
{
    let ghost gquery = query;
    match query {
        ValidatorSetQuery::Available(set) => {
            let ghost gset = set;
            let mut payload = set.payload;
            let ghost entries = payload@;
            let ghost account = validator_account.hex@;
            let mut i: usize = 0;
            proof {
                assert(entries.skip(0) =~= entries);
            }
            while i < payload.len()
                invariant
                    i <= payload.len(),
                    payload@ == entries,
                    account == validator_account.hex@,
                    gquery == query,
                    gquery == ValidatorSetQuery::Available(gset),
                    entries == gset.payload@,
                    find_first(entries, account) == find_first(entries.skip(i as int), account),
                decreases payload.len() - i,
            {
                if chars_equal(&payload[i].account_address.hex, &validator_account.hex) {
                    proof {
                        assert(entries.skip(i as int)[0] == entries[i as int]);
                        assert(find_first(entries.skip(i as int), account) == Some(
                            entries[i as int].config,
                        ));
                    }
                    let info = payload.remove(i);
                    return Ok(info.config);
                }
                proof {
                    assert(entries.skip(i as int)[0] == entries[i as int]);
                    assert(entries.skip(i as int).drop_first() =~= entries.skip(i + 1));
                }
                i = i + 1;
            }
            proof {
                assert(entries.skip(entries.len() as int) =~= Seq::<ValidatorInfo>::empty());
                assert(find_first(entries, account) is None);
            }
            let mut message = String::new();
            message.append("Unable to find Validator account ");
            push_chars(&mut message, &validator_account.hex);
            proof {
                assert((Seq::<char>::empty() + "Unable to find Validator account "@)
                    + validator_account.hex@ =~= "Unable to find Validator account "@
                    + validator_account.hex@);
            }
            Err(VerifyError::UnexpectedError(message))
        },
        ValidatorSetQuery::Absent => {
            let mut message = String::new();
            message.append("ValidatorSet does not exist");
            proof {
                assert(Seq::<char>::empty() + "ValidatorSet does not exist"@
                    =~= "ValidatorSet does not exist"@);
            }
            Err(VerifyError::UnexpectedError(message))
        },
        ValidatorSetQuery::ViewFailed(e) => {
            let mut message = String::new();
            message.append("Can't create latest db state view ");
            message.append(e.as_str());
            proof {
                assert((Seq::<char>::empty() + "Can't create latest db state view "@) + e@
                    =~= "Can't create latest db state view "@ + e@);
            }
            Err(VerifyError::UnexpectedError(message))
        },
        ValidatorSetQuery::ReadFailed(e) => {
            let mut message = String::new();
            message.append("ValidatorSet issue ");
            message.append(e.as_str());
            proof {
                assert((Seq::<char>::empty() + "ValidatorSet issue "@) + e@ =~= "ValidatorSet issue "@
                    + e@);
            }
            Err(VerifyError::UnexpectedError(message))
        },
    }
}

/// Whether two character sequences are equal.
pub fn chars_equal(a: &Vec<char>, b: &Vec<char>) -> (r: bool)
    ensures
        r == (a@ == b@),
{
    if a.len() != b.len() {
        proof {
            assert(a@ != b@);
        }
        return false;
    }
    let mut i: usize = 0;
    while i < a.len()
        invariant
            i <= a.len(),
            a@.len() == b@.len(),
            forall|j: int| 0 <= j < i ==> a@[j] == b@[j],
        decreases a.len() - i,
    {
        if a[i] != b[i] {
            proof {
                assert(a@ != b@);
            }
            return false;
        }
        i = i + 1;
    }
    proof {
        assert(a@ =~= b@);
    }
    true
}

/// Whether two byte sequences are equal.
pub fn bytes_equal(a: &Vec<u8>, b: &Vec<u8>) -> (r: bool)
    ensures
        r == (a@ == b@),
{
    if a.len() != b.len() {
        proof {
            assert(a@ != b@);
        }
        return false;
    }
    let mut i: usize = 0;
    while i < a.len()
        invariant
            i <= a.len(),
            a@.len() == b@.len(),
            forall|j: int| 0 <= j < i ==> a@[j] == b@[j],
        decreases a.len() - i,
    {
        if a[i] != b[i] {
            proof {
                assert(a@ != b@);
            }
            return false;
        }
        i = i + 1;
    }
    proof {
        assert(a@ =~= b@);
    }
    true
}

} // verus!
