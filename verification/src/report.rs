//! Report rendering: the fixed-layout text that shows every stored field and,
//! when a genesis comparison ran, one match/MISMATCH line per compared field.

use vstd::prelude::*;
use crate::digits::{hex_of, push_hex};
use crate::model::StoreSnapshot;
use crate::waypoint::{is_waypoint_str, waypoint_from_str, Waypoint};
use vstd::string::{StrSliceExecFns, StringExecFns};

verus! {

/// One report line: `name - value`.
pub open spec fn field_line(name: Seq<char>, value: Seq<char>) -> Seq<char> {
    name + " - "@ + value + "\n"@
}

/// One comparison line: `name - match` or `name - MISMATCH`.
pub open spec fn assert_line(name: Seq<char>, matched: bool) -> Seq<char> {
    field_line(name, if matched { "match"@ } else { "MISMATCH"@ })
}

/// The section separator line.
pub open spec fn break_line() -> Seq<char> {
    "====================================================================================\n"@
}

/// The line for a stored key: its bytes in lowercase hexadecimal, or the
/// fetch error's text.
pub open spec fn key_line(name: Seq<char>, fetched: Result<Vec<u8>, String>) -> Seq<char> {
    match fetched {
        Ok(k) => field_line(name, hex_of(k@)),
        Err(e) => field_line(name, e@),
    }
}

/// The line for a stored string: the string itself, or the fetch error's
/// text.
pub open spec fn string_line(name: Seq<char>, fetched: Result<String, String>) -> Seq<char> {
    match fetched {
        Ok(v) => field_line(name, v@),
        Err(e) => field_line(name, e@),
    }
}

/// How a stored checkpoint string is shown: the distinguished empty string
/// as `empty`, a canonical checkpoint as itself, anything else as
/// `Invalid waypoint`.
pub open spec fn waypoint_text(s: Seq<char>) -> Seq<char> {
    if s.len() == 0 {
        "empty"@
    } else if is_waypoint_str(s) {
        s
    } else {
        "Invalid waypoint"@
    }
}

/// The line for the stored checkpoint.
pub open spec fn waypoint_line(name: Seq<char>, fetched: Result<String, String>) -> Seq<char> {
    match fetched {
        Ok(s) => field_line(name, waypoint_text(s@)),
        Err(e) => field_line(name, e@),
    }
}

/// Appends one `name - value` line.
pub fn write_field(buffer: &mut String, name: &str, value: &str)
    ensures
        final(buffer)@ == old(buffer)@ + field_line(name@, value@),
{
    buffer.append(name);
    buffer.append(" - ");
    buffer.append(value);
    buffer.append("\n");
    proof {
        assert(old(buffer)@ + name@ + " - "@ + value@ + "\n"@ =~= old(buffer)@ + field_line(
            name@,
            value@,
        ));
    }
}

/// Appends one `name - match` or `name - MISMATCH` line.
pub fn write_assert(buffer: &mut String, name: &str, value: bool)
    ensures
        final(buffer)@ == old(buffer)@ + assert_line(name@, value),
{
    if value {
        write_field(buffer, name, "match");
    } else {
        write_field(buffer, name, "MISMATCH");
    }
}

/// Appends the section separator line.
pub fn write_break(buffer: &mut String)
    ensures
        final(buffer)@ == old(buffer)@ + break_line(),
{
    buffer.append(
        "====================================================================================\n",
    );
}

/// Appends the line for a stored key.
pub fn write_key(buffer: &mut String, name: &str, fetched: &Result<Vec<u8>, String>)
    ensures
        final(buffer)@ == old(buffer)@ + key_line(name@, *fetched),
{
    match fetched {
        Ok(k) => {
            buffer.append(name);
            buffer.append(" - ");
            push_hex(buffer, k);
            buffer.append("\n");
            proof {
                assert(old(buffer)@ + name@ + " - "@ + hex_of(k@) + "\n"@ =~= old(buffer)@
                    + key_line(name@, *fetched));
            }
        },
        Err(e) => {
            write_field(buffer, name, e.as_str());
        },
    }
}

/// Appends the line for a stored string.
pub fn write_string(buffer: &mut String, name: &str, fetched: &Result<String, String>)
    ensures
        final(buffer)@ == old(buffer)@ + string_line(name@, *fetched),
{
    match fetched {
        Ok(v) => write_field(buffer, name, v.as_str()),
        Err(e) => write_field(buffer, name, e.as_str()),
    }
}

/// A stored checkpoint: either the distinguished "not yet set" sentinel, or
/// a checkpoint value.
#[derive(Debug)]
pub enum StoredWaypoint {
    /// No checkpoint has been stored yet (the empty string).
    Unset,
    /// A stored checkpoint.
    Present(Waypoint),
}

/// Classifies a stored checkpoint string: the empty string is the `Unset`
/// sentinel, a canonical checkpoint string is its checkpoint, and anything
/// else is rejected.
pub fn classify_stored_waypoint(s: &str) -> (r: Option<StoredWaypoint>)
    ensures
        match r {
            Some(StoredWaypoint::Unset) => s@.len() == 0,
            Some(StoredWaypoint::Present(w)) => s@.len() > 0 && w.wf() && s@ == w.str_spec(),
            None => s@.len() > 0 && !is_waypoint_str(s@),
        },
{
    if s.unicode_len() == 0 {
        Some(StoredWaypoint::Unset)
    } else {
        match waypoint_from_str(s) {
            Some(w) => Some(StoredWaypoint::Present(w)),
            None => None,
        }
    }
}

/// Appends the line for the stored checkpoint.
pub fn write_waypoint(buffer: &mut String, name: &str, fetched: &Result<String, String>)
    ensures
        final(buffer)@ == old(buffer)@ + waypoint_line(name@, *fetched),
{
    match fetched {
        Ok(s) => {
            match classify_stored_waypoint(s.as_str()) {
                Some(StoredWaypoint::Unset) => write_field(buffer, name, "empty"),
                Some(StoredWaypoint::Present(w)) => {
                    proof {
                        crate::waypoint::lemma_waypoint_str_of_wf(w);
                        assert(is_waypoint_str(s@));
                    }
                    write_field(buffer, name, s.as_str());
                },
                None => write_field(buffer, name, "Invalid waypoint"),
            }
        },
        Err(e) => write_field(buffer, name, e.as_str()),
    }
}

/// The full dump section of the report: a header, the five stored keys, and
/// the four stored data fields, each section between separator lines.
pub open spec fn dump_spec(snap: StoreSnapshot) -> Seq<char> {
    "Data stored in SecureStorage:\n"@ + break_line() + "Keys\n"@ + break_line() + key_line(
        "consensus"@,
        snap.consensus_key,
    ) + key_line("fullnode_network"@, snap.fullnode_network_key) + key_line("owner"@, snap.owner_key)
        + key_line("operator"@, snap.operator_key) + key_line(
        "validator_network"@,
        snap.validator_network_key,
    ) + break_line() + "Data\n"@ + break_line() + string_line(
        "operator_account"@,
        snap.operator_account,
    ) + string_line("owner_account"@, snap.owner_account) + string_line(
        "safety_data"@,
        snap.safety_data,
    ) + waypoint_line("waypoint"@, snap.waypoint) + break_line()
}

/// Appends the full dump section for one store snapshot.
pub fn write_dump(buffer: &mut String, snap: &StoreSnapshot)
    ensures
        final(buffer)@ == old(buffer)@ + dump_spec(*snap),
{
    buffer.append("Data stored in SecureStorage:\n");
    write_break(buffer);
    buffer.append("Keys\n");
    write_break(buffer);
    write_key(buffer, "consensus", &snap.consensus_key);
    write_key(buffer, "fullnode_network", &snap.fullnode_network_key);
    write_key(buffer, "owner", &snap.owner_key);
    write_key(buffer, "operator", &snap.operator_key);
    write_key(buffer, "validator_network", &snap.validator_network_key);
    write_break(buffer);
    buffer.append("Data\n");
    write_break(buffer);
    write_string(buffer, "operator_account", &snap.operator_account);
    write_string(buffer, "owner_account", &snap.owner_account);
    write_string(buffer, "safety_data", &snap.safety_data);
    write_waypoint(buffer, "waypoint", &snap.waypoint);
    write_break(buffer);
    proof {
        assert(buffer@ =~= old(buffer)@ + dump_spec(*snap));
    }
}

} // verus!
