//! The checkpoint ("waypoint") value: a ledger version bound to a state hash,
//! with a canonical textual form `version:hash` (decimal version, then a colon,
//! then 64 lowercase hexadecimal characters).

use vstd::prelude::*;
use crate::digits::{
    dec_char_value, dec_seq_of, dec_value, is_canonical_dec, is_dec_char, is_hex_char,
    lemma_dec_seq_canonical, lemma_dec_seq_injective, lemma_dec_seq_of_value,
    lemma_dec_value_of_seq, push_char, push_dec,
};
use vstd::string::StrSliceExecFns;

verus! {

/// The number of hexadecimal characters in a state hash.
pub const HASH_CHARS: usize = 64;

/// A checkpoint binding a ledger version to the hash of the state at that
/// version. The hash is held in its canonical textual form.
#[derive(Debug, Clone)]
pub struct Waypoint {
    /// The ledger version of the checkpoint.
    pub version: u64,
    /// The lowercase hexadecimal characters of the state hash.
    pub hash: Vec<char>,
}

/// A 64-character lowercase hexadecimal string.
pub open spec fn is_hex64(s: Seq<char>) -> bool {
    &&& s.len() == HASH_CHARS
    &&& forall|i: int| 0 <= i < s.len() ==> is_hex_char(#[trigger] s[i])
}

impl Waypoint {
    /// A well-formed waypoint: the hash is exactly 64 lowercase hexadecimal
    /// characters.
    pub open spec fn wf(self) -> bool {
        is_hex64(self.hash@)
    }

    /// The canonical string of this waypoint.
    pub open spec fn str_spec(self) -> Seq<char> {
        dec_seq_of(self.version as nat) + seq![':'] + self.hash@
    }

    /// Renders the canonical `version:hash` string.
    pub fn to_text(&self) -> (r: String)
        requires
            self.wf(),
        ensures
            r@ == self.str_spec(),
    {
        let mut out = String::new();
        push_dec(&mut out, self.version);
        push_char(&mut out, ':');
        let mut i: usize = 0;
        proof {
            assert(self.hash@.take(0) =~= Seq::<char>::empty());
            assert(out@ =~= dec_seq_of(self.version as nat) + seq![':'] + self.hash@.take(0));
        }
        while i < self.hash.len()
            invariant
                i <= self.hash.len(),
                out@ == dec_seq_of(self.version as nat) + seq![':'] + self.hash@.take(i as int),
            decreases self.hash.len() - i,
        {
            push_char(&mut out, self.hash[i]);
            proof {
                assert(self.hash@.take(i + 1) =~= self.hash@.take(i as int).push(self.hash@[
                    i as int]));
                assert((dec_seq_of(self.version as nat) + seq![':'] + self.hash@.take(
                    i as int,
                )).push(self.hash@[i as int]) =~= dec_seq_of(self.version as nat) + seq![':']
                    + self.hash@.take(i + 1));
            }
            i = i + 1;
        }
        proof {
            assert(self.hash@.take(self.hash@.len() as int) =~= self.hash@);
        }
        out
    }

    /// Whether two waypoints denote the same checkpoint.
    pub fn equals(&self, other: &Waypoint) -> (r: bool)
        ensures
            r == (self.version == other.version && self.hash@ == other.hash@),
    {
        if self.version != other.version {
            return false;
        }
        if self.hash.len() != other.hash.len() {
            proof {
                assert(self.hash@ != other.hash@);
            }
            return false;
        }
        let mut i: usize = 0;
        while i < self.hash.len()
            invariant
                i <= self.hash.len(),
                self.hash@.len() == other.hash@.len(),
                forall|j: int| 0 <= j < i ==> self.hash@[j] == other.hash@[j],
            decreases self.hash.len() - i,
        {
            if self.hash[i] != other.hash[i] {
                proof {
                    assert(self.hash@ != other.hash@);
                }
                return false;
            }
            i = i + 1;
        }
        proof {
            assert(self.hash@ =~= other.hash@);
        }
        true
    }
}

/// A string is a waypoint string when it splits at a colon into a canonical
/// decimal version that fits a `u64` and a 64-character lowercase hexadecimal
/// hash.
pub open spec fn is_waypoint_str(s: Seq<char>) -> bool {
    exists|i: int|
        {
            &&& 0 <= i < s.len()
            &&& #[trigger] s[i] == ':'
            &&& is_canonical_dec(s.take(i))
            &&& dec_value(s.take(i)) <= u64::MAX
            &&& is_hex64(s.skip(i + 1))
        }
}

/// A decimal digit character is never a colon, so the split point of a
/// waypoint string can only be its first colon.
proof fn lemma_waypoint_split_at(s: Seq<char>, p: int)
    requires
        0 <= p < s.len(),
        s[p] == ':',
        forall|j: int| 0 <= j < p ==> s[j] != ':',
        is_waypoint_str(s),
    ensures
        is_canonical_dec(s.take(p)),
        dec_value(s.take(p)) <= u64::MAX,
        is_hex64(s.skip(p + 1)),
{
    let i = choose|i: int|
        {
            &&& 0 <= i < s.len()
            &&& #[trigger] s[i] == ':'
            &&& is_canonical_dec(s.take(i))
            &&& dec_value(s.take(i)) <= u64::MAX
            &&& is_hex64(s.skip(i + 1))
        };
    if i > p {
        assert(s.take(i)[p] == ':');
        assert(is_dec_char(s.take(i)[p]));
        assert(':' as u32 == 58);
        assert(false);
    }
    assert(i == p);
}

/// The canonical string of a well-formed waypoint is a waypoint string.
pub proof fn lemma_waypoint_str_of_wf(w: Waypoint)
    requires
        w.wf(),
    ensures
        is_waypoint_str(w.str_spec()),
{
    let s = w.str_spec();
    let d = dec_seq_of(w.version as nat);
    lemma_dec_seq_canonical(w.version as nat);
    lemma_dec_value_of_seq(w.version as nat);
    let p = d.len() as int;
    assert(s[p] == ':');
    assert(s.take(p) =~= d);
    assert(s.skip(p + 1) =~= w.hash@);
}

/// Two well-formed waypoints with the same canonical string are the same
/// checkpoint.
pub proof fn lemma_waypoint_str_injective(a: Waypoint, b: Waypoint)
    requires
        a.wf(),
        b.wf(),
        a.str_spec() == b.str_spec(),
    ensures
        a.version == b.version,
        a.hash@ == b.hash@,
{
    let s = a.str_spec();
    let da = dec_seq_of(a.version as nat);
    let db = dec_seq_of(b.version as nat);
    lemma_dec_seq_canonical(a.version as nat);
    lemma_dec_seq_canonical(b.version as nat);
    assert(':' as u32 == 58);
    if da.len() < db.len() {
        assert(s[da.len() as int] == ':');
        assert(b.str_spec()[da.len() as int] == db[da.len() as int]);
        assert(is_dec_char(db[da.len() as int]));
        assert(false);
    }
    if db.len() < da.len() {
        assert(s[db.len() as int] == ':');
        assert(a.str_spec()[db.len() as int] == da[db.len() as int]);
        assert(is_dec_char(da[db.len() as int]));
        assert(false);
    }
    assert(da =~= s.take(da.len() as int));
    assert(db =~= s.take(da.len() as int));
    lemma_dec_seq_injective(a.version as nat, b.version as nat);
    assert(a.hash@ =~= s.skip(da.len() as int + 1));
    assert(b.hash@ =~= s.skip(da.len() as int + 1));
}

/// The value of a digit string never shrinks as digits are appended.
proof fn lemma_dec_value_prefix_le(s: Seq<char>, j: int, p: int)
    requires
        0 <= j <= p <= s.len(),
    ensures
        dec_value(s.take(j)) <= dec_value(s.take(p)),
    decreases p - j,
{
    if j < p {
        lemma_dec_value_prefix_le(s, j + 1, p);
        assert(s.take(j + 1).drop_last() =~= s.take(j));
        assert(dec_value(s.take(j + 1)) == dec_value(s.take(j)) * 10 + dec_char_value(s.take(
            j + 1,
        ).last()));
        assert(dec_value(s.take(j)) <= dec_value(s.take(j)) * 10) by (nonlinear_arith);
    }
}

/// Collects the characters of a 64-character lowercase hexadecimal string,
/// or reports that the string is not one.
pub fn hex_chars_of_str(s: &str) -> (r: Option<Vec<char>>)
    ensures
        match r {
            Some(v) => v@ == s@ && is_hex64(s@),
            None => !is_hex64(s@),
        },
{
    let n = s.unicode_len();
    if n != HASH_CHARS {
        return None;
    }
    let mut out: Vec<char> = Vec::new();
    let mut i: usize = 0;
    while i < n
        invariant
            i <= n,
            n == s@.len(),
            n == HASH_CHARS,
            out@ == s@.take(i as int),
            forall|j: int| 0 <= j < i ==> is_hex_char(#[trigger] s@[j]),
        decreases n - i,
    {
        let c = s.get_char(i);
        let code = c as u32;
        if !((48 <= code && code <= 57) || (97 <= code && code <= 102)) {
            return None;
        }
        out.push(c);
        proof {
            assert(s@.take(i + 1) =~= s@.take(i as int).push(s@[i as int]));
        }
        i = i + 1;
    }
    proof {
        assert(s@.take(n as int) =~= s@);
    }
    Some(out)
}

/// Parses a canonical `version:hash` string. Returns the waypoint it denotes,
/// or `None` exactly when the string is not a waypoint string.
pub fn waypoint_from_str(s: &str) -> (r: Option<Waypoint>)
    ensures
        match r {
            Some(w) => w.wf() && s@ == w.str_spec(),
            None => !is_waypoint_str(s@),
        },
{
    let n = s.unicode_len();
    // Find the first colon.
    let mut p: usize = 0;
    loop
        invariant
            p <= n,
            n == s@.len(),
            forall|j: int| 0 <= j < p ==> s@[j] != ':',
        ensures
            p < n,
            s@[p as int] == ':',
            forall|j: int| 0 <= j < p ==> s@[j] != ':',
        decreases n - p,
    {
        if p == n {
            proof {
                if is_waypoint_str(s@) {
                    let i = choose|i: int|
                        {
                            &&& 0 <= i < s@.len()
                            &&& #[trigger] s@[i] == ':'
                            &&& is_canonical_dec(s@.take(i))
                            &&& dec_value(s@.take(i)) <= u64::MAX
                            &&& is_hex64(s@.skip(i + 1))
                        };
                    assert(s@[i] != ':');
                }
            }
            return None;
        }
        let c = s.get_char(p);
        if c as u32 == 58 {
            proof {
                assert(':' as u32 == 58);
                assert(c == ':');
            }
            break;
        }
        proof {
            assert(':' as u32 == 58);
            assert(s@[p as int] != ':');
        }
        p = p + 1;
    }
    // The version: a canonical decimal that fits a u64.
    if p == 0 {
        proof {
            if is_waypoint_str(s@) {
                lemma_waypoint_split_at(s@, 0);
            }
        }
        return None;
    }
    let mut version: u64 = 0;
    let mut j: usize = 0;
    while j < p
        invariant
            0 <= j <= p < n,
            n == s@.len(),
            s@[p as int] == ':',
            forall|jj: int| 0 <= jj < p ==> s@[jj] != ':',
            forall|jj: int| 0 <= jj < j ==> is_dec_char(#[trigger] s@[jj]),
            j > 0 ==> dec_char_value(s@[0]) != 0 || p == 1,
            version as nat == dec_value(s@.take(j as int)),
        decreases p - j,
    {
        let c = s.get_char(j);
        let code = c as u32;
        if !(48 <= code && code <= 57) {
            proof {
                if is_waypoint_str(s@) {
                    lemma_waypoint_split_at(s@, p as int);
                    assert(is_dec_char(s@.take(p as int)[j as int]));
                }
            }
            return None;
        }
        let d = (code - 48) as u64;
        if j == 0 && d == 0 && p > 1 {
            proof {
                if is_waypoint_str(s@) {
                    lemma_waypoint_split_at(s@, p as int);
                    assert(dec_char_value(s@.take(p as int)[0]) == 0);
                }
            }
            return None;
        }
        if version > (u64::MAX - d) / 10 {
            proof {
                if is_waypoint_str(s@) {
                    lemma_waypoint_split_at(s@, p as int);
                    let t = s@.take(p as int);
                    assert(t.take(j + 1).drop_last() =~= t.take(j as int));
                    assert(t.take(j as int) =~= s@.take(j as int));
                    assert(t.take(j + 1).last() == s@[j as int]);
                    assert(dec_value(t.take(j + 1)) == dec_value(s@.take(j as int)) * 10
                        + dec_char_value(s@[j as int]));
                    assert(version * 10 + d > u64::MAX) by {
                        let m = u64::MAX - d;
                        assert(version >= m / 10 + 1);
                        vstd::arithmetic::div_mod::lemma_fundamental_div_mod(m as int, 10);
                        assert(version * 10 >= (m / 10 + 1) * 10) by (nonlinear_arith)
                            requires
                                version >= m / 10 + 1,
                        {}
                        assert((m / 10 + 1) * 10 == (m / 10) * 10 + 10);
                        assert((m / 10) * 10 + 10 > m);
                    }
                    lemma_dec_value_prefix_le(t, j + 1, p as int);
                    assert(t.take(p as int) =~= t);
                    assert(dec_value(t) > u64::MAX);
                }
            }
            return None;
        }
        version = version * 10 + d;
        proof {
            assert(s@.take(j + 1).drop_last() =~= s@.take(j as int));
            assert(s@.take(j + 1).last() == s@[j as int]);
            assert(dec_char_value(s@[j as int]) == d);
        }
        j = j + 1;
    }
    // The hash: exactly 64 lowercase hexadecimal characters after the colon.
    if n - p - 1 != HASH_CHARS {
        proof {
            if is_waypoint_str(s@) {
                lemma_waypoint_split_at(s@, p as int);
                assert(s@.skip(p + 1).len() == n - p - 1);
            }
        }
        return None;
    }
    let mut hash: Vec<char> = Vec::new();
    let mut k: usize = p + 1;
    while k < n
        invariant
            p + 1 <= k <= n,
            n == s@.len(),
            s@[p as int] == ':',
            forall|jj: int| 0 <= jj < p ==> s@[jj] != ':',
            hash@ == s@.subrange(p + 1, k as int),
            forall|jj: int| 0 <= jj < hash@.len() ==> is_hex_char(#[trigger] hash@[jj]),
        decreases n - k,
    {
        let c = s.get_char(k);
        let code = c as u32;
        if !((48 <= code && code <= 57) || (97 <= code && code <= 102)) {
            proof {
                if is_waypoint_str(s@) {
                    lemma_waypoint_split_at(s@, p as int);
                    assert(is_hex_char(s@.skip(p + 1)[k - p - 1]));
                    assert(s@.skip(p + 1)[k - p - 1] == s@[k as int]);
                }
            }
            return None;
        }
        hash.push(c);
        proof {
            assert(s@.subrange(p + 1, k + 1) =~= s@.subrange(p + 1, k as int).push(s@[k as int]));
        }
        k = k + 1;
    }
    let w = Waypoint { version, hash };
    proof {
        let t = s@.take(p as int);
        assert(t =~= s@.take(j as int));
        assert(is_canonical_dec(t));
        lemma_dec_seq_of_value(t);
        assert(dec_seq_of(w.version as nat) == t);
        assert(w.hash@ =~= s@.subrange(p + 1, n as int));
        assert(w.hash@.len() == HASH_CHARS);
        assert(s@ =~= t + seq![s@[p as int]] + s@.subrange(p + 1, n as int));
        assert(s@ == w.str_spec());
    }
    Some(w)
}

} // verus!
