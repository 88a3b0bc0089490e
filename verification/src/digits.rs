//! Decimal and hexadecimal digit sequences: the textual building blocks for
//! checkpoint strings, account identifiers and key dumps.

use vstd::prelude::*;
use vstd::arithmetic::div_mod::{lemma_fundamental_div_mod, lemma_fundamental_div_mod_converse};

verus! {

/// The character for a single digit value below 16: `'0'..='9'` then `'a'..='f'`.
pub open spec fn digit_char(v: nat) -> char
    recommends
        v < 16,
{
    if v < 10 {
        ((v + 48) as u8) as char
    } else {
        ((v + 87) as u8) as char
    }
}

/// Whether `c` is a decimal digit character.
pub open spec fn is_dec_char(c: char) -> bool {
    48 <= c as u32 <= 57
}

/// Whether `c` is a lowercase hexadecimal digit character.
pub open spec fn is_hex_char(c: char) -> bool {
    48 <= c as u32 <= 57 || 97 <= c as u32 <= 102
}

/// The numeric value of a decimal digit character.
pub open spec fn dec_char_value(c: char) -> nat
    recommends
        is_dec_char(c),
{
    (c as u32 - 48) as nat
}

/// The canonical decimal rendering of `n`: no sign, no leading zeros.
pub open spec fn dec_seq_of(n: nat) -> Seq<char>
    decreases n,
{
    if n < 10 {
        seq![digit_char(n)]
    } else {
        dec_seq_of(n / 10).push(digit_char(n % 10))
    }
}

/// The value of a decimal digit string, most significant digit first.
pub open spec fn dec_value(s: Seq<char>) -> nat
    decreases s.len(),
{
    if s.len() == 0 {
        0
    } else {
        dec_value(s.drop_last()) * 10 + dec_char_value(s.last())
    }
}

/// A canonical decimal string: nonempty, all digits, and no leading zero
/// unless the string is a single digit.
pub open spec fn is_canonical_dec(s: Seq<char>) -> bool {
    &&& s.len() > 0
    &&& forall|i: int| 0 <= i < s.len() ==> is_dec_char(#[trigger] s[i])
    &&& (dec_char_value(s[0]) != 0 || s.len() == 1)
}

/// The two lowercase hexadecimal characters of one byte, high nibble first.
pub open spec fn hex_of_byte(b: u8) -> Seq<char> {
    seq![digit_char((b / 16) as nat), digit_char((b % 16) as nat)]
}

/// The lowercase hexadecimal rendering of a byte sequence.
pub open spec fn hex_of(bytes: Seq<u8>) -> Seq<char>
    decreases bytes.len(),
{
    if bytes.len() == 0 {
        Seq::<char>::empty()
    } else {
        hex_of(bytes.drop_last()) + hex_of_byte(bytes.last())
    }
}

/// Rendering a value digit by digit yields only digit characters, and never a
/// leading zero except for zero itself.
pub proof fn lemma_dec_seq_canonical(n: nat)
    ensures
        is_canonical_dec(dec_seq_of(n)),
        dec_char_value(dec_seq_of(n)[0]) != 0 || n < 10,
    decreases n,
{
    if n < 10 {
        assert(dec_seq_of(n) == seq![digit_char(n)]);
        assert(dec_char_value(digit_char(n)) == n);
    } else {
        lemma_dec_seq_canonical(n / 10);
        let prefix = dec_seq_of(n / 10);
        let whole = dec_seq_of(n);
        assert(whole == prefix.push(digit_char(n % 10)));
        assert(forall|i: int| 0 <= i < whole.len() ==> is_dec_char(#[trigger] whole[i])) by {
            assert(forall|i: int|
                0 <= i < prefix.len() ==> whole[i] == #[trigger] prefix[i]);
        }
        assert(whole[0] == prefix[0]);
    }
}

/// A digit character is the rendering of its own value.
pub proof fn lemma_dec_char_roundtrip(c: char)
    requires
        is_dec_char(c),
    ensures
        dec_char_value(c) < 10,
        digit_char(dec_char_value(c)) == c,
{
    assert(digit_char(dec_char_value(c)) as u32 == c as u32);
}

/// The decimal rendering of a value reads back as that value.
pub proof fn lemma_dec_value_of_seq(n: nat)
    ensures
        dec_value(dec_seq_of(n)) == n,
    decreases n,
{
    if n < 10 {
        let s = dec_seq_of(n);
        assert(s == seq![digit_char(n)]);
        assert(s.drop_last() =~= Seq::<char>::empty());
        assert(dec_value(s.drop_last()) == 0);
        assert(s.last() == digit_char(n));
        assert(dec_value(s) == dec_value(s.drop_last()) * 10 + dec_char_value(s.last()));
        assert(dec_char_value(digit_char(n)) == n);
        assert(dec_value(s) == n);
    } else {
        lemma_dec_value_of_seq(n / 10);
        let s = dec_seq_of(n);
        assert(s == dec_seq_of(n / 10).push(digit_char(n % 10)));
        assert(s.drop_last() =~= dec_seq_of(n / 10));
        assert(s.last() == digit_char(n % 10));
        assert(dec_value(s) == dec_value(s.drop_last()) * 10 + dec_char_value(s.last()));
        assert(dec_char_value(digit_char(n % 10)) == n % 10);
        assert(dec_value(s) == (n / 10) * 10 + n % 10);
        lemma_fundamental_div_mod(n as int, 10);
        assert(dec_value(s) == n);
    }
}

/// A nonempty digit string without a leading zero denotes a positive value.
pub proof fn lemma_dec_value_positive(s: Seq<char>)
    requires
        is_canonical_dec(s),
        dec_char_value(s[0]) != 0,
    ensures
        dec_value(s) > 0,
    decreases s.len(),
{
    if s.len() == 1 {
        assert(s.drop_last() =~= Seq::<char>::empty());
        assert(s.last() == s[0]);
    } else {
        lemma_dec_value_positive(s.drop_last());
    }
}

/// A canonical decimal string is the rendering of its own value: the decimal
/// grammar and the renderer agree exactly.
pub proof fn lemma_dec_seq_of_value(s: Seq<char>)
    requires
        is_canonical_dec(s),
    ensures
        dec_seq_of(dec_value(s)) == s,
    decreases s.len(),
{
    if s.len() == 1 {
        let v = dec_value(s);
        assert(s.drop_last() =~= Seq::<char>::empty());
        assert(dec_value(s.drop_last()) == 0);
        assert(s.last() == s[0]);
        assert(v == dec_value(s.drop_last()) * 10 + dec_char_value(s.last()));
        assert(v == dec_char_value(s[0]));
        lemma_dec_char_roundtrip(s[0]);
        assert(dec_seq_of(v) =~= s);
    } else {
        let front = s.drop_last();
        assert(front[0] == s[0]);
        assert(is_canonical_dec(front));
        lemma_dec_seq_of_value(front);
        lemma_dec_value_positive(front);
        let v = dec_value(s);
        assert(v == dec_value(front) * 10 + dec_char_value(s.last()));
        lemma_dec_char_roundtrip(s.last());
        lemma_fundamental_div_mod_converse(
            v as int,
            10,
            dec_value(front) as int,
            dec_char_value(s.last()) as int,
        );
        assert(v / 10 == dec_value(front) && v % 10 == dec_char_value(s.last()));
        assert(v >= 10) by {
            assert(dec_value(front) >= 1);
            assert(v >= dec_value(front) * 10) by (nonlinear_arith)
                requires
                    v == dec_value(front) * 10 + dec_char_value(s.last()),
            {}
            assert(dec_value(front) * 10 >= 10) by (nonlinear_arith)
                requires
                    dec_value(front) >= 1,
            {}
        }
        assert(digit_char((v % 10) as nat) == s.last());
        assert(dec_seq_of(v) =~= s);
    }
}

/// Two values with the same decimal rendering are equal.
pub proof fn lemma_dec_seq_injective(a: nat, b: nat)
    requires
        dec_seq_of(a) == dec_seq_of(b),
    ensures
        a == b,
{
    lemma_dec_value_of_seq(a);
    lemma_dec_value_of_seq(b);
}

/// Relies on `String::push`: appends the given character to the end of the
/// string.
#[verifier::external_body]
pub fn push_char(out: &mut String, c: char)
    ensures
        final(out)@ == old(out)@.push(c),
{
    out.push(c);
}

/// The character for a single digit value below 16.
pub fn hex_char(v: u8) -> (c: char)
    requires
        v < 16,
    ensures
        c == digit_char(v as nat),
{
    if v < 10 {
        (v + 48) as char
    } else {
        (v + 87) as char
    }
}

/// Appends the canonical decimal rendering of `n` to `out`.
pub fn push_dec(out: &mut String, n: u64)
    ensures
        final(out)@ == old(out)@ + dec_seq_of(n as nat),
    decreases n,
{
    if n < 10 {
        let c = hex_char(n as u8);
        push_char(out, c);
        proof {
            assert(old(out)@.push(c) =~= old(out)@ + dec_seq_of(n as nat));
        }
    } else {
        push_dec(out, n / 10);
        let c = hex_char((n % 10) as u8);
        push_char(out, c);
        proof {
            assert((old(out)@ + dec_seq_of((n / 10) as nat)).push(c) =~= old(out)@ + dec_seq_of(
                n as nat,
            ));
        }
    }
}

/// Appends the characters of `cs` to `out`.
pub fn push_chars(out: &mut String, cs: &Vec<char>)
    ensures
        final(out)@ == old(out)@ + cs@,
{
    let mut i: usize = 0;
    proof {
        assert(out@ =~= old(out)@ + cs@.take(0));
    }
    while i < cs.len()
        invariant
            i <= cs.len(),
            out@ == old(out)@ + cs@.take(i as int),
        decreases cs.len() - i,
    {
        push_char(out, cs[i]);
        proof {
            assert((old(out)@ + cs@.take(i as int)).push(cs@[i as int]) =~= old(out)@ + cs@.take(
                i + 1,
            ));
        }
        i = i + 1;
    }
    proof {
        assert(cs@.take(cs@.len() as int) =~= cs@);
    }
}

/// Appends the lowercase hexadecimal rendering of `bytes` to `out`.
pub fn push_hex(out: &mut String, bytes: &Vec<u8>)
    ensures
        final(out)@ == old(out)@ + hex_of(bytes@),
{
    let mut i: usize = 0;
    proof {
        assert(bytes@.take(0) =~= Seq::<u8>::empty());
        assert(out@ =~= old(out)@ + hex_of(bytes@.take(0)));
    }
    while i < bytes.len()
        invariant
            i <= bytes.len(),
            out@ == old(out)@ + hex_of(bytes@.take(i as int)),
        decreases bytes.len() - i,
    {
        let b = bytes[i];
        let hi = hex_char(b / 16);
        let lo = hex_char(b % 16);
        push_char(out, hi);
        push_char(out, lo);
        proof {
            let done = bytes@.take(i as int);
            let more = bytes@.take(i + 1);
            assert(more.drop_last() =~= done);
            assert(more.last() == bytes@[i as int]);
            assert(hex_of(more) == hex_of(done) + hex_of_byte(bytes@[i as int]));
            assert((old(out)@ + hex_of(done)).push(hi).push(lo) =~= old(out)@ + hex_of(more));
        }
        i = i + 1;
    }
    proof {
        assert(bytes@.take(bytes@.len() as int) =~= bytes@);
    }
}

} // verus!
