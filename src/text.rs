//! Text forms of numbers: lowercase hexadecimal and decimal digits.
use vstd::prelude::*;

verus! {

/// The lowercase hexadecimal alphabet, indexed by digit value.
pub open spec fn hex_alphabet() -> Seq<char> {
    seq!['0', '1', '2', '3', '4', '5', '6', '7', '8', '9', 'a', 'b', 'c', 'd', 'e', 'f']
}

/// The decimal alphabet, indexed by digit value.
pub open spec fn dec_alphabet() -> Seq<char> {
    seq!['0', '1', '2', '3', '4', '5', '6', '7', '8', '9']
}

/// `n` in lowercase hexadecimal, most significant digit first, without
/// leading zeros ("0" for zero) and without a prefix.
pub open spec fn hex_text(n: nat) -> Seq<char>
    decreases n,
{
    if n < 16 {
        seq![hex_alphabet()[n as int]]
    } else {
        hex_text(n / 16).push(hex_alphabet()[(n % 16) as int])
    }
}

/// `n` in decimal, most significant digit first, without leading zeros.
pub open spec fn dec_text(n: nat) -> Seq<char>
    decreases n,
{
    if n < 10 {
        seq![dec_alphabet()[n as int]]
    } else {
        dec_text(n / 10).push(dec_alphabet()[(n % 10) as int])
    }
}

/// Two lowercase hexadecimal digits for one byte, high nibble first.
pub open spec fn byte_hex(b: u8) -> Seq<char> {
    seq![hex_alphabet()[(b / 16) as int], hex_alphabet()[(b % 16) as int]]
}

/// Each byte of `b` as two lowercase hexadecimal digits, in order.
pub open spec fn bytes_hex(b: Seq<u8>) -> Seq<char>
    decreases b.len(),
{
    if b.len() == 0 {
        Seq::empty()
    } else {
        bytes_hex(b.drop_last()) + byte_hex(b.last())
    }
}

/// The character that stands for the hexadecimal digit `d`.
fn hex_digit(d: u8) -> (c: char)
    requires
        d < 16,
    ensures
        c == hex_alphabet()[d as int],
{
    if d < 10 {
        ((d + 48) as char)
    } else {
        ((d + 87) as char)
    }
}

/// The character that stands for the decimal digit `d`.
pub(crate) fn dec_digit(d: u8) -> (c: char)
    requires
        d < 10,
    ensures
        c == dec_alphabet()[d as int],
{
    ((d + 48) as char)
}

/// Appends the hexadecimal digits of `v` to `out`.
pub fn push_hex(v: u128, out: &mut Vec<char>)
    ensures
        final(out)@ == old(out)@ + hex_text(v as nat),
    decreases v,
{
    if v >= 16 {
        push_hex(v / 16, out);
    }
    out.push(hex_digit((v % 16) as u8));
    proof {
        assert(old(out)@ + hex_text(v as nat) =~= final(out)@);
    }
}

/// Appends the decimal digits of `v` to `out`.
pub fn push_dec(v: u128, out: &mut Vec<char>)
    ensures
        final(out)@ == old(out)@ + dec_text(v as nat),
    decreases v,
{
    if v >= 10 {
        push_dec(v / 10, out);
    }
    out.push(dec_digit((v % 10) as u8));
    proof {
        assert(old(out)@ + dec_text(v as nat) =~= final(out)@);
    }
}

/// Collects characters into a `String`.
/// Relies on std's `FromIterator<char>` for `String`: the characters in order.
#[verifier::external_body]
pub(crate) fn string_from_chars(chars: &Vec<char>) -> (r: String)
    ensures
        r@ == chars@,
{
    chars.iter().collect()
}

/// Every character of `hex_text(n)` is a lowercase hexadecimal digit, the text
/// is not empty, and it starts with a zero only when it is the single digit "0".
pub proof fn lemma_hex_text_digits(n: nat)
    ensures
        hex_text(n).len() > 0,
        forall|i: int| 0 <= i < hex_text(n).len() ==> hex_alphabet().contains(#[trigger] hex_text(n)[i]),
        hex_text(n)[0] == '0' ==> n == 0 && hex_text(n).len() == 1,
    decreases n,
{
    if n < 16 {
        assert(hex_alphabet().contains(hex_alphabet()[n as int]));
        if hex_text(n)[0] == '0' {
            assert(n == 0) by {
                if n != 0 {
                    assert(hex_alphabet()[n as int] != '0');
                }
            }
        }
    } else {
        lemma_hex_text_digits(n / 16);
        let d = hex_alphabet()[(n % 16) as int];
        assert(hex_alphabet().contains(d));
        assert forall|i: int| 0 <= i < hex_text(n).len() implies hex_alphabet().contains(#[trigger] hex_text(n)[i]) by {
            if i < hex_text(n / 16).len() {
                assert(hex_text(n)[i] == hex_text(n / 16)[i]);
            }
        }
        assert(hex_text(n)[0] == hex_text(n / 16)[0]);
    }
}

/// Each byte takes two characters of `bytes_hex`.
pub proof fn lemma_bytes_hex_len(b: Seq<u8>)
    ensures
        bytes_hex(b).len() == 2 * b.len(),
    decreases b.len(),
{
    if b.len() > 0 {
        lemma_bytes_hex_len(b.drop_last());
    }
}

} // verus!
