//! One text form for every kind of hash result.
use vstd::prelude::*;
use crate::algorithms::io_error_text;
use crate::text::{hex_alphabet, hex_text, lemma_hex_text_digits, push_hex, string_from_chars};

verus! {

/// An integer result as lowercase hexadecimal, without prefix or padding.
pub fn get_res_hash(result: u128) -> (r: String)
    ensures
        r@ == hex_text(result as nat),
{
    let mut digits: Vec<char> = Vec::new();
    push_hex(result, &mut digits);
    proof {
        assert(digits@ =~= hex_text(result as nat));
    }
    string_from_chars(&digits)
}

/// A fallible integer result: its hexadecimal form when it succeeded, the
/// error's debug form when it failed.
pub fn get_res_result(result: Result<u128, std::io::Error>) -> (r: String)
    ensures
        result is Ok ==> r@ == hex_text(result->Ok_0 as nat),
        result is Err ==> r@.len() > 0,
{
    match result {
        Ok(value) => get_res_hash(value),
        Err(err) => io_error_text(&err),
    }
}

/// A result that is already text is kept as it is.
pub fn get_res_string(result: String) -> (r: String)
    ensures
        r == result,
{
    result
}

/// The text form of an integer result depends on the integer alone, is not
/// empty, holds only lowercase hexadecimal digits (so never a "0x" prefix), and
/// has no leading zero but for the result zero.
pub proof fn lemma_hash_text_canonical(result: u128, other: u128)
    requires
        result == other,
    ensures
        hex_text(result as nat) == hex_text(other as nat),
        hex_text(result as nat).len() > 0,
        forall|i: int|
            0 <= i < hex_text(result as nat).len() ==> hex_alphabet().contains(
                #[trigger] hex_text(result as nat)[i],
            ),
        !hex_text(result as nat).contains('x'),
        hex_text(result as nat)[0] == '0' ==> result == 0,
{
    lemma_hex_text_digits(result as nat);
    let t = hex_text(result as nat);
    if t.contains('x') {
        let i = choose|i: int| 0 <= i < t.len() && t[i] == 'x';
        assert(hex_alphabet().contains(t[i]));
        let j = choose|j: int| 0 <= j < hex_alphabet().len() && hex_alphabet()[j] == 'x';
        assert(false);
    }
}

} // verus!
