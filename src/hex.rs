//! Lower-case hexadecimal text of an integer.
use vstd::prelude::*;

verus! {

/// The lower-case hexadecimal digit for `d < 16`.
pub open spec fn hex_digit(d: nat) -> char {
    seq!['0', '1', '2', '3', '4', '5', '6', '7', '8', '9', 'a', 'b', 'c', 'd', 'e', 'f'][d as int]
}

/// The digits of `v` in base 16, most significant first, without leading
/// zeros; `0` is the single digit `0`.
pub open spec fn hex_digits(v: nat) -> Seq<char>
    decreases v,
{
    if v < 16 {
        seq![hex_digit(v)]
    } else {
        hex_digits(v / 16).push(hex_digit(v % 16))
    }
}

/// Relies on the `{:x}` format of `u128` (`LowerHex`): lower-case base-16
/// digits, most significant first, with no prefix and no leading zeros.
#[verifier::external_body]
pub(crate) fn lower_hex(v: u128) -> (r: String)
    ensures
        r@ == hex_digits(v as nat),
{
    format!("{:x}", v)
}

} // verus!
