//! Base58 text, as `bs58` writes it.

use vstd::prelude::*;

verus! {

/// The Base58 text of `bytes` in the Bitcoin alphabet.
pub uninterp spec fn base58(bytes: Seq<u8>) -> Seq<char>;

/// `bs58::encode(..).into_string()`: the Base58 text of `bytes` in the
/// default alphabet, which is the Bitcoin alphabet.
#[verifier::external_body]
pub(crate) fn base58_string(bytes: &[u8]) -> (text: String)
    ensures
        text@ == base58(bytes@),
{
    bs58::encode(bytes).into_string()
}

} // verus!
