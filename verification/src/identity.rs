//! Caller identities. An identity is an account key of the hosting chain; the
//! registry only ever asks whether two of them are the same key.

use anchor_lang::prelude::Pubkey;
use vstd::prelude::*;

verus! {

/// `anchor_lang::prelude::Pubkey`, carried through as an opaque value.
#[verifier::external_type_specification]
#[verifier::external_body]
pub struct ExPubkey(Pubkey);

/// Compares two keys with `Pubkey`'s `==`, which `Pubkey` derives over its
/// 32 bytes. Trusted: the answer is `true` exactly when both are the same
/// key.
#[verifier::external_body]
pub(crate) fn same_key(a: &Pubkey, b: &Pubkey) -> (same: bool)
    ensures
        same == (*a == *b),
{
    a == b
}

} // verus!
