//! Account addresses.

use anchor_lang::prelude::Pubkey;
use vstd::prelude::*;

verus! {

/// The address type of the ledger, `anchor_lang::prelude::Pubkey`. Its bytes
/// are of no interest here: keys are stored, handed on and compared.
#[verifier::external_type_specification]
#[verifier::external_body]
pub struct ExPubkey(anchor_lang::prelude::Pubkey);

/// Compares two keys with `Pubkey`'s own `==` (`PartialEq::eq`), which its
/// crate derives over the 32 bytes that make up a key. Not proved, but taken
/// from there: the answer is `true` exactly when both are the same key.
#[verifier::external_body]
pub(crate) fn same_key(a: &Pubkey, b: &Pubkey) -> (same: bool)
    ensures
        same == (*a == *b),
{
    a == b
}

} // verus!
