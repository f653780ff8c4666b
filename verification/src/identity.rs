//! Identities of the marketplace's participants and accounts.

use vstd::prelude::*;

use anchor_lang::prelude::Pubkey;

verus! {

/// `anchor_lang::prelude::Pubkey`, which is `solana_pubkey::Pubkey`: the
/// 32-byte address that names a participant or an account. Its bytes are
/// hidden here: a key is carried and compared, never taken apart.
#[verifier::external_type_specification]
#[verifier::external_body]
pub struct ExPubkey(anchor_lang::prelude::Pubkey);

/// `Pubkey`'s derived `Clone::clone`. A key is `Copy`, so the clone is claimed
/// to be the key itself.
pub assume_specification[ <Pubkey as Clone>::clone ](key: &Pubkey) -> (copy: Pubkey)
    ensures
        copy == *key,
;

/// Calls `Pubkey`'s derived `PartialEq::eq`, which compares the two 32-byte
/// arrays. The result is claimed to be `true` exactly when both keys are the
/// same value.
#[verifier::external_body]
pub(crate) fn same_key(a: &Pubkey, b: &Pubkey) -> (same: bool)
    ensures
        same == (*a == *b),
{
    a == b
}

} // verus!
