//! The development account on whose behalf the run acts.

use crate::chain::AccountId;
use vstd::prelude::*;

verus! {

/// The sr25519 public key of the development account of Alice, whose address in the generic SS58
/// format is `5GrwvaEF5zXb26Fz9rcQpDWS57CtERHpNehXCPcNoHGKutQY`.
pub open spec fn alice_key() -> Seq<u8> {
    seq![
        0xd4u8, 0x35, 0x93, 0xc7, 0x15, 0xfd, 0xd3, 0x1c,
        0x61, 0x14, 0x1a, 0xbd, 0x04, 0xa9, 0x9f, 0xd6,
        0x82, 0x2c, 0x85, 0x58, 0x85, 0x4c, 0xcd, 0xe3,
        0x9a, 0x56, 0x84, 0xe7, 0xa5, 0x6d, 0xa2, 0x7d,
    ]
}

/// Calls `subxt_signer::sr25519::dev::alice`, which returns the key pair for `//Alice` under the
/// well-known development phrase, and takes the bytes of its `public_key`. They are claimed to be
/// those of [`alice_key`].
#[verifier::external_body]
fn alice_public_key() -> (key: [u8; 32])
    ensures
        key@ == alice_key(),
{
    subxt_signer::sr25519::dev::alice().public_key().0
}

/// The account of Alice.
pub fn alice() -> (account: AccountId)
    ensures
        account@ == alice_key(),
{
    AccountId(alice_public_key())
}

} // verus!
