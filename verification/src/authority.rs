//! The derived signing capability.
//!
//! The custody account's spending authority is not a private key held by any
//! party: it is an address derived deterministically from the protocol's
//! fixed seed string and one nonce byte.  The protocol re-derives the
//! address at operation time and compares it with the authority recorded on
//! the custody account; no private key exists or is stored anywhere.
//!
//! The nonce byte selects the authority scheme.  A deployment that uses one
//! nonce for every offer — the byte stored in the singleton authority
//! record — shares a single capability across all escrows; a deployment
//! that picks a nonce per offer scopes each capability to exactly the
//! custody account created with it, since an operation succeeds only with
//! the nonce whose derived address the custody account records as its
//! owner.

use vstd::prelude::*;
use crate::keys::Pubkey;

verus! {

/// The fixed seed string of the capability derivation: the bytes of
/// `"authority"`.
pub open spec fn authority_seed() -> Seq<u8> {
    seq![97u8, 117u8, 116u8, 104u8, 111u8, 114u8, 105u8, 116u8, 121u8]
}

/// The address of the capability derived from the fixed seed and the nonce
/// byte `bump`: the seed bytes, then the nonce, then zero padding.
pub open spec fn authority_key(bump: u8) -> Seq<u8> {
    Seq::new(32, |i: int| if i < 9 { authority_seed()[i] } else if i == 9 { bump } else { 0u8 })
}

/// Re-derive the capability address for the nonce byte `bump`.
pub fn derive_authority(bump: u8) -> (k: Pubkey)
    ensures
        k@ == authority_key(bump),
{
    let mut bytes: [u8; 32] = [0u8; 32];
    let mut i: usize = 0;
    while i < 32
        invariant
            i <= 32,
            forall|j: int| 0 <= j < i ==> bytes@[j] == 0u8,
        decreases 32 - i,
    {
        bytes[i] = 0u8;
        i += 1;
    }
    bytes[0] = 97u8;
    bytes[1] = 117u8;
    bytes[2] = 116u8;
    bytes[3] = 104u8;
    bytes[4] = 111u8;
    bytes[5] = 114u8;
    bytes[6] = 105u8;
    bytes[7] = 116u8;
    bytes[8] = 121u8;
    bytes[9] = bump;
    let k = Pubkey { bytes };
    proof {
        assert(k@ =~= authority_key(bump));
    }
    k
}

} // verus!
