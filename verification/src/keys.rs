//! Public addresses: fixed-width 32-byte identities for parties, accounts
//! and asset types.

use vstd::prelude::*;

verus! {

/// A 32-byte public address.  Parties (maker, taker), accounts and asset
/// types are all identified by such an address.
#[derive(Clone, Copy)]
pub struct Pubkey {
    pub bytes: [u8; 32],
}

impl View for Pubkey {
    type V = Seq<u8>;

    open spec fn view(&self) -> Seq<u8> {
        self.bytes@
    }
}

impl Pubkey {
    /// The address whose 32 bytes all hold `fill`; a convenient way for a
    /// caller to make distinct test identities.
    pub fn filled(fill: u8) -> (k: Pubkey)
        ensures
            k@.len() == 32,
            forall|i: int| 0 <= i < 32 ==> k@[i] == fill,
    {
        let mut bytes: [u8; 32] = [0u8; 32];
        let mut i: usize = 0;
        while i < 32
            invariant
                i <= 32,
                forall|j: int| 0 <= j < i ==> bytes@[j] == fill,
            decreases 32 - i,
        {
            bytes[i] = fill;
            i += 1;
        }
        Pubkey { bytes }
    }
}

/// Whether two addresses are the same, byte for byte.
pub fn key_eq(a: &Pubkey, b: &Pubkey) -> (r: bool)
    ensures
        r == (a@ == b@),
{
    let mut i: usize = 0;
    while i < 32
        invariant
            i <= 32,
            forall|j: int| 0 <= j < i ==> a@[j] == b@[j],
        decreases 32 - i,
    {
        if a.bytes[i] != b.bytes[i] {
            assert(a@[i as int] != b@[i as int]);
            return false;
        }
        i += 1;
    }
    proof {
        assert(a@ =~= b@);
    }
    true
}

} // verus!
