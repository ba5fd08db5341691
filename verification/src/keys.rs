//! Account addresses and comparisons between them.

use vstd::prelude::*;
use crate::errors::ErrorCode;

verus! {

/// A 32-byte ledger address: the identity of a principal, an account, a mint
/// or a program. Viewed as the sequence of its bytes.
#[derive(Clone, Copy, Debug, PartialEq, Eq)]
pub struct Pubkey {
    pub bytes: [u8; 32],
}

impl View for Pubkey {
    type V = Seq<u8>;

    open spec fn view(&self) -> Seq<u8> {
        self.bytes@
    }
}

/// Byte-wise equality of two addresses.
pub fn cmp_pubkeys(a: &Pubkey, b: &Pubkey) -> (r: bool)
    ensures
        r <==> a@ == b@,
{
    let mut i: usize = 0;
    while i < 32
        invariant
            i <= 32,
            forall|j: int| 0 <= j < i ==> a@[j] == b@[j],
        decreases 32 - i,
    {
        if a.bytes[i] != b.bytes[i] {
            return false;
        }
        i += 1;
    }
    proof {
        assert(a@ =~= b@);
    }
    true
}

/// Succeeds exactly when the two addresses are equal; otherwise reports a
/// key mismatch.
pub fn assert_keys_equal(key1: &Pubkey, key2: &Pubkey) -> (r: Result<(), ErrorCode>)
    ensures
        r is Ok <==> key1@ == key2@,
        r is Err ==> r == Err::<(), ErrorCode>(ErrorCode::PublicKeyMismatch),
{
    if !cmp_pubkeys(key1, key2) {
        Err(ErrorCode::PublicKeyMismatch)
    } else {
        Ok(())
    }
}

} // verus!
