//! Account identities as plain 32-byte addresses.

use vstd::prelude::*;

verus! {

/// The byte length of every on-ledger account address.
pub const ACCOUNT_ID_LEN: usize = 32;

/// A ledger account address held as its raw bytes.
pub struct AccountId {
    pub bytes: Vec<u8>,
}

impl AccountId {
    /// The address as a byte sequence.
    pub open spec fn view(&self) -> Seq<u8> {
        self.bytes@
    }

    /// Every address is exactly 32 bytes.
    pub open spec fn wf(&self) -> bool {
        self.bytes@.len() == ACCOUNT_ID_LEN
    }

    pub fn new(bytes: Vec<u8>) -> (r: AccountId)
        requires
            bytes@.len() == ACCOUNT_ID_LEN,
        ensures
            r.wf(),
            r@ == bytes@,
    {
        AccountId { bytes }
    }

    /// Byte-for-byte equality of two addresses.
    pub fn same_as(&self, other: &AccountId) -> (r: bool)
        ensures
            r == (self@ == other@),
    {
        if self.bytes.len() != other.bytes.len() {
            assert(self@.len() != other@.len());
            return false;
        }
        let n = self.bytes.len();
        let mut i: usize = 0;
        while i < n
            invariant
                0 <= i <= n,
                n == self@.len(),
                n == other@.len(),
                forall|j: int| 0 <= j < i ==> self@[j] == other@[j],
            decreases n - i,
        {
            if self.bytes[i] != other.bytes[i] {
                assert(self@[i as int] != other@[i as int]);
                return false;
            }
            i += 1;
        }
        assert(self@ =~= other@);
        true
    }
}

impl Clone for AccountId {
    fn clone(&self) -> (r: Self)
        ensures
            r@ == self@,
            r.wf() == self.wf(),
    {
        let r = AccountId { bytes: self.bytes.clone() };
        proof {
            assert(r.bytes@ =~= self.bytes@);
        }
        r
    }
}

} // verus!
