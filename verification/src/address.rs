use vstd::prelude::*;
use crate::config::ADDRESS_SIZE;

verus! {

/// A 32-byte account address, held as plain bytes.
#[derive(Debug)]
pub struct Address {
    pub bytes: Vec<u8>,
}

impl View for Address {
    type V = Seq<u8>;

    open spec fn view(&self) -> Seq<u8> {
        self.bytes@
    }
}

impl Address {
    /// A well-formed address holds exactly `ADDRESS_SIZE` bytes.
    pub open spec fn wf(&self) -> bool {
        self@.len() == ADDRESS_SIZE
    }

    /// Builds an address from raw bytes; rejects any length but
    /// `ADDRESS_SIZE`.
    pub fn from_bytes(bytes: Vec<u8>) -> (r: Option<Address>)
        ensures
            r is Some <==> bytes@.len() == ADDRESS_SIZE,
            r matches Some(a) ==> a@ == bytes@ && a.wf(),
    {
        if bytes.len() == ADDRESS_SIZE {
            Some(Address { bytes })
        } else {
            None
        }
    }

    /// Byte-for-byte equality of two addresses.
    pub fn eq_addr(&self, other: &Address) -> (r: bool)
        ensures
            r == (self@ == other@),
    {
        if self.bytes.len() != other.bytes.len() {
            assert(self@.len() != other@.len());
            return false;
        }
        let n = self.bytes.len();
        let mut i: usize = 0;
        while i < n
            invariant
                n == self@.len() == other@.len(),
                i <= n,
                forall|k: int| 0 <= k < i ==> self@[k] == other@[k],
            decreases n - i,
        {
            if self.bytes[i] != other.bytes[i] {
                return false;
            }
            i += 1;
        }
        proof {
            assert(self@ =~= other@);
        }
        true
    }

    /// An owned copy of this address.
    pub fn dup(&self) -> (r: Address)
        ensures
            r@ == self@,
    {
        let n = self.bytes.len();
        let mut bytes: Vec<u8> = Vec::new();
        let mut i: usize = 0;
        while i < n
            invariant
                n == self@.len(),
                i <= n,
                bytes@ == self@.subrange(0, i as int),
            decreases n - i,
        {
            bytes.push(self.bytes[i]);
            proof {
                assert(bytes@ =~= self@.subrange(0, i + 1));
            }
            i += 1;
        }
        proof {
            assert(bytes@ =~= self@);
        }
        Address { bytes }
    }
}

} // verus!
