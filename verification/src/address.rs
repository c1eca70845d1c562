//! The 32-byte identifier of accounts, mints, programs and authorities.

use vstd::prelude::*;
use vstd::std_specs::cmp::PartialEqSpecImpl;

verus! {

/// Number of bytes in an address.
pub const ADDRESS_BYTES: usize = 32;

/// A 32-byte ledger address. Its view is the sequence of its bytes.
#[derive(Clone, Copy, Debug, Eq, Hash)]
pub struct Address {
    pub bytes: [u8; 32],
}

impl View for Address {
    type V = Seq<u8>;

    open spec fn view(&self) -> Seq<u8> {
        self.bytes@
    }
}

impl PartialEq for Address {
    /// Two addresses are equal when all 32 bytes agree.
    fn eq(&self, other: &Address) -> (r: bool) {
        let mut i: usize = 0;
        while i < 32
            invariant
                i <= 32,
                forall|j: int| 0 <= j < i ==> self.bytes[j] == other.bytes[j],
            decreases 32 - i,
        {
            if self.bytes[i] != other.bytes[i] {
                return false;
            }
            i += 1;
        }
        assert(self.bytes@ =~= other.bytes@);
        true
    }
}

impl PartialEqSpecImpl for Address {
    open spec fn obeys_eq_spec() -> bool {
        true
    }

    open spec fn eq_spec(&self, other: &Address) -> bool {
        self@ == other@
    }
}

impl Address {
    /// Wraps 32 bytes as an address.
    pub fn new_from_array(bytes: [u8; 32]) -> (a: Address)
        ensures
            a@ == bytes@,
            a.bytes == bytes,
    {
        Address { bytes }
    }

    /// The address that starts with `data` and continues with zero bytes.
    pub fn from_slice(data: &[u8]) -> (a: Address)
        requires
            data@.len() <= 32,
        ensures
            a@ == data@ + Seq::new((32 - data@.len()) as nat, |i: int| 0u8),
    {
        let n: usize = data.len();
        let mut bytes: [u8; 32] = [0u8; 32];
        let mut i: usize = 0;
        while i < n
            invariant
                i <= n,
                n == data@.len(),
                n <= 32,
                forall|j: int| 0 <= j < i ==> bytes@[j] == data@[j],
                forall|j: int| i <= j < 32 ==> bytes@[j] == 0,
            decreases n - i,
        {
            bytes[i] = data[i];
            i += 1;
        }
        assert(bytes@ =~= data@ + Seq::new((32 - data@.len()) as nat, |i: int| 0u8));
        Address { bytes }
    }

    /// The 32 bytes of the address.
    pub fn to_bytes(&self) -> (b: [u8; 32])
        ensures
            b@ == self@,
    {
        self.bytes
    }
}

} // verus!
