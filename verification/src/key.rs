use vstd::prelude::*;

verus! {

broadcast use vstd::array::group_array_axioms, vstd::slice::group_slice_axioms;

/// A 32-byte account address, the host runtime's name for an account.
#[derive(Clone, Copy, Debug, PartialEq, Eq)]
pub struct Pubkey {
    pub bytes: [u8; 32],
}

impl View for Pubkey {
    type V = Seq<u8>;

    open spec fn view(&self) -> Seq<u8> {
        self.bytes@
    }
}

impl Pubkey {
    /// Byte-for-byte equality of two addresses.
    pub fn eq_key(&self, other: &Pubkey) -> (r: bool)
        ensures
            r <==> self@ == other@,
    {
        let mut i: usize = 0;
        while i < 32
            invariant
                0 <= i <= 32,
                forall|j: int| 0 <= j < i ==> self.bytes@[j] == other.bytes@[j],
            decreases 32 - i,
        {
            if self.bytes[i] != other.bytes[i] {
                return false;
            }
            i += 1;
        }
        proof {
            assert(self@ =~= other@);
        }
        true
    }

    /// The 32 bytes of `data` that start at `start`, as an address.
    pub fn from_slice_at(data: &[u8], start: usize) -> (p: Pubkey)
        requires
            start + 32 <= data@.len(),
        ensures
            p@ == data@.subrange(start as int, start as int + 32),
    {
        let n: usize = data.len();
        let mut bytes: [u8; 32] = [0u8; 32];
        let mut i: usize = 0;
        while i < 32
            invariant
                0 <= i <= 32,
                start + 32 <= n == data@.len(),
                forall|j: int| 0 <= j < i ==> bytes@[j] == data@[start + j],
            decreases 32 - i,
        {
            bytes[i] = data[start + i];
            i += 1;
        }
        proof {
            assert(bytes@ =~= data@.subrange(start as int, start as int + 32));
        }
        Pubkey { bytes }
    }
}

} // verus!
