use vstd::prelude::*;

verus! {

broadcast use vstd::array::group_array_axioms;

/// A 256-bit digest, stored as 32 bytes.
#[derive(Clone, Copy, Debug, PartialEq, Eq)]
pub struct H256 {
    pub bytes: [u8; 32],
}

/// The all-zero digest, used for fields that commit to nothing.
pub open spec fn zero_digest() -> Seq<u8> {
    Seq::new(32, |i: int| 0u8)
}

impl View for H256 {
    type V = Seq<u8>;

    open spec fn view(&self) -> Seq<u8> {
        self.bytes@
    }
}

impl H256 {
    /// The digest whose 32 bytes are all zero.
    pub fn zero() -> (r: H256)
        ensures
            r@ == zero_digest(),
    {
        let r = H256 { bytes: [0u8; 32] };
        proof {
            assert(r@ =~= zero_digest());
        }
        r
    }

    /// Builds a digest from 32 bytes of `bytes` starting at `offset`.
    pub fn from_bytes_at(bytes: &[u8], offset: usize) -> (r: H256)
        requires
            offset + 32 <= bytes@.len(),
        ensures
            r@ == bytes@.subrange(offset as int, offset as int + 32),
    {
        let n: usize = bytes.len();
        let mut arr: [u8; 32] = [0u8; 32];
        let mut i: usize = 0;
        while i < 32
            invariant
                offset + 32 <= n == bytes@.len(),
                i <= 32,
                arr@.len() == 32,
                forall|j: int| 0 <= j < i ==> arr@[j] == bytes@[offset + j],
            decreases 32 - i,
        {
            arr[i] = bytes[offset + i];
            i = i + 1;
        }
        let r = H256 { bytes: arr };
        proof {
            assert(r@ =~= bytes@.subrange(offset as int, offset as int + 32));
        }
        r
    }

    /// Read-only access to the 32 digest bytes.
    pub fn as_bytes(&self) -> (r: &[u8; 32])
        ensures
            r@ == self@,
    {
        &self.bytes
    }
}

} // verus!
