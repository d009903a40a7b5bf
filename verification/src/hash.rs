//! Block hashes: raw digest bytes of a block header.

use vstd::prelude::*;

verus! {

/// Copy a byte vector; the result holds exactly the same bytes.
pub fn clone_bytes(v: &Vec<u8>) -> (r: Vec<u8>)
    ensures
        r@ == v@,
{
    vstd::slice::slice_to_vec(v.as_slice())
}

/// A hash value, kept as its raw digest bytes.
pub struct Hash {
    pub bytes: Vec<u8>,
}

impl View for Hash {
    type V = Seq<u8>;

    open spec fn view(&self) -> Seq<u8> {
        self.bytes@
    }
}

impl Hash {
    /// Wrap raw digest bytes as a hash.
    pub fn new(bytes: Vec<u8>) -> (h: Hash)
        ensures
            h@ == bytes@,
    {
        Hash { bytes }
    }

    /// A fresh hash holding the same bytes.
    pub fn duplicate(&self) -> (h: Hash)
        ensures
            h@ == self@,
    {
        Hash { bytes: clone_bytes(&self.bytes) }
    }

    /// Byte-for-byte equality of two hashes.
    pub fn eq_hash(&self, other: &Hash) -> (r: bool)
        ensures
            r == (self@ == other@),
    {
        let r = self.bytes == other.bytes;
        proof {
            if self.bytes@ =~= other.bytes@ {
                assert(self.bytes@ == other.bytes@);
            }
        }
        r
    }
}

} // verus!
