//! Validator account identifiers.

use vstd::prelude::*;
use crate::hash::clone_bytes;

verus! {

/// A validator's address: the raw identifier bytes.
#[derive(Debug)]
pub struct Id {
    pub bytes: Vec<u8>,
}

impl View for Id {
    type V = Seq<u8>;

    open spec fn view(&self) -> Seq<u8> {
        self.bytes@
    }
}

impl Id {
    /// Wrap raw identifier bytes as an address.
    pub fn new(bytes: Vec<u8>) -> (id: Id)
        ensures
            id@ == bytes@,
    {
        Id { bytes }
    }

    /// A fresh address holding the same bytes.
    pub fn duplicate(&self) -> (id: Id)
        ensures
            id@ == self@,
    {
        Id { bytes: clone_bytes(&self.bytes) }
    }

    /// Byte-for-byte equality of two addresses.
    pub fn eq_id(&self, other: &Id) -> (r: bool)
        ensures
            r == (self@ == other@),
    {
        let r = self.bytes == other.bytes;
        proof {
            if r {
                assert(self.bytes@ =~= other.bytes@);
            }
        }
        r
    }
}

} // verus!
