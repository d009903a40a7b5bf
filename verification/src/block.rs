//! Block headers and commits: the data a signed header is made of.

use vstd::prelude::*;
use crate::vote::{BlockId, Vote, spec_vote_matches};

verus! {

/// The part of a block header this core reads: the chain it belongs to.
pub struct Header {
    pub chain_id: String,
}

impl Header {
    /// A fresh header holding the same chain identifier.
    pub fn duplicate(&self) -> (h: Header)
        ensures
            h == *self,
    {
        Header { chain_id: self.chain_id.clone() }
    }
}

/// The aggregate of precommits attesting to one block: the block's
/// identifier plus one optional vote per validator slot.  `None` in a
/// slot means that validator abstained or voted nil; that is a
/// legitimate outcome, not an error.
pub struct Commit {
    pub block_id: BlockId,
    pub precommits: Vec<Option<Vote>>,
}

/// Two optional votes hold the same data.
pub open spec fn spec_slot_matches(a: Option<Vote>, b: Option<Vote>) -> bool {
    match (a, b) {
        (Some(x), Some(y)) => spec_vote_matches(x, y),
        (None, None) => true,
        _ => false,
    }
}

impl Commit {
    /// A fresh commit holding the same block identifier and votes.
    pub fn duplicate(&self) -> (c: Commit)
        ensures
            c.block_id.hash@ == self.block_id.hash@,
            c.precommits@.len() == self.precommits@.len(),
            forall|i: int|
                0 <= i < self.precommits@.len() ==> spec_slot_matches(
                    #[trigger] c.precommits@[i],
                    self.precommits@[i],
                ),
    {
        let n = self.precommits.len();
        let mut slots: Vec<Option<Vote>> = Vec::new();
        let mut i: usize = 0;
        while i < n
            invariant
                i <= n,
                n == self.precommits@.len(),
                slots@.len() == i,
                forall|j: int|
                    0 <= j < i ==> spec_slot_matches(
                        #[trigger] slots@[j],
                        self.precommits@[j],
                    ),
            decreases n - i,
        {
            let slot = match &self.precommits[i] {
                Some(v) => Some(v.duplicate()),
                None => None,
            };
            slots.push(slot);
            i = i + 1;
        }
        Commit { block_id: self.block_id.duplicate(), precommits: slots }
    }
}

/// A header together with the commit that attests to it: the unit the
/// verification operations work on.
pub struct SignedHeader {
    pub header: Header,
    pub commit: Commit,
}

/// Two signed headers hold the same data.
pub open spec fn spec_signed_header_matches(a: SignedHeader, b: SignedHeader) -> bool {
    &&& a.header == b.header
    &&& a.commit.block_id.hash@ == b.commit.block_id.hash@
    &&& a.commit.precommits@.len() == b.commit.precommits@.len()
    &&& forall|i: int|
        0 <= i < a.commit.precommits@.len() ==> spec_slot_matches(
            #[trigger] a.commit.precommits@[i],
            b.commit.precommits@[i],
        )
}

impl SignedHeader {
    /// A fresh signed header holding the same data.
    pub fn duplicate(&self) -> (s: SignedHeader)
        ensures
            spec_signed_header_matches(s, *self),
    {
        SignedHeader { header: self.header.duplicate(), commit: self.commit.duplicate() }
    }
}

} // verus!
