//! Precommit votes, their canonical sign-bytes, and the signed-vote
//! pairing used for signature verification.

use vstd::prelude::*;
use crate::account::Id;
use crate::hash::clone_bytes;

verus! {

/// A point in time: seconds and nanoseconds since the epoch.
#[derive(Clone, Copy)]
pub struct Time {
    pub seconds: u64,
    pub nanos: u32,
}

/// Identifies the block a vote attests to, by its header hash.
pub struct BlockId {
    pub hash: crate::hash::Hash,
}

impl BlockId {
    /// Wrap a header hash as a block identifier.
    pub fn new(hash: crate::hash::Hash) -> (b: BlockId)
        ensures
            b.hash@ == hash@,
    {
        BlockId { hash }
    }

    /// A fresh block identifier holding the same hash.
    pub fn duplicate(&self) -> (b: BlockId)
        ensures
            b.hash@ == self.hash@,
    {
        BlockId { hash: self.hash.duplicate() }
    }
}

/// A single validator's precommit: whom it is from, what block it is
/// for, and the fields that enter the canonical sign-bytes.
pub struct Vote {
    pub height: u64,
    pub round: u64,
    pub block_id: Option<BlockId>,
    pub timestamp: Time,
    pub validator_address: Id,
    pub signature: Vec<u8>,
}

/// Two votes hold the same data, field for field.
pub open spec fn spec_vote_matches(a: Vote, b: Vote) -> bool {
    &&& a.height == b.height
    &&& a.round == b.round
    &&& match (a.block_id, b.block_id) {
        (Some(x), Some(y)) => x.hash@ == y.hash@,
        (None, None) => true,
        _ => false,
    }
    &&& a.timestamp == b.timestamp
    &&& a.validator_address@ == b.validator_address@
    &&& a.signature@ == b.signature@
}

impl Vote {
    /// The header hash this vote attests to; nil votes carry none.
    pub fn header_hash(&self) -> (r: Option<&crate::hash::Hash>)
        ensures
            match self.block_id {
                Some(b) => r matches Some(h) && h@ == b.hash@,
                None => r is None,
            },
    {
        match &self.block_id {
            Some(b) => Some(&b.hash),
            None => None,
        }
    }

    /// A fresh vote holding the same data.
    pub fn duplicate(&self) -> (v: Vote)
        ensures
            spec_vote_matches(v, *self),
    {
        Vote {
            height: self.height,
            round: self.round,
            block_id: match &self.block_id {
                Some(b) => Some(b.duplicate()),
                None => None,
            },
            timestamp: self.timestamp,
            validator_address: self.validator_address.duplicate(),
            signature: clone_bytes(&self.signature),
        }
    }
}

/// The eight little-endian bytes of an integer.
pub open spec fn spec_u64_le(n: u64) -> Seq<u8> {
    seq![
        n as u8,
        (n >> 8) as u8,
        (n >> 16) as u8,
        (n >> 24) as u8,
        (n >> 32) as u8,
        (n >> 40) as u8,
        (n >> 48) as u8,
        (n >> 56) as u8,
    ]
}

/// Append the eight little-endian bytes of `n`.
pub fn push_u64_le(out: &mut Vec<u8>, n: u64)
    ensures
        final(out)@ == old(out)@ + spec_u64_le(n),
{
    out.push(#[verifier::truncate] (n as u8));
    out.push(#[verifier::truncate] ((n >> 8) as u8));
    out.push(#[verifier::truncate] ((n >> 16) as u8));
    out.push(#[verifier::truncate] ((n >> 24) as u8));
    out.push(#[verifier::truncate] ((n >> 32) as u8));
    out.push(#[verifier::truncate] ((n >> 40) as u8));
    out.push(#[verifier::truncate] ((n >> 48) as u8));
    out.push(#[verifier::truncate] ((n >> 56) as u8));
    proof {
        assert(out@ =~= old(out)@ + spec_u64_le(n));
    }
}

/// Append a whole byte slice.
pub fn push_slice(out: &mut Vec<u8>, add: &[u8])
    ensures
        final(out)@ == old(out)@ + add@,
{
    let n = add.len();
    let mut i: usize = 0;
    while i < n
        invariant
            i <= n,
            n == add@.len(),
            out@ == old(out)@ + add@.subrange(0, i as int),
        decreases n - i,
    {
        out.push(*vstd::slice::slice_index_get(add, i));
        i = i + 1;
        proof {
            assert(out@ =~= old(out)@ + add@.subrange(0, i as int));
        }
    }
    proof {
        assert(out@ =~= old(out)@ + add@);
    }
}

/// The canonical bytes that are signed for a vote: bound to the chain
/// identifier, and covering height, round, timestamp and the block the
/// vote is for.  The signature itself is not part of them.
pub open spec fn spec_sign_bytes(chain_id: Seq<char>, v: Vote) -> Seq<u8> {
    let cb = vstd::utf8::encode_utf8(chain_id);
    spec_u64_le(cb.len() as u64) + cb + spec_u64_le(v.height) + spec_u64_le(v.round) + spec_u64_le(
        v.timestamp.seconds,
    ) + spec_u64_le(v.timestamp.nanos as u64) + match v.block_id {
        None => seq![0u8],
        Some(b) => seq![1u8] + spec_u64_le(b.hash@.len() as u64) + b.hash@,
    }
}

/// A vote enriched with the chain it belongs to, for convenient
/// signature verification.
pub struct SignedVote {
    pub vote: Vote,
    pub chain_id: String,
    pub validator_address: Id,
    pub signature: Vec<u8>,
}

impl SignedVote {
    /// Pair a vote with its chain identifier, signer and signature.
    pub fn new(vote: Vote, chain_id: &str, validator_address: Id, signature: Vec<u8>) -> (sv:
        SignedVote)
        ensures
            sv.vote == vote,
            sv.chain_id@ == chain_id@,
            sv.validator_address@ == validator_address@,
            sv.signature@ == signature@,
    {
        SignedVote { vote, chain_id: chain_id.to_owned(), validator_address, signature }
    }

    /// The address of the validator that cast this vote.
    pub fn validator_id(&self) -> (r: &Id)
        ensures
            r@ == self.validator_address@,
    {
        &self.validator_address
    }

    /// The signature carried by this vote.
    pub fn signature(&self) -> (r: &Vec<u8>)
        ensures
            r@ == self.signature@,
    {
        &self.signature
    }

    /// The header hash this vote attests to; nil votes carry none.
    pub fn header_hash(&self) -> (r: Option<&crate::hash::Hash>)
        ensures
            match self.vote.block_id {
                Some(b) => r matches Some(h) && h@ == b.hash@,
                None => r is None,
            },
    {
        self.vote.header_hash()
    }

    /// The canonical bytes this vote's signature is over.
    pub fn sign_bytes(&self) -> (r: Vec<u8>)
        ensures
            r@ == spec_sign_bytes(self.chain_id@, self.vote),
    {
        let mut out: Vec<u8> = Vec::new();
        let cb: &[u8] = self.chain_id.as_str().as_bytes();
        push_u64_le(&mut out, cb.len() as u64);
        push_slice(&mut out, cb);
        push_u64_le(&mut out, self.vote.height);
        push_u64_le(&mut out, self.vote.round);
        push_u64_le(&mut out, self.vote.timestamp.seconds);
        push_u64_le(&mut out, self.vote.timestamp.nanos as u64);
        match &self.vote.block_id {
            None => {
                out.push(0u8);
            },
            Some(b) => {
                out.push(1u8);
                push_u64_le(&mut out, b.hash.bytes.len() as u64);
                push_slice(&mut out, b.hash.bytes.as_slice());
            },
        }
        proof {
            assert(out@ =~= spec_sign_bytes(self.chain_id@, self.vote));
        }
        out
    }
}

/// Sign-bytes depend only on the data a vote holds: two votes holding
/// the same data have the same sign-bytes under any chain identifier.
pub proof fn lemma_sign_bytes_match(chain_id: Seq<char>, a: Vote, b: Vote)
    requires
        spec_vote_matches(a, b),
    ensures
        spec_sign_bytes(chain_id, a) == spec_sign_bytes(chain_id, b),
{
    assert(spec_sign_bytes(chain_id, a) =~= spec_sign_bytes(chain_id, b));
}

} // verus!
