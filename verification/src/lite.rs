//! Light-client level error taxonomy and the generic commit/header
//! pairing the surrounding trust algorithm consumes.

use vstd::prelude::*;
use crate::account::Id;

verus! {

/// Kinds of verification failures, distinguished so that a caller can
/// treat misbehavior evidence apart from ordinary malformed input.
#[derive(Debug)]
pub enum Kind {
    /// An ad-hoc structural or cryptographic failure, described by the
    /// error's free-text message.
    ImplementationSpecific,
    /// A precommit signer who is not a member of the validator set the
    /// commit was checked against: first-class evidence of misbehavior,
    /// carrying the offending address.
    FaultyValidator { address: Id },
}

/// A verification failure: its kind plus an optional free-text message.
#[derive(Debug)]
pub struct Error {
    pub kind: Kind,
    pub msg: Option<String>,
}

impl Error {
    /// Build an error of the given kind with an optional message.
    pub fn new(kind: Kind, msg: Option<String>) -> (e: Error)
        ensures
            e.kind == kind,
            e.msg == msg,
    {
        Error { kind, msg }
    }

    /// The error's kind.
    pub fn kind(&self) -> (k: &Kind)
        ensures
            k == &self.kind,
    {
        &self.kind
    }
}

/// A header paired with the commit that attests to it, generic over the
/// concrete commit and header representations.  This is a representation
/// change only: it performs no validation.
pub struct SignedHeader<C, H> {
    pub commit: C,
    pub header: H,
}

impl<C, H> SignedHeader<C, H> {
    /// Pair a commit with its header.
    pub fn new(commit: C, header: H) -> (s: Self)
        ensures
            s.commit == commit,
            s.header == header,
    {
        SignedHeader { commit, header }
    }

    /// The commit of the pair.
    pub fn commit(&self) -> (c: &C)
        ensures
            c == &self.commit,
    {
        &self.commit
    }

    /// The header of the pair.
    pub fn header(&self) -> (h: &H)
        ensures
            h == &self.header,
    {
        &self.header
    }
}


/// The commit capability the surrounding light-client algorithm
/// consumes: any concrete blockchain's signed-header representation can
/// provide it.  Each implementor says, through the three spec
/// functions, what its power total, its failure condition and its
/// structural validity mean; the two operations are then bound to
/// those meanings.
pub trait Commit: Sized {
    type ValidatorSet;

    /// The total power the commit's valid votes carry under the set.
    spec fn spec_power_total(&self, vals: &Self::ValidatorSet) -> int;

    /// The power computation must fail under the set.
    spec fn spec_power_fails(&self, vals: &Self::ValidatorSet) -> bool;

    /// The commit is shape-correct for the set.
    spec fn spec_shape_valid(&self, vals: &Self::ValidatorSet) -> bool;

    /// The hash of the header this commit attests to.
    fn header_hash(&self) -> crate::hash::Hash;

    /// The total voting power of the set's validators that signed,
    /// after cryptographic verification.
    fn voting_power_in(&self, vals: &Self::ValidatorSet) -> (r: Result<u64, Error>)
        requires
            self.spec_power_total(vals) <= u64::MAX,
        ensures
            r is Err <==> self.spec_power_fails(vals),
            r matches Ok(p) ==> p == self.spec_power_total(vals),
    ;

    /// Structural validation against the set, independent of
    /// cryptography.
    fn validate(&self, vals: &Self::ValidatorSet) -> (r: Result<(), Error>)
        ensures
            r is Ok <==> self.spec_shape_valid(vals),
    ;
}

} // verus!
