//! Validators and validator sets, with the signature-check capability.

use vstd::prelude::*;
use crate::account::Id;

verus! {

/// Whether the given byte string is a valid ed25519 signature over the
/// given message by the given public key.  Named, not written out: the
/// result is fixed by the three byte strings alone and is defined by
/// the signature scheme, whose implementation is outside this library.
pub uninterp spec fn ed25519_verifies(pub_key: Seq<u8>, message: Seq<u8>, signature: Seq<u8>) -> bool;

/// Relies on `ed25519_dalek::VerifyingKey::{from_bytes, verify_strict}`
/// and `ed25519_dalek::Signature::from_bytes`: returns whether
/// `signature` is a valid ed25519 signature over `message` by the key
/// `pub_key`, and false when the key or signature bytes are malformed.
/// The outcome depends only on the three byte strings.
#[verifier::external_body]
fn ed25519_verify(pub_key: &Vec<u8>, message: &Vec<u8>, signature: &Vec<u8>) -> (r: bool)
    ensures
        r == ed25519_verifies(pub_key@, message@, signature@),
{
    let Ok(key_bytes) = <&[u8; 32]>::try_from(pub_key.as_slice()) else {
        return false;
    };
    let Ok(sig_bytes) = <&[u8; 64]>::try_from(signature.as_slice()) else {
        return false;
    };
    let Ok(key) = ed25519_dalek::VerifyingKey::from_bytes(key_bytes) else {
        return false;
    };
    let sig = ed25519_dalek::Signature::from_bytes(sig_bytes);
    key.verify_strict(message.as_slice(), &sig).is_ok()
}

/// A consensus participant: address, public key and voting power.
pub struct Validator {
    pub address: Id,
    pub pub_key: Vec<u8>,
    pub voting_power: u64,
}

impl Validator {
    /// Build a validator from its address, public key and power.
    pub fn new(address: Id, pub_key: Vec<u8>, voting_power: u64) -> (v: Validator)
        ensures
            v.address@ == address@,
            v.pub_key@ == pub_key@,
            v.voting_power == voting_power,
    {
        Validator { address, pub_key, voting_power }
    }

    /// The validator's voting power.
    pub fn power(&self) -> (p: u64)
        ensures
            p == self.voting_power,
    {
        self.voting_power
    }

    /// Whether `signature` is this validator's valid signature over
    /// `sign_bytes`.
    pub fn verify_signature(&self, sign_bytes: &Vec<u8>, signature: &Vec<u8>) -> (r: bool)
        ensures
            r == ed25519_verifies(self.pub_key@, sign_bytes@, signature@),
    {
        ed25519_verify(&self.pub_key, sign_bytes, signature)
    }
}

/// The first validator in the sequence whose address matches, if any.
pub open spec fn spec_find_validator(vals: Seq<Validator>, addr: Seq<u8>) -> Option<Validator>
    decreases vals.len(),
{
    if vals.len() == 0 {
        None
    } else if vals[0].address@ == addr {
        Some(vals[0])
    } else {
        spec_find_validator(vals.drop_first(), addr)
    }
}

/// An ordered committee of validators; addresses are unique within one
/// set.
pub struct ValidatorSet {
    pub validators: Vec<Validator>,
}

impl ValidatorSet {
    /// No two validators in the sequence share an address.
    pub open spec fn spec_addresses_unique(vals: Seq<Validator>) -> bool {
        forall|i: int, j: int|
            0 <= i < j < vals.len() ==> vals[i].address@ != vals[j].address@
    }

    /// The set's invariant: its validators' addresses are unique.
    pub open spec fn well_formed(&self) -> bool {
        Self::spec_addresses_unique(self.validators@)
    }

    /// Build a set from an ordered sequence of validators; rejected when
    /// two of them share an address.
    pub fn new(validators: Vec<Validator>) -> (s: Option<ValidatorSet>)
        ensures
            match s {
                Some(set) => set.validators@ == validators@ && set.well_formed(),
                None => !Self::spec_addresses_unique(validators@),
            },
    {
        let n = validators.len();
        let mut i: usize = 0;
        while i < n
            invariant
                i <= n,
                n == validators@.len(),
                forall|p: int, q: int|
                    0 <= p < q < validators@.len() && p < i ==> validators@[p].address@
                        != validators@[q].address@,
            decreases n - i,
        {
            let mut j: usize = i + 1;
            while j < n
                invariant
                    i < j <= n,
                    n == validators@.len(),
                    forall|q: int|
                        i < q < j ==> validators@[i as int].address@ != validators@[q].address@,
                decreases n - j,
            {
                if validators[i].address.eq_id(&validators[j].address) {
                    return None;
                }
                j = j + 1;
            }
            i = i + 1;
        }
        Some(ValidatorSet { validators })
    }

    /// The validators of the set, in order.
    pub fn validators(&self) -> (r: &Vec<Validator>)
        ensures
            r == &self.validators,
    {
        &self.validators
    }

    /// Look a validator up by address: the first entry whose address
    /// matches, or nothing when the address is not in the set.
    pub fn validator(&self, val_id: &Id) -> (r: Option<&Validator>)
        ensures
            match r {
                Some(v) => spec_find_validator(self.validators@, val_id@) == Some(*v),
                None => spec_find_validator(self.validators@, val_id@) is None,
            },
    {
        let n = self.validators.len();
        let mut i: usize = 0;
        proof {
            assert(self.validators@.skip(0) =~= self.validators@);
        }
        while i < n
            invariant
                i <= n,
                n == self.validators@.len(),
                spec_find_validator(self.validators@, val_id@) == spec_find_validator(
                    self.validators@.skip(i as int),
                    val_id@,
                ),
            decreases n - i,
        {
            proof {
                assert(self.validators@.skip(i as int)[0] == self.validators@[i as int]);
            }
            if self.validators[i].address.eq_id(val_id) {
                return Some(&self.validators[i]);
            }
            proof {
                assert(self.validators@.skip(i as int).drop_first() =~= self.validators@.skip(
                    i as int + 1,
                ));
            }
            i = i + 1;
        }
        proof {
            assert(self.validators@.skip(n as int).len() == 0);
        }
        None
    }
}

} // verus!
