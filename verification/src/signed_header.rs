//! The two verification operations on a signed header: structural
//! validation against a validator set, and voting-power accumulation
//! under cryptographic signature checking.

use vstd::prelude::*;
use vstd::string::StringExecFns;
use crate::block::{Header, SignedHeader};
use crate::lite::{Error, Kind};
use crate::textfmt::{push_dec_u64, push_hex, spec_dec, spec_hex};
use crate::validator::{Validator, ValidatorSet, ed25519_verifies, spec_find_validator};
use crate::vote::{SignedVote, Vote, lemma_sign_bytes_match, spec_sign_bytes, spec_vote_matches};

verus! {

/// A signed vote carries exactly the data of the given precommit slot,
/// under the given chain identifier.
pub open spec fn spec_signed_slot_matches(
    chain_id: Seq<char>,
    slot: Option<Vote>,
    sv: Option<SignedVote>,
) -> bool {
    match (slot, sv) {
        (None, None) => true,
        (Some(v), Some(s)) => {
            &&& spec_vote_matches(s.vote, v)
            &&& s.chain_id@ == chain_id
            &&& s.validator_address@ == v.validator_address@
            &&& s.signature@ == v.signature@
        },
        _ => false,
    }
}

/// A non-nil precommit that names a block names this header's block.
pub open spec fn spec_hash_ok(slot: Option<Vote>, header_hash: Seq<u8>) -> bool {
    match slot {
        Some(v) => match v.block_id {
            Some(b) => b.hash@ == header_hash,
            None => true,
        },
        None => true,
    }
}

/// A non-nil precommit's signer is a member of the validator set.
pub open spec fn spec_signer_known(slot: Option<Vote>, vals: Seq<Validator>) -> bool {
    match slot {
        Some(v) => spec_find_validator(vals, v.validator_address@) is Some,
        None => true,
    }
}

/// The slot is structurally at fault: it votes for another block, or
/// its signer is outside the set.
pub open spec fn spec_slot_fault(slot: Option<Vote>, header_hash: Seq<u8>, vals: Seq<Validator>) -> bool {
    !(spec_hash_ok(slot, header_hash) && spec_signer_known(slot, vals))
}

/// The first structurally faulty slot at or after `i`, if any.
pub open spec fn spec_first_fault_from(
    pcs: Seq<Option<Vote>>,
    header_hash: Seq<u8>,
    vals: Seq<Validator>,
    i: int,
) -> Option<int>
    decreases pcs.len() - i,
{
    if i < 0 || i >= pcs.len() {
        None
    } else if spec_slot_fault(pcs[i], header_hash, vals) {
        Some(i)
    } else {
        spec_first_fault_from(pcs, header_hash, vals, i + 1)
    }
}

/// The first structurally faulty slot of the commit, if any.
pub open spec fn spec_first_fault(
    pcs: Seq<Option<Vote>>,
    header_hash: Seq<u8>,
    vals: Seq<Validator>,
) -> Option<int> {
    spec_first_fault_from(pcs, header_hash, vals, 0)
}

/// When no slot before `i` is at fault and slot `i` is, `i` is the
/// first faulty slot.
pub proof fn lemma_first_fault_here(
    pcs: Seq<Option<Vote>>,
    header_hash: Seq<u8>,
    vals: Seq<Validator>,
    k: int,
    i: int,
)
    requires
        0 <= k <= i < pcs.len(),
        forall|j: int| k <= j < i ==> !spec_slot_fault(#[trigger] pcs[j], header_hash, vals),
        spec_slot_fault(pcs[i], header_hash, vals),
    ensures
        spec_first_fault_from(pcs, header_hash, vals, k) == Some(i),
    decreases i - k,
{
    if k < i {
        lemma_first_fault_here(pcs, header_hash, vals, k + 1, i);
    }
}

/// When no slot at all is at fault, there is no first faulty slot.
pub proof fn lemma_no_fault(
    pcs: Seq<Option<Vote>>,
    header_hash: Seq<u8>,
    vals: Seq<Validator>,
    k: int,
)
    requires
        0 <= k,
        forall|j: int| k <= j < pcs.len() ==> !spec_slot_fault(#[trigger] pcs[j], header_hash, vals),
    ensures
        spec_first_fault_from(pcs, header_hash, vals, k) is None,
    decreases pcs.len() - k,
{
    if k < pcs.len() {
        lemma_no_fault(pcs, header_hash, vals, k + 1);
    }
}

impl SignedHeader {
    /// The hash of the header this commit attests to.
    pub fn header_hash(&self) -> (h: crate::hash::Hash)
        ensures
            h@ == self.commit.block_id.hash@,
    {
        self.commit.block_id.hash.duplicate()
    }

    /// The commit's precommits as signed votes, each paired with this
    /// header's chain identifier, for signature verification.
    pub fn iter(&self) -> (r: Vec<Option<SignedVote>>)
        ensures
            r@.len() == self.commit.precommits@.len(),
            forall|i: int|
                0 <= i < r@.len() ==> spec_signed_slot_matches(
                    self.header.chain_id@,
                    self.commit.precommits@[i],
                    #[trigger] r@[i],
                ),
    {
        let n = self.commit.precommits.len();
        let mut votes: Vec<Option<SignedVote>> = Vec::new();
        let mut i: usize = 0;
        while i < n
            invariant
                i <= n,
                n == self.commit.precommits@.len(),
                votes@.len() == i,
                forall|j: int|
                    0 <= j < i ==> spec_signed_slot_matches(
                        self.header.chain_id@,
                        self.commit.precommits@[j],
                        #[trigger] votes@[j],
                    ),
            decreases n - i,
        {
            let slot = match &self.commit.precommits[i] {
                Some(v) => Some(
                    SignedVote::new(
                        v.duplicate(),
                        self.header.chain_id.as_str(),
                        v.validator_address.duplicate(),
                        crate::hash::clone_bytes(&v.signature),
                    ),
                ),
                None => None,
            };
            votes.push(slot);
            i = i + 1;
        }
        votes
    }

    /// Check that the commit is shape-correct for the given validator
    /// set, independent of cryptography: the precommit count equals the
    /// validator count, every non-nil precommit that names a block
    /// names this header's block, and every non-nil precommit's signer
    /// is a member of the set.  A signer outside the set is reported
    /// with the distinguished faulty-validator kind carrying the
    /// offending address; the slots are examined in order and the first
    /// offence decides the error.
    pub fn validate(&self, vals: &ValidatorSet) -> (r: Result<(), Error>)
        ensures
            r is Ok <==> (self.commit.precommits@.len() == vals.validators@.len()
                && spec_first_fault(
                self.commit.precommits@,
                self.commit.block_id.hash@,
                vals.validators@,
            ) is None),
            r matches Err(e) ==> ({
                let pcs = self.commit.precommits@;
                let hh = self.commit.block_id.hash@;
                let vs = vals.validators@;
                if pcs.len() != vs.len() {
                    e.kind is ImplementationSpecific && (e.msg matches Some(m) && m@
                        == "pre-commit length: "@ + spec_dec(pcs.len() as int)
                        + " doesn't match validator length: "@ + spec_dec(vs.len() as int))
                } else {
                    match spec_first_fault(pcs, hh, vs) {
                        Some(i) => match pcs[i] {
                            Some(v) => if !spec_hash_ok(pcs[i], hh) {
                                e.kind is ImplementationSpecific && match v.block_id {
                                    Some(b) => (e.msg matches Some(m) && m@ == "validator("@
                                        + spec_hex(v.validator_address@) + ") voted for header "@
                                        + spec_hex(b.hash@) + ", but current header is "@
                                        + spec_hex(hh)),
                                    None => false,
                                }
                            } else {
                                (e.kind matches Kind::FaultyValidator { address } && address@
                                    == v.validator_address@) && e.msg is None
                            },
                            None => false,
                        },
                        None => false,
                    }
                }
            }),
    {
        let ghost pcs = self.commit.precommits@;
        let ghost hh = self.commit.block_id.hash@;
        let ghost vs = vals.validators@;
        let n_pc = self.commit.precommits.len();
        let n_vals = vals.validators().len();
        if n_pc != n_vals {
            let mut m: String = "pre-commit length: ".to_owned();
            push_dec_u64(&mut m, n_pc as u64);
            m.append(" doesn't match validator length: ");
            push_dec_u64(&mut m, n_vals as u64);
            proof {
                assert(m@ =~= "pre-commit length: "@ + spec_dec(pcs.len() as int)
                    + " doesn't match validator length: "@ + spec_dec(vs.len() as int));
            }
            return Err(Error::new(Kind::ImplementationSpecific, Some(m)));
        }
        let own_hash = self.header_hash();
        let mut i: usize = 0;
        while i < n_pc
            invariant
                i <= n_pc,
                n_pc == pcs.len(),
                pcs == self.commit.precommits@,
                hh == self.commit.block_id.hash@,
                vs == vals.validators@,
                pcs.len() == vs.len(),
                own_hash@ == hh,
                forall|j: int| 0 <= j < i ==> !spec_slot_fault(#[trigger] pcs[j], hh, vs),
            decreases n_pc - i,
        {
            match &self.commit.precommits[i] {
                Some(precommit) => {
                    match precommit.header_hash() {
                        Some(header_hash) => {
                            if !header_hash.eq_hash(&own_hash) {
                                proof {
                                    lemma_first_fault_here(pcs, hh, vs, 0, i as int);
                                }
                                let mut m: String = "validator(".to_owned();
                                push_hex(&mut m, &precommit.validator_address.bytes);
                                m.append(") voted for header ");
                                push_hex(&mut m, &header_hash.bytes);
                                m.append(", but current header is ");
                                push_hex(&mut m, &own_hash.bytes);
                                proof {
                                    assert(m@ =~= "validator("@
                                        + spec_hex(precommit.validator_address@)
                                        + ") voted for header "@ + spec_hex(header_hash@)
                                        + ", but current header is "@ + spec_hex(hh));
                                }
                                return Err(Error::new(Kind::ImplementationSpecific, Some(m)));
                            }
                        },
                        None => {},
                    }
                    match vals.validator(&precommit.validator_address) {
                        Some(_) => {},
                        None => {
                            proof {
                                lemma_first_fault_here(pcs, hh, vs, 0, i as int);
                            }
                            return Err(
                                Error::new(
                                    Kind::FaultyValidator {
                                        address: precommit.validator_address.duplicate(),
                                    },
                                    None,
                                ),
                            );
                        },
                    }
                },
                None => {},
            }
            i = i + 1;
        }
        proof {
            lemma_no_fault(pcs, hh, vs, 0);
        }
        Ok(())
    }
}

/// The power a slot contributes: its signer's power when the signer is
/// in the set and the signature over the vote's sign-bytes verifies,
/// and zero otherwise.
pub open spec fn spec_power_step(chain_id: Seq<char>, slot: Option<Vote>, vals: Seq<Validator>) -> int {
    match slot {
        None => 0,
        Some(v) => match spec_find_validator(vals, v.validator_address@) {
            None => 0,
            Some(val) => if ed25519_verifies(
                val.pub_key@,
                spec_sign_bytes(chain_id, v),
                v.signature@,
            ) {
                val.voting_power as int
            } else {
                0
            },
        },
    }
}

/// The slot carries a vote from a known validator whose signature does
/// not verify: the fatal case of the power computation.
pub open spec fn spec_bad_sig_at(chain_id: Seq<char>, slot: Option<Vote>, vals: Seq<Validator>) -> bool {
    match slot {
        None => false,
        Some(v) => match spec_find_validator(vals, v.validator_address@) {
            None => false,
            Some(val) => !ed25519_verifies(
                val.pub_key@,
                spec_sign_bytes(chain_id, v),
                v.signature@,
            ),
        },
    }
}

/// The power contributed by the first `n` slots together.
pub open spec fn spec_counted_power(
    chain_id: Seq<char>,
    pcs: Seq<Option<Vote>>,
    vals: Seq<Validator>,
    n: int,
) -> int
    decreases n,
{
    if n <= 0 {
        0
    } else {
        spec_counted_power(chain_id, pcs, vals, n - 1) + spec_power_step(chain_id, pcs[n - 1], vals)
    }
}

/// Some slot carries a known validator's vote whose signature does not
/// verify.
pub open spec fn spec_has_bad_sig(chain_id: Seq<char>, pcs: Seq<Option<Vote>>, vals: Seq<Validator>) -> bool {
    exists|i: int| 0 <= i < pcs.len() && spec_bad_sig_at(chain_id, #[trigger] pcs[i], vals)
}

/// The first slot at or after `i` that carries a known validator's
/// vote whose signature does not verify, if any.
pub open spec fn spec_first_bad_sig_from(
    chain_id: Seq<char>,
    pcs: Seq<Option<Vote>>,
    vals: Seq<Validator>,
    i: int,
) -> Option<int>
    decreases pcs.len() - i,
{
    if i < 0 || i >= pcs.len() {
        None
    } else if spec_bad_sig_at(chain_id, pcs[i], vals) {
        Some(i)
    } else {
        spec_first_bad_sig_from(chain_id, pcs, vals, i + 1)
    }
}

/// The first slot of the commit with a bad signature, if any.
pub open spec fn spec_first_bad_sig(
    chain_id: Seq<char>,
    pcs: Seq<Option<Vote>>,
    vals: Seq<Validator>,
) -> Option<int> {
    spec_first_bad_sig_from(chain_id, pcs, vals, 0)
}

/// When no slot before `i` carries a bad signature and slot `i` does,
/// `i` is the first such slot.
pub proof fn lemma_first_bad_sig_here(
    chain_id: Seq<char>,
    pcs: Seq<Option<Vote>>,
    vals: Seq<Validator>,
    k: int,
    i: int,
)
    requires
        0 <= k <= i < pcs.len(),
        forall|j: int| k <= j < i ==> !spec_bad_sig_at(chain_id, #[trigger] pcs[j], vals),
        spec_bad_sig_at(chain_id, pcs[i], vals),
    ensures
        spec_first_bad_sig_from(chain_id, pcs, vals, k) == Some(i),
    decreases i - k,
{
    if k < i {
        lemma_first_bad_sig_here(chain_id, pcs, vals, k + 1, i);
    }
}

/// The message the power computation reports for the first bad
/// signature: it identifies the signature, the validator and the
/// sign-bytes, in hex.
pub open spec fn spec_bad_sig_message(chain_id: Seq<char>, v: Vote, val: Validator) -> Seq<char> {
    "couldn't verify signature "@ + spec_hex(v.signature@) + " with validator "@ + spec_hex(
        val.address@,
    ) + " on sign bytes "@ + spec_hex(spec_sign_bytes(chain_id, v))
}

/// The power computation's error identifies the first bad signature.
pub open spec fn spec_power_error_ok(
    chain_id: Seq<char>,
    pcs: Seq<Option<Vote>>,
    vals: Seq<Validator>,
    e: Error,
) -> bool {
    &&& e.kind is ImplementationSpecific
    &&& match spec_first_bad_sig(chain_id, pcs, vals) {
        Some(i) => match pcs[i] {
            Some(v) => match spec_find_validator(vals, v.validator_address@) {
                Some(val) => e.msg matches Some(m) && m@ == spec_bad_sig_message(chain_id, v, val),
                None => false,
            },
            None => false,
        },
        None => false,
    }
}

/// Counting more slots never lowers the total: every slot contributes
/// a non-negative amount.
pub proof fn lemma_counted_power_monotone(
    chain_id: Seq<char>,
    pcs: Seq<Option<Vote>>,
    vals: Seq<Validator>,
    a: int,
    b: int,
)
    requires
        0 <= a <= b,
    ensures
        spec_counted_power(chain_id, pcs, vals, a) <= spec_counted_power(chain_id, pcs, vals, b),
    decreases b,
{
    if a < b {
        lemma_counted_power_monotone(chain_id, pcs, vals, a, b - 1);
    }
}

impl SignedHeader {
    /// Total voting power of the validators of the given set whose
    /// precommit for this header is present and cryptographically
    /// valid.  Absent or nil precommits and precommits from signers
    /// outside the set contribute nothing and are never an error; a
    /// signature from a known validator that does not verify aborts
    /// the whole computation with an error.
    pub fn voting_power_in(&self, validators: &ValidatorSet) -> (r: Result<u64, Error>)
        requires
            spec_counted_power(
                self.header.chain_id@,
                self.commit.precommits@,
                validators.validators@,
                self.commit.precommits@.len() as int,
            ) <= u64::MAX,
        ensures
            r is Err <==> spec_has_bad_sig(
                self.header.chain_id@,
                self.commit.precommits@,
                validators.validators@,
            ),
            r matches Ok(p) ==> p == spec_counted_power(
                self.header.chain_id@,
                self.commit.precommits@,
                validators.validators@,
                self.commit.precommits@.len() as int,
            ),
            r matches Err(e) ==> spec_power_error_ok(
                self.header.chain_id@,
                self.commit.precommits@,
                validators.validators@,
                e,
            ),
    {
        let ghost cid = self.header.chain_id@;
        let ghost pcs = self.commit.precommits@;
        let ghost vs = validators.validators@;
        let signed_votes = self.iter();
        let mut signed_power: u64 = 0;
        let n = signed_votes.len();
        let mut i: usize = 0;
        while i < n
            invariant
                i <= n,
                n == pcs.len(),
                signed_votes@.len() == pcs.len(),
                cid == self.header.chain_id@,
                pcs == self.commit.precommits@,
                vs == validators.validators@,
                spec_counted_power(cid, pcs, vs, pcs.len() as int) <= u64::MAX,
                forall|j: int|
                    0 <= j < pcs.len() ==> spec_signed_slot_matches(
                        cid,
                        pcs[j],
                        #[trigger] signed_votes@[j],
                    ),
                signed_power == spec_counted_power(cid, pcs, vs, i as int),
                forall|j: int| 0 <= j < i ==> !spec_bad_sig_at(cid, #[trigger] pcs[j], vs),
            decreases n - i,
        {
            match &signed_votes[i] {
                None => {},
                Some(sv) => {
                    match validators.validator(sv.validator_id()) {
                        None => {},
                        Some(val) => {
                            let sign_bytes = sv.sign_bytes();
                            proof {
                                if let Some(v) = pcs[i as int] {
                                    lemma_sign_bytes_match(cid, sv.vote, v);
                                }
                            }
                            if !val.verify_signature(&sign_bytes, sv.signature()) {
                                proof {
                                    assert(spec_bad_sig_at(cid, pcs[i as int], vs));
                                    lemma_first_bad_sig_here(cid, pcs, vs, 0, i as int);
                                }
                                let mut m: String = "couldn't verify signature ".to_owned();
                                push_hex(&mut m, sv.signature());
                                m.append(" with validator ");
                                push_hex(&mut m, &val.address.bytes);
                                m.append(" on sign bytes ");
                                push_hex(&mut m, &sign_bytes);
                                proof {
                                    assert(m@ =~= "couldn't verify signature "@
                                        + spec_hex(sv.signature@) + " with validator "@
                                        + spec_hex(val.address@) + " on sign bytes "@
                                        + spec_hex(sign_bytes@));
                                }
                                return Err(Error::new(Kind::ImplementationSpecific, Some(m)));
                            }
                            proof {
                                lemma_counted_power_monotone(cid, pcs, vs, i + 1, pcs.len() as int);
                            }
                            signed_power = signed_power + val.power();
                        },
                    }
                },
            }
            i = i + 1;
        }
        Ok(signed_power)
    }

    /// `voting_power_in` without its precondition: measures first, and
    /// answers `None` when the counted power would not fit the power
    /// type; otherwise hands back what `voting_power_in` returns.
    pub fn checked_voting_power_in(&self, validators: &ValidatorSet) -> (r: Option<
        Result<u64, Error>,
    >)
        ensures
            match r {
                None => !spec_has_bad_sig(
                    self.header.chain_id@,
                    self.commit.precommits@,
                    validators.validators@,
                ) && spec_counted_power(
                    self.header.chain_id@,
                    self.commit.precommits@,
                    validators.validators@,
                    self.commit.precommits@.len() as int,
                ) > u64::MAX,
                Some(inner) => match inner {
                    Ok(p) => !spec_has_bad_sig(
                        self.header.chain_id@,
                        self.commit.precommits@,
                        validators.validators@,
                    ) && p == spec_counted_power(
                        self.header.chain_id@,
                        self.commit.precommits@,
                        validators.validators@,
                        self.commit.precommits@.len() as int,
                    ),
                    Err(e) => spec_has_bad_sig(
                        self.header.chain_id@,
                        self.commit.precommits@,
                        validators.validators@,
                    ) && spec_power_error_ok(
                        self.header.chain_id@,
                        self.commit.precommits@,
                        validators.validators@,
                        e,
                    ),
                },
            },
    {
        let ghost cid = self.header.chain_id@;
        let ghost pcs = self.commit.precommits@;
        let ghost vs = validators.validators@;
        let signed_votes = self.iter();
        let mut total: u64 = 0;
        let mut overflowed: bool = false;
        let n = signed_votes.len();
        let mut i: usize = 0;
        while i < n
            invariant
                i <= n,
                n == pcs.len(),
                signed_votes@.len() == pcs.len(),
                cid == self.header.chain_id@,
                pcs == self.commit.precommits@,
                vs == validators.validators@,
                forall|j: int|
                    0 <= j < pcs.len() ==> spec_signed_slot_matches(
                        cid,
                        pcs[j],
                        #[trigger] signed_votes@[j],
                    ),
                !overflowed ==> total == spec_counted_power(cid, pcs, vs, i as int),
                overflowed ==> spec_counted_power(cid, pcs, vs, pcs.len() as int) > u64::MAX,
                forall|j: int| 0 <= j < i ==> !spec_bad_sig_at(cid, #[trigger] pcs[j], vs),
            decreases n - i,
        {
            match &signed_votes[i] {
                None => {},
                Some(sv) => {
                    match validators.validator(sv.validator_id()) {
                        None => {},
                        Some(val) => {
                            let sign_bytes = sv.sign_bytes();
                            proof {
                                if let Some(v) = pcs[i as int] {
                                    lemma_sign_bytes_match(cid, sv.vote, v);
                                }
                            }
                            if !val.verify_signature(&sign_bytes, sv.signature()) {
                                proof {
                                    assert(spec_bad_sig_at(cid, pcs[i as int], vs));
                                    lemma_first_bad_sig_here(cid, pcs, vs, 0, i as int);
                                }
                                let mut m: String = "couldn't verify signature ".to_owned();
                                push_hex(&mut m, sv.signature());
                                m.append(" with validator ");
                                push_hex(&mut m, &val.address.bytes);
                                m.append(" on sign bytes ");
                                push_hex(&mut m, &sign_bytes);
                                proof {
                                    assert(m@ =~= "couldn't verify signature "@
                                        + spec_hex(sv.signature@) + " with validator "@
                                        + spec_hex(val.address@) + " on sign bytes "@
                                        + spec_hex(sign_bytes@));
                                }
                                return Some(
                                    Err(Error::new(Kind::ImplementationSpecific, Some(m))),
                                );
                            }
                            if !overflowed {
                                let p = val.power();
                                if total <= u64::MAX - p {
                                    total = total + p;
                                } else {
                                    overflowed = true;
                                    proof {
                                        lemma_counted_power_monotone(
                                            cid,
                                            pcs,
                                            vs,
                                            i + 1,
                                            pcs.len() as int,
                                        );
                                    }
                                }
                            }
                        },
                    }
                },
            }
            i = i + 1;
        }
        if overflowed {
            None
        } else {
            Some(self.voting_power_in(validators))
        }
    }
}


/// The voting power of a slot's known signer, cryptography aside.
pub open spec fn spec_slot_power(slot: Option<Vote>, vals: Seq<Validator>) -> int {
    match slot {
        None => 0,
        Some(v) => match spec_find_validator(vals, v.validator_address@) {
            None => 0,
            Some(val) => val.voting_power as int,
        },
    }
}

/// The power of the known signers of the first `n` slots together.
pub open spec fn spec_present_power(pcs: Seq<Option<Vote>>, vals: Seq<Validator>, n: int) -> int
    decreases n,
{
    if n <= 0 {
        0
    } else {
        spec_present_power(pcs, vals, n - 1) + spec_slot_power(pcs[n - 1], vals)
    }
}

/// The slot is absent, or its signer is in the set and the signature
/// over the vote's sign-bytes verifies.
pub open spec fn spec_slot_signed_ok(chain_id: Seq<char>, slot: Option<Vote>, vals: Seq<Validator>) -> bool {
    match slot {
        None => true,
        Some(v) => match spec_find_validator(vals, v.validator_address@) {
            None => false,
            Some(val) => ed25519_verifies(val.pub_key@, spec_sign_bytes(chain_id, v), v.signature@),
        },
    }
}

/// A commit with no non-nil precommit holds no bad signature and
/// counts zero power, under any chain and any validator set.
pub proof fn lemma_power_of_all_absent(
    chain_id: Seq<char>,
    pcs: Seq<Option<Vote>>,
    vals: Seq<Validator>,
    n: int,
)
    requires
        0 <= n <= pcs.len(),
        forall|i: int| 0 <= i < pcs.len() ==> (#[trigger] pcs[i]) is None,
    ensures
        spec_counted_power(chain_id, pcs, vals, n) == 0,
        !spec_has_bad_sig(chain_id, pcs, vals),
    decreases n,
{
    if n > 0 {
        lemma_power_of_all_absent(chain_id, pcs, vals, n - 1);
    }
}

/// When every non-nil precommit is a known signer's verifying vote, no
/// signature is bad and the counted power is exactly the sum of those
/// signers' voting powers.
pub proof fn lemma_all_valid_exact_sum(
    chain_id: Seq<char>,
    pcs: Seq<Option<Vote>>,
    vals: Seq<Validator>,
    n: int,
)
    requires
        0 <= n <= pcs.len(),
        forall|i: int|
            0 <= i < pcs.len() ==> spec_slot_signed_ok(chain_id, #[trigger] pcs[i], vals),
    ensures
        !spec_has_bad_sig(chain_id, pcs, vals),
        spec_counted_power(chain_id, pcs, vals, n) == spec_present_power(pcs, vals, n),
    decreases n,
{
    if n > 0 {
        lemma_all_valid_exact_sum(chain_id, pcs, vals, n - 1);
    }
}

/// Two slot sequences that agree on their first `n` slots count the
/// same power over them.
proof fn lemma_counted_prefix_agree(
    chain_id: Seq<char>,
    s1: Seq<Option<Vote>>,
    s2: Seq<Option<Vote>>,
    vals: Seq<Validator>,
    n: int,
)
    requires
        0 <= n <= s1.len(),
        n <= s2.len(),
        forall|j: int| 0 <= j < n ==> s1[j] == s2[j],
    ensures
        spec_counted_power(chain_id, s1, vals, n) == spec_counted_power(chain_id, s2, vals, n),
    decreases n,
{
    if n > 0 {
        lemma_counted_prefix_agree(chain_id, s1, s2, vals, n - 1);
    }
}

/// Taking one slot out takes exactly that slot's contribution out of
/// the total.
proof fn lemma_counted_remove(
    chain_id: Seq<char>,
    s: Seq<Option<Vote>>,
    vals: Seq<Validator>,
    j: int,
)
    requires
        0 <= j < s.len(),
    ensures
        spec_counted_power(chain_id, s.remove(j), vals, s.len() - 1) + spec_power_step(
            chain_id,
            s[j],
            vals,
        ) == spec_counted_power(chain_id, s, vals, s.len() as int),
    decreases s.len(),
{
    let n = s.len() as int;
    s.remove_ensures(j);
    if j == n - 1 {
        lemma_counted_prefix_agree(chain_id, s.remove(j), s, vals, n - 1);
    } else {
        let s2 = s.drop_last();
        s2.remove_ensures(j);
        lemma_counted_remove(chain_id, s2, vals, j);
        lemma_counted_prefix_agree(chain_id, s, s2, vals, n - 1);
        let r = s.remove(j);
        assert(r[n - 2] == s[n - 1]);
        assert forall|k: int| 0 <= k < n - 2 implies r[k] == #[trigger] s2.remove(j)[k] by {
            if k < j {
                assert(r[k] == s[k]);
                assert(s2.remove(j)[k] == s2[k]);
            } else {
                assert(r[k] == s[k + 1]);
                assert(s2.remove(j)[k] == s2[k + 1]);
            }
        }
        lemma_counted_prefix_agree(chain_id, r, s2.remove(j), vals, n - 2);
    }
}

/// Reordering the precommit slots leaves the counted power unchanged:
/// two slot sequences that hold the same votes, as multisets, count
/// the same total under the same chain and validator set.
pub proof fn lemma_counted_power_permutation(
    chain_id: Seq<char>,
    pcs1: Seq<Option<Vote>>,
    pcs2: Seq<Option<Vote>>,
    vals: Seq<Validator>,
)
    requires
        pcs1.to_multiset() == pcs2.to_multiset(),
    ensures
        spec_counted_power(chain_id, pcs1, vals, pcs1.len() as int) == spec_counted_power(
            chain_id,
            pcs2,
            vals,
            pcs2.len() as int,
        ),
    decreases pcs1.len(),
{
    vstd::seq_lib::to_multiset_len(pcs1);
    vstd::seq_lib::to_multiset_len(pcs2);
    if pcs1.len() > 0 {
        let n = pcs1.len() as int;
        let x = pcs1.last();
        assert(pcs1[n - 1] == x);
        assert(pcs1.contains(x));
        vstd::seq_lib::to_multiset_contains(pcs1, x);
        vstd::seq_lib::to_multiset_contains(pcs2, x);
        assert(pcs2.to_multiset().count(x) > 0);
        assert(pcs2.contains(x));
        let j = choose|j: int| 0 <= j < pcs2.len() && pcs2[j] == x;
        lemma_counted_remove(chain_id, pcs2, vals, j);
        lemma_counted_prefix_agree(chain_id, pcs1, pcs1.drop_last(), vals, n - 1);
        assert(pcs1.drop_last() =~= pcs1.remove(n - 1));
        vstd::seq_lib::to_multiset_remove(pcs1, n - 1);
        vstd::seq_lib::to_multiset_remove(pcs2, j);
        assert(pcs1.remove(n - 1).to_multiset() == pcs1.to_multiset().remove(x));
        assert(pcs2.remove(j).to_multiset() == pcs2.to_multiset().remove(x));
        lemma_counted_power_permutation(chain_id, pcs1.drop_last(), pcs2.remove(j), vals);
        assert(pcs2.len() == n);
        assert(pcs1.drop_last().len() == n - 1);
        assert(pcs2.remove(j).len() == n - 1);
        assert(spec_counted_power(chain_id, pcs1, vals, n) == spec_counted_power(
            chain_id,
            pcs1,
            vals,
            n - 1,
        ) + spec_power_step(chain_id, x, vals));
        assert(spec_counted_power(chain_id, pcs1, vals, n - 1) == spec_counted_power(
            chain_id,
            pcs1.drop_last(),
            vals,
            n - 1,
        ));
        assert(spec_counted_power(chain_id, pcs1.drop_last(), vals, n - 1) == spec_counted_power(
            chain_id,
            pcs2.remove(j),
            vals,
            n - 1,
        ));
        assert(spec_counted_power(chain_id, pcs2, vals, n) == spec_counted_power(
            chain_id,
            pcs2.remove(j),
            vals,
            n - 1,
        ) + spec_power_step(chain_id, x, vals));
    }
}

/// A non-nil precommit whose signer is not in the set contributes
/// exactly nothing to the power computation: blanking that slot out
/// changes neither the counted power nor whether a bad signature is
/// present.
pub proof fn lemma_unknown_signer_contributes_nothing(
    chain_id: Seq<char>,
    pcs: Seq<Option<Vote>>,
    vals: Seq<Validator>,
    k: int,
    n: int,
)
    requires
        0 <= k < pcs.len(),
        pcs[k] matches Some(v) && spec_find_validator(vals, v.validator_address@) is None,
        0 <= n <= pcs.len(),
    ensures
        spec_counted_power(chain_id, pcs, vals, n) == spec_counted_power(
            chain_id,
            pcs.update(k, None),
            vals,
            n,
        ),
        spec_has_bad_sig(chain_id, pcs, vals) == spec_has_bad_sig(
            chain_id,
            pcs.update(k, None),
            vals,
        ),
    decreases n,
{
    if n > 0 {
        lemma_unknown_signer_contributes_nothing(chain_id, pcs, vals, k, n - 1);
    }
    let blanked = pcs.update(k, None);
    if spec_has_bad_sig(chain_id, pcs, vals) {
        let i = choose|i: int|
            0 <= i < pcs.len() && spec_bad_sig_at(chain_id, #[trigger] pcs[i], vals);
        assert(i != k);
        assert(spec_bad_sig_at(chain_id, blanked[i], vals));
    }
    if spec_has_bad_sig(chain_id, blanked, vals) {
        let i = choose|i: int|
            0 <= i < blanked.len() && spec_bad_sig_at(chain_id, #[trigger] blanked[i], vals);
        assert(i != k);
        assert(spec_bad_sig_at(chain_id, pcs[i], vals));
    }
}


impl core::convert::From<SignedHeader> for crate::lite::SignedHeader<SignedHeader, Header> {
    fn from(sh: SignedHeader) -> (p: Self) {
        let header = sh.header.duplicate();
        crate::lite::SignedHeader::new(sh, header)
    }
}

impl vstd::std_specs::convert::FromSpecImpl<SignedHeader> for crate::lite::SignedHeader<SignedHeader, Header> {
    open spec fn obeys_from_spec() -> bool {
        true
    }

    open spec fn from_spec(sh: SignedHeader) -> Self {
        crate::lite::SignedHeader { commit: sh, header: sh.header }
    }
}

impl<'a> core::convert::From<&'a SignedHeader> for crate::lite::SignedHeader<SignedHeader, Header> {
    fn from(sh: &'a SignedHeader) -> (p: Self)
        ensures
            crate::block::spec_signed_header_matches(p.commit, *sh),
            p.header == sh.header,
    {
        crate::lite::SignedHeader::new(sh.duplicate(), sh.header.duplicate())
    }
}

impl<'a> vstd::std_specs::convert::FromSpecImpl<&'a SignedHeader> for crate::lite::SignedHeader<SignedHeader, Header> {
    open spec fn obeys_from_spec() -> bool {
        false
    }

    open spec fn from_spec(sh: &'a SignedHeader) -> Self {
        crate::lite::SignedHeader { commit: *sh, header: sh.header }
    }
}


impl crate::lite::Commit for SignedHeader {
    type ValidatorSet = ValidatorSet;

    open spec fn spec_power_total(&self, vals: &ValidatorSet) -> int {
        spec_counted_power(
            self.header.chain_id@,
            self.commit.precommits@,
            vals.validators@,
            self.commit.precommits@.len() as int,
        )
    }

    open spec fn spec_power_fails(&self, vals: &ValidatorSet) -> bool {
        spec_has_bad_sig(self.header.chain_id@, self.commit.precommits@, vals.validators@)
    }

    open spec fn spec_shape_valid(&self, vals: &ValidatorSet) -> bool {
        self.commit.precommits@.len() == vals.validators@.len() && spec_first_fault(
            self.commit.precommits@,
            self.commit.block_id.hash@,
            vals.validators@,
        ) is None
    }

    fn header_hash(&self) -> crate::hash::Hash {
        SignedHeader::header_hash(self)
    }

    fn voting_power_in(&self, vals: &ValidatorSet) -> (r: Result<u64, Error>) {
        SignedHeader::voting_power_in(self, vals)
    }

    fn validate(&self, vals: &ValidatorSet) -> (r: Result<(), Error>) {
        SignedHeader::validate(self, vals)
    }
}

} // verus!
