//! The per-validator DKG session: a state machine that accumulates
//! verified transcripts, aggregates them, and fixes the joint key.
//!
//! The session starts in `Sharing`, moves to `Dealt` once the threshold
//! of distinct dealings has been applied, and to `Success` once one
//! aggregation has been applied.  Transitions are monotone and forward
//! only, and the final state is a function of the set of applied
//! messages, not of their order (see the order-independence lemmas at
//! the end of this module).
//!
//! `verify_message` performs every check; `apply_message` trusts its
//! caller to have verified first and only moves the state.

use vstd::prelude::*;
use vstd::pervasive::VecAdditionalExecFns;

use crate::curve::fr_random;
use crate::curve::g1_generator;
use crate::curve::g1_gen_bytes;
use crate::curve::g1_ifft;
use crate::curve::g1s_view;
use crate::curve::g2s_view;
use crate::curve::g2_generator;
use crate::curve::g2_gen_bytes;
use crate::curve::is_pow2;
use crate::curve::G1;
use crate::domain::is_power_of_2;
use crate::domain::Domain;
use crate::error::Error;
use crate::keypair::Keypair;
use crate::pvss::agg_commitments_upto;
use crate::pvss::is_transcript_of;
use crate::pvss::agg_shares_upto;
use crate::pvss::aggregate as aggregate_pvss;
use crate::pvss::dealt_count;
use crate::pvss::final_key_of;
use crate::pvss::lemma_dealt_count_bound;
use crate::pvss::pubkeys_of;
use crate::pvss::pvss_valid;
use crate::pvss::AggregatedPvss;
use crate::pvss::PubliclyVerifiableParams;
use crate::pvss::PubliclyVerifiableSS;
use crate::pvss::Pvss;
use crate::validator::make_validators;
use crate::validator::ExternalValidator;
use crate::validator::Validator;

verus! {

/// The parameters of a session.
#[derive(Clone, Copy, PartialEq, Eq, Debug)]
pub struct Params {
    /// The session tag.
    pub tau: u64,
    /// The reconstruction threshold.
    pub security_threshold: u32,
    /// The number of shares; a power of two.
    pub shares_num: u32,
}

/// The session state.
#[derive(Clone, Debug)]
pub enum DkgState {
    /// Accumulating dealings; fewer than the threshold so far.
    Sharing { accumulated_shares: u32, block: u64 },
    /// At least the threshold of dealings has been applied.
    Dealt,
    /// An aggregation has been applied; the joint key is fixed.
    Success { final_key: G1 },
}

/// An aggregation as posted: the point-wise sum of the dealt
/// transcripts and the joint key the aggregator derived.
#[derive(Clone, Debug)]
pub struct Aggregation {
    /// The aggregated transcript.
    pub vss: AggregatedPvss,
    /// The declared joint public key.
    pub final_key: G1,
}

/// A message of the protocol, as delivered by the ordering oracle.
#[derive(Clone, Debug)]
pub enum Message {
    /// One dealer's transcript.
    Deal(Pvss),
    /// A point-wise sum of dealt transcripts with its declared key.
    Aggregate(Aggregation),
}

/// Whether two states are the same, comparing declared keys by value.
pub open spec fn state_eq(a: DkgState, b: DkgState) -> bool {
    match (a, b) {
        (
            DkgState::Sharing { accumulated_shares: x, block: p },
            DkgState::Sharing { accumulated_shares: y, block: q },
        ) => x == y && p == q,
        (DkgState::Dealt, DkgState::Dealt) => true,
        (DkgState::Success { final_key: x }, DkgState::Success { final_key: y }) => x@ == y@,
        _ => false,
    }
}

/// Whether a dealing may be verified or applied in this state.
pub open spec fn deal_allowed(s: DkgState) -> bool {
    s is Sharing || s is Dealt
}

/// The state after one dealing is applied.
pub open spec fn deal_step(s: DkgState, t: u32) -> DkgState {
    match s {
        DkgState::Sharing { accumulated_shares, block } => {
            if accumulated_shares + 1 >= t {
                DkgState::Dealt
            } else {
                DkgState::Sharing { accumulated_shares: (accumulated_shares + 1) as u32, block }
            }
        },
        _ => s,
    }
}

/// Whether list entry `i` is the given identity, by address and key.
pub open spec fn owner_match(vs: Seq<ExternalValidator>, me: ExternalValidator, i: int) -> bool {
    vs[i].address@ == me.address@ && vs[i].public_key.point@ == me.public_key.point@
}

/// Whether a validator entry matches a sender by address and key.
pub open spec fn full_match(v: Validator, s: ExternalValidator) -> bool {
    v.validator.address@ == s.address@ && v.validator.public_key.point@ == s.public_key.point@
}

/// Whether a validator entry matches a sender by address alone.
pub open spec fn addr_match(v: Validator, s: ExternalValidator) -> bool {
    v.validator.address@ == s.address@
}

/// The first position at or after `k` matching by address and key, or
/// the length if none does.
pub open spec fn first_full_match_from(vs: Seq<Validator>, s: ExternalValidator, k: int) -> int
    decreases vs.len() - k,
{
    if k < 0 || k >= vs.len() {
        vs.len() as int
    } else if full_match(vs[k], s) {
        k
    } else {
        first_full_match_from(vs, s, k + 1)
    }
}

/// The first position at or after `k` matching by address, or the
/// length if none does.
pub open spec fn first_addr_match_from(vs: Seq<Validator>, s: ExternalValidator, k: int) -> int
    decreases vs.len() - k,
{
    if k < 0 || k >= vs.len() {
        vs.len() as int
    } else if addr_match(vs[k], s) {
        k
    } else {
        first_addr_match_from(vs, s, k + 1)
    }
}

/// Find the first validator matching by address and key.
fn find_full(vs: &Vec<Validator>, s: &ExternalValidator) -> (r: usize)
    ensures
        r == first_full_match_from(vs@, *s, 0),
        r <= vs@.len(),
{
    let mut i: usize = 0;
    while i < vs.len()
        invariant
            i <= vs@.len(),
            first_full_match_from(vs@, *s, 0) == first_full_match_from(vs@, *s, i as int),
        decreases vs@.len() - i,
    {
        if vs[i].validator.matches(s) {
            return i;
        }
        i = i + 1;
    }
    vs.len()
}

/// Find the first validator matching by address.
fn find_addr(vs: &Vec<Validator>, s: &ExternalValidator) -> (r: usize)
    ensures
        r == first_addr_match_from(vs@, *s, 0),
        r <= vs@.len(),
{
    let mut i: usize = 0;
    while i < vs.len()
        invariant
            i <= vs@.len(),
            first_addr_match_from(vs@, *s, 0) == first_addr_match_from(vs@, *s, i as int),
        decreases vs@.len() - i,
    {
        if vs[i].validator.address.eq(&s.address) {
            return i;
        }
        i = i + 1;
    }
    vs.len()
}

/// The session context a validator keeps while participating.
#[derive(Clone, Debug)]
pub struct PubliclyVerifiableDkg {
    /// The session parameters.
    pub params: Params,
    /// The generators the session works over.
    pub pvss_params: PubliclyVerifiableParams,
    /// This validator's session keypair.
    pub session_keypair: Keypair,
    /// The ordered validator set.
    pub validators: Vec<Validator>,
    /// The accumulated transcripts, one slot per validator position.
    pub vss: Vec<Option<PubliclyVerifiableSS>>,
    /// The evaluation domain assigning positions their points.
    pub domain: Domain,
    /// The session state.
    pub state: DkgState,
    /// This validator's position.
    pub me: usize,
}

impl PubliclyVerifiableDkg {
    /// The structural facts every session built by [`Self::new`] has
    /// and every operation preserves.
    pub open spec fn wf(&self) -> bool {
        let n = self.params.shares_num;
        &&& is_pow2(n as nat)
        &&& 1 <= self.params.security_threshold <= n
        &&& self.validators@.len() == n
        &&& self.vss@.len() == n
        &&& self.me < n
        &&& self.domain.size == n
        &&& self.domain.wf()
        &&& forall|i: int| 0 <= i < n ==> #[trigger] self.validators@[i].share_index == i
        &&& forall|i: int|
            0 <= i < n ==> (#[trigger] self.vss@[i] matches Some(p) ==> p.commitments@.len() == n
                && p.shares@.len() == n)
        &&& (self.state matches DkgState::Sharing { accumulated_shares, .. }
            ==> accumulated_shares < self.params.security_threshold)
    }

    /// Whether the construction inputs are acceptable: a power-of-two
    /// share count matching the validator list, a threshold within
    /// range, and the owner present in the list by address and key.
    pub open spec fn params_acceptable(
        validators: Seq<ExternalValidator>,
        params: Params,
        me: ExternalValidator,
    ) -> bool {
        &&& is_pow2(params.shares_num as nat)
        &&& 1 <= params.security_threshold <= params.shares_num
        &&& validators.len() == params.shares_num
        &&& exists|i: int| 0 <= i < validators.len() && #[trigger] owner_match(validators, me, i)
    }

    /// Open a session.  Fails with `InvalidParameters` exactly when the
    /// inputs are rejected; the fresh session is in `Sharing` with
    /// nothing accumulated.
    pub fn new(
        validators: &Vec<ExternalValidator>,
        params: Params,
        me: &ExternalValidator,
        session_keypair: Keypair,
    ) -> (r: Result<Self, Error>)
        ensures
            (r is Ok) == Self::params_acceptable(validators@, params, *me),
            r matches Err(e) ==> e == Error::InvalidParameters,
            r matches Ok(d) ==> {
                &&& d.wf()
                &&& d.params == params
                &&& d.state matches DkgState::Sharing { accumulated_shares: 0u32, block: 0u64 }
                &&& d.vss@.len() == params.shares_num
                &&& forall|i: int| 0 <= i < d.vss@.len() ==> d.vss@[i] is None
                &&& d.pvss_params.g@ == g1_gen_bytes()
                &&& d.pvss_params.h@ == g2_gen_bytes()
                &&& d.validators@.len() == validators@.len()
                &&& forall|i: int|
                    0 <= i < validators@.len() ==> {
                        &&& (#[trigger] d.validators@[i]).share_index == i
                        &&& d.validators@[i].validator.address@ == validators@[i].address@
                        &&& d.validators@[i].validator.public_key.point@
                            == validators@[i].public_key.point@
                    }
                &&& d.domain.generator@ == crate::curve::domain_generator_of(
                    params.shares_num as u64,
                )
                &&& d.session_keypair.decryption_key@ == session_keypair.decryption_key@
                &&& 0 <= d.me < validators@.len()
                &&& owner_match(validators@, *me, d.me as int)
                &&& forall|j: int| 0 <= j < d.me ==> !#[trigger] owner_match(validators@, *me, j)
            },
    {
        if !is_power_of_2(params.shares_num) {
            return Err(Error::InvalidParameters);
        }
        if params.security_threshold < 1 || params.security_threshold > params.shares_num {
            return Err(Error::InvalidParameters);
        }
        if validators.len() != params.shares_num as usize {
            return Err(Error::InvalidParameters);
        }
        let mut found: Option<usize> = None;
        let mut i: usize = 0;
        while i < validators.len()
            invariant
                i <= validators@.len(),
                found matches Some(k) ==> 0 <= k < i && owner_match(validators@, *me, k as int)
                    && (forall|j: int| 0 <= j < k ==> !#[trigger] owner_match(
                    validators@,
                    *me,
                    j,
                )),
                found is None ==> forall|j: int|
                    0 <= j < i ==> !#[trigger] owner_match(validators@, *me, j),
            decreases validators@.len() - i,
        {
            if found.is_none() && validators[i].matches(me) {
                found = Some(i);
            }
            i = i + 1;
        }
        let my_index = match found {
            Some(k) => k,
            None => {
                return Err(Error::InvalidParameters);
            },
        };
        let domain = match Domain::new(params.shares_num) {
            Some(d) => d,
            None => {
                // Unreachable: the share count was checked to be a power of two.
                assert(false);
                return Err(Error::InvalidParameters);
            },
        };
        let vals = make_validators(validators);
        let mut vss: Vec<Option<PubliclyVerifiableSS>> = Vec::new();
        let mut k: usize = 0;
        while k < params.shares_num as usize
            invariant
                k <= params.shares_num,
                vss@.len() == k,
                forall|j: int| 0 <= j < k ==> vss@[j] is None,
            decreases params.shares_num - k,
        {
            vss.push(None);
            k = k + 1;
        }
        Ok(
            PubliclyVerifiableDkg {
                params,
                pvss_params: PubliclyVerifiableParams { g: g1_generator(), h: g2_generator() },
                session_keypair,
                validators: vals,
                vss,
                domain,
                state: DkgState::Sharing { accumulated_shares: 0, block: 0 },
                me: my_index,
            },
        )
    }

    /// Deal a fresh transcript for this session.
    pub fn create_share(&self, rng: &mut rand::rngs::StdRng) -> (r: Result<Pvss, Error>)
        requires
            self.wf(),
        ensures
            r is Ok,
            r matches Ok(p) ==> p.commitments@.len() == self.params.shares_num
                && p.shares@.len() == self.params.shares_num && exists|coeffs: Seq<Seq<u8>>|
                coeffs.len() == self.params.security_threshold && #[trigger] is_transcript_of(
                    p,
                    self.pvss_params.g@,
                    crate::pvss::pubkeys_of(self.validators@),
                    coeffs,
                    self.params.shares_num as u64,
                ),
    {
        let secret = fr_random(rng);
        let r = Pvss::new(&secret, self, rng);
        proof {
            match &r {
                Ok(p) => {
                    let coeffs = choose|coeffs: Seq<Seq<u8>>|
                        {
                            &&& coeffs.len() == self.params.security_threshold
                            &&& coeffs[0] == secret@
                            &&& is_transcript_of(
                                *p,
                                self.pvss_params.g@,
                                crate::pvss::pubkeys_of(self.validators@),
                                coeffs,
                                self.params.shares_num as u64,
                            )
                        };
                    assert(coeffs.len() == self.params.security_threshold && is_transcript_of(
                        *p,
                        self.pvss_params.g@,
                        crate::pvss::pubkeys_of(self.validators@),
                        coeffs,
                        self.params.shares_num as u64,
                    ));
                },
                Err(_) => {},
            }
        }
        r
    }

    /// Produce a dealing message.  Allowed while the session still
    /// accepts dealings; afterwards it fails with `StateGuard`.
    pub fn share(&mut self, rng: &mut rand::rngs::StdRng) -> (r: Result<Message, Error>)
        requires
            old(self).wf(),
        ensures
            final(self).wf(),
            *final(self) == *old(self),
            (r is Ok) == deal_allowed(old(self).state),
            r matches Err(e) ==> e == Error::StateGuard,
            r matches Ok(m) ==> m matches Message::Deal(p) && p.commitments@.len()
                == old(self).params.shares_num && p.shares@.len() == old(self).params.shares_num,
            r matches Ok(m) ==> exists|coeffs: Seq<Seq<u8>>|
                coeffs.len() == old(self).params.security_threshold && #[trigger] is_transcript_of(
                    m->Deal_0,
                    old(self).pvss_params.g@,
                    crate::pvss::pubkeys_of(old(self).validators@),
                    coeffs,
                    old(self).params.shares_num as u64,
                ),
    {
        match self.state {
            DkgState::Sharing { .. } | DkgState::Dealt => {
                let vss = match self.create_share(rng) {
                    Ok(v) => v,
                    Err(e) => {
                        return Err(e);
                    },
                };
                proof {
                    let coeffs = choose|coeffs: Seq<Seq<u8>>|
                        coeffs.len() == self.params.security_threshold
                            && #[trigger] is_transcript_of(
                            vss,
                            self.pvss_params.g@,
                            crate::pvss::pubkeys_of(self.validators@),
                            coeffs,
                            self.params.shares_num as u64,
                        );
                    assert(coeffs.len() == old(self).params.security_threshold
                        && is_transcript_of(
                        vss,
                        old(self).pvss_params.g@,
                        crate::pvss::pubkeys_of(old(self).validators@),
                        coeffs,
                        old(self).params.shares_num as u64,
                    ));
                }
                let msg = Message::Deal(vss);
                proof {
                    // Pin the payload of the freshly built message for the
                    // transcript-structure clause.
                    assert(msg->Deal_0 == vss);
                }
                Ok(msg)
            },
            _ => Err(Error::StateGuard),
        }
    }

    /// Aggregate the accumulated transcripts into one message carrying
    /// the locally derived joint key.  Allowed only in `Dealt`.
    pub fn aggregate(&self) -> (r: Result<Message, Error>)
        requires
            self.wf(),
        ensures
            (r is Ok) == (self.state is Dealt),
            r matches Err(e) ==> e == Error::StateGuard,
            r matches Ok(m) ==> m matches Message::Aggregate(a) && {
                &&& a.final_key@ == final_key_of(self.vss@, self.params.shares_num as nat)
                &&& g1s_view(a.vss.commitments@) == agg_commitments_upto(
                    self.vss@,
                    self.params.shares_num as nat,
                    self.vss@.len() as int,
                )
                &&& g2s_view(a.vss.shares@) == agg_shares_upto(
                    self.vss@,
                    self.params.shares_num as nat,
                    self.vss@.len() as int,
                )
            },
    {
        match self.state {
            DkgState::Dealt => {
                let final_key = self.final_key();
                Ok(Message::Aggregate(Aggregation { vss: aggregate_pvss(self), final_key }))
            },
            _ => Err(Error::StateGuard),
        }
    }

    /// The negated G1 generator, in the form the ciphertext checks
    /// consume.
    pub fn g1_inv(&self) -> (r: G1)
        ensures
            r@ == crate::curve::g1_neg_of(self.pvss_params.g@),
            crate::curve::g1_decodes(r@),
    {
        crate::curve::g1_neg(&self.pvss_params.g)
    }

    /// The joint public key derived from the accumulated transcripts.
    pub fn final_key(&self) -> (r: G1)
        requires
            self.wf(),
        ensures
            r@ == final_key_of(self.vss@, self.params.shares_num as nat),
            crate::curve::g1_decodes(r@),
    {
        let agg = aggregate_pvss(self);
        let poly = g1_ifft(&agg.commitments);
        proof {
            assert(g1s_view(poly@)[0] == poly@[0]@);
        }
        poly[0].dup()
    }

    /// The outcome `verify_message` owes for a dealing.
    pub open spec fn verify_deal_spec(
        &self,
        sender: ExternalValidator,
        p: PubliclyVerifiableSS,
    ) -> Result<(), Error> {
        let i = first_full_match_from(self.validators@, sender, 0);
        if !deal_allowed(self.state) {
            Err(Error::StateGuard)
        } else if i >= self.validators@.len() {
            Err(Error::UnknownSender)
        } else if self.vss@[i] is Some {
            Err(Error::DuplicateDealer)
        } else if !pvss_valid(
            self.pvss_params.g@,
            pubkeys_of(self.validators@),
            p,
            self.params.security_threshold as nat,
        ) {
            Err(Error::InvalidTranscript)
        } else {
            Ok(())
        }
    }

    /// The outcome `verify_message` owes for an aggregation.
    pub open spec fn verify_aggregate_spec(&self, a: Aggregation) -> Result<(), Error> {
        if !(self.state is Dealt) {
            Err(Error::StateGuard)
        } else if !pvss_valid(
            self.pvss_params.g@,
            pubkeys_of(self.validators@),
            a.vss,
            self.params.security_threshold as nat,
        ) {
            Err(Error::InvalidTranscript)
        } else if dealt_count(self.vss@, self.vss@.len() as int)
            < self.params.security_threshold {
            Err(Error::InsufficientAggregation)
        } else if a.final_key@ == final_key_of(self.vss@, self.params.shares_num as nat) {
            Ok(())
        } else {
            Err(Error::WrongFinalKey)
        }
    }

    /// Verify a message from the ordering oracle without changing any
    /// state.  A dealing must arrive in an accepting state from a known
    /// validator that has not dealt, and must verify publicly; an
    /// aggregation must arrive in `Dealt`, verify publicly, carry at
    /// least the reconstruction threshold of transcripts, and declare
    /// the locally derived key.
    pub fn verify_message(&self, sender: &ExternalValidator, payload: &Message) -> (r: Result<
        (),
        Error,
    >)
        requires
            self.wf(),
        ensures
            r == (match *payload {
                Message::Deal(p) => self.verify_deal_spec(*sender, p),
                Message::Aggregate(a) => self.verify_aggregate_spec(a),
            }),
    {
        match payload {
            Message::Deal(pvss) => {
                match self.state {
                    DkgState::Sharing { .. } | DkgState::Dealt => {
                        let sender_index = find_full(&self.validators, sender);
                        if sender_index == self.validators.len() {
                            Err(Error::UnknownSender)
                        } else if self.vss[sender_index].is_some() {
                            Err(Error::DuplicateDealer)
                        } else if !pvss.verify_optimistic(self) {
                            Err(Error::InvalidTranscript)
                        } else {
                            Ok(())
                        }
                    },
                    _ => Err(Error::StateGuard),
                }
            },
            Message::Aggregate(agg) => {
                match self.state {
                    DkgState::Dealt => {
                        let verified_shares = match agg.vss.verify_aggregation(self) {
                            Ok(c) => c,
                            Err(e) => {
                                return Err(e);
                            },
                        };
                        proof {
                            lemma_dealt_count_bound(self.vss@, self.vss@.len() as int);
                        }
                        let minimum_shares = self.params.security_threshold;
                        if verified_shares < minimum_shares {
                            Err(Error::InsufficientAggregation)
                        } else {
                            let local_key = self.final_key();
                            if local_key.equals(&agg.final_key) {
                                Ok(())
                            } else {
                                Err(Error::WrongFinalKey)
                            }
                        }
                    },
                    _ => Err(Error::StateGuard),
                }
            },
        }
    }

    /// Apply a verified message.  A dealing is stored under its
    /// sender's position and the state advances by [`deal_step`]; an
    /// aggregation fixes the locally derived key in `Success`.  The
    /// caller must have verified the message first: nothing is
    /// re-checked here beyond state and sender.
    pub fn apply_message(&mut self, sender: ExternalValidator, payload: Message) -> (r: Result<
        (),
        Error,
    >)
        requires
            old(self).wf(),
            payload matches Message::Deal(p) ==> p.commitments@.len()
                == old(self).params.shares_num && p.shares@.len() == old(self).params.shares_num,
        ensures
            final(self).wf(),
            final(self).params == old(self).params,
            final(self).me == old(self).me,
            final(self).validators@ == old(self).validators@,
            final(self).pvss_params.g@ == old(self).pvss_params.g@,
            final(self).pvss_params.h@ == old(self).pvss_params.h@,
            final(self).domain == old(self).domain,
            final(self).session_keypair == old(self).session_keypair,
            r matches Err(_) ==> final(self).vss@ == old(self).vss@ && state_eq(
                final(self).state,
                old(self).state,
            ),
            payload matches Message::Deal(p) ==> ({
                let i = first_addr_match_from(old(self).validators@, sender, 0);
                &&& r == (if !deal_allowed(old(self).state) {
                    Err(Error::StateGuard)
                } else if i >= old(self).validators@.len() {
                    Err(Error::UnknownSender)
                } else {
                    Ok(())
                })
                &&& r is Ok ==> final(self).vss@ == old(self).vss@.update(i, Some(p)) && state_eq(
                    final(self).state,
                    deal_step(old(self).state, old(self).params.security_threshold),
                )
            }),
            payload matches Message::Aggregate(_) ==> ({
                &&& r == (if old(self).state is Dealt {
                    Ok(())
                } else {
                    Err(Error::StateGuard)
                })
                &&& r is Ok ==> final(self).vss@ == old(self).vss@ && (final(self).state matches
                DkgState::Success { final_key } && final_key@ == final_key_of(
                    old(self).vss@,
                    old(self).params.shares_num as nat,
                ))
            }),
    {
        match payload {
            Message::Deal(pvss) => {
                match self.state {
                    DkgState::Sharing { .. } | DkgState::Dealt => {
                        let sender_index = find_addr(&self.validators, &sender);
                        if sender_index == self.validators.len() {
                            return Err(Error::UnknownSender);
                        }
                        self.vss.set(sender_index, Some(pvss));
                        match self.state {
                            DkgState::Sharing { accumulated_shares, block } => {
                                let accumulated = accumulated_shares + 1;
                                if accumulated >= self.params.security_threshold {
                                    self.state = DkgState::Dealt;
                                } else {
                                    self.state = DkgState::Sharing {
                                        accumulated_shares: accumulated,
                                        block,
                                    };
                                }
                            },
                            _ => {},
                        }
                        Ok(())
                    },
                    _ => Err(Error::StateGuard),
                }
            },
            Message::Aggregate(_) => {
                match self.state {
                    DkgState::Dealt => {
                        let final_key = self.final_key();
                        self.state = DkgState::Success { final_key };
                        Ok(())
                    },
                    _ => Err(Error::StateGuard),
                }
            },
        }
    }

    /// Store a transcript under its sender's position without touching
    /// the state.  This bypasses every check `verify_message` makes
    /// except sender lookup; it exists for test harnesses and callers
    /// that re-feed transcripts already verified elsewhere.
    pub fn deal(&mut self, sender: ExternalValidator, pvss: Pvss) -> (r: Result<(), Error>)
        requires
            old(self).wf(),
            pvss.commitments@.len() == old(self).params.shares_num,
            pvss.shares@.len() == old(self).params.shares_num,
        ensures
            final(self).wf(),
            final(self).params == old(self).params,
            final(self).me == old(self).me,
            final(self).validators@ == old(self).validators@,
            final(self).pvss_params.g@ == old(self).pvss_params.g@,
            final(self).pvss_params.h@ == old(self).pvss_params.h@,
            final(self).domain == old(self).domain,
            final(self).session_keypair == old(self).session_keypair,
            state_eq(final(self).state, old(self).state),
            ({
                let i = first_addr_match_from(old(self).validators@, sender, 0);
                &&& r == (if i >= old(self).validators@.len() {
                    Err(Error::UnknownSender)
                } else {
                    Ok(())
                })
                &&& r is Ok ==> final(self).vss@ == old(self).vss@.update(i, Some(pvss))
                &&& r is Err ==> final(self).vss@ == old(self).vss@
            }),
    {
        let sender_index = find_addr(&self.validators, &sender);
        if sender_index == self.validators.len() {
            return Err(Error::UnknownSender);
        }
        self.vss.set(sender_index, Some(pvss));
        Ok(())
    }
}

// ----------------------------------------------------------------------
// Order independence.
//
// The state machine's outcome is a function of the set of applied
// messages, not of their order.  `apply_message` promises that applying
// a dealing updates the transcript table at the sender's slot and moves
// the state by `deal_step`, and that applying an aggregation in `Dealt`
// fixes `final_key_of` the table.  The model below replays exactly
// those promises, and the lemma at the end shows that two sequences of
// dealings carrying the same transcripts per sender — any permutation
// of one another — end in the same state and table, and hence in the
// same joint key once an aggregation is applied.
// ----------------------------------------------------------------------

/// One dealing applied to the model: the state moves by [`deal_step`]
/// and the sender's slot takes the transcript.
pub open spec fn apply_deal_model(
    st: DkgState,
    vss: Seq<Option<PubliclyVerifiableSS>>,
    t: u32,
    sender: int,
    p: PubliclyVerifiableSS,
) -> (DkgState, Seq<Option<PubliclyVerifiableSS>>) {
    (deal_step(st, t), vss.update(sender, Some(p)))
}

/// A sequence of dealings applied in order.
pub open spec fn apply_deals_model(
    st: DkgState,
    vss: Seq<Option<PubliclyVerifiableSS>>,
    t: u32,
    deals: Seq<(int, PubliclyVerifiableSS)>,
) -> (DkgState, Seq<Option<PubliclyVerifiableSS>>)
    decreases deals.len(),
{
    if deals.len() == 0 {
        (st, vss)
    } else {
        let prev = apply_deals_model(st, vss, t, deals.drop_last());
        apply_deal_model(prev.0, prev.1, t, deals.last().0, deals.last().1)
    }
}

/// The state after `k` dealings, whoever dealt them.
pub open spec fn deal_steps(st: DkgState, t: u32, k: nat) -> DkgState
    decreases k,
{
    if k == 0 {
        st
    } else {
        deal_step(deal_steps(st, t, (k - 1) as nat), t)
    }
}

/// Whether some dealing in the sequence is from sender `k`.
pub open spec fn has_deal_for(deals: Seq<(int, PubliclyVerifiableSS)>, k: int) -> bool
    decreases deals.len(),
{
    if deals.len() == 0 {
        false
    } else {
        deals.last().0 == k || has_deal_for(deals.drop_last(), k)
    }
}

/// The transcript the last dealing from sender `k` carries.
pub open spec fn payload_for(deals: Seq<(int, PubliclyVerifiableSS)>, k: int) -> PubliclyVerifiableSS
    decreases deals.len(),
{
    if deals.len() == 0 {
        arbitrary()
    } else if deals.last().0 == k {
        deals.last().1
    } else {
        payload_for(deals.drop_last(), k)
    }
}

/// Whether every dealing names a slot of the table.
pub open spec fn senders_in_range(deals: Seq<(int, PubliclyVerifiableSS)>, n: int) -> bool {
    forall|i: int| 0 <= i < deals.len() ==> 0 <= (#[trigger] deals[i]).0 < n
}

/// The state component of a replay depends only on how many dealings
/// were applied.
pub proof fn lemma_apply_deals_state(
    st: DkgState,
    vss: Seq<Option<PubliclyVerifiableSS>>,
    t: u32,
    deals: Seq<(int, PubliclyVerifiableSS)>,
)
    ensures
        apply_deals_model(st, vss, t, deals).0 == deal_steps(st, t, deals.len()),
    decreases deals.len(),
{
    if deals.len() > 0 {
        lemma_apply_deals_state(st, vss, t, deals.drop_last());
    }
}

/// The table component of a replay, slot by slot: a slot named by some
/// dealing holds the last transcript dealt for it, and any other slot
/// is untouched.
pub proof fn lemma_apply_deals_pointwise(
    st: DkgState,
    vss: Seq<Option<PubliclyVerifiableSS>>,
    t: u32,
    deals: Seq<(int, PubliclyVerifiableSS)>,
    k: int,
)
    requires
        senders_in_range(deals, vss.len() as int),
        0 <= k < vss.len(),
    ensures
        apply_deals_model(st, vss, t, deals).1.len() == vss.len(),
        apply_deals_model(st, vss, t, deals).1[k] == (if has_deal_for(deals, k) {
            Some(payload_for(deals, k))
        } else {
            vss[k]
        }),
    decreases deals.len(),
{
    if deals.len() > 0 {
        assert(senders_in_range(deals.drop_last(), vss.len() as int)) by {
            assert forall|i: int| 0 <= i < deals.drop_last().len() implies 0 <= (#[trigger] deals.drop_last()[i]).0 < vss.len() by {
                assert(deals.drop_last()[i] == deals[i]);
            }
        }
        lemma_apply_deals_pointwise(st, vss, t, deals.drop_last(), k);
    }
}

/// Order independence of the dealing phase: two sequences of dealings
/// of the same length that carry the same transcript per sender — in
/// particular, any two permutations of one set of dealings — drive the
/// session from the same start to the same state and the same
/// transcript table, and so to the same joint key once an aggregation
/// is applied.
pub proof fn lemma_dkg_order_independence(
    st: DkgState,
    vss: Seq<Option<PubliclyVerifiableSS>>,
    t: u32,
    deals1: Seq<(int, PubliclyVerifiableSS)>,
    deals2: Seq<(int, PubliclyVerifiableSS)>,
)
    requires
        deals1.len() == deals2.len(),
        senders_in_range(deals1, vss.len() as int),
        senders_in_range(deals2, vss.len() as int),
        forall|k: int| has_deal_for(deals1, k) == has_deal_for(deals2, k),
        forall|k: int|
            #[trigger] has_deal_for(deals1, k) ==> payload_for(deals1, k) == payload_for(
                deals2,
                k,
            ),
    ensures
        apply_deals_model(st, vss, t, deals1) == apply_deals_model(st, vss, t, deals2),
        final_key_of(
            apply_deals_model(st, vss, t, deals1).1,
            vss.len() as nat,
        ) == final_key_of(apply_deals_model(st, vss, t, deals2).1, vss.len() as nat),
{
    let r1 = apply_deals_model(st, vss, t, deals1);
    let r2 = apply_deals_model(st, vss, t, deals2);
    lemma_apply_deals_state(st, vss, t, deals1);
    lemma_apply_deals_state(st, vss, t, deals2);
    assert forall|k: int| 0 <= k < vss.len() implies r1.1[k] == r2.1[k] by {
        lemma_apply_deals_pointwise(st, vss, t, deals1, k);
        lemma_apply_deals_pointwise(st, vss, t, deals2, k);
    }
    assert(r1.1.len() == vss.len() && r2.1.len() == vss.len()) by {
        if vss.len() > 0 {
            lemma_apply_deals_pointwise(st, vss, t, deals1, 0);
            lemma_apply_deals_pointwise(st, vss, t, deals2, 0);
        } else {
            lemma_apply_deals_len(st, vss, t, deals1);
            lemma_apply_deals_len(st, vss, t, deals2);
        }
    }
    assert(r1.1 =~= r2.1);
}

/// A replay of in-range dealings never changes the table's length.
proof fn lemma_apply_deals_len(
    st: DkgState,
    vss: Seq<Option<PubliclyVerifiableSS>>,
    t: u32,
    deals: Seq<(int, PubliclyVerifiableSS)>,
)
    requires
        senders_in_range(deals, vss.len() as int),
    ensures
        apply_deals_model(st, vss, t, deals).1.len() == vss.len(),
    decreases deals.len(),
{
    if deals.len() > 0 {
        assert(senders_in_range(deals.drop_last(), vss.len() as int)) by {
            assert forall|i: int| 0 <= i < deals.drop_last().len() implies 0 <= (#[trigger] deals.drop_last()[i]).0 < vss.len() by {
                assert(deals.drop_last()[i] == deals[i]);
            }
        }
        lemma_apply_deals_len(st, vss, t, deals.drop_last());
    }
}

} // verus!
