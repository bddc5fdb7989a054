//! Propositions and the rules of inference over them.
//!
//! Every rule is total and does no work when the program runs: it takes proofs of
//! its premises and hands back the witness of its conclusion. Where a rule takes a
//! derivation as a function, the function is there for its type and is never called.
//!
//! Each rule is marked `no_unwind`, and is proved to keep to it: it returns on
//! every input. A call of a function value may unwind, so a rule that carries the
//! mark calls none of its arguments.

use crate::proofs::{postulate, Proof};
use vstd::prelude::*;

verus! {

/// The proposition that always holds.
#[derive(Clone, Copy)]
pub struct True;

/// The proposition that never holds.
#[derive(Clone, Copy)]
pub struct False;

/// `P` and `Q` both hold.
#[derive(Clone, Copy)]
pub struct And<P, Q>(P, Q);

/// `P` holds or `Q` holds.
#[derive(Clone, Copy)]
pub struct Or<P, Q>(P, Q);

/// `P` does not hold.
#[derive(Clone, Copy)]
pub struct Not<P>(P);

/// If `P` holds then `Q` holds.
pub struct Impl<P, Q>(P, Q);

/// Truth needs no premise.
pub fn t() -> (r: Proof<True>)
    ensures
        r == Proof::<True>::witness(),
    no_unwind
{
    postulate()
}

impl<P> Proof<P> {
    /// Non-contradiction: `P` and its negation do not hold together.
    pub fn non_contra(self) -> (r: Proof<Not<And<P, Not<P>>>>)
        ensures
            r == Proof::<Not<And<P, Not<P>>>>::witness(),
        no_unwind
    {
        postulate()
    }
}

/// What [`and`] gives for `p` and `q`.
pub open spec fn spec_and<P, Q>(p: Proof<P>, q: Proof<Q>) -> Proof<And<P, Q>> {
    Proof::witness()
}

/// Conjunction from its two parts.
#[verifier::when_used_as_spec(spec_and)]
pub fn and<P, Q>(p: Proof<P>, q: Proof<Q>) -> (r: Proof<And<P, Q>>)
    ensures
        r == spec_and(p, q),
    no_unwind
{
    postulate()
}

/// Disjunction from its left part. `Q` is the caller's choice and is never looked at.
pub fn or_l<P, Q>(_p: Proof<P>) -> (r: Proof<Or<P, Q>>)
    ensures
        r == Proof::<Or<P, Q>>::witness(),
    no_unwind
{
    postulate()
}

/// Disjunction from its right part. `P` is the caller's choice and is never looked at.
pub fn or_r<P, Q>(_q: Proof<Q>) -> (r: Proof<Or<P, Q>>)
    ensures
        r == Proof::<Or<P, Q>>::witness(),
    no_unwind
{
    postulate()
}

/// What [`implication`] gives, whatever the derivation is.
pub open spec fn spec_implication<P, Q>(
    derivation: impl FnOnce(Proof<P>) -> Proof<Q>,
) -> Proof<Impl<P, Q>> {
    Proof::witness()
}

/// Turns a derivation of `Q` from `P` into a proof of the implication.
///
/// **The derivation is not called.** Nothing is asked of it, not even that it can be
/// called: it fixes `P` and `Q` and that is all. Whatever else its body does will not
/// happen.
#[verifier::when_used_as_spec(spec_implication)]
pub fn implication<P, Q>(derivation: impl FnOnce(Proof<P>) -> Proof<Q>) -> (r: Proof<Impl<P, Q>>)
    ensures
        r == spec_implication::<P, Q>(derivation),
    no_unwind
{
    postulate()
}

/// Negation by refutation: if falsehood follows from `P`, then `P` does not hold.
///
/// **The refutation is not called.** Nothing is asked of it, not even that it can be
/// called; whatever else its body does will not happen.
pub fn intro_not<P>(_refutation: impl FnOnce(Proof<P>) -> Proof<False>) -> (r: Proof<Not<P>>)
    ensures
        r == Proof::<Not<P>>::witness(),
    no_unwind
{
    postulate()
}

impl<P, Q> Proof<And<P, Q>> {
    /// What [`Self::elim_l`] gives.
    pub open spec fn spec_elim_l(self) -> Proof<P> {
        Proof::witness()
    }

    /// The left part of a conjunction.
    #[verifier::when_used_as_spec(spec_elim_l)]
    pub fn elim_l(self) -> (r: Proof<P>)
        ensures
            r == self.spec_elim_l(),
        no_unwind
    {
        postulate()
    }

    /// What [`Self::elim_r`] gives.
    pub open spec fn spec_elim_r(self) -> Proof<Q> {
        Proof::witness()
    }

    /// The right part of a conjunction.
    #[verifier::when_used_as_spec(spec_elim_r)]
    pub fn elim_r(self) -> (r: Proof<Q>)
        ensures
            r == self.spec_elim_r(),
        no_unwind
    {
        postulate()
    }
}

impl<P: Copy, Q: Copy> Proof<And<P, Q>> {
    /// Both parts of a conjunction: the pair of what [`Self::elim_l`] and
    /// [`Self::elim_r`] give. It needs a proof that can be used twice.
    pub fn elim(self) -> (r: (Proof<P>, Proof<Q>))
        ensures
            r == (self.elim_l(), self.elim_r()),
        no_unwind
    {
        (self.elim_l(), self.elim_r())
    }
}

impl<P, Q> Proof<Or<P, Q>> {
    /// Case analysis: what follows from `P` and also from `Q` follows from `P` or `Q`.
    ///
    /// **Neither case is called.** Which of `P` and `Q` holds is not known when the
    /// program runs, so there is no case to pick. Nothing is asked of the two
    /// functions, not even that they can be called: they fix `R` and that is all.
    /// Whatever else their bodies do will not happen.
    pub fn elim<R>(
        self,
        _case_p: impl FnOnce(Proof<P>) -> Proof<R>,
        _case_q: impl FnOnce(Proof<Q>) -> Proof<R>,
    ) -> (r: Proof<R>)
        ensures
            r == Proof::<R>::witness(),
        no_unwind
    {
        postulate()
    }
}

impl<P, Q> Proof<Impl<P, Q>> {
    /// What [`Self::elim`] gives.
    pub open spec fn spec_elim(self, p: Proof<P>) -> Proof<Q> {
        Proof::witness()
    }

    /// Modus ponens: from the implication and `P`, the witness of `Q`.
    #[verifier::when_used_as_spec(spec_elim)]
    pub fn elim(self, p: Proof<P>) -> (r: Proof<Q>)
        ensures
            r == self.spec_elim(p),
        no_unwind
    {
        postulate()
    }
}

impl Proof<False> {
    /// From falsehood, anything.
    pub fn absurd<P>(self) -> (r: Proof<P>)
        ensures
            r == Proof::<P>::witness(),
        no_unwind
    {
        postulate()
    }
}

/// Taking a conjunction apart gives back the proofs it was made from: the left part
/// of `and(p, q)` is `p`, and the right part is `q`.
pub proof fn lemma_and_round_trip<P, Q>(p: Proof<P>, q: Proof<Q>)
    ensures
        and(p, q).elim_l() == p,
        and(p, q).elim_r() == q,
{
    p.lemma_unique();
    q.lemma_unique();
}

/// Modus ponens: an implication made from any derivation, applied to any proof of
/// its antecedent, gives the witness of the consequent.
pub proof fn lemma_modus_ponens<P, Q, D: FnOnce(Proof<P>) -> Proof<Q>>(derivation: D, p: Proof<P>)
    ensures
        implication(derivation).elim(p) == Proof::<Q>::witness(),
{
}

} // verus!
