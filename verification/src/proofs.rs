//! The proof token and the two ways of making one without a rule of inference.
//!
//! Neither way can fail: both are marked `no_unwind`.

use core::marker::PhantomData;
use vstd::prelude::*;

verus! {

/// A witness that the proposition `P` holds.
///
/// `P` is a marker type that is never built; the witness itself holds no data and
/// takes no memory. A proof can be duplicated wherever its proposition can.
pub struct Proof<P>(PhantomData<P>);

impl<P> Proof<P> {
    /// The witness of `P`. There is no other value of this type.
    pub closed spec fn witness() -> Self {
        Proof(PhantomData)
    }

    /// A proof carries nothing: every proof of `P` is the witness of `P`, so any two
    /// proofs of one proposition are equal.
    pub proof fn lemma_unique(self)
        ensures
            self == Self::witness(),
    {
    }
}

impl<P: Clone> Clone for Proof<P> {
    fn clone(&self) -> (r: Self)
        ensures
            r == *self,
    {
        Proof(PhantomData)
    }
}

impl<P: Copy> Copy for Proof<P> {

}

/// Declares `P` to hold, with nothing checked.
///
/// This is the one place where a proof comes from nowhere; every rule of inference
/// ends here. It can be called for any proposition, so whoever calls it answers for
/// the truth of `P`: call it only after a check that establishes `P`. A wrong call
/// makes contradictions provable.
pub fn postulate<P>() -> (r: Proof<P>)
    ensures
        r == Proof::<P>::witness(),
    no_unwind
{
    Proof(PhantomData)
}

/// Stands in for a proof that is still to be written.
///
/// It does what [`postulate`] does and is named apart so that it can be found and
/// removed: a finished chain of proofs holds no call of it.
pub fn sorry<P>() -> (r: Proof<P>)
    ensures
        r == Proof::<P>::witness(),
    no_unwind
{
    Proof(PhantomData)
}

} // verus!
