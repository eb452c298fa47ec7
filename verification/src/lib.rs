//! A collection of black-box optimization algorithms built around an
//! ask/tell protocol: callers request a parameter to evaluate, evaluate it
//! externally, and report the result.
//!
//! The heart of the crate is the multi-fidelity evaluation scheduler in
//! [`optimizers::asha`] and its bracket manager in [`optimizers::hyperband`].
#![verifier::loop_isolation(false)]
use vstd::prelude::*;

mod budget;
mod error;
mod observation;
mod rng;

pub mod domains;
pub mod generators;
pub mod optimizers;
pub mod parameters;
pub mod range;

pub use crate::budget::Budget;
pub use crate::error::ErrorKind;
pub use crate::observation::{MfObs, Obs, ObsId};

verus! {

/// This trait provides an ask-and-tell interface for black-box
/// optimization.
pub trait Optimizer: Sized {
    /// The parameter to be optimized.
    type Param;

    /// The value obtained as a result of a parameter evaluation.
    type Value;

    /// The optimizer's own well-formedness, which `ask` and `tell` demand
    /// and preserve; each implementation refines this.
    spec fn wf(&self) -> bool;

    /// Relates the optimizer states around one `ask` call to the call's
    /// result; each implementation refines this.
    spec fn ask_ens(pre: Self, post: Self, r: Result<Obs<Self::Param, ()>, ErrorKind>) -> bool;

    /// Whether one `ask` call's outcome came from the caller's generator;
    /// each implementation refines this. A successful minting ask returns
    /// exactly the generated identifier, a failed minting ask hands the
    /// generator's error through, and a non-minting ask leaves the
    /// generator untouched.
    spec fn ask_minted(pre: Self, post: Self, r: Result<Obs<Self::Param, ()>, ErrorKind>) -> bool;

    /// Relates the optimizer state around one `tell` call to the reported
    /// observation and the call's result; each implementation refines this.
    spec fn tell_ens(
        pre: Self,
        obs: Obs<Self::Param, Self::Value>,
        post: Self,
        r: Result<(), ErrorKind>,
    ) -> bool;

    /// Asks the next parameter to be evaluated.
    ///
    /// The evaluation result should be told to this optimizer.
    fn ask<G: IdGen>(&mut self, rng: &mut rand::rngs::StdRng, idg: &mut G) -> (r: Result<
        Obs<Self::Param, ()>,
        ErrorKind,
    >)
        requires
            old(self).wf(),
        ensures
            final(self).wf(),
            Self::ask_ens(*old(self), *final(self), r),
            Self::ask_minted(*old(self), *final(self), r) ==> G::generate_ens(
                *old(idg),
                *final(idg),
                match r {
                    Ok(o) => Ok(o.id),
                    Err(e) => Err(e),
                },
            ),
            !Self::ask_minted(*old(self), *final(self), r) ==> *final(idg) == *old(idg),
    ;

    /// Tells the result of an observation to this optimizer.
    ///
    /// If there is an existing observation that has the same identifier,
    /// the state of the observation should be overwritten by the new one.
    ///
    /// # Errors
    ///
    /// Some implementations may return an `ErrorKind::UnknownObservation`
    /// error if this optimizer does not know (or has not generated) the
    /// specified observation.
    fn tell(&mut self, obs: Obs<Self::Param, Self::Value>) -> (r: Result<(), ErrorKind>)
        requires
            old(self).wf(),
        ensures
            final(self).wf(),
            Self::tell_ens(*old(self), obs, *final(self), r),
    ;
}

/// This trait provides an ask-and-tell interface for multi-fidelity
/// black-box optimization.
pub trait MultiFidelityOptimizer: Sized {
    /// The parameter to be optimized.
    type Param;

    /// The value obtained as a result of a parameter evaluation.
    type Value;

    /// The optimizer's own well-formedness, which `ask` and `tell` demand
    /// and preserve; each implementation refines this.
    spec fn wf(&self) -> bool;

    /// Relates the optimizer states around one `ask` call to the call's
    /// result; each implementation refines this.
    spec fn ask_ens(pre: Self, post: Self, r: Result<MfObs<Self::Param, ()>, ErrorKind>) -> bool;

    /// Whether one `ask` call's outcome came from the caller's generator;
    /// each implementation refines this. A successful minting ask returns
    /// exactly the generated identifier, a failed minting ask hands the
    /// generator's error through, and a non-minting ask (a promotion
    /// resumed under its own identifier) leaves the generator untouched.
    spec fn ask_minted(pre: Self, post: Self, r: Result<MfObs<Self::Param, ()>, ErrorKind>) -> bool;

    /// Relates the optimizer state around one `tell` call to the reported
    /// observation and the call's result; each implementation refines this.
    spec fn tell_ens(
        pre: Self,
        obs: MfObs<Self::Param, Self::Value>,
        post: Self,
        r: Result<(), ErrorKind>,
    ) -> bool;

    /// Asks the next parameter to be evaluated.
    ///
    /// The evaluation result should be told to this optimizer.
    fn ask<G: IdGen>(&mut self, rng: &mut rand::rngs::StdRng, idg: &mut G) -> (r: Result<
        MfObs<Self::Param, ()>,
        ErrorKind,
    >)
        requires
            old(self).wf(),
        ensures
            final(self).wf(),
            Self::ask_ens(*old(self), *final(self), r),
            Self::ask_minted(*old(self), *final(self), r) ==> G::generate_ens(
                *old(idg),
                *final(idg),
                match r {
                    Ok(o) => Ok(o.id),
                    Err(e) => Err(e),
                },
            ),
            !Self::ask_minted(*old(self), *final(self), r) ==> *final(idg) == *old(idg),
    ;

    /// Tells the result of an observation to this optimizer.
    ///
    /// If there is an existing observation that has the same identifier,
    /// the state of the observation should be overwritten by the new one.
    ///
    /// # Errors
    ///
    /// Some implementations may return an `ErrorKind::UnknownObservation`
    /// error if this optimizer does not know (or has not generated) the
    /// specified observation.
    fn tell(&mut self, obs: MfObs<Self::Param, Self::Value>) -> (r: Result<(), ErrorKind>)
        requires
            old(self).wf(),
        ensures
            final(self).wf(),
            Self::tell_ens(*old(self), obs, *final(self), r),
    ;
}

/// Parameter search domain.
pub trait Domain: Sized {
    /// A specific point in this domain.
    type Point;

    /// What `sample` promises of the point it draws; each domain refines
    /// this.
    spec fn sample_ens(&self, point: Self::Point) -> bool;

    /// Draws a point of this domain at random.
    fn sample(&self, rng: &mut rand::rngs::StdRng) -> (r: Self::Point)
        ensures
            self.sample_ens(r),
    ;
}

/// Observation ID generator.
pub trait IdGen: Sized {
    /// Relates the generator's state around one `generate` call to the
    /// call's result; each implementation refines this.
    spec fn generate_ens(pre: Self, post: Self, r: Result<ObsId, ErrorKind>) -> bool;

    /// Generates a new identifier.
    fn generate(&mut self) -> (r: Result<ObsId, ErrorKind>)
        ensures
            Self::generate_ens(*old(self), *final(self), r),
    ;
}

/// Ranked value.
#[derive(Debug, Clone, Copy, PartialEq, Eq, Hash, PartialOrd, Ord)]
pub struct Ranked<T> {
    /// Rank (lower is better).
    pub rank: u64,

    /// Value.
    pub value: T,
}

} // verus!
