//! Random optimizer.
use vstd::prelude::*;

use core::marker::PhantomData;

use crate::error::ErrorKind;
use crate::observation::Obs;
use crate::optimizers::hyperband::OptimizerFactory;
use crate::{Domain, IdGen, Optimizer};

verus! {

/// Random optimizer.
///
/// This optimizer samples parameters at random from the given domain.
#[derive(Debug)]
pub struct RandomOptimizer<P, V> {
    param_domain: P,
    _value: PhantomData<V>,
}

impl<P: Domain, V> RandomOptimizer<P, V> {
    /// The domain the parameters are sampled from.
    pub closed spec fn spec_param_domain(&self) -> P {
        self.param_domain
    }

    /// Makes a new `RandomOptimizer` instance.
    pub fn new(param_domain: P) -> (r: Self)
        ensures
            r.spec_param_domain() == param_domain,
    {
        Self { param_domain, _value: PhantomData }
    }
}

impl<P: Domain, V> Optimizer for RandomOptimizer<P, V> {
    type Param = P::Point;

    type Value = V;

    open spec fn wf(&self) -> bool {
        true
    }

    open spec fn ask_ens(pre: Self, post: Self, r: Result<Obs<P::Point, ()>, ErrorKind>) -> bool {
        &&& post == pre
        &&& match r {
            Ok(o) => pre.spec_param_domain().sample_ens(o.param),
            Err(_) => true,
        }
    }

    open spec fn ask_minted(pre: Self, post: Self, r: Result<Obs<P::Point, ()>, ErrorKind>) -> bool {
        // every ask consults the generator: the observation is always new
        true
    }

    open spec fn tell_ens(
        pre: Self,
        obs: Obs<P::Point, V>,
        post: Self,
        r: Result<(), ErrorKind>,
    ) -> bool {
        post == pre && r == Ok::<(), ErrorKind>(())
    }

    fn ask<G: IdGen>(&mut self, rng: &mut rand::rngs::StdRng, idg: &mut G) -> (r: Result<
        Obs<P::Point, ()>,
        ErrorKind,
    >) {
        let param = self.param_domain.sample(rng);
        Obs::new(idg, param)
    }

    fn tell(&mut self, _obs: Obs<P::Point, V>) -> (r: Result<(), ErrorKind>) {
        Ok(())
    }
}

impl<P: Domain + Clone, V> OptimizerFactory for RandomOptimizer<P, V> {
    type Optimizer = RandomOptimizer<P, V>;

    open spec fn create_ens(&self, r: Result<RandomOptimizer<P, V>, ErrorKind>) -> bool {
        r is Ok
    }

    /// A random optimizer is its own factory: every bracket gets a fresh
    /// optimizer over a clone of the domain; it never fails.
    fn create(&self) -> (r: Result<RandomOptimizer<P, V>, ErrorKind>) {
        Ok(RandomOptimizer::new(self.param_domain.clone()))
    }
}

} // verus!
