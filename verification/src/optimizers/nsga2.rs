//! Building blocks of the NSGA-II genetic algorithm.
//!
//! The evolutionary loop itself ranks populations by vectors of
//! real-valued objectives and lives with the surrounding application;
//! this module holds the operator capabilities and their integer-valued
//! implementations.
use vstd::prelude::*;

use core::marker::PhantomData;

use crate::error::ErrorKind;
use crate::Domain;

verus! {

/// This trait allows generating new individuals.
pub trait Generate<D: Domain>: Sized {
    /// Relates the generator states around one `generate` call to the
    /// call's result; each implementation refines this.
    spec fn generate_ens(pre: Self, post: Self, domain: D, r: Result<D::Point, ErrorKind>) -> bool;

    /// Generates a new individual.
    fn generate(&mut self, rng: &mut rand::rngs::StdRng, domain: &D) -> (r: Result<
        D::Point,
        ErrorKind,
    >)
        ensures
            Self::generate_ens(*old(self), *final(self), *domain, r),
    ;
}

/// Random generator: every individual is drawn fresh from the domain.
#[derive(Debug, Default)]
pub struct RandomGenerator;

impl<D: Domain> Generate<D> for RandomGenerator {
    open spec fn generate_ens(
        pre: Self,
        post: Self,
        domain: D,
        r: Result<D::Point, ErrorKind>,
    ) -> bool {
        match r {
            Ok(p) => domain.sample_ens(p),
            Err(_) => false,
        }
    }

    fn generate(&mut self, rng: &mut rand::rngs::StdRng, domain: &D) -> (r: Result<
        D::Point,
        ErrorKind,
    >) {
        Ok(domain.sample(rng))
    }
}

/// Tournament selector: parents are picked as the dominating candidate of
/// a randomly drawn tournament. The selection itself compares vectors of
/// real-valued objectives and lives with the surrounding application.
#[derive(Debug)]
pub struct TournamentSelector {
    tournament_size: usize,
}

impl TournamentSelector {
    /// How many candidates enter each tournament; always at least `2`.
    pub closed spec fn spec_tournament_size(&self) -> usize {
        self.tournament_size
    }

    /// Makes a new `TournamentSelector` instance.
    ///
    /// # Errors
    ///
    /// If `tournament_size` is less than `2`, this returns an
    /// `ErrorKind::InvalidInput` error.
    pub fn new(tournament_size: usize) -> (r: Result<Self, ErrorKind>)
        ensures
            tournament_size > 1 ==> match r {
                Ok(t) => t.spec_tournament_size() == tournament_size,
                Err(_) => false,
            },
            tournament_size <= 1 ==> r == Err::<Self, ErrorKind>(ErrorKind::InvalidInput),
    {
        if tournament_size <= 1 {
            return Err(ErrorKind::InvalidInput);
        }
        Ok(Self { tournament_size })
    }
}

impl Default for TournamentSelector {
    fn default() -> (r: Self)
        ensures
            r.spec_tournament_size() == 2,
    {
        Self { tournament_size: 2 }
    }
}

/// NSGA-II strategy: the bundle of operators the evolutionary loop draws
/// on — a generator, a selector, a crossover operator and a mutator.
#[derive(Debug)]
pub struct Nsga2Strategy<D, G, S, C, M> {
    generator: G,
    selector: S,
    cross_over: C,
    mutator: M,
    _param_domain: PhantomData<D>,
}

impl<D, G, S, C, M> Nsga2Strategy<D, G, S, C, M> {
    /// The generator.
    pub closed spec fn spec_generator(&self) -> G {
        self.generator
    }

    /// The selector.
    pub closed spec fn spec_selector(&self) -> S {
        self.selector
    }

    /// The crossover operator.
    pub closed spec fn spec_cross_over(&self) -> C {
        self.cross_over
    }

    /// The mutator.
    pub closed spec fn spec_mutator(&self) -> M {
        self.mutator
    }

    /// Makes a new `Nsga2Strategy` instance.
    pub fn new(generator: G, selector: S, cross_over: C, mutator: M) -> (r: Self)
        ensures
            r.spec_generator() == generator,
            r.spec_selector() == selector,
            r.spec_cross_over() == cross_over,
            r.spec_mutator() == mutator,
    {
        Self { generator, selector, cross_over, mutator, _param_domain: PhantomData }
    }
}

} // verus!
