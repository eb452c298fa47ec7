//! Observation and its identifier.
use vstd::prelude::*;

use crate::budget::Budget;
use crate::error::ErrorKind;
use crate::IdGen;

verus! {

/// Observation Identifier: the join key between an `ask` and its later
/// `tell`.
#[derive(Debug, Clone, Copy, PartialEq, Eq, PartialOrd, Ord, Hash, Structural)]
pub struct ObsId(pub u64);

impl ObsId {
    /// Makes a new observation identifier.
    pub fn new(id: u64) -> (r: Self)
        ensures
            r == ObsId(id),
    {
        Self(id)
    }

    /// Returns the value of this identifier.
    pub fn get(self) -> (r: u64)
        ensures
            r == self.0,
    {
        self.0
    }
}

/// Observation: the currency exchanged across the single-fidelity
/// ask/tell protocol.
#[derive(Debug, Clone, Copy)]
pub struct Obs<P, V = ()> {
    /// Observation identifier.
    pub id: ObsId,

    /// Evaluation parameter.
    pub param: P,

    /// Observed value.
    pub value: V,
}

impl<P> Obs<P, ()> {
    /// Makes a new unevaluated observation, with an identifier drawn from
    /// the given generator.
    pub fn new<G: IdGen>(idg: &mut G, param: P) -> (r: Result<Self, ErrorKind>)
        ensures
            match r {
                Ok(o) => o.param == param && G::generate_ens(
                    *old(idg),
                    *final(idg),
                    Ok(o.id),
                ),
                Err(e) => G::generate_ens(*old(idg), *final(idg), Err(e)),
            },
    {
        match idg.generate() {
            Ok(id) => Ok(Self { id, param, value: () }),
            Err(e) => Err(e),
        }
    }
}

impl<P, V> Obs<P, V> {
    /// Updates the parameter by the result of the given function.
    pub fn map_param<F, Q>(self, f: F) -> (r: Obs<Q, V>) where F: FnOnce(P) -> Q
        requires
            f.requires((self.param,)),
        ensures
            r.id == self.id,
            r.value == self.value,
            f.ensures((self.param,), r.param),
    {
        Obs { id: self.id, param: f(self.param), value: self.value }
    }

    /// Tries updating the parameter by the result of the given function.
    pub fn try_map_param<F, Q, E>(self, f: F) -> (r: Result<Obs<Q, V>, E>) where
        F: FnOnce(P) -> Result<Q, E>,

        requires
            f.requires((self.param,)),
        ensures
            match r {
                Ok(o) => o.id == self.id && o.value == self.value && f.ensures(
                    (self.param,),
                    Ok(o.param),
                ),
                Err(e) => f.ensures((self.param,), Err(e)),
            },
    {
        match f(self.param) {
            Ok(param) => Ok(Obs { id: self.id, param, value: self.value }),
            Err(e) => Err(e),
        }
    }

    /// Updates the value by the result of the given function.
    pub fn map_value<F, U>(self, f: F) -> (r: Obs<P, U>) where F: FnOnce(V) -> U
        requires
            f.requires((self.value,)),
        ensures
            r.id == self.id,
            r.param == self.param,
            f.ensures((self.value,), r.value),
    {
        Obs { id: self.id, param: self.param, value: f(self.value) }
    }

    /// Tries updating the value by the result of the given function.
    pub fn try_map_value<F, U, E>(self, f: F) -> (r: Result<Obs<P, U>, E>) where
        F: FnOnce(V) -> Result<U, E>,

        requires
            f.requires((self.value,)),
        ensures
            match r {
                Ok(o) => o.id == self.id && o.param == self.param && f.ensures(
                    (self.value,),
                    Ok(o.value),
                ),
                Err(e) => f.ensures((self.value,), Err(e)),
            },
    {
        match f(self.value) {
            Ok(value) => Ok(Obs { id: self.id, param: self.param, value }),
            Err(e) => Err(e),
        }
    }

    /// Takes the value of this observation.
    pub fn take_value(self) -> (r: (Obs<P>, V))
        ensures
            r.0 == (Obs { id: self.id, param: self.param, value: () }),
            r.1 == self.value,
    {
        let Obs { id, param, value } = self;
        (Obs { id, param, value: () }, value)
    }
}

impl<P, V> From<MfObs<P, V>> for Obs<P, V> {
    /// Discards the budget of a multi-fidelity observation.
    fn from(f: MfObs<P, V>) -> (r: Self)
        ensures
            r == (Obs { id: f.id, param: f.param, value: f.value }),
    {
        Self { id: f.id, param: f.param, value: f.value }
    }
}

impl<P, V> vstd::std_specs::convert::FromSpecImpl<MfObs<P, V>> for Obs<P, V> {
    open spec fn obeys_from_spec() -> bool {
        true
    }

    open spec fn from_spec(f: MfObs<P, V>) -> Self {
        Obs { id: f.id, param: f.param, value: f.value }
    }
}

/// Multi-Fidelity Observation: an observation together with the budget
/// granted to, and so far consumed by, its evaluation.
#[derive(Debug, Clone, Copy)]
pub struct MfObs<P, V = ()> {
    /// Observation identifier.
    pub id: ObsId,

    /// Evaluation budget.
    pub budget: Budget,

    /// Evaluation parameter.
    pub param: P,

    /// Observed value.
    pub value: V,
}

impl<P> MfObs<P, ()> {
    /// Makes a new unevaluated observation, with an identifier drawn from
    /// the given generator.
    pub fn new<G: IdGen>(idg: &mut G, budget: Budget, param: P) -> (r: Result<Self, ErrorKind>)
        ensures
            match r {
                Ok(o) => o.param == param && o.budget == budget && G::generate_ens(
                    *old(idg),
                    *final(idg),
                    Ok(o.id),
                ),
                Err(e) => G::generate_ens(*old(idg), *final(idg), Err(e)),
            },
    {
        match idg.generate() {
            Ok(id) => Ok(Self { id, budget, param, value: () }),
            Err(e) => Err(e),
        }
    }
}

impl<P, V> MfObs<P, V> {
    /// Makes a `MfObs` instance from an observation and budget.
    pub fn from_obs(obs: Obs<P, V>, budget: Budget) -> (r: Self)
        ensures
            r == (MfObs { id: obs.id, budget, param: obs.param, value: obs.value }),
    {
        Self { id: obs.id, budget, param: obs.param, value: obs.value }
    }

    /// Updates the parameter by the result of the given function.
    pub fn map_param<F, Q>(self, f: F) -> (r: MfObs<Q, V>) where F: FnOnce(P) -> Q
        requires
            f.requires((self.param,)),
        ensures
            r.id == self.id,
            r.budget == self.budget,
            r.value == self.value,
            f.ensures((self.param,), r.param),
    {
        MfObs { id: self.id, budget: self.budget, param: f(self.param), value: self.value }
    }

    /// Tries updating the parameter by the result of the given function.
    pub fn try_map_param<F, Q, E>(self, f: F) -> (r: Result<MfObs<Q, V>, E>) where
        F: FnOnce(P) -> Result<Q, E>,

        requires
            f.requires((self.param,)),
        ensures
            match r {
                Ok(o) => o.id == self.id && o.budget == self.budget && o.value == self.value
                    && f.ensures((self.param,), Ok(o.param)),
                Err(e) => f.ensures((self.param,), Err(e)),
            },
    {
        match f(self.param) {
            Ok(param) => Ok(MfObs { id: self.id, budget: self.budget, param, value: self.value }),
            Err(e) => Err(e),
        }
    }

    /// Updates the value by the result of the given function.
    pub fn map_value<F, U>(self, f: F) -> (r: MfObs<P, U>) where F: FnOnce(V) -> U
        requires
            f.requires((self.value,)),
        ensures
            r.id == self.id,
            r.budget == self.budget,
            r.param == self.param,
            f.ensures((self.value,), r.value),
    {
        MfObs { id: self.id, budget: self.budget, param: self.param, value: f(self.value) }
    }

    /// Tries updating the value by the result of the given function.
    pub fn try_map_value<F, U, E>(self, f: F) -> (r: Result<MfObs<P, U>, E>) where
        F: FnOnce(V) -> Result<U, E>,

        requires
            f.requires((self.value,)),
        ensures
            match r {
                Ok(o) => o.id == self.id && o.budget == self.budget && o.param == self.param
                    && f.ensures((self.value,), Ok(o.value)),
                Err(e) => f.ensures((self.value,), Err(e)),
            },
    {
        match f(self.value) {
            Ok(value) => Ok(MfObs { id: self.id, budget: self.budget, param: self.param, value }),
            Err(e) => Err(e),
        }
    }

    /// Takes the value of this observation.
    pub fn take_value(self) -> (r: (MfObs<P>, V))
        ensures
            r.0 == (MfObs { id: self.id, budget: self.budget, param: self.param, value: () }),
            r.1 == self.value,
    {
        let MfObs { id, budget, param, value } = self;
        (MfObs { id, budget, param, value: () }, value)
    }
}

} // verus!
