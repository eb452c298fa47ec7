//! The bookkeeping of a k-nearest-neighbour optimizer.
//!
//! The neighbour-based proposal logic ranks candidates by real-valued
//! distances and lives with the surrounding application; this module holds
//! the sampled parameter space and the observation record it works on.
use vstd::prelude::*;

use vstd::std_specs::vec::vec_index_mut;

use crate::observation::{Obs, ObsId};
use crate::parameters::PriorDistribution;

verus! {

/// The first recorded observation that carries the given identifier,
/// scanning the first `upto` entries front to back.
pub open spec fn obs_with_id_upto<P, V>(s: Seq<Obs<P, V>>, id: ObsId, upto: int) -> Option<int>
    decreases upto,
{
    if upto <= 0 {
        None
    } else {
        match obs_with_id_upto(s, id, upto - 1) {
            Some(i) => Some(i),
            None => if s[upto - 1].id == id {
                Some(upto - 1)
            } else {
                None
            },
        }
    }
}

/// The first recorded observation that carries the given identifier.
pub open spec fn obs_with_id<P, V>(s: Seq<Obs<P, V>>, id: ObsId) -> Option<int> {
    obs_with_id_upto(s, id, s.len() as int)
}

/// The record after reporting `obs`: the observation with the same
/// identifier is overwritten when one exists, otherwise `obs` is appended.
pub open spec fn obss_upsert<P, V>(s: Seq<Obs<P, V>>, obs: Obs<P, V>) -> Seq<Obs<P, V>> {
    match obs_with_id(s, obs.id) {
        Some(i) => s.update(i, obs),
        None => s.push(obs),
    }
}

/// K-nearest-neighbour optimizer state.
#[derive(Debug)]
pub struct KnnOptimizer<P, V> where P: PriorDistribution {
    param_space: P,
    obss: Vec<Obs<P::Param, V>>,
}

impl<P, V> KnnOptimizer<P, V> where P: PriorDistribution {
    /// The parameter space candidates are drawn from.
    pub closed spec fn spec_param_space(&self) -> P {
        self.param_space
    }

    /// The observations recorded so far, in insertion order.
    pub closed spec fn spec_obss(&self) -> Seq<Obs<P::Param, V>> {
        self.obss@
    }

    /// Makes a new `KnnOptimizer` instance with nothing recorded.
    pub fn new(param_space: P) -> (r: Self)
        ensures
            r.spec_param_space() == param_space,
            r.spec_obss() == Seq::<Obs<P::Param, V>>::empty(),
    {
        Self { param_space, obss: Vec::new() }
    }

    /// Returns a reference to the parameter space.
    pub fn param_space(&self) -> (r: &P)
        ensures
            *r == self.spec_param_space(),
    {
        &self.param_space
    }

    /// Returns a mutable reference to the parameter space.
    pub fn param_space_mut(&mut self) -> (r: &mut P)
        ensures
            *r == old(self).spec_param_space(),
            final(self).spec_param_space() == *final(r),
            final(self).spec_obss() == old(self).spec_obss(),
    {
        &mut self.param_space
    }

    /// The observations recorded so far.
    pub fn observations(&self) -> (r: &Vec<Obs<P::Param, V>>)
        ensures
            r@ == self.spec_obss(),
    {
        &self.obss
    }

    /// Records the result of an observation, overwriting the record with
    /// the same identifier if one exists.
    pub fn tell(&mut self, obs: Obs<P::Param, V>)
        ensures
            final(self).spec_obss() == obss_upsert(old(self).spec_obss(), obs),
            final(self).spec_param_space() == old(self).spec_param_space(),
    {
        let n = self.obss.len();
        let mut k: usize = 0;
        while k < n
            invariant
                k <= n,
                n == self.spec_obss().len(),
                self.spec_obss() == old(self).spec_obss(),
                self.spec_param_space() == old(self).spec_param_space(),
                obs_with_id_upto(self.spec_obss(), obs.id, k as int) is None,
            decreases n - k,
        {
            if self.obss[k].id == obs.id {
                proof {
                    lemma_obs_with_id_extend(self.spec_obss(), obs.id, k as int + 1, n as int);
                }
                *vec_index_mut(&mut self.obss, k) = obs;
                return ;
            }
            k += 1;
        }
        self.obss.push(obs);
    }

    /// Forgets the observation associated with the given identifier; an
    /// unknown identifier leaves the record as it is. The record keeps no
    /// particular order beyond this.
    pub fn forget(&mut self, id: ObsId)
        ensures
            final(self).spec_param_space() == old(self).spec_param_space(),
            match obs_with_id(old(self).spec_obss(), id) {
                Some(i) => final(self).spec_obss() == old(self).spec_obss().update(
                    i,
                    old(self).spec_obss().last(),
                ).drop_last(),
                None => final(self).spec_obss() == old(self).spec_obss(),
            },
    {
        let n = self.obss.len();
        let mut k: usize = 0;
        while k < n
            invariant
                k <= n,
                n == self.spec_obss().len(),
                self.spec_obss() == old(self).spec_obss(),
                self.spec_param_space() == old(self).spec_param_space(),
                obs_with_id_upto(self.spec_obss(), id, k as int) is None,
            decreases n - k,
        {
            if self.obss[k].id == id {
                proof {
                    lemma_obs_with_id_extend(self.spec_obss(), id, k as int + 1, n as int);
                }
                self.obss.swap_remove(k);
                return ;
            }
            k += 1;
        }
    }
}

proof fn lemma_obs_with_id_extend<P, V>(s: Seq<Obs<P, V>>, id: ObsId, a: int, b: int)
    requires
        0 <= a <= b <= s.len(),
        obs_with_id_upto(s, id, a) is Some,
    ensures
        obs_with_id_upto(s, id, b) == obs_with_id_upto(s, id, a),
    decreases b,
{
    if b > a {
        lemma_obs_with_id_extend(s, id, a, b - 1);
    }
}

} // verus!
