//! Parameter search domains.
use vstd::prelude::*;

use crate::error::ErrorKind;
use crate::rng::gen_u64_below;
use crate::Domain;

verus! {

/// Vector domain: one point per element domain.
#[derive(Debug, Clone, PartialEq, Eq, Hash)]
pub struct VecDomain<T>(pub Vec<T>);

impl<T: Domain> Domain for VecDomain<T> {
    type Point = Vec<T::Point>;

    open spec fn sample_ens(&self, point: Vec<T::Point>) -> bool {
        &&& point@.len() == self.0@.len()
        &&& forall|i: int| 0 <= i < point@.len() ==> (#[trigger] self.0@[i]).sample_ens(point@[i])
    }

    fn sample(&self, rng: &mut rand::rngs::StdRng) -> (r: Vec<T::Point>) {
        let n = self.0.len();
        let mut out: Vec<T::Point> = Vec::new();
        let mut i: usize = 0;
        while i < n
            invariant
                i <= n,
                out@.len() == i,
                forall|k: int| 0 <= k < i as int ==> (#[trigger] self.0@[k]).sample_ens(out@[k]),
            decreases n - i,
        {
            let p = self.0[i].sample(rng);
            out.push(p);
            i += 1;
        }
        out
    }
}

/// Categorical domain: `cardinality` unordered categories, numbered from
/// zero.
#[derive(Debug, Clone, PartialEq, Eq, Hash)]
pub struct CategoricalDomain {
    cardinality: u64,
}

impl CategoricalDomain {
    /// The number of possible categories; `new` only accepts a positive
    /// one.
    pub closed spec fn spec_cardinality(&self) -> u64 {
        self.cardinality
    }

    /// Makes a new `CategoricalDomain` instance.
    ///
    /// # Errors
    ///
    /// If `cardinality` is `0`, this function returns an
    /// `ErrorKind::InvalidInput` error.
    pub fn new(cardinality: u64) -> (r: Result<Self, ErrorKind>)
        ensures
            cardinality == 0 ==> r == Err::<Self, ErrorKind>(ErrorKind::InvalidInput),
            cardinality >= 1 ==> match r {
                Ok(d) => d.spec_cardinality() == cardinality,
                Err(_) => false,
            },
    {
        if cardinality == 0 {
            return Err(ErrorKind::InvalidInput);
        }
        Ok(Self { cardinality })
    }

    /// Returns the cardinality of this domain.
    pub fn cardinality(&self) -> (r: u64)
        ensures
            r == self.spec_cardinality(),
    {
        self.cardinality
    }
}

impl Domain for CategoricalDomain {
    type Point = u64;

    open spec fn sample_ens(&self, point: u64) -> bool {
        self.spec_cardinality() >= 1 ==> point < self.spec_cardinality()
    }

    fn sample(&self, rng: &mut rand::rngs::StdRng) -> (r: u64) {
        if self.cardinality == 0 {
            0
        } else {
            gen_u64_below(rng, self.cardinality)
        }
    }
}

/// Discrete numerical domain: the ordered values `0` through `size - 1`.
#[derive(Debug, Clone, PartialEq, Eq, Hash)]
pub struct DiscreteDomain {
    size: u64,
}

impl DiscreteDomain {
    /// The number of possible entries; `new` only accepts a positive one.
    pub closed spec fn spec_size(&self) -> u64 {
        self.size
    }

    /// Makes a new `DiscreteDomain` instance.
    ///
    /// # Errors
    ///
    /// If `size` is `0`, this function returns an
    /// `ErrorKind::InvalidInput` error.
    pub fn new(size: u64) -> (r: Result<Self, ErrorKind>)
        ensures
            size == 0 ==> r == Err::<Self, ErrorKind>(ErrorKind::InvalidInput),
            size >= 1 ==> match r {
                Ok(d) => d.spec_size() == size,
                Err(_) => false,
            },
    {
        if size == 0 {
            return Err(ErrorKind::InvalidInput);
        }
        Ok(Self { size })
    }

    /// Returns the size of this domain.
    pub fn size(&self) -> (r: u64)
        ensures
            r == self.spec_size(),
    {
        self.size
    }
}

impl Domain for DiscreteDomain {
    type Point = u64;

    open spec fn sample_ens(&self, point: u64) -> bool {
        self.spec_size() >= 1 ==> point < self.spec_size()
    }

    fn sample(&self, rng: &mut rand::rngs::StdRng) -> (r: u64) {
        if self.size == 0 {
            0
        } else {
            gen_u64_below(rng, self.size)
        }
    }
}

} // verus!
