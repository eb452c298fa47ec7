//! Parameter spaces.
use vstd::prelude::*;

use crate::error::ErrorKind;
use crate::rng::{gen_bool, gen_u64_below};

verus! {

/// This trait allows for defining a parameter space.
pub trait ParamSpace {
    /// Concrete parameter type.
    type Param;
}

/// This trait allows for sampling a parameter from the prior distribution
/// of a parameter space.
pub trait PriorDistribution: ParamSpace + Sized {
    /// What `sample` promises of the parameter it draws; each space
    /// refines this.
    spec fn sample_ens(&self, param: Self::Param) -> bool;

    /// Draws a parameter from the prior distribution.
    fn sample(&self, rng: &mut rand::rngs::StdRng) -> (r: Self::Param)
        ensures
            self.sample_ens(r),
    ;
}

/// This trait allows for defining a categorical parameter space.
pub trait Categorical: ParamSpace + Sized {
    /// The number of possible categories; each space refines this.
    spec fn spec_size(&self) -> usize;

    /// What `encode` returns; each space refines this.
    spec fn encode_ens(&self, param: Self::Param, r: Result<usize, ErrorKind>) -> bool;

    /// What `decode` returns; each space refines this.
    spec fn decode_ens(&self, index: usize, r: Result<Self::Param, ErrorKind>) -> bool;

    /// Returns the number of possible categories.
    fn size(&self) -> (r: usize)
        ensures
            r == self.spec_size(),
    ;

    /// Converts the given parameter (category) to the associated index.
    fn encode(&self, param: &Self::Param) -> (r: Result<usize, ErrorKind>)
        ensures
            self.encode_ens(*param, r),
    ;

    /// Converts the given index to the associated parameter (category).
    fn decode(&self, index: usize) -> (r: Result<Self::Param, ErrorKind>)
        ensures
            self.decode_ens(index, r),
    ;
}

/// This trait allows for defining a discrete numerical parameter space.
pub trait Discrete: ParamSpace + Sized {
    /// The number of possible entries; each space refines this.
    spec fn spec_size(&self) -> u64;

    /// What `encode` returns; each space refines this.
    spec fn encode_ens(&self, param: Self::Param, r: Result<u64, ErrorKind>) -> bool;

    /// What `decode` returns; each space refines this.
    spec fn decode_ens(&self, index: u64, r: Result<Self::Param, ErrorKind>) -> bool;

    /// Returns the number of possible discrete entries.
    fn size(&self) -> (r: u64)
        ensures
            r == self.spec_size(),
    ;

    /// Converts the given parameter to the associated index.
    fn encode(&self, param: &Self::Param) -> (r: Result<u64, ErrorKind>)
        ensures
            self.encode_ens(*param, r),
    ;

    /// Converts the given index to the associated parameter.
    fn decode(&self, index: u64) -> (r: Result<Self::Param, ErrorKind>)
        ensures
            self.decode_ens(index, r),
    ;
}

/// Boolean parameter space.
#[derive(Debug, Default, Clone, Copy)]
pub struct Bool;

impl ParamSpace for Bool {
    type Param = bool;
}

impl Categorical for Bool {
    open spec fn spec_size(&self) -> usize {
        2
    }

    open spec fn encode_ens(&self, param: bool, r: Result<usize, ErrorKind>) -> bool {
        r == Ok::<usize, ErrorKind>(
            if param {
                1usize
            } else {
                0usize
            },
        )
    }

    open spec fn decode_ens(&self, index: usize, r: Result<bool, ErrorKind>) -> bool {
        match index {
            0 => r == Ok::<bool, ErrorKind>(false),
            1 => r == Ok::<bool, ErrorKind>(true),
            _ => r == Err::<bool, ErrorKind>(ErrorKind::InvalidInput),
        }
    }

    fn size(&self) -> (r: usize) {
        2
    }

    fn encode(&self, param: &bool) -> (r: Result<usize, ErrorKind>) {
        Ok(if *param {
            1
        } else {
            0
        })
    }

    fn decode(&self, index: usize) -> (r: Result<bool, ErrorKind>) {
        match index {
            0 => Ok(false),
            1 => Ok(true),
            _ => Err(ErrorKind::InvalidInput),
        }
    }
}

impl PriorDistribution for Bool {
    open spec fn sample_ens(&self, param: bool) -> bool {
        true
    }

    fn sample(&self, rng: &mut rand::rngs::StdRng) -> (r: bool) {
        gen_bool(rng)
    }
}

/// 64-bit unsigned integer number parameter space: the values `0` through
/// `size - 1`.
#[derive(Debug, Clone, Copy)]
pub struct U64(u64);

impl U64 {
    /// Makes a `U64` parameter space.
    pub fn new(size: u64) -> (r: Self)
        ensures
            Discrete::spec_size(&r) == size,
    {
        Self(size)
    }
}

impl ParamSpace for U64 {
    type Param = u64;
}

impl Discrete for U64 {
    closed spec fn spec_size(&self) -> u64 {
        self.0
    }

    open spec fn encode_ens(&self, param: u64, r: Result<u64, ErrorKind>) -> bool {
        r == Ok::<u64, ErrorKind>(param)
    }

    open spec fn decode_ens(&self, index: u64, r: Result<u64, ErrorKind>) -> bool {
        r == Ok::<u64, ErrorKind>(index)
    }

    fn size(&self) -> (r: u64) {
        self.0
    }

    fn encode(&self, param: &u64) -> (r: Result<u64, ErrorKind>) {
        Ok(*param)
    }

    fn decode(&self, index: u64) -> (r: Result<u64, ErrorKind>) {
        Ok(index)
    }
}

impl PriorDistribution for U64 {
    open spec fn sample_ens(&self, param: u64) -> bool {
        Discrete::spec_size(self) >= 1 ==> param < Discrete::spec_size(self)
    }

    fn sample(&self, rng: &mut rand::rngs::StdRng) -> (r: u64) {
        if self.0 == 0 {
            0
        } else {
            gen_u64_below(rng, self.0)
        }
    }
}

} // verus!
