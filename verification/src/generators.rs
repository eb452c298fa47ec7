//! Observation identifier generators.
use vstd::prelude::*;

use crate::error::ErrorKind;
use crate::observation::ObsId;
use crate::IdGen;

verus! {

/// An implementation of `IdGen` that generates serial identifiers starting
/// from zero.
#[derive(Debug)]
pub struct SerialIdGenerator {
    next_id: u64,
}

impl SerialIdGenerator {
    /// The identifier that the next `generate` call will hand out.
    pub closed spec fn spec_next_id(&self) -> u64 {
        self.next_id
    }

    /// Makes a new `SerialIdGenerator` instance.
    pub fn new() -> (r: Self)
        ensures
            r.spec_next_id() == 0,
    {
        Self { next_id: 0 }
    }
}

impl IdGen for SerialIdGenerator {
    open spec fn generate_ens(pre: Self, post: Self, r: Result<ObsId, ErrorKind>) -> bool {
        &&& r == Ok::<ObsId, ErrorKind>(ObsId(pre.spec_next_id()))
        &&& post.spec_next_id() == (if pre.spec_next_id() == u64::MAX {
            0u64
        } else {
            (pre.spec_next_id() + 1) as u64
        })
    }

    fn generate(&mut self) -> (r: Result<ObsId, ErrorKind>) {
        let id = self.next_id;
        self.next_id = if self.next_id == u64::MAX {
            0
        } else {
            self.next_id + 1
        };
        Ok(ObsId::new(id))
    }
}

/// An implementation of `IdGen` that always returns the same identifier.
#[derive(Debug)]
pub struct ConstIdGenerator {
    id: ObsId,
}

impl ConstIdGenerator {
    /// The identifier this generator hands out.
    pub closed spec fn spec_id(&self) -> ObsId {
        self.id
    }

    /// Makes a new `ConstIdGenerator` instance.
    ///
    /// When `ConstIdGenerator::generate` method is called, it always
    /// returns the given identifier.
    pub fn new(id: ObsId) -> (r: Self)
        ensures
            r.spec_id() == id,
    {
        Self { id }
    }
}

impl IdGen for ConstIdGenerator {
    open spec fn generate_ens(pre: Self, post: Self, r: Result<ObsId, ErrorKind>) -> bool {
        &&& r == Ok::<ObsId, ErrorKind>(pre.spec_id())
        &&& post == pre
    }

    fn generate(&mut self) -> (r: Result<ObsId, ErrorKind>) {
        Ok(self.id)
    }
}

} // verus!
