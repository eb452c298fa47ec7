//! The Asynchronous Successive Halving Algorithm.
//!
//! A multi-fidelity evaluation scheduler: for each ask it decides whether
//! to promote a partially evaluated configuration to a larger evaluation
//! budget or to start a brand-new configuration, and it reconciles budget
//! accounting across many outstanding, asynchronously completing
//! evaluations.
use vstd::prelude::*;

use vstd::std_specs::vec::vec_index_mut;

use crate::budget::Budget;
use crate::error::ErrorKind;
use crate::observation::{MfObs, Obs, ObsId};
use crate::{IdGen, MultiFidelityOptimizer, Optimizer, Ranked};

verus! {

/// Builder of `AshaOptimizer`.
#[derive(Debug, Clone)]
pub struct AshaOptimizerBuilder {
    reduction_factor: usize,
    without_checkpoint: bool,
}

impl AshaOptimizerBuilder {
    /// A builder is well formed when its reduction factor is a valid
    /// elimination ratio; every way of making or changing a builder keeps
    /// this.
    pub open spec fn wf(&self) -> bool {
        self.spec_reduction_factor() >= 2
    }

    /// The configured reduction factor: the multiplicative step between
    /// successive rung budgets and the elimination ratio at each
    /// promotion decision; always at least `2`.
    pub closed spec fn spec_reduction_factor(&self) -> usize {
        self.reduction_factor
    }

    /// Whether promotions re-run configurations from scratch under fresh
    /// identifiers.
    pub closed spec fn spec_without_checkpoint(&self) -> bool {
        self.without_checkpoint
    }

    /// Makes a new `AshaOptimizerBuilder` instance with the default
    /// settings.
    pub fn new() -> (r: Self)
        ensures
            r.wf(),
            r.spec_reduction_factor() == 2,
            !r.spec_without_checkpoint(),
    {
        Self { reduction_factor: 2, without_checkpoint: false }
    }

    /// Sets the reduction factor of the resulting optimizer.
    ///
    /// # Errors
    ///
    /// If `factor` is less than `2`, an `ErrorKind::InvalidInput` error
    /// will be returned and the builder is left unchanged.
    pub fn reduction_factor(&mut self, factor: usize) -> (r: Result<(), ErrorKind>)
        ensures
            factor > 1 ==> {
                &&& r == Ok::<(), ErrorKind>(())
                &&& final(self).wf()
                &&& final(self).spec_reduction_factor() == factor
                &&& final(self).spec_without_checkpoint() == old(self).spec_without_checkpoint()
            },
            factor <= 1 ==> r == Err::<(), ErrorKind>(ErrorKind::InvalidInput) && *final(self)
                == *old(self),
    {
        if factor <= 1 {
            return Err(ErrorKind::InvalidInput);
        }
        self.reduction_factor = factor;
        Ok(())
    }

    /// Makes the resulting optimizer work well with evaluators that don't
    /// have the capability of checkpointing: a promoted configuration is
    /// handed out under a fresh identifier with its consumption reset, so
    /// that it is re-run from scratch at the larger budget.
    pub fn without_checkpoint(&mut self)
        ensures
            final(self).spec_without_checkpoint(),
            final(self).spec_reduction_factor() == old(self).spec_reduction_factor(),
            final(self).wf() == old(self).wf(),
    {
        self.without_checkpoint = true;
    }
}

impl Default for AshaOptimizerBuilder {
    fn default() -> (r: Self)
        ensures
            r.wf(),
            r.spec_reduction_factor() == 2,
            !r.spec_without_checkpoint(),
    {
        Self::new()
    }
}

/// State of one configuration inside a rung: either still awaiting a
/// promotion decision, or already resolved (promoted away or terminally
/// evaluated) and retained only for its value, so that ranking
/// comparisons stay total.
#[derive(Debug, Clone, Copy)]
pub enum Config<P> {
    /// Still awaiting a promotion decision.
    Pending {
        /// The observation as it was reported.
        obs: MfObs<P, u64>,
    },
    /// Already promoted or terminally evaluated.
    Finished {
        /// The value the observation reached.
        value: u64,
    },
}

impl<P> Config<P> {
    /// The observed value this configuration is ranked by (lower is
    /// better).
    pub open spec fn spec_value(self) -> u64 {
        match self {
            Config::Pending { obs } => obs.value,
            Config::Finished { value } => value,
        }
    }

    /// Whether this configuration still awaits a promotion decision.
    pub open spec fn is_pending(self) -> bool {
        match self {
            Config::Pending { .. } => true,
            Config::Finished { .. } => false,
        }
    }

    /// The observation of a pending configuration.
    pub open spec fn spec_pending_obs(self) -> MfObs<P, u64>
        recommends
            self.is_pending(),
    {
        match self {
            Config::Pending { obs } => obs,
            Config::Finished { .. } => vstd::pervasive::arbitrary(),
        }
    }
}

impl<P: Copy> Config<P> {
    /// The observed value this configuration is ranked by.
    pub fn value(&self) -> (r: u64)
        ensures
            r == self.spec_value(),
    {
        match self {
            Config::Pending { obs } => obs.value,
            Config::Finished { value } => *value,
        }
    }
}

/// One rung entry: an observation identifier and the state of the
/// configuration it belongs to.
#[derive(Debug, Clone, Copy)]
pub struct RungEntry<P> {
    /// The identifier under which the configuration was reported.
    pub id: ObsId,

    /// The configuration's state.
    pub config: Config<P>,
}

/// The promotion ordering inside a rung: entry `i` ranks strictly before
/// entry `j` when its value is smaller (lower is better), with ties
/// broken by position (earlier entry first).
pub open spec fn entry_lt<P>(s: Seq<RungEntry<P>>, i: int, j: int) -> bool {
    ||| s[i].config.spec_value() < s[j].config.spec_value()
    ||| (s[i].config.spec_value() == s[j].config.spec_value() && i < j)
}

/// How many of the first `upto` entries rank strictly before entry `i`.
pub open spec fn num_better_upto<P>(s: Seq<RungEntry<P>>, i: int, upto: int) -> int
    decreases upto,
{
    if upto <= 0 {
        0
    } else {
        num_better_upto(s, i, upto - 1) + if entry_lt(s, upto - 1, i) {
            1int
        } else {
            0int
        }
    }
}

/// The position entry `i` would take if the rung were sorted best first:
/// the number of entries that rank strictly before it.
pub open spec fn sort_pos<P>(s: Seq<RungEntry<P>>, i: int) -> int {
    num_better_upto(s, i, s.len() as int)
}

/// The best pending entry among the first `upto`: the lowest value, and
/// the earliest position among equal values.
pub open spec fn best_pending_upto<P>(s: Seq<RungEntry<P>>, upto: int) -> Option<int>
    decreases upto,
{
    if upto <= 0 {
        None
    } else {
        let rest = best_pending_upto(s, upto - 1);
        if s[upto - 1].config.is_pending() {
            match rest {
                None => Some(upto - 1),
                Some(i) => if entry_lt(s, upto - 1, i) {
                    Some(upto - 1)
                } else {
                    Some(i)
                },
            }
        } else {
            rest
        }
    }
}

/// The best pending entry of the whole rung.
pub open spec fn best_pending<P>(s: Seq<RungEntry<P>>) -> Option<int> {
    best_pending_upto(s, s.len() as int)
}

/// The first entry that carries the given identifier, scanning the first
/// `upto` entries front to back.
pub open spec fn first_with_id_upto<P>(s: Seq<RungEntry<P>>, id: ObsId, upto: int) -> Option<int>
    decreases upto,
{
    if upto <= 0 {
        None
    } else {
        match first_with_id_upto(s, id, upto - 1) {
            Some(i) => Some(i),
            None => if s[upto - 1].id == id {
                Some(upto - 1)
            } else {
                None
            },
        }
    }
}

/// The first entry that carries the given identifier.
pub open spec fn first_with_id<P>(s: Seq<RungEntry<P>>, id: ObsId) -> Option<int> {
    first_with_id_upto(s, id, s.len() as int)
}

/// Whether some entry carries the given identifier.
pub open spec fn has_id<P>(s: Seq<RungEntry<P>>, id: ObsId) -> bool {
    first_with_id(s, id) is Some
}

/// The rung contents after reporting `e`: the entry with the same
/// identifier is overwritten when one exists, otherwise `e` is appended.
pub open spec fn entries_upsert<P>(s: Seq<RungEntry<P>>, e: RungEntry<P>) -> Seq<RungEntry<P>> {
    match first_with_id(s, e.id) {
        Some(i) => s.update(i, e),
        None => s.push(e),
    }
}

/// What `first_with_id` finds: the entry it points at carries the
/// identifier and no earlier entry does; `None` means no entry carries it.
pub proof fn lemma_first_with_id_spec<P>(s: Seq<RungEntry<P>>, id: ObsId)
    ensures
        match first_with_id(s, id) {
            Some(i) => 0 <= i < s.len() && s[i].id == id && forall|j: int|
                0 <= j < i ==> s[j].id != id,
            None => forall|j: int| 0 <= j < s.len() ==> s[j].id != id,
        },
{
    lemma_first_with_id_upto_spec(s, id, s.len() as int);
}

proof fn lemma_first_with_id_upto_spec<P>(s: Seq<RungEntry<P>>, id: ObsId, upto: int)
    requires
        upto <= s.len(),
    ensures
        match first_with_id_upto(s, id, upto) {
            Some(i) => 0 <= i < upto && s[i].id == id && forall|j: int|
                0 <= j < i ==> s[j].id != id,
            None => forall|j: int| 0 <= j < upto ==> s[j].id != id,
        },
    decreases upto,
{
    if upto > 0 {
        lemma_first_with_id_upto_spec(s, id, upto - 1);
    }
}

proof fn lemma_first_with_id_extend<P>(s: Seq<RungEntry<P>>, id: ObsId, a: int, b: int)
    requires
        0 <= a <= b <= s.len(),
        first_with_id_upto(s, id, a) is Some,
    ensures
        first_with_id_upto(s, id, b) == first_with_id_upto(s, id, a),
    decreases b,
{
    if b > a {
        lemma_first_with_id_extend(s, id, a, b - 1);
    }
}

/// One budget checkpoint of an ASHA instance: bookkeeping of the
/// observations whose reported budget consumption falls into the interval
/// `[curr_budget, next_budget)`; the terminal rung (`next_budget == None`)
/// catches every consumption from its own budget upward.
#[derive(Debug)]
pub struct Rung<P> {
    obss: Vec<RungEntry<P>>,
    curr_budget: u64,
    next_budget: Option<u64>,
    reduction_factor: usize,
}

impl<P> Rung<P> {
    /// The rung's record invariant: each identifier appears at most once,
    /// and a pending entry is recorded under its own observation's
    /// identifier. An empty rung has it, and every reported or promoted
    /// entry keeps it (see the preservation lemmas beside the `tell`,
    /// `upsert` and `ask_promotable` relations).
    pub open spec fn wf(&self) -> bool {
        &&& forall|i: int, j: int|
            0 <= i < j < self.entries().len() ==> (#[trigger] self.entries()[i]).id != (
            #[trigger] self.entries()[j]).id
        &&& forall|i: int|
            0 <= i < self.entries().len() && (#[trigger] self.entries()[i]).config.is_pending()
                ==> self.entries()[i].config.spec_pending_obs().id == self.entries()[i].id
    }

    /// The observations this rung holds, in insertion order.
    pub closed spec fn entries(&self) -> Seq<RungEntry<P>> {
        self.obss@
    }

    /// The budget checkpoint this rung stands for.
    pub closed spec fn spec_curr_budget(&self) -> u64 {
        self.curr_budget
    }

    /// The next rung's budget; `None` marks the terminal rung.
    pub closed spec fn spec_next_budget(&self) -> Option<u64> {
        self.next_budget
    }

    /// The elimination ratio at promotion decisions; always at least `2`.
    pub closed spec fn spec_reduction_factor(&self) -> usize {
        self.reduction_factor
    }
}

/// The promotion decision over a rung's entries: `Some(i)` when entry `i`
/// is the best pending entry and would be sorted within the top
/// `len / reduction_factor` positions; `None` when the rung is terminal or
/// no pending entry ranks that well.
pub open spec fn rung_promotable<P>(rung: Rung<P>) -> Option<int> {
    match rung.spec_next_budget() {
        None => None,
        Some(_) => match best_pending(rung.entries()) {
            None => None,
            Some(i) => if sort_pos(rung.entries(), i) < rung.entries().len() as int
                / rung.spec_reduction_factor() as int {
                Some(i)
            } else {
                None
            },
        },
    }
}

/// What one `Rung::ask_promotable` call does: when the rung holds a
/// promotable candidate, that candidate is handed out with its budget
/// amount raised to exactly the next rung's budget, keeping its reported
/// consumption, and its entry is marked `Finished` in place; otherwise
/// nothing changes.
pub open spec fn rung_ask_promotable_ens<P>(
    pre: Rung<P>,
    post: Rung<P>,
    r: Option<MfObs<P, ()>>,
) -> bool {
    match rung_promotable(pre) {
        None => r is None && post == pre,
        Some(i) => match pre.spec_next_budget() {
            None => false,
            Some(nb) => {
                let e = pre.entries()[i];
                let pobs = e.config.spec_pending_obs();
                &&& r == Some(
                    MfObs {
                        id: pobs.id,
                        budget: Budget { amount: nb, consumption: pobs.budget.consumption },
                        param: pobs.param,
                        value: (),
                    },
                )
                &&& post.entries() == pre.entries().update(
                    i,
                    RungEntry { id: e.id, config: Config::Finished { value: pobs.value } },
                )
                &&& post.spec_curr_budget() == pre.spec_curr_budget()
                &&& post.spec_next_budget() == pre.spec_next_budget()
                &&& post.spec_reduction_factor() == pre.spec_reduction_factor()
            },
        },
    }
}

/// What one `Rung::tell` call does: report `obs` as pending, refusing a
/// duplicate identifier (`Bug`) and a consumption below the rung's own
/// budget (`InvalidInput`).
pub open spec fn rung_tell_ens<P>(
    pre: Rung<P>,
    obs: MfObs<P, u64>,
    post: Rung<P>,
    r: Result<(), ErrorKind>,
) -> bool {
    if has_id(pre.entries(), obs.id) {
        r == Err::<(), ErrorKind>(ErrorKind::Bug) && post == pre
    } else if obs.budget.consumption < pre.spec_curr_budget() {
        r == Err::<(), ErrorKind>(ErrorKind::InvalidInput) && post == pre
    } else {
        &&& r == Ok::<(), ErrorKind>(())
        &&& post.entries() == pre.entries().push(
            RungEntry { id: obs.id, config: Config::Pending { obs } },
        )
        &&& post.spec_curr_budget() == pre.spec_curr_budget()
        &&& post.spec_next_budget() == pre.spec_next_budget()
        &&& post.spec_reduction_factor() == pre.spec_reduction_factor()
    }
}

/// What one `Rung::upsert` call does: the reported observation replaces
/// the entry with the same identifier, or is appended as a new entry.
pub open spec fn rung_upsert_ens<P>(pre: Rung<P>, obs: MfObs<P, u64>, post: Rung<P>) -> bool {
    &&& post.entries() == entries_upsert(
        pre.entries(),
        RungEntry { id: obs.id, config: Config::Pending { obs } },
    )
    &&& post.spec_curr_budget() == pre.spec_curr_budget()
    &&& post.spec_next_budget() == pre.spec_next_budget()
    &&& post.spec_reduction_factor() == pre.spec_reduction_factor()
}

impl<P: Copy> Rung<P> {
    /// Makes a new, empty rung for the budget interval
    /// `[curr_budget, next_budget)`.
    pub fn new(curr_budget: u64, next_budget: Option<u64>, builder: &AshaOptimizerBuilder) -> (r:
        Self)
        ensures
            r.wf(),
            r.entries() == Seq::<RungEntry<P>>::empty(),
            r.spec_curr_budget() == curr_budget,
            r.spec_next_budget() == next_budget,
            r.spec_reduction_factor() == builder.spec_reduction_factor(),
    {
        Self { obss: Vec::new(), curr_budget, next_budget, reduction_factor: builder.reduction_factor }
    }

    /// The budget checkpoint this rung stands for.
    pub fn curr_budget(&self) -> (r: u64)
        ensures
            r == self.spec_curr_budget(),
    {
        self.curr_budget
    }

    /// The next rung's budget; `None` marks the terminal rung.
    pub fn next_budget(&self) -> (r: Option<u64>)
        ensures
            r == self.spec_next_budget(),
    {
        self.next_budget
    }

    /// How many observations this rung holds.
    pub fn len(&self) -> (r: usize)
        ensures
            r == self.entries().len(),
    {
        self.obss.len()
    }

    /// Where the entry with the given identifier sits, if anywhere.
    fn index_of(&self, id: ObsId) -> (r: Option<usize>)
        ensures
            match r {
                Some(i) => first_with_id(self.entries(), id) == Some(i as int),
                None => first_with_id(self.entries(), id) is None,
            },
    {
        let n = self.obss.len();
        let mut k: usize = 0;
        while k < n
            invariant
                k <= n,
                n == self.entries().len(),
                first_with_id_upto(self.entries(), id, k as int) is None,
            decreases n - k,
        {
            if self.obss[k].id == id {
                proof {
                    lemma_first_with_id_extend(self.entries(), id, k as int + 1, n as int);
                }
                return Some(k);
            }
            k += 1;
        }
        None
    }

    /// Reports an observation into this rung as `Pending`.
    ///
    /// # Errors
    ///
    /// Telling an identifier that is already present in this rung is an
    /// `ErrorKind::Bug`; telling a consumption below the rung's own budget
    /// is an `ErrorKind::InvalidInput`.
    pub fn tell(&mut self, obs: MfObs<P, u64>) -> (r: Result<(), ErrorKind>)
        ensures
            rung_tell_ens(*old(self), obs, *final(self), r),
    {
        match self.index_of(obs.id) {
            Some(_) => Err(ErrorKind::Bug),
            None => {
                if obs.budget.consumption < self.curr_budget {
                    return Err(ErrorKind::InvalidInput);
                }
                proof {
                    lemma_first_with_id_spec(self.entries(), obs.id);
                }
                self.obss.push(RungEntry { id: obs.id, config: Config::Pending { obs } });
                Ok(())
            },
        }
    }

    /// Scans this rung for a promotable candidate: the pending observation
    /// with the best (lowest) value, provided it would be sorted within the
    /// top `len / reduction_factor` positions of the rung. The candidate's
    /// budget amount is raised to exactly the next rung's budget and its
    /// entry is marked `Finished` in place; a terminal rung never promotes.
    pub fn ask_promotable(&mut self) -> (r: Option<MfObs<P, ()>>)
        requires
            old(self).spec_reduction_factor() >= 2,
        ensures
            rung_ask_promotable_ens(*old(self), *final(self), r),
    {
        let nb = match self.next_budget {
            Some(nb) => nb,
            None => {
                return None;
            },
        };
        let ghost s = self.entries();
        let n = self.obss.len();
        let mut best: Option<(usize, MfObs<P, u64>)> = None;
        let mut k: usize = 0;
        while k < n
            invariant
                k <= n,
                match best {
                    None => best_pending_upto(s, k as int) is None,
                    Some((b, bobs)) => {
                        &&& b < k
                        &&& best_pending_upto(s, k as int) == Some(b as int)
                        &&& s[b as int].config == (Config::Pending { obs: bobs })
                    },
                },
            decreases n - k,
        {
            let e = self.obss[k];
            match e.config {
                Config::Pending { obs } => {
                    match best {
                        None => {
                            best = Some((k, obs));
                        },
                        Some((_, bobs)) => {
                            if obs.value < bobs.value {
                                best = Some((k, obs));
                            }
                        },
                    }
                },
                Config::Finished { .. } => {},
            }
            k += 1;
        }
        let (bi, bobs) = match best {
            Some(p) => p,
            None => {
                return None;
            },
        };
        let mut cnt: usize = 0;
        let mut j: usize = 0;
        while j < n
            invariant
                j <= n,
                cnt <= j,
                cnt == num_better_upto(s, bi as int, j as int),
            decreases n - j,
        {
            let v = self.obss[j].config.value();
            if v < bobs.value || (v == bobs.value && j < bi) {
                cnt = cnt + 1;
            }
            j += 1;
        }
        let m = n / self.reduction_factor;
        if cnt < m {
            let fin = RungEntry {
                id: self.obss[bi].id,
                config: Config::Finished { value: bobs.value },
            };
            self.obss[bi] = fin;
            Some(
                MfObs {
                    id: bobs.id,
                    budget: Budget { amount: nb, consumption: bobs.budget.consumption },
                    param: bobs.param,
                    value: (),
                },
            )
        } else {
            None
        }
    }

    /// Reports an observation into this rung as `Pending`, overwriting the
    /// entry with the same identifier if one exists: a re-report converges
    /// instead of accumulating.
    pub fn upsert(&mut self, obs: MfObs<P, u64>)
        ensures
            rung_upsert_ens(*old(self), obs, *final(self)),
    {
        let e = RungEntry { id: obs.id, config: Config::Pending { obs } };
        match self.index_of(obs.id) {
            Some(i) => {
                proof {
                    lemma_first_with_id_spec(self.entries(), obs.id);
                }
                *vec_index_mut(&mut self.obss, i) = e;
            },
            None => {
                proof {
                    lemma_first_with_id_spec(self.entries(), obs.id);
                }
                self.obss.push(e);
            },
        }
    }
}

/// Reporting the same observation twice leaves a rung exactly as
/// reporting it once: the re-report overwrites its own entry, so rung
/// membership converges instead of accumulating.
pub proof fn lemma_upsert_idempotent<P>(s: Seq<RungEntry<P>>, e: RungEntry<P>)
    ensures
        entries_upsert(entries_upsert(s, e), e) == entries_upsert(s, e),
{
    lemma_first_with_id_spec(s, e.id);
    let s1 = entries_upsert(s, e);
    lemma_first_with_id_spec(s1, e.id);
    match first_with_id(s, e.id) {
        Some(i) => {
            match first_with_id(s1, e.id) {
                Some(i2) => {
                    if i2 < i {
                        assert(s1[i2] == s[i2]);
                    } else if i < i2 {
                        assert(s1[i] == e);
                    }
                    assert(i2 == i);
                    assert(s1.update(i, e) =~= s1);
                },
                None => {
                    assert(s1[i] == e);
                },
            }
        },
        None => {
            match first_with_id(s1, e.id) {
                Some(i2) => {
                    if i2 < s.len() {
                        assert(s1[i2] == s[i2]);
                    }
                    assert(i2 == s.len());
                    assert(s1.update(i2, e) =~= s1);
                },
                None => {
                    assert(s1[s.len() as int] == e);
                },
            }
        },
    }
}

/// A strict report keeps the rung's record invariant: the new entry's
/// identifier was absent, and it is recorded pending under itself.
pub proof fn lemma_tell_preserves_wf<P>(
    pre: Rung<P>,
    obs: MfObs<P, u64>,
    post: Rung<P>,
    r: Result<(), ErrorKind>,
)
    requires
        pre.wf(),
        rung_tell_ens(pre, obs, post, r),
    ensures
        post.wf(),
{
    lemma_first_with_id_spec(pre.entries(), obs.id);
    if !has_id(pre.entries(), obs.id) && obs.budget.consumption >= pre.spec_curr_budget() {
        let s = post.entries();
        assert forall|i: int, j: int| 0 <= i < j < s.len() implies (#[trigger] s[i]).id != (
        #[trigger] s[j]).id by {
            if j < s.len() - 1 {
                assert(s[i] == pre.entries()[i]);
                assert(s[j] == pre.entries()[j]);
            } else {
                assert(s[i] == pre.entries()[i]);
            }
        }
    }
}

/// A re-report keeps the rung's record invariant: it either overwrites
/// its own entry in place or appends an absent identifier.
pub proof fn lemma_upsert_preserves_wf<P>(pre: Rung<P>, obs: MfObs<P, u64>, post: Rung<P>)
    requires
        pre.wf(),
        rung_upsert_ens(pre, obs, post),
    ensures
        post.wf(),
{
    lemma_first_with_id_spec(pre.entries(), obs.id);
    let s = post.entries();
    match first_with_id(pre.entries(), obs.id) {
        Some(k) => {
            assert forall|i: int, j: int| 0 <= i < j < s.len() implies (#[trigger] s[i]).id != (
            #[trigger] s[j]).id by {
                assert(s[i].id == pre.entries()[i].id);
                assert(s[j].id == pre.entries()[j].id);
            }
        },
        None => {
            assert forall|i: int, j: int| 0 <= i < j < s.len() implies (#[trigger] s[i]).id != (
            #[trigger] s[j]).id by {
                if j < s.len() - 1 {
                    assert(s[i] == pre.entries()[i]);
                    assert(s[j] == pre.entries()[j]);
                } else {
                    assert(s[i] == pre.entries()[i]);
                }
            }
        },
    }
}

/// A promotion keeps the rung's record invariant: the promoted entry is
/// resolved in place under its own identifier.
pub proof fn lemma_promote_preserves_wf<P>(pre: Rung<P>, post: Rung<P>, r: Option<MfObs<P, ()>>)
    requires
        pre.wf(),
        rung_ask_promotable_ens(pre, post, r),
    ensures
        post.wf(),
{
    let s = post.entries();
    match rung_promotable(pre) {
        Some(_) => {
            lemma_promotable_is_best(pre);
            assert forall|i: int, j: int| 0 <= i < j < s.len() implies (#[trigger] s[i]).id != (
            #[trigger] s[j]).id by {
                assert(s[i].id == pre.entries()[i].id);
                assert(s[j].id == pre.entries()[j].id);
            }
        },
        None => {},
    }
}

/// Every index the consumption targeting hands back is a real rung index.
pub proof fn lemma_target_rung_in_range<P>(s: Seq<Rung<P>>, c: u64)
    ensures
        match target_rung(s, c) {
            Some(j) => 0 <= j < s.len(),
            None => true,
        },
{
    lemma_target_rung_upto_in_range(s, c, s.len() as int);
}

proof fn lemma_target_rung_upto_in_range<P>(s: Seq<Rung<P>>, c: u64, upto: int)
    requires
        upto <= s.len(),
    ensures
        match target_rung_upto(s, c, upto) {
            Some(j) => 0 <= j < upto,
            None => true,
        },
    decreases upto,
{
    if upto > 0 {
        lemma_target_rung_upto_in_range(s, c, upto - 1);
    }
}

/// Reporting the same observation twice through the rung ladder leaves the
/// ladder exactly as reporting it once: the second report targets the same
/// rung, where it overwrites its own entry.
pub proof fn lemma_rungs_upsert_idempotent<P>(
    a: Rungs<P>,
    b: Rungs<P>,
    c: Rungs<P>,
    obs: MfObs<P, u64>,
    r1: Result<(), ErrorKind>,
    r2: Result<(), ErrorKind>,
)
    requires
        rungs_upsert_ens(a, obs, b, r1),
        rungs_upsert_ens(b, obs, c, r2),
    ensures
        c.rungs().len() == b.rungs().len(),
        forall|j: int|
            0 <= j < b.rungs().len() ==> {
                &&& (#[trigger] c.rungs()[j]).entries() == b.rungs()[j].entries()
                &&& c.rungs()[j].spec_curr_budget() == b.rungs()[j].spec_curr_budget()
                &&& c.rungs()[j].spec_next_budget() == b.rungs()[j].spec_next_budget()
                &&& c.rungs()[j].spec_reduction_factor() == b.rungs()[j].spec_reduction_factor()
            },
{
    let cons = obs.budget.consumption;
    lemma_target_rung_in_range(a.rungs(), cons);
    match target_rung(a.rungs(), cons) {
        Some(j) => {
            lemma_target_rung_same(a.rungs(), b.rungs(), cons, a.rungs().len() as int);
            let e = RungEntry { id: obs.id, config: Config::Pending { obs } };
            lemma_upsert_idempotent(a.rungs()[j].entries(), e);
        },
        None => {
            lemma_target_rung_same(a.rungs(), b.rungs(), cons, a.rungs().len() as int);
        },
    }
}

/// Two ladders whose rungs carry the same budgets target the same rung
/// for any consumption.
proof fn lemma_target_rung_same<P>(s1: Seq<Rung<P>>, s2: Seq<Rung<P>>, c: u64, upto: int)
    requires
        s1.len() == s2.len(),
        upto <= s1.len(),
        forall|j: int|
            0 <= j < s1.len() ==> (#[trigger] s2[j]).spec_curr_budget() == s1[j].spec_curr_budget()
                && s2[j].spec_next_budget() == s1[j].spec_next_budget(),
    ensures
        target_rung_upto(s2, c, upto) == target_rung_upto(s1, c, upto),
    decreases upto,
{
    if upto > 0 {
        lemma_target_rung_same(s1, s2, c, upto - 1);
    }
}

/// Every index the promotion scan hands back is a real rung index holding
/// a promotable candidate.
pub proof fn lemma_promotable_rung_in_range<P>(s: Seq<Rung<P>>)
    ensures
        match promotable_rung(s) {
            Some(j) => 0 <= j < s.len() && rung_promotable(s[j]) is Some,
            None => true,
        },
{
    lemma_promotable_rung_upto_in_range(s, s.len() as int);
}

proof fn lemma_promotable_rung_upto_in_range<P>(s: Seq<Rung<P>>, upto: int)
    requires
        upto <= s.len(),
    ensures
        match promotable_rung_upto(s, upto) {
            Some(j) => 0 <= j < upto && rung_promotable(s[j]) is Some,
            None => true,
        },
    decreases upto,
{
    if upto > 0 {
        lemma_promotable_rung_upto_in_range(s, upto - 1);
    }
}

/// A promotion raises the candidate's granted budget to exactly the next
/// rung's budget, never skipping a rung: the candidate leaves rung `j` and
/// its new amount is rung `j + 1`'s own budget. A terminal rung never
/// promotes.
pub proof fn lemma_promotion_next_rung<P>(pre: Rungs<P>, post: Rungs<P>, r: Option<MfObs<P, ()>>)
    requires
        pre.wf(),
        rungs_ask_promotable_ens(pre, post, r),
        r is Some,
    ensures
        match (promotable_rung(pre.rungs()), r) {
            (Some(j), Some(obs)) => {
                &&& 0 <= j < pre.rungs().len() - 1
                &&& obs.budget.amount == pre.rungs()[j + 1].spec_curr_budget()
            },
            _ => false,
        },
{
    lemma_promotable_rung_in_range(pre.rungs());
    let j = match promotable_rung(pre.rungs()) {
        Some(j) => j,
        None => 0,
    };
    assert(pre.rungs()[j].spec_next_budget() is Some);
    assert(j != pre.rungs().len() - 1);
}

/// The promotion ordering is irreflexive, total over distinct entries,
/// and transitive.
proof fn lemma_entry_lt_order<P>(s: Seq<RungEntry<P>>, i: int, j: int, k: int)
    ensures
        !entry_lt(s, i, i),
        i != j ==> (entry_lt(s, i, j) <==> !entry_lt(s, j, i)),
        entry_lt(s, i, j) && entry_lt(s, j, k) ==> entry_lt(s, i, k),
{
}

/// What `best_pending_upto` finds: a pending entry that ranks before
/// every other pending entry in the prefix; `None` means the prefix holds
/// no pending entry.
proof fn lemma_best_pending_upto_spec<P>(s: Seq<RungEntry<P>>, upto: int)
    requires
        upto <= s.len(),
    ensures
        match best_pending_upto(s, upto) {
            Some(i) => {
                &&& 0 <= i < upto
                &&& s[i].config.is_pending()
                &&& forall|j: int|
                    0 <= j < upto && j != i && (#[trigger] s[j].config).is_pending() ==> entry_lt(
                        s,
                        i,
                        j,
                    )
            },
            None => forall|j: int| 0 <= j < upto ==> !(#[trigger] s[j].config).is_pending(),
        },
    decreases upto,
{
    if upto > 0 {
        lemma_best_pending_upto_spec(s, upto - 1);
    }
}

/// Promotion fairness, first half: whenever a rung reports a promotable
/// candidate, it is a pending entry that would be sorted within the top
/// `len / reduction_factor` positions, and it ranks before every other
/// pending entry of the rung.
pub proof fn lemma_promotable_is_best<P>(rung: Rung<P>)
    requires
        rung_promotable(rung) is Some,
    ensures
        match rung_promotable(rung) {
            Some(i) => {
                &&& 0 <= i < rung.entries().len()
                &&& rung.entries()[i].config.is_pending()
                &&& sort_pos(rung.entries(), i) < rung.entries().len() as int
                    / rung.spec_reduction_factor() as int
                &&& forall|j: int|
                    0 <= j < rung.entries().len() && j != i && (#[trigger] rung.entries()[j].config).is_pending()
                        ==> entry_lt(rung.entries(), i, j)
            },
            None => false,
        },
{
    lemma_best_pending_upto_spec(rung.entries(), rung.entries().len() as int);
}

/// Strictly better-ranked entries take strictly smaller sorted positions.
proof fn lemma_sort_pos_strict<P>(s: Seq<RungEntry<P>>, i: int, j: int, upto: int)
    requires
        0 <= i < s.len(),
        0 <= j < s.len(),
        upto <= s.len(),
        entry_lt(s, i, j),
    ensures
        num_better_upto(s, j, upto) >= num_better_upto(s, i, upto) + if i < upto {
            1int
        } else {
            0int
        },
    decreases upto,
{
    if upto > 0 {
        lemma_sort_pos_strict(s, i, j, upto - 1);
        lemma_entry_lt_order(s, upto - 1, i, j);
    }
}

/// Sorted positions are never negative.
proof fn lemma_sort_pos_nonneg<P>(s: Seq<RungEntry<P>>, i: int, upto: int)
    ensures
        num_better_upto(s, i, upto) >= 0,
    decreases upto,
{
    if upto > 0 {
        lemma_sort_pos_nonneg(s, i, upto - 1);
    }
}

/// The entries a rung would ever report promotable at a single point in
/// time: the pending entries sorted within the top `m` positions.
pub open spec fn promotable_entries<P>(s: Seq<RungEntry<P>>, m: int) -> Set<int> {
    Set::new(
        |i: int| 0 <= i < s.len() && s[i].config.is_pending() && sort_pos(s, i) < m,
    )
}

/// Promotion fairness, second half: with `N` entries and reduction factor
/// `k`, at most `⌊N/k⌋` entries are promotable at any single point in
/// time, because distinct entries take distinct sorted positions.
pub proof fn lemma_promotable_at_most<P>(s: Seq<RungEntry<P>>, m: int)
    requires
        0 <= m,
    ensures
        promotable_entries(s, m).finite(),
        promotable_entries(s, m).len() <= m,
{
    let d = promotable_entries(s, m);
    let range_n = vstd::set_lib::set_int_range(0, s.len() as int);
    let range_m = vstd::set_lib::set_int_range(0, m);
    let f = |i: int| sort_pos(s, i);
    vstd::set_lib::lemma_int_range(0, s.len() as int);
    vstd::set_lib::lemma_int_range(0, m);
    assert(d.subset_of(range_n));
    vstd::set_lib::lemma_len_subset(d, range_n);
    assert forall|i: int, j: int| d.contains(i) && d.contains(j) && i != j implies f(i) != f(j) by {
        lemma_entry_lt_order(s, i, j, 0);
        if entry_lt(s, i, j) {
            lemma_sort_pos_strict(s, i, j, s.len() as int);
        } else {
            lemma_sort_pos_strict(s, j, i, s.len() as int);
        }
    }
    assert(vstd::relations::injective_on(f, d));
    assert forall|i: int| d.contains(i) implies range_m.contains(#[trigger] f(i)) by {
        lemma_sort_pos_nonneg(s, i, s.len() as int);
    }
    assert(d.map(f).subset_of(range_m)) by {
        assert forall|x: int| d.map(f).contains(x) implies range_m.contains(x) by {
            let i = choose|i: int| d.contains(i) && #[trigger] f(i) == x;
            lemma_sort_pos_nonneg(s, i, s.len() as int);
        }
    }
    vstd::set_lib::lemma_map_size(d, d.map(f), f);
    vstd::set_lib::lemma_len_subset(d.map(f), range_m);
}

/// The ordered rung ladder of one ASHA instance, from the smallest budget
/// up to the terminal rung at the maximum budget.
#[derive(Debug)]
pub struct Rungs<P>(Vec<Rung<P>>);

impl<P> Rungs<P> {
    /// The rungs, ordered by budget.
    pub closed spec fn rungs(&self) -> Seq<Rung<P>> {
        self.0@
    }

    /// Well-formedness: there is at least one rung; each rung's
    /// `next_budget` is the following rung's strictly larger budget; the
    /// last rung is terminal; every rung carries a valid reduction factor.
    pub open spec fn wf(&self) -> bool {
        let s = self.rungs();
        &&& s.len() >= 1
        &&& forall|i: int|
            0 <= i < s.len() - 1 ==> (#[trigger] s[i]).spec_next_budget() == Some(
                s[i + 1].spec_curr_budget(),
            )
        &&& forall|i: int|
            0 <= i < s.len() - 1 ==> (#[trigger] s[i]).spec_curr_budget() < s[
                i + 1
            ].spec_curr_budget()
        &&& s[s.len() - 1].spec_next_budget() is None
        &&& forall|i: int| 0 <= i < s.len() ==> (#[trigger] s[i]).spec_reduction_factor() >= 2
    }
}

/// The budget that follows `b` in the rung ladder: `b` times the
/// reduction factor, saturating at the maximum budget.
pub open spec fn spec_next_rung_budget(b: u64, rf: usize, max: u64) -> u64 {
    if b * rf >= max {
        max
    } else {
        (b * rf) as u64
    }
}

/// The rung ladder that `Rungs::new` builds: budgets start at
/// `min_budget`, each is followed by its product with the reduction
/// factor saturating at `max_budget`, and the ladder ends with a terminal
/// rung at exactly `max_budget`; all rungs start empty.
pub open spec fn rungs_fresh<P>(
    s: Seq<Rung<P>>,
    min_budget: u64,
    max_budget: u64,
    rf: usize,
) -> bool {
    &&& s.len() >= 1
    &&& s[0].spec_curr_budget() == min_budget
    &&& s[s.len() - 1].spec_curr_budget() == max_budget
    &&& s[s.len() - 1].spec_next_budget() is None
    &&& forall|i: int|
        0 <= i < s.len() - 1 ==> {
            &&& (#[trigger] s[i]).spec_curr_budget() < max_budget
            &&& s[i + 1].spec_curr_budget() == spec_next_rung_budget(
                s[i].spec_curr_budget(),
                rf,
                max_budget,
            )
            &&& s[i].spec_next_budget() == Some(s[i + 1].spec_curr_budget())
        }
    &&& forall|i: int|
        0 <= i < s.len() ==> {
            &&& (#[trigger] s[i]).entries() == Seq::<RungEntry<P>>::empty()
            &&& s[i].spec_reduction_factor() == rf
        }
}

/// Which rung a promotion would come from: the highest-budget rung among
/// the first `upto` that holds a promotable candidate.
pub open spec fn promotable_rung_upto<P>(s: Seq<Rung<P>>, upto: int) -> Option<int>
    decreases upto,
{
    if upto <= 0 {
        None
    } else if rung_promotable(s[upto - 1]) is Some {
        Some(upto - 1)
    } else {
        promotable_rung_upto(s, upto - 1)
    }
}

/// Which rung a promotion would come from, over the whole ladder.
pub open spec fn promotable_rung<P>(s: Seq<Rung<P>>) -> Option<int> {
    promotable_rung_upto(s, s.len() as int)
}

/// What one `Rungs::ask_promotable` call does: the rungs are scanned from
/// the highest budget down, the first rung holding a promotable candidate
/// promotes it, and every other rung stays as it is.
pub open spec fn rungs_ask_promotable_ens<P>(
    pre: Rungs<P>,
    post: Rungs<P>,
    r: Option<MfObs<P, ()>>,
) -> bool {
    match promotable_rung(pre.rungs()) {
        None => r is None && post.rungs() == pre.rungs(),
        Some(j) => {
            &&& r is Some
            &&& post.rungs().len() == pre.rungs().len()
            &&& forall|i: int|
                0 <= i < pre.rungs().len() && i != j ==> post.rungs()[i] == pre.rungs()[i]
            &&& rung_ask_promotable_ens(pre.rungs()[j], post.rungs()[j], r)
        },
    }
}

/// Which rung owns a reported consumption, among the first `upto`:
/// scanning from the highest budget down, the first rung whose interval
/// `[curr_budget, next_budget)` contains it; the terminal rung has no
/// upper bound.
pub open spec fn target_rung_upto<P>(s: Seq<Rung<P>>, c: u64, upto: int) -> Option<int>
    decreases upto,
{
    if upto <= 0 {
        None
    } else {
        let j = upto - 1;
        let in_rung = s[j].spec_curr_budget() <= c && match s[j].spec_next_budget() {
            None => true,
            Some(nb) => c < nb,
        };
        if in_rung {
            Some(j)
        } else {
            target_rung_upto(s, c, j)
        }
    }
}

/// Which rung owns a reported consumption, over the whole ladder.
pub open spec fn target_rung<P>(s: Seq<Rung<P>>, c: u64) -> Option<int> {
    target_rung_upto(s, c, s.len() as int)
}

/// What one `Rungs::tell` call does: the observation goes, as a strict
/// insert, into the rung that owns its reported consumption; a
/// consumption below the lowest rung's budget is an
/// `ErrorKind::InvalidInput`.
pub open spec fn rungs_tell_ens<P>(
    pre: Rungs<P>,
    obs: MfObs<P, u64>,
    post: Rungs<P>,
    r: Result<(), ErrorKind>,
) -> bool {
    match target_rung(pre.rungs(), obs.budget.consumption) {
        None => r == Err::<(), ErrorKind>(ErrorKind::InvalidInput) && post.rungs() == pre.rungs(),
        Some(j) => {
            &&& post.rungs().len() == pre.rungs().len()
            &&& forall|i: int|
                0 <= i < pre.rungs().len() && i != j ==> post.rungs()[i] == pre.rungs()[i]
            &&& rung_tell_ens(pre.rungs()[j], obs, post.rungs()[j], r)
        },
    }
}

/// What one `Rungs::upsert` call does: like `Rungs::tell`, but the rung
/// that owns the consumption takes the observation as an overwrite of any
/// entry with the same identifier.
pub open spec fn rungs_upsert_ens<P>(
    pre: Rungs<P>,
    obs: MfObs<P, u64>,
    post: Rungs<P>,
    r: Result<(), ErrorKind>,
) -> bool {
    match target_rung(pre.rungs(), obs.budget.consumption) {
        None => r == Err::<(), ErrorKind>(ErrorKind::InvalidInput) && post.rungs() == pre.rungs(),
        Some(j) => {
            &&& r == Ok::<(), ErrorKind>(())
            &&& post.rungs().len() == pre.rungs().len()
            &&& forall|i: int|
                0 <= i < pre.rungs().len() && i != j ==> post.rungs()[i] == pre.rungs()[i]
            &&& rung_upsert_ens(pre.rungs()[j], obs, post.rungs()[j])
        },
    }
}

impl<P: Copy> Rungs<P> {
    /// Builds the rung ladder: starting at `min_budget` the budgets
    /// multiply by the builder's reduction factor, saturating at
    /// `max_budget`, and a terminal rung at exactly `max_budget` closes
    /// the ladder. The budgets are strictly increasing, and only the last
    /// rung is terminal.
    pub fn new(min_budget: u64, max_budget: u64, builder: &AshaOptimizerBuilder) -> (r: Self)
        requires
            1 <= min_budget <= max_budget,
            builder.wf(),
        ensures
            r.wf(),
            rungs_fresh(r.rungs(), min_budget, max_budget, builder.spec_reduction_factor()),
    {
        let ghost rf = builder.spec_reduction_factor();
        let mut rungs: Vec<Rung<P>> = Vec::new();
        let mut budget = min_budget;
        while budget < max_budget
            invariant
                min_budget <= budget <= max_budget,
                rungs@.len() == 0 ==> budget == min_budget,
                rungs@.len() >= 1 ==> {
                    &&& rungs@[0].spec_curr_budget() == min_budget
                    &&& rungs@[rungs@.len() - 1].spec_next_budget() == Some(budget)
                    &&& rungs@[rungs@.len() - 1].spec_curr_budget() < budget
                    &&& budget == spec_next_rung_budget(
                        rungs@[rungs@.len() - 1].spec_curr_budget(),
                        rf,
                        max_budget,
                    )
                },
                forall|i: int|
                    0 <= i < rungs@.len() ==> {
                        &&& (#[trigger] rungs@[i]).spec_curr_budget() < max_budget
                        &&& rungs@[i].entries() == Seq::<RungEntry<P>>::empty()
                        &&& rungs@[i].spec_reduction_factor() == rf
                    },
                forall|i: int|
                    0 <= i < rungs@.len() - 1 ==> {
                        &&& (#[trigger] rungs@[i]).spec_next_budget() == Some(
                            rungs@[i + 1].spec_curr_budget(),
                        )
                        &&& rungs@[i + 1].spec_curr_budget() == spec_next_rung_budget(
                            rungs@[i].spec_curr_budget(),
                            rf,
                            max_budget,
                        )
                        &&& rungs@[i].spec_curr_budget() < rungs@[i + 1].spec_curr_budget()
                    },
            decreases max_budget - budget,
        {
            let next = match budget.checked_mul(builder.reduction_factor as u64) {
                Some(p) => if p >= max_budget {
                    max_budget
                } else {
                    p
                },
                None => max_budget,
            };
            proof {
                assert(budget * rf >= budget * 2) by (nonlinear_arith)
                    requires
                        rf >= 2,
                        budget >= 1,
                ;
            }
            rungs.push(Rung::new(budget, Some(next), builder));
            budget = next;
        }
        rungs.push(Rung::new(max_budget, None, builder));
        Self(rungs)
    }

    /// How many rungs the ladder holds.
    pub fn len(&self) -> (r: usize)
        ensures
            r == self.rungs().len(),
    {
        self.0.len()
    }

    /// The rung at the given position, counted from the smallest budget.
    pub fn get(&self, i: usize) -> (r: &Rung<P>)
        requires
            i < self.rungs().len(),
        ensures
            *r == self.rungs()[i as int],
    {
        &self.0[i]
    }

    /// Scans the rungs from the highest budget to the lowest, returning
    /// the first promotable candidate found: nearly finished work is
    /// preferred over starting new shallow rungs, maximizing reuse of
    /// already spent budget.
    pub fn ask_promotable(&mut self) -> (r: Option<MfObs<P, ()>>)
        requires
            old(self).wf(),
        ensures
            final(self).wf(),
            rungs_ask_promotable_ens(*old(self), *final(self), r),
    {
        let n = self.0.len();
        let mut k: usize = n;
        while k > 0
            invariant
                k <= n,
                self.rungs() == old(self).rungs(),
                promotable_rung_upto(self.rungs(), k as int) == promotable_rung(self.rungs()),
            decreases k,
        {
            k -= 1;
            let ghost pre = self.rungs();
            let rung = vec_index_mut(&mut self.0, k);
            let res = rung.ask_promotable();
            match res {
                Some(obs) => {
                    proof {
                        assert(self.rungs() =~= pre.update(k as int, self.rungs()[k as int]));
                    }
                    return Some(obs);
                },
                None => {
                    proof {
                        assert(self.rungs() =~= pre);
                    }
                },
            }
        }
        None
    }

    /// Reports an observation, as a strict insert, into the rung that owns
    /// its budget consumption.
    ///
    /// # Errors
    ///
    /// A consumption below the lowest rung's budget is an
    /// `ErrorKind::InvalidInput`; an identifier already present in the
    /// owning rung is an `ErrorKind::Bug`.
    pub fn tell(&mut self, obs: MfObs<P, u64>) -> (r: Result<(), ErrorKind>)
        requires
            old(self).wf(),
        ensures
            final(self).wf(),
            rungs_tell_ens(*old(self), obs, *final(self), r),
    {
        let c = obs.budget.consumption;
        let n = self.0.len();
        let mut k: usize = n;
        while k > 0
            invariant
                k <= n,
                self.rungs() == old(self).rungs(),
                target_rung_upto(self.rungs(), c, k as int) == target_rung(self.rungs(), c),
            decreases k,
        {
            k -= 1;
            let ghost pre = self.rungs();
            let rung = vec_index_mut(&mut self.0, k);
            let in_rung = rung.curr_budget() <= c && match rung.next_budget() {
                None => true,
                Some(nb) => c < nb,
            };
            if in_rung {
                let res = rung.tell(obs);
                proof {
                    assert(self.rungs() =~= pre.update(k as int, self.rungs()[k as int]));
                }
                return res;
            }
            proof {
                assert(self.rungs() =~= pre.update(k as int, self.rungs()[k as int]));
                assert(self.rungs() =~= pre);
            }
        }
        Err(ErrorKind::InvalidInput)
    }

    /// Reports an observation into the rung that owns its budget
    /// consumption, overwriting any entry with the same identifier: a
    /// re-report converges instead of accumulating.
    ///
    /// # Errors
    ///
    /// A consumption below the lowest rung's budget is an
    /// `ErrorKind::InvalidInput`.
    pub fn upsert(&mut self, obs: MfObs<P, u64>) -> (r: Result<(), ErrorKind>)
        requires
            old(self).wf(),
        ensures
            final(self).wf(),
            rungs_upsert_ens(*old(self), obs, *final(self), r),
    {
        let c = obs.budget.consumption;
        let n = self.0.len();
        let mut k: usize = n;
        while k > 0
            invariant
                k <= n,
                self.rungs() == old(self).rungs(),
                target_rung_upto(self.rungs(), c, k as int) == target_rung(self.rungs(), c),
            decreases k,
        {
            k -= 1;
            let ghost pre = self.rungs();
            let rung = vec_index_mut(&mut self.0, k);
            let in_rung = rung.curr_budget() <= c && match rung.next_budget() {
                None => true,
                Some(nb) => c < nb,
            };
            if in_rung {
                rung.upsert(obs);
                proof {
                    assert(self.rungs() =~= pre.update(k as int, self.rungs()[k as int]));
                }
                return Ok(());
            }
            proof {
                assert(self.rungs() =~= pre.update(k as int, self.rungs()[k as int]));
                assert(self.rungs() =~= pre);
            }
        }
        Err(ErrorKind::InvalidInput)
    }
}

/// ASHA-based multi-fidelity optimizer.
///
/// Each configuration conceptually walks the rung ladder: pending in rung
/// 0, then promoted rung by rung while it keeps ranking among the best of
/// its rung, until its consumption reaches the maximum budget. Promotion
/// raises the granted budget amount to exactly the next rung's budget;
/// when nothing is promotable, the inner optimizer proposes a fresh
/// configuration at the minimum budget.
#[derive(Debug)]
pub struct AshaOptimizer<O: Optimizer> {
    inner: O,
    rungs: Rungs<O::Param>,
    initial_budget: Budget,
    without_checkpoint: bool,
    max_budget: u64,
}

impl<O: Optimizer> AshaOptimizer<O> {
    /// The inner single-fidelity optimizer.
    pub closed spec fn spec_inner(&self) -> O {
        self.inner
    }

    /// The rung ladder.
    pub closed spec fn spec_rungs(&self) -> Rungs<O::Param> {
        self.rungs
    }

    /// The budget a fresh configuration is granted.
    pub closed spec fn spec_initial_budget(&self) -> Budget {
        self.initial_budget
    }

    /// Whether promotions re-run configurations from scratch under fresh
    /// identifiers.
    pub closed spec fn spec_without_checkpoint(&self) -> bool {
        self.without_checkpoint
    }

    /// The budget at which an evaluation is terminal.
    pub closed spec fn spec_max_budget(&self) -> u64 {
        self.max_budget
    }
}

/// What a freshly built `AshaOptimizer` looks like, for a builder with the
/// given reduction factor and checkpoint setting.
pub open spec fn asha_ok<O: Optimizer>(
    a: AshaOptimizer<O>,
    inner: O,
    min_budget: u64,
    max_budget: u64,
    rf: usize,
    wc: bool,
) -> bool {
    &&& a.spec_inner() == inner
    &&& a.spec_rungs().wf()
    &&& rungs_fresh(a.spec_rungs().rungs(), min_budget, max_budget, rf)
    &&& a.spec_initial_budget() == (Budget { amount: min_budget, consumption: 0u64 })
    &&& a.spec_without_checkpoint() == wc
    &&& a.spec_max_budget() == max_budget
}

impl AshaOptimizerBuilder {
    /// Builds a new `AshaOptimizer` instance.
    ///
    /// # Errors
    ///
    /// If `min_budget` is zero or exceeds `max_budget`, an
    /// `ErrorKind::InvalidInput` error will be returned.
    pub fn finish<O>(&self, inner: O, min_budget: u64, max_budget: u64) -> (r: Result<
        AshaOptimizer<O>,
        ErrorKind,
    >) where O: Optimizer<Value = Ranked<u64>>, O::Param: Copy
        requires
            self.wf(),
            inner.wf(),
        ensures
            min_budget == 0 || min_budget > max_budget ==> r == Err::<
                AshaOptimizer<O>,
                ErrorKind,
            >(ErrorKind::InvalidInput),
            1 <= min_budget <= max_budget ==> match r {
                Ok(a) => a.wf() && asha_ok(
                    a,
                    inner,
                    min_budget,
                    max_budget,
                    self.spec_reduction_factor(),
                    self.spec_without_checkpoint(),
                ),
                Err(_) => false,
            },
    {
        if min_budget > max_budget {
            return Err(ErrorKind::InvalidInput);
        }
        if min_budget == 0 {
            return Err(ErrorKind::InvalidInput);
        }
        let rungs = Rungs::new(min_budget, max_budget, self);
        Ok(
            AshaOptimizer {
                inner,
                rungs,
                initial_budget: Budget::new(min_budget),
                without_checkpoint: self.without_checkpoint,
                max_budget,
            },
        )
    }
}

impl<O> AshaOptimizer<O> where O: Optimizer<Value = Ranked<u64>>, O::Param: Copy {
    /// Makes a new `AshaOptimizer` instance with the default settings.
    ///
    /// # Errors
    ///
    /// If `min_budget` is zero or exceeds `max_budget`, an
    /// `ErrorKind::InvalidInput` error will be returned.
    pub fn new(inner: O, min_budget: u64, max_budget: u64) -> (r: Result<Self, ErrorKind>)
        requires
            inner.wf(),
        ensures
            min_budget == 0 || min_budget > max_budget ==> r == Err::<Self, ErrorKind>(
                ErrorKind::InvalidInput,
            ),
            1 <= min_budget <= max_budget ==> match r {
                Ok(a) => a.wf() && asha_ok(a, inner, min_budget, max_budget, 2, false),
                Err(_) => false,
            },
    {
        let builder = AshaOptimizerBuilder::new();
        builder.finish(inner, min_budget, max_budget)
    }

    /// Returns a reference to the underlying optimizer.
    pub fn inner(&self) -> (r: &O)
        ensures
            *r == self.spec_inner(),
    {
        &self.inner
    }

    /// Returns a mutable reference to the underlying optimizer.
    pub fn inner_mut(&mut self) -> (r: &mut O)
        ensures
            *r == old(self).spec_inner(),
            final(self).spec_inner() == *final(r),
            final(self).spec_rungs() == old(self).spec_rungs(),
            final(self).spec_initial_budget() == old(self).spec_initial_budget(),
            final(self).spec_without_checkpoint() == old(self).spec_without_checkpoint(),
            final(self).spec_max_budget() == old(self).spec_max_budget(),
    {
        &mut self.inner
    }

    /// Consumes the `AshaOptimizer`, returning the underlying optimizer.
    pub fn into_inner(self) -> (r: O)
        ensures
            r == self.spec_inner(),
    {
        self.inner
    }
}

/// The observation that a promotion out of the given ladder hands back:
/// the best promotable pending observation, with its budget amount raised
/// to its rung's next budget and its value cleared.
pub open spec fn spec_promoted<P>(s: Seq<Rung<P>>) -> MfObs<P, ()>
    recommends
        promotable_rung(s) is Some,
{
    match promotable_rung(s) {
        Some(j) => match rung_promotable(s[j]) {
            Some(i) => match s[j].spec_next_budget() {
                Some(nb) => {
                    let pobs = s[j].entries()[i].config.spec_pending_obs();
                    MfObs {
                        id: pobs.id,
                        budget: Budget { amount: nb, consumption: pobs.budget.consumption },
                        param: pobs.param,
                        value: (),
                    }
                },
                None => vstd::pervasive::arbitrary(),
            },
            None => vstd::pervasive::arbitrary(),
        },
        None => vstd::pervasive::arbitrary(),
    }
}

/// The rank-augmented observation that ASHA forwards to its inner
/// optimizer: the rank is the budget still missing to the maximum, so
/// that further progressed observations always rank better (lower), and a
/// terminal observation ranks best of all.
pub open spec fn spec_ranked_obs<P>(obs: MfObs<P, u64>, max_budget: u64) -> Obs<P, Ranked<u64>> {
    Obs {
        id: obs.id,
        param: obs.param,
        value: Ranked { rank: (max_budget - obs.budget.consumption) as u64, value: obs.value },
    }
}

/// What one `AshaOptimizer::ask` call does. When the ladder holds a
/// promotable candidate it is promoted in place and handed out, under its
/// own identifier and consumption (checkpointing), or under a fresh
/// identifier with its consumption reset (`without_checkpoint`). When
/// nothing is promotable, the inner optimizer proposes the parameter and
/// the observation carries a fresh budget of the minimum amount.
pub open spec fn asha_ask_ens<O>(
    pre: AshaOptimizer<O>,
    post: AshaOptimizer<O>,
    r: Result<MfObs<O::Param, ()>, ErrorKind>,
) -> bool where O: Optimizer<Value = Ranked<u64>>, O::Param: Copy {
    &&& post.spec_initial_budget() == pre.spec_initial_budget()
    &&& post.spec_without_checkpoint() == pre.spec_without_checkpoint()
    &&& post.spec_max_budget() == pre.spec_max_budget()
    &&& match promotable_rung(pre.spec_rungs().rungs()) {
        Some(_) => {
            let p = spec_promoted(pre.spec_rungs().rungs());
            &&& post.spec_inner() == pre.spec_inner()
            &&& rungs_ask_promotable_ens(pre.spec_rungs(), post.spec_rungs(), Some(p))
            &&& if !pre.spec_without_checkpoint() {
                r == Ok::<MfObs<O::Param, ()>, ErrorKind>(p)
            } else {
                // the candidate is re-run from scratch: fresh identifier,
                // consumption reset; a failing identifier generator
                // surfaces its error after the rung bookkeeping
                match r {
                    Ok(obs) => {
                        &&& obs.param == p.param
                        &&& obs.budget.amount == p.budget.amount
                        &&& obs.budget.consumption == 0
                    },
                    Err(_) => true,
                }
            }
        },
        None => {
            &&& post.spec_rungs().rungs() == pre.spec_rungs().rungs()
            &&& O::ask_ens(
                pre.spec_inner(),
                post.spec_inner(),
                match r {
                    Ok(obs) => Ok(Obs { id: obs.id, param: obs.param, value: () }),
                    Err(e) => Err(e),
                },
            )
            &&& match r {
                Ok(obs) => obs.budget == pre.spec_initial_budget(),
                Err(_) => true,
            }
        },
    }
}

/// What one `AshaOptimizer::tell` call does. A consumption above the
/// maximum budget is refused; a consumption below the granted amount
/// means the evaluation was canceled and skips the rung bookkeeping;
/// otherwise the observation is upserted into the rung owning its
/// consumption. In every accepted case the inner optimizer is told the
/// rank-augmented observation.
///
/// A consumption below the granted amount is treated as a cancellation
/// rather than refused as under-reporting: the scheduler keeps no per-id
/// consumption history, so it cannot tell a caller that stopped an
/// evaluation early on purpose from one that mis-reported, and a canceled
/// evaluation must still reach the inner optimizer so its partial value
/// is not lost.
pub open spec fn asha_tell_ens<O>(
    pre: AshaOptimizer<O>,
    obs: MfObs<O::Param, u64>,
    post: AshaOptimizer<O>,
    r: Result<(), ErrorKind>,
) -> bool where O: Optimizer<Value = Ranked<u64>>, O::Param: Copy {
    if obs.budget.consumption > pre.spec_max_budget() {
        r == Err::<(), ErrorKind>(ErrorKind::InvalidInput) && post == pre
    } else {
        &&& post.spec_initial_budget() == pre.spec_initial_budget()
        &&& post.spec_without_checkpoint() == pre.spec_without_checkpoint()
        &&& post.spec_max_budget() == pre.spec_max_budget()
        &&& if obs.budget.consumption < obs.budget.amount {
            // the evaluation of this observation was canceled
            &&& post.spec_rungs().rungs() == pre.spec_rungs().rungs()
            &&& O::tell_ens(
                pre.spec_inner(),
                spec_ranked_obs(obs, pre.spec_max_budget()),
                post.spec_inner(),
                r,
            )
        } else {
            match target_rung(pre.spec_rungs().rungs(), obs.budget.consumption) {
                None => {
                    &&& r == Err::<(), ErrorKind>(ErrorKind::InvalidInput)
                    &&& post.spec_rungs().rungs() == pre.spec_rungs().rungs()
                    &&& post.spec_inner() == pre.spec_inner()
                },
                Some(_) => {
                    &&& rungs_upsert_ens(
                        pre.spec_rungs(),
                        obs,
                        post.spec_rungs(),
                        Ok::<(), ErrorKind>(()),
                    )
                    &&& O::tell_ens(
                        pre.spec_inner(),
                        spec_ranked_obs(obs, pre.spec_max_budget()),
                        post.spec_inner(),
                        r,
                    )
                },
            }
        }
    }
}

impl<O> MultiFidelityOptimizer for AshaOptimizer<O> where
    O: Optimizer<Value = Ranked<u64>>,
    O::Param: Copy,
 {
    type Param = O::Param;

    type Value = u64;

    open spec fn wf(&self) -> bool {
        self.spec_rungs().wf() && self.spec_inner().wf()
    }

    open spec fn ask_ens(
        pre: Self,
        post: Self,
        r: Result<MfObs<O::Param, ()>, ErrorKind>,
    ) -> bool {
        asha_ask_ens(pre, post, r)
    }

    open spec fn ask_minted(
        pre: Self,
        post: Self,
        r: Result<MfObs<O::Param, ()>, ErrorKind>,
    ) -> bool {
        match promotable_rung(pre.spec_rungs().rungs()) {
            // a promotion re-runs from scratch under a fresh identifier
            // only without checkpointing
            Some(_) => pre.spec_without_checkpoint(),
            // a fresh configuration's identifier comes from the inner ask
            None => O::ask_minted(
                pre.spec_inner(),
                post.spec_inner(),
                match r {
                    Ok(obs) => Ok(Obs { id: obs.id, param: obs.param, value: () }),
                    Err(e) => Err(e),
                },
            ),
        }
    }

    open spec fn tell_ens(
        pre: Self,
        obs: MfObs<O::Param, u64>,
        post: Self,
        r: Result<(), ErrorKind>,
    ) -> bool {
        asha_tell_ens(pre, obs, post, r)
    }

    #[verifier::rlimit(100)]
    fn ask<G: IdGen>(&mut self, rng: &mut rand::rngs::StdRng, idg: &mut G) -> (r: Result<
        MfObs<O::Param, ()>,
        ErrorKind,
    >) {
        let ghost pre = *self;
        match self.rungs.ask_promotable() {
            Some(mut obs) => {
                proof {
                    assert(promotable_rung(pre.spec_rungs().rungs()) is Some);
                    assert(obs == spec_promoted(pre.spec_rungs().rungs()));
                }
                if self.without_checkpoint {
                    match idg.generate() {
                        Ok(id) => {
                            obs.id = id;
                            obs.budget.consumption = 0;
                            Ok(obs)
                        },
                        Err(e) => Err(e),
                    }
                } else {
                    Ok(obs)
                }
            },
            None => {
                match self.inner.ask(rng, idg) {
                    Ok(o) => Ok(MfObs::from_obs(o, self.initial_budget)),
                    Err(e) => Err(e),
                }
            },
        }
    }

    #[verifier::rlimit(100)]
    fn tell(&mut self, obs: MfObs<O::Param, u64>) -> (r: Result<(), ErrorKind>) {
        let ghost pre = *self;
        if obs.budget.consumption > self.max_budget {
            return Err(ErrorKind::InvalidInput);
        }
        if obs.budget.consumption < obs.budget.amount {
            // the evaluation of this observation was canceled: it occupies
            // no new rung
        } else {
            match self.rungs.upsert(obs) {
                Ok(()) => {
                    proof {
                        assert(target_rung(pre.spec_rungs().rungs(), obs.budget.consumption)
                            is Some);
                        assert(rungs_upsert_ens(
                            pre.spec_rungs(),
                            obs,
                            self.spec_rungs(),
                            Ok::<(), ErrorKind>(()),
                        ));
                    }
                },
                Err(e) => {
                    proof {
                        assert(target_rung(pre.spec_rungs().rungs(), obs.budget.consumption)
                            is None);
                    }
                    return Err(e);
                },
            }
        }
        let rank = self.max_budget - obs.budget.consumption;
        self.inner.tell(Obs { id: obs.id, param: obs.param, value: Ranked { rank, value: obs.value } })
    }
}

} // verus!
