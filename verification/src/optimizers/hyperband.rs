//! The Hyperband bracket manager.
//!
//! It owns several ASHA instances ("brackets") with different elimination
//! aggressiveness, balances asks across them by their tracked consumption,
//! and merges the budget accounting when results are told back.
use vstd::prelude::*;

use std::collections::HashMap;

use vstd::arithmetic::power::pow;
use vstd::std_specs::vec::vec_index_mut;

use crate::error::ErrorKind;
use crate::observation::MfObs;
use crate::optimizers::asha::{
    asha_ask_ens, asha_tell_ens, rungs_fresh, spec_next_rung_budget, AshaOptimizer,
    AshaOptimizerBuilder,
};
use crate::{IdGen, MultiFidelityOptimizer, Optimizer, Ranked};

verus! {

broadcast use vstd::std_specs::hash::group_hash_axioms;

/// Options of `HyperbandOptimizer`.
#[derive(Debug, Clone)]
pub struct HyperbandOptions {
    /// The budget from which the least aggressive ladder would start; the
    /// bracket with index `s` starts at `r` multiplied `s` times by `eta`
    /// (saturating at the maximum budget). Must be at least `1`.
    pub r: u64,

    /// The elimination ratio shared by all brackets. Must be at least `2`.
    pub eta: usize,
}

impl HyperbandOptions {
    /// Whether the options are valid construction input.
    pub open spec fn wf(&self) -> bool {
        self.r >= 1 && self.eta >= 2
    }
}

impl Default for HyperbandOptions {
    fn default() -> (r: Self)
        ensures
            r == (HyperbandOptions { r: 1u64, eta: 4usize }),
    {
        Self { r: 1, eta: 4 }
    }
}

/// Creates the inner optimizer that each Hyperband bracket wraps in its
/// own ASHA instance; callers implement this capability.
pub trait OptimizerFactory: Sized {
    /// The optimizer this factory creates.
    type Optimizer: Optimizer;

    /// What `create` returns; each factory refines this. A factory that
    /// never fails refines it to success, and callers of the bracket
    /// manager can then conclude that construction succeeds on valid
    /// input.
    spec fn create_ens(&self, r: Result<Self::Optimizer, ErrorKind>) -> bool;

    /// Creates a new inner optimizer.
    ///
    /// Every optimizer it hands out is well formed.
    fn create(&self) -> (r: Result<Self::Optimizer, ErrorKind>)
        ensures
            match r {
                Ok(o) => o.wf(),
                Err(_) => true,
            },
            self.create_ens(r),
    ;
}

/// One Hyperband bracket: an ASHA instance together with the approximate
/// outstanding-consumption counter used purely for load balancing.
pub struct Bracket<O: Optimizer> {
    asha: AshaOptimizer<O>,
    consumption: u64,
}

impl<O: Optimizer> Bracket<O> {
    /// The bracket's ASHA instance.
    pub closed spec fn spec_asha(&self) -> AshaOptimizer<O> {
        self.asha
    }

    /// The bracket's tracked consumption.
    pub closed spec fn spec_consumption(&self) -> u64 {
        self.consumption
    }

    /// Wraps an ASHA instance as a bracket with nothing outstanding.
    pub fn new(asha: AshaOptimizer<O>) -> (r: Self)
        ensures
            r.spec_asha() == asha,
            r.spec_consumption() == 0,
    {
        Self { asha, consumption: 0 }
    }
}

/// `a + b`, saturating at the largest `u64`.
pub open spec fn sat_add(a: u64, b: u64) -> u64 {
    if a + b > u64::MAX {
        u64::MAX
    } else {
        (a + b) as u64
    }
}

/// `a - b`, saturating at zero.
pub open spec fn sat_sub(a: u64, b: u64) -> u64 {
    if a >= b {
        (a - b) as u64
    } else {
        0u64
    }
}

/// The index of the bracket with the smallest tracked consumption among
/// the first `upto`, taking the lowest index on ties.
pub open spec fn min_consumption_upto<O: Optimizer>(s: Seq<Bracket<O>>, upto: int) -> int
    decreases upto,
{
    if upto <= 1 {
        0
    } else {
        let rest = min_consumption_upto(s, upto - 1);
        if s[upto - 1].spec_consumption() < s[rest].spec_consumption() {
            upto - 1
        } else {
            rest
        }
    }
}

/// The index of the bracket with the smallest tracked consumption.
pub open spec fn min_consumption_bracket<O: Optimizer>(s: Seq<Bracket<O>>) -> int {
    min_consumption_upto(s, s.len() as int)
}

/// The minimum is in range and no bracket tracks less consumption.
pub proof fn lemma_min_consumption_bracket<O: Optimizer>(s: Seq<Bracket<O>>)
    requires
        s.len() >= 1,
    ensures
        0 <= min_consumption_bracket(s) < s.len(),
        forall|j: int|
            0 <= j < s.len() ==> s[min_consumption_bracket(s)].spec_consumption() <= (
            #[trigger] s[j]).spec_consumption(),
{
    lemma_min_consumption_upto(s, s.len() as int);
}

proof fn lemma_min_consumption_upto<O: Optimizer>(s: Seq<Bracket<O>>, upto: int)
    requires
        1 <= upto <= s.len(),
    ensures
        0 <= min_consumption_upto(s, upto) < upto,
        forall|j: int|
            0 <= j < upto ==> s[min_consumption_upto(s, upto)].spec_consumption() <= (
            #[trigger] s[j]).spec_consumption(),
    decreases upto,
{
    if upto > 1 {
        lemma_min_consumption_upto(s, upto - 1);
    }
}

/// The starting budget of bracket `s`: the base budget `r` multiplied `s`
/// times by the elimination ratio, saturating at the maximum budget.
pub open spec fn bracket_min_budget(r: u64, eta: usize, max_budget: u64, s: int) -> u64
    decreases s,
{
    if s <= 0 {
        if r >= max_budget {
            max_budget
        } else {
            r
        }
    } else {
        spec_next_rung_budget(bracket_min_budget(r, eta, max_budget, s - 1), eta, max_budget)
    }
}

/// The consumption ledger is exact over one ask/tell round trip: a
/// bracket's tracked consumption starts at `c0`, takes the asked budget's
/// remaining amount as an optimistic reservation, and is corrected at tell
/// time by subtracting the still-remaining budget and adding the actual
/// excess. When the caller reports against the granted amount without
/// under-reporting, the net effect is exactly the evaluation budget spent
/// in between — the tracked total diverges from the truth only for
/// observations still in flight, by at most their reservations.
///
/// The `u64` bounds rule out saturation, which would only ever make the
/// tracked total an under-estimate.
pub proof fn lemma_round_trip_accounting(c0: u64, asked: crate::budget::Budget, told: crate::budget::Budget)
    requires
        told.amount == asked.amount,
        asked.consumption <= asked.amount,
        asked.consumption <= told.consumption,
        c0 + asked.spec_remaining() <= u64::MAX,
        c0 + told.consumption - asked.consumption <= u64::MAX,
    ensures
        sat_add(
            sat_sub(sat_add(c0, asked.spec_remaining()), told.spec_remaining()),
            told.spec_excess(),
        ) == c0 + (told.consumption - asked.consumption),
{
}

/// [Hyperband] bracket manager over ASHA instances.
///
/// [Hyperband]: https://arxiv.org/abs/1603.06560
pub struct HyperbandOptimizer<O: Optimizer> {
    brackets: Vec<Bracket<O>>,
    runnings: HashMap<u64, usize>,
}

impl<O: Optimizer> HyperbandOptimizer<O> {
    /// The brackets, ordered by index: larger indices start their ladders
    /// at larger budgets, closer to plain search at full budget.
    pub closed spec fn spec_brackets(&self) -> Seq<Bracket<O>> {
        self.brackets@
    }

    /// Which bracket each outstanding observation was asked from.
    pub closed spec fn spec_runnings(&self) -> Map<u64, usize> {
        self.runnings@
    }
}

/// What a freshly built Hyperband optimizer looks like: one bracket per
/// index `s` with `eta` to the power `s` within the maximum budget, each
/// bracket an untouched ASHA ladder from `bracket_min_budget` up to the
/// maximum budget with ratio `eta`, nothing outstanding anywhere.
pub open spec fn hyperband_fresh<O>(
    h: HyperbandOptimizer<O>,
    r: u64,
    eta: usize,
    max_budget: u64,
) -> bool where O: Optimizer<Value = Ranked<u64>>, O::Param: Copy {
    let n = h.spec_brackets().len() as int;
    &&& n >= 1
    &&& pow(eta as int, (n - 1) as nat) <= max_budget
    &&& pow(eta as int, n as nat) > max_budget
    &&& forall|s: int|
        0 <= s < n ==> {
            let a = (#[trigger] h.spec_brackets()[s]).spec_asha();
            &&& h.spec_brackets()[s].spec_consumption() == 0
            &&& a.wf()
            &&& rungs_fresh(
                a.spec_rungs().rungs(),
                bracket_min_budget(r, eta, max_budget, s),
                max_budget,
                eta,
            )
            &&& a.spec_initial_budget() == (crate::budget::Budget {
                amount: bracket_min_budget(r, eta, max_budget, s),
                consumption: 0u64,
            })
            &&& a.spec_max_budget() == max_budget
            &&& !a.spec_without_checkpoint()
        }
    &&& h.spec_runnings() == Map::<u64, usize>::empty()
}

impl<O> HyperbandOptimizer<O> where O: Optimizer<Value = Ranked<u64>>, O::Param: Copy {
    /// Makes a new `HyperbandOptimizer` with the default options.
    ///
    /// # Errors
    ///
    /// A zero `max_budget` is an `ErrorKind::InvalidInput`; a failure of
    /// the factory is handed through.
    pub fn new<F>(factory: F, max_budget: u64) -> (r: Result<Self, ErrorKind>) where
        F: OptimizerFactory<Optimizer = O>,

        ensures
            max_budget == 0 ==> r == Err::<Self, ErrorKind>(ErrorKind::InvalidInput),
            match r {
                Ok(h) => hyperband_fresh(h, 1, 4, max_budget),
                Err(e) => max_budget == 0 || factory.create_ens(Err::<O, ErrorKind>(e)),
            },
    {
        Self::with_options(factory, max_budget, HyperbandOptions::default())
    }

    /// Makes a new `HyperbandOptimizer`: one ASHA instance per bracket
    /// index `s` from `0` through `⌊log_eta(max_budget)⌋`, all sharing
    /// `max_budget` and the elimination ratio `eta`, with bracket `s`
    /// starting its ladder at `r` multiplied `s` times by `eta`.
    ///
    /// # Errors
    ///
    /// Options with a zero base budget or an elimination ratio below `2`,
    /// or a zero `max_budget`, are an `ErrorKind::InvalidInput`; a failure
    /// of the factory is handed through.
    pub fn with_options<F>(factory: F, max_budget: u64, options: HyperbandOptions) -> (r: Result<
        Self,
        ErrorKind,
    >) where F: OptimizerFactory<Optimizer = O>
        ensures
            !options.wf() || max_budget == 0 ==> r == Err::<Self, ErrorKind>(
                ErrorKind::InvalidInput,
            ),
            match r {
                Ok(h) => options.wf() && max_budget >= 1 && hyperband_fresh(
                    h,
                    options.r,
                    options.eta,
                    max_budget,
                ),
                Err(e) => !options.wf() || max_budget == 0 || factory.create_ens(
                    Err::<O, ErrorKind>(e),
                ),
            },
    {
        if options.r == 0 || options.eta < 2 || max_budget == 0 {
            return Err(ErrorKind::InvalidInput);
        }
        let eta = options.eta;
        let mut brackets: Vec<Bracket<O>> = Vec::new();
        // `p` is `eta` to the power of the next bracket index; `mb` is the
        // next bracket's starting budget
        let mut p: u64 = 1;
        let mut mb: u64 = if options.r >= max_budget {
            max_budget
        } else {
            options.r
        };
        proof {
            vstd::arithmetic::power::lemma_pow0(eta as int);
        }
        #[verifier::loop_isolation(true)]
        loop
            invariant_except_break
                p == pow(eta as int, brackets@.len() as nat),
                mb == bracket_min_budget(options.r, eta, max_budget, brackets@.len() as int),
            invariant
                2 <= eta == options.eta,
                1 <= options.r,
                1 <= max_budget,
                1 <= p <= max_budget,
                1 <= mb <= max_budget,
                forall|s: int|
                    0 <= s < brackets@.len() ==> {
                        let a = (#[trigger] brackets@[s]).spec_asha();
                        &&& brackets@[s].spec_consumption() == 0
                        &&& a.wf()
                        &&& rungs_fresh(
                            a.spec_rungs().rungs(),
                            bracket_min_budget(options.r, eta, max_budget, s),
                            max_budget,
                            eta,
                        )
                        &&& a.spec_initial_budget() == (crate::budget::Budget {
                            amount: bracket_min_budget(options.r, eta, max_budget, s),
                            consumption: 0u64,
                        })
                        &&& a.spec_max_budget() == max_budget
                        &&& !a.spec_without_checkpoint()
                    },
            ensures
                brackets@.len() >= 1,
                pow(eta as int, (brackets@.len() - 1) as nat) <= max_budget,
                pow(eta as int, brackets@.len() as nat) > max_budget,
                forall|s: int|
                    0 <= s < brackets@.len() ==> {
                        let a = (#[trigger] brackets@[s]).spec_asha();
                        &&& brackets@[s].spec_consumption() == 0
                        &&& a.wf()
                        &&& rungs_fresh(
                            a.spec_rungs().rungs(),
                            bracket_min_budget(options.r, eta, max_budget, s),
                            max_budget,
                            eta,
                        )
                        &&& a.spec_initial_budget() == (crate::budget::Budget {
                            amount: bracket_min_budget(options.r, eta, max_budget, s),
                            consumption: 0u64,
                        })
                        &&& a.spec_max_budget() == max_budget
                        &&& !a.spec_without_checkpoint()
                    },
            decreases max_budget - p + 1,
        {
            let inner = match factory.create() {
                Ok(o) => o,
                Err(e) => {
                    return Err(e);
                },
            };
            let mut builder = AshaOptimizerBuilder::new();
            match builder.reduction_factor(eta) {
                Ok(()) => {},
                Err(e) => {
                    return Err(e);
                },
            }
            let asha = match builder.finish(inner, mb, max_budget) {
                Ok(a) => a,
                Err(e) => {
                    return Err(e);
                },
            };
            brackets.push(Bracket::new(asha));
            proof {
                vstd::arithmetic::power::lemma_pow_adds(eta as int, (brackets@.len() - 1) as nat, 1nat);
                vstd::arithmetic::power::lemma_pow1(eta as int);
            }
            match p.checked_mul(eta as u64) {
                Some(p2) => {
                    proof {
                        assert(p * (eta as u64) >= p * 2) by (nonlinear_arith)
                            requires
                                eta >= 2,
                                p >= 1,
                        ;
                    }
                    if p2 > max_budget {
                        break ;
                    }
                    p = p2;
                },
                None => {
                    break ;
                },
            }
            proof {
                assert(mb * (eta as u64) >= mb * 2) by (nonlinear_arith)
                    requires
                        eta >= 2,
                        mb >= 1,
                ;
            }
            mb = match mb.checked_mul(eta as u64) {
                Some(m2) => if m2 >= max_budget {
                    max_budget
                } else {
                    m2
                },
                None => max_budget,
            };
        }
        Ok(Self { brackets, runnings: HashMap::new() })
    }
}

/// What one `HyperbandOptimizer::ask` call does: the bracket with the
/// lowest tracked consumption (lowest index on ties) is asked; on success
/// the configuration's remaining budget is added to that bracket's
/// consumption as an optimistic reservation, and the bracket is recorded
/// as the owner of the returned identifier.
pub open spec fn hyperband_ask_ens<O>(
    pre: HyperbandOptimizer<O>,
    post: HyperbandOptimizer<O>,
    r: Result<MfObs<O::Param, ()>, ErrorKind>,
) -> bool where O: Optimizer<Value = Ranked<u64>>, O::Param: Copy {
    if pre.spec_brackets().len() == 0 {
        &&& r == Err::<MfObs<O::Param, ()>, ErrorKind>(ErrorKind::Bug)
        &&& post.spec_brackets() == pre.spec_brackets()
        &&& post.spec_runnings() == pre.spec_runnings()
    } else {
        let i = min_consumption_bracket(pre.spec_brackets());
        &&& forall|j: int|
            0 <= j < pre.spec_brackets().len() ==> pre.spec_brackets()[i].spec_consumption() <= (
            #[trigger] pre.spec_brackets()[j]).spec_consumption()
        &&& post.spec_brackets().len() == pre.spec_brackets().len()
        &&& forall|j: int|
            0 <= j < pre.spec_brackets().len() && j != i ==> post.spec_brackets()[j]
                == pre.spec_brackets()[j]
        &&& asha_ask_ens(
            pre.spec_brackets()[i].spec_asha(),
            post.spec_brackets()[i].spec_asha(),
            r,
        )
        &&& match r {
            Ok(obs) => {
                &&& post.spec_brackets()[i].spec_consumption() == sat_add(
                    pre.spec_brackets()[i].spec_consumption(),
                    obs.budget.spec_remaining(),
                )
                &&& post.spec_runnings() == pre.spec_runnings().insert(obs.id.0, i as usize)
            },
            Err(_) => {
                &&& post.spec_brackets()[i].spec_consumption()
                    == pre.spec_brackets()[i].spec_consumption()
                &&& post.spec_runnings() == pre.spec_runnings()
            },
        }
    }
}

/// What one `HyperbandOptimizer::tell` call does: an identifier that no
/// bracket owns is an `ErrorKind::UnknownObservation`; otherwise the
/// owning bracket's reservation is corrected — the still-remaining budget
/// is subtracted and the actually over-consumed excess added — and the
/// observation is told to that bracket's ASHA instance.
pub open spec fn hyperband_tell_ens<O>(
    pre: HyperbandOptimizer<O>,
    obs: MfObs<O::Param, u64>,
    post: HyperbandOptimizer<O>,
    r: Result<(), ErrorKind>,
) -> bool where O: Optimizer<Value = Ranked<u64>>, O::Param: Copy {
    if !pre.spec_runnings().contains_key(obs.id.0) {
        &&& r == Err::<(), ErrorKind>(ErrorKind::UnknownObservation)
        &&& post.spec_brackets() == pre.spec_brackets()
        &&& post.spec_runnings() == pre.spec_runnings()
    } else {
        let i = pre.spec_runnings()[obs.id.0] as int;
        &&& post.spec_runnings() == pre.spec_runnings().remove(obs.id.0)
        &&& post.spec_brackets().len() == pre.spec_brackets().len()
        &&& forall|j: int|
            0 <= j < pre.spec_brackets().len() && j != i ==> post.spec_brackets()[j]
                == pre.spec_brackets()[j]
        &&& post.spec_brackets()[i].spec_consumption() == sat_add(
            sat_sub(pre.spec_brackets()[i].spec_consumption(), obs.budget.spec_remaining()),
            obs.budget.spec_excess(),
        )
        &&& asha_tell_ens(
            pre.spec_brackets()[i].spec_asha(),
            obs,
            post.spec_brackets()[i].spec_asha(),
            r,
        )
    }
}

/// The index of the bracket with the smallest tracked consumption, taking
/// the lowest index on ties.
fn min_bracket<O: Optimizer>(brackets: &Vec<Bracket<O>>) -> (i: usize)
    requires
        brackets@.len() >= 1,
    ensures
        i < brackets@.len(),
        i as int == min_consumption_bracket(brackets@),
{
    let n = brackets.len();
    let mut i: usize = 0;
    let mut k: usize = 1;
    while k < n
        invariant
            1 <= k <= n,
            i < k,
            i as int == min_consumption_upto(brackets@, k as int),
        decreases n - k,
    {
        if brackets[k].consumption < brackets[i].consumption {
            i = k;
        }
        k += 1;
    }
    i
}

impl<O> MultiFidelityOptimizer for HyperbandOptimizer<O> where
    O: Optimizer<Value = Ranked<u64>>,
    O::Param: Copy,
 {
    type Param = O::Param;

    type Value = u64;

    open spec fn wf(&self) -> bool {
        &&& forall|j: int|
            0 <= j < self.spec_brackets().len() ==> (#[trigger] self.spec_brackets()[j]).spec_asha().wf()
        &&& forall|id: u64|
            self.spec_runnings().contains_key(id) ==> ((#[trigger] self.spec_runnings()[id])
                as int) < self.spec_brackets().len()
    }

    open spec fn ask_ens(
        pre: Self,
        post: Self,
        r: Result<MfObs<O::Param, ()>, ErrorKind>,
    ) -> bool {
        hyperband_ask_ens(pre, post, r)
    }

    open spec fn ask_minted(
        pre: Self,
        post: Self,
        r: Result<MfObs<O::Param, ()>, ErrorKind>,
    ) -> bool {
        if pre.spec_brackets().len() == 0 {
            false
        } else {
            let i = min_consumption_bracket(pre.spec_brackets());
            MultiFidelityOptimizer::ask_minted(
                pre.spec_brackets()[i].spec_asha(),
                post.spec_brackets()[i].spec_asha(),
                r,
            )
        }
    }

    open spec fn tell_ens(
        pre: Self,
        obs: MfObs<O::Param, u64>,
        post: Self,
        r: Result<(), ErrorKind>,
    ) -> bool {
        hyperband_tell_ens(pre, obs, post, r)
    }

    #[verifier::rlimit(100)]
    fn ask<G: IdGen>(&mut self, rng: &mut rand::rngs::StdRng, idg: &mut G) -> (r: Result<
        MfObs<O::Param, ()>,
        ErrorKind,
    >) {
        let ghost pre = *self;
        if self.brackets.len() == 0 {
            return Err(ErrorKind::Bug);
        }
        let i = min_bracket(&self.brackets);
        proof {
            lemma_min_consumption_bracket(pre.spec_brackets());
        }
        let bracket = vec_index_mut(&mut self.brackets, i);
        match bracket.asha.ask(rng, idg) {
            Ok(obs) => {
                let reserve = match obs.budget.remaining() {
                    Ok(v) => v,
                    Err(_) => 0,
                };
                bracket.consumption = bracket.consumption.saturating_add(reserve);
                self.runnings.insert(obs.id.get(), i);
                proof {
                    assert(self.spec_brackets() =~= pre.spec_brackets().update(
                        i as int,
                        self.spec_brackets()[i as int],
                    ));
                    assert forall|j: int|
                        0 <= j < self.spec_brackets().len() implies (
                    #[trigger] self.spec_brackets()[j]).spec_asha().wf() by {
                        if j != i as int {
                            assert(self.spec_brackets()[j] == pre.spec_brackets()[j]);
                        }
                    }
                    assert forall|id: u64|
                        self.spec_runnings().contains_key(id) implies ((
                    #[trigger] self.spec_runnings()[id]) as int) < self.spec_brackets().len() by {
                        if id != obs.id.0 {
                            assert(pre.spec_runnings().contains_key(id));
                            assert(pre.spec_runnings()[id] == self.spec_runnings()[id]);
                        }
                    }
                }
                Ok(obs)
            },
            Err(e) => {
                proof {
                    assert(self.spec_brackets() =~= pre.spec_brackets().update(
                        i as int,
                        self.spec_brackets()[i as int],
                    ));
                    assert forall|j: int|
                        0 <= j < self.spec_brackets().len() implies (
                    #[trigger] self.spec_brackets()[j]).spec_asha().wf() by {
                        if j != i as int {
                            assert(self.spec_brackets()[j] == pre.spec_brackets()[j]);
                        }
                    }
                    assert forall|id: u64|
                        self.spec_runnings().contains_key(id) implies ((
                    #[trigger] self.spec_runnings()[id]) as int) < self.spec_brackets().len() by {
                        assert(pre.spec_runnings().contains_key(id));
                        assert(pre.spec_runnings()[id] == self.spec_runnings()[id]);
                    }
                }
                Err(e)
            },
        }
    }

    #[verifier::rlimit(100)]
    fn tell(&mut self, obs: MfObs<O::Param, u64>) -> (r: Result<(), ErrorKind>) {
        let ghost pre = *self;
        let i = match self.runnings.remove(&obs.id.get()) {
            Some(i) => i,
            None => {
                proof {
                    assert(self.spec_runnings() == pre.spec_runnings());
                    assert forall|id: u64|
                        self.spec_runnings().contains_key(id) implies ((
                    #[trigger] self.spec_runnings()[id]) as int) < self.spec_brackets().len() by {
                        assert(pre.spec_runnings().contains_key(id));
                        assert(pre.spec_runnings()[id] == self.spec_runnings()[id]);
                    }
                    assert forall|j: int|
                        0 <= j < self.spec_brackets().len() implies (
                    #[trigger] self.spec_brackets()[j]).spec_asha().wf() by {
                        assert(self.spec_brackets()[j] == pre.spec_brackets()[j]);
                    }
                }
                return Err(ErrorKind::UnknownObservation);
            },
        };
        proof {
            assert(pre.spec_runnings().contains_key(obs.id.0));
            assert((pre.spec_runnings()[obs.id.0] as int) < pre.spec_brackets().len());
        }
        let sub = match obs.budget.remaining() {
            Ok(v) => v,
            Err(_) => 0,
        };
        let add = match obs.budget.remaining() {
            Ok(_) => 0,
            Err(v) => v,
        };
        let bracket = vec_index_mut(&mut self.brackets, i);
        bracket.consumption = bracket.consumption.saturating_sub(sub).saturating_add(add);
        let res = bracket.asha.tell(obs);
        proof {
            assert(self.spec_brackets() =~= pre.spec_brackets().update(
                i as int,
                self.spec_brackets()[i as int],
            ));
            assert forall|j: int|
                0 <= j < self.spec_brackets().len() implies (
            #[trigger] self.spec_brackets()[j]).spec_asha().wf() by {
                if j != i as int {
                    assert(self.spec_brackets()[j] == pre.spec_brackets()[j]);
                }
            }
            assert forall|id: u64|
                self.spec_runnings().contains_key(id) implies ((
            #[trigger] self.spec_runnings()[id]) as int) < self.spec_brackets().len() by {
                assert(pre.spec_runnings().contains_key(id));
                assert(pre.spec_runnings()[id] == self.spec_runnings()[id]);
            }
        }
        res
    }
}

} // verus!
