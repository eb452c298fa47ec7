use rand::rngs::StdRng;
use rand::SeedableRng;

use yamakan::domains::DiscreteDomain;
use yamakan::generators::SerialIdGenerator;
use yamakan::optimizers::asha::{AshaOptimizer, AshaOptimizerBuilder, Rung, Rungs};
use yamakan::optimizers::random::RandomOptimizer;
use yamakan::{Budget, ErrorKind, MfObs, MultiFidelityOptimizer, ObsId, Ranked};

fn mf_obs(id: u64, amount: u64, consumption: u64, value: u64) -> MfObs<u64, u64> {
    MfObs {
        id: ObsId::new(id),
        budget: Budget { amount, consumption },
        param: 0,
        value,
    }
}

#[test]
fn asha_works() {
    let inner: RandomOptimizer<DiscreteDomain, Ranked<u64>> =
        RandomOptimizer::new(DiscreteDomain::new(10).unwrap());
    let mut optimizer = AshaOptimizer::new(inner, 10, 20).unwrap();

    let mut rng = StdRng::seed_from_u64(0);
    let mut idg = SerialIdGenerator::new();

    // first
    let obs = optimizer.ask(&mut rng, &mut idg).unwrap();
    assert_eq!(obs.id.get(), 0);

    let mut obs = obs.map_value(|_| 1u64);
    obs.budget.consumption += 10;
    optimizer.tell(obs).unwrap();

    // second
    let obs = optimizer.ask(&mut rng, &mut idg).unwrap();
    assert_eq!(obs.id.get(), 1);

    let mut obs = obs.map_value(|_| 2u64);
    obs.budget.consumption += 10;
    optimizer.tell(obs).unwrap();

    // third
    let obs = optimizer.ask(&mut rng, &mut idg).unwrap();
    assert_eq!(obs.id.get(), 0);

    let mut obs = obs.map_value(|_| 1u64);
    obs.budget.consumption += 10;
    optimizer.tell(obs).unwrap();
}

#[test]
fn promoted_budget_is_raised_to_twenty() {
    // the concrete scenario: min 10, max 20, reduction factor 2; the
    // promoted observation keeps its identifier and consumption and is
    // granted exactly 20
    let inner: RandomOptimizer<DiscreteDomain, Ranked<u64>> =
        RandomOptimizer::new(DiscreteDomain::new(10).unwrap());
    let mut optimizer = AshaOptimizer::new(inner, 10, 20).unwrap();

    let mut rng = StdRng::seed_from_u64(7);
    let mut idg = SerialIdGenerator::new();

    let obs = optimizer.ask(&mut rng, &mut idg).unwrap();
    assert_eq!(obs.budget.amount, 10);
    assert_eq!(obs.budget.consumption, 0);
    let mut obs = obs.map_value(|_| 1u64);
    obs.budget.consumption = 10;
    optimizer.tell(obs).unwrap();

    let obs = optimizer.ask(&mut rng, &mut idg).unwrap();
    assert_eq!(obs.id.get(), 1);
    let mut obs = obs.map_value(|_| 2u64);
    obs.budget.consumption = 10;
    optimizer.tell(obs).unwrap();

    let promoted = optimizer.ask(&mut rng, &mut idg).unwrap();
    assert_eq!(promoted.id.get(), 0);
    assert_eq!(promoted.budget.amount, 20);
    assert_eq!(promoted.budget.consumption, 10);
}

#[test]
fn promotion_never_skips_a_rung() {
    // with rungs 10, 20, 40 a promotion out of the first rung grants
    // exactly 20, not 40
    let inner: RandomOptimizer<DiscreteDomain, Ranked<u64>> =
        RandomOptimizer::new(DiscreteDomain::new(10).unwrap());
    let mut builder = AshaOptimizerBuilder::new();
    builder.reduction_factor(2).unwrap();
    let mut optimizer = builder.finish(inner, 10, 40).unwrap();

    let mut rng = StdRng::seed_from_u64(1);
    let mut idg = SerialIdGenerator::new();

    for value in [1u64, 2u64] {
        let obs = optimizer.ask(&mut rng, &mut idg).unwrap();
        let mut obs = obs.map_value(|_| value);
        obs.budget.consumption = 10;
        optimizer.tell(obs).unwrap();
    }

    let promoted = optimizer.ask(&mut rng, &mut idg).unwrap();
    assert_eq!(promoted.id.get(), 0);
    assert_eq!(promoted.budget.amount, 20);
}

#[test]
fn rungs_ladder_is_strictly_increasing() {
    // min 10, max 100, reduction factor 3: rungs at 10, 30, 90, 100
    let mut builder = AshaOptimizerBuilder::new();
    builder.reduction_factor(3).unwrap();
    let rungs: Rungs<u64> = Rungs::new(10, 100, &builder);
    assert_eq!(rungs.len(), 4);
    let budgets: Vec<u64> = (0..rungs.len()).map(|i| rungs.get(i).curr_budget()).collect();
    assert_eq!(budgets, vec![10, 30, 90, 100]);
    assert_eq!(rungs.get(0).next_budget(), Some(30));
    assert_eq!(rungs.get(1).next_budget(), Some(90));
    assert_eq!(rungs.get(2).next_budget(), Some(100));
    assert_eq!(rungs.get(3).next_budget(), None);
}

#[test]
fn rungs_ladder_with_equal_bounds_is_one_terminal_rung() {
    let builder = AshaOptimizerBuilder::new();
    let rungs: Rungs<u64> = Rungs::new(7, 7, &builder);
    assert_eq!(rungs.len(), 1);
    assert_eq!(rungs.get(0).curr_budget(), 7);
    assert_eq!(rungs.get(0).next_budget(), None);
}

#[test]
fn telling_twice_converges_to_one_entry() {
    let builder = AshaOptimizerBuilder::new();
    let mut rung: Rung<u64> = Rung::new(10, Some(20), &builder);
    rung.upsert(mf_obs(0, 10, 10, 3));
    rung.upsert(mf_obs(0, 10, 10, 3));
    assert_eq!(rung.len(), 1);
    rung.upsert(mf_obs(1, 10, 10, 4));
    rung.upsert(mf_obs(0, 10, 10, 5));
    assert_eq!(rung.len(), 2);
}

#[test]
fn strict_tell_refuses_duplicates_as_bug() {
    let builder = AshaOptimizerBuilder::new();
    let mut rung: Rung<u64> = Rung::new(10, Some(20), &builder);
    assert_eq!(rung.tell(mf_obs(0, 10, 10, 3)), Ok(()));
    assert_eq!(rung.tell(mf_obs(0, 10, 10, 3)), Err(ErrorKind::Bug));
    assert_eq!(rung.len(), 1);
}

#[test]
fn tell_below_rung_budget_is_invalid_input() {
    let builder = AshaOptimizerBuilder::new();
    let mut rung: Rung<u64> = Rung::new(10, Some(20), &builder);
    assert_eq!(rung.tell(mf_obs(0, 10, 9, 3)), Err(ErrorKind::InvalidInput));

    let mut rungs: Rungs<u64> = Rungs::new(10, 20, &builder);
    assert_eq!(rungs.tell(mf_obs(0, 10, 9, 3)), Err(ErrorKind::InvalidInput));
}

#[test]
fn at_most_a_reduction_fraction_is_promotable() {
    // four pending entries and reduction factor two: exactly the best two
    // are ever promotable, best value first
    let builder = AshaOptimizerBuilder::new();
    let mut rung: Rung<u64> = Rung::new(10, Some(20), &builder);
    rung.tell(mf_obs(0, 10, 10, 3)).unwrap();
    rung.tell(mf_obs(1, 10, 10, 1)).unwrap();
    rung.tell(mf_obs(2, 10, 10, 2)).unwrap();
    rung.tell(mf_obs(3, 10, 10, 4)).unwrap();

    let first = rung.ask_promotable().unwrap();
    assert_eq!(first.id.get(), 1);
    assert_eq!(first.budget.amount, 20);

    let second = rung.ask_promotable().unwrap();
    assert_eq!(second.id.get(), 2);
    assert_eq!(second.budget.amount, 20);

    assert!(rung.ask_promotable().is_none());
    assert_eq!(rung.len(), 4);
}

#[test]
fn value_ties_promote_the_earliest_entry() {
    let builder = AshaOptimizerBuilder::new();
    let mut rung: Rung<u64> = Rung::new(10, Some(20), &builder);
    rung.tell(mf_obs(5, 10, 10, 2)).unwrap();
    rung.tell(mf_obs(6, 10, 10, 2)).unwrap();
    let promoted = rung.ask_promotable().unwrap();
    assert_eq!(promoted.id.get(), 5);
}

#[test]
fn terminal_rung_never_promotes() {
    let builder = AshaOptimizerBuilder::new();
    let mut rung: Rung<u64> = Rung::new(20, None, &builder);
    rung.tell(mf_obs(0, 20, 20, 1)).unwrap();
    rung.tell(mf_obs(1, 20, 20, 2)).unwrap();
    assert!(rung.ask_promotable().is_none());
}

#[test]
fn canceled_evaluations_occupy_no_rung() {
    // a tell whose consumption is below the granted amount was canceled:
    // it is forwarded to the inner optimizer but never enters a rung, so
    // it can never be promoted
    let inner: RandomOptimizer<DiscreteDomain, Ranked<u64>> =
        RandomOptimizer::new(DiscreteDomain::new(10).unwrap());
    let mut optimizer = AshaOptimizer::new(inner, 10, 20).unwrap();

    let mut rng = StdRng::seed_from_u64(4);
    let mut idg = SerialIdGenerator::new();

    for value in [1u64, 2u64] {
        let obs = optimizer.ask(&mut rng, &mut idg).unwrap();
        let mut obs = obs.map_value(|_| value);
        obs.budget.consumption = 5;
        optimizer.tell(obs).unwrap();
    }

    // two observations were told, but both were canceled: nothing is
    // promotable and a fresh identifier comes back
    let obs = optimizer.ask(&mut rng, &mut idg).unwrap();
    assert_eq!(obs.id.get(), 2);
    assert_eq!(obs.budget.consumption, 0);
}

#[test]
fn empty_rung_has_nothing_promotable() {
    let builder = AshaOptimizerBuilder::new();
    let mut rung: Rung<u64> = Rung::new(10, Some(20), &builder);
    assert!(rung.ask_promotable().is_none());
    assert_eq!(rung.len(), 0);
}

#[test]
fn rung_budgets_saturate_at_the_largest_u64() {
    let builder = AshaOptimizerBuilder::new();
    let rungs: Rungs<u64> = Rungs::new(u64::MAX - 1, u64::MAX, &builder);
    assert_eq!(rungs.len(), 2);
    assert_eq!(rungs.get(0).curr_budget(), u64::MAX - 1);
    assert_eq!(rungs.get(0).next_budget(), Some(u64::MAX));
    assert_eq!(rungs.get(1).curr_budget(), u64::MAX);
    assert_eq!(rungs.get(1).next_budget(), None);
}

#[test]
fn consumption_above_max_budget_is_invalid_input() {
    let inner: RandomOptimizer<DiscreteDomain, Ranked<u64>> =
        RandomOptimizer::new(DiscreteDomain::new(10).unwrap());
    let mut optimizer = AshaOptimizer::new(inner, 10, 20).unwrap();
    assert_eq!(
        optimizer.tell(mf_obs(0, 10, 21, 1)),
        Err(ErrorKind::InvalidInput)
    );
}

#[test]
fn builder_refuses_reduction_factor_below_two() {
    let mut builder = AshaOptimizerBuilder::new();
    assert_eq!(builder.reduction_factor(1), Err(ErrorKind::InvalidInput));
    assert_eq!(builder.reduction_factor(0), Err(ErrorKind::InvalidInput));
    assert_eq!(builder.reduction_factor(2), Ok(()));
}

#[test]
fn asha_refuses_invalid_budgets() {
    let inner: RandomOptimizer<DiscreteDomain, Ranked<u64>> =
        RandomOptimizer::new(DiscreteDomain::new(10).unwrap());
    assert!(matches!(
        AshaOptimizer::new(inner, 0, 20),
        Err(ErrorKind::InvalidInput)
    ));
    let inner: RandomOptimizer<DiscreteDomain, Ranked<u64>> =
        RandomOptimizer::new(DiscreteDomain::new(10).unwrap());
    assert!(matches!(
        AshaOptimizer::new(inner, 21, 20),
        Err(ErrorKind::InvalidInput)
    ));
}

#[test]
fn without_checkpoint_promotes_under_a_fresh_identifier() {
    let inner: RandomOptimizer<DiscreteDomain, Ranked<u64>> =
        RandomOptimizer::new(DiscreteDomain::new(10).unwrap());
    let mut builder = AshaOptimizerBuilder::new();
    builder.without_checkpoint();
    let mut optimizer = builder.finish(inner, 10, 20).unwrap();

    let mut rng = StdRng::seed_from_u64(3);
    let mut idg = SerialIdGenerator::new();

    for value in [1u64, 2u64] {
        let obs = optimizer.ask(&mut rng, &mut idg).unwrap();
        let mut obs = obs.map_value(|_| value);
        obs.budget.consumption = 10;
        optimizer.tell(obs).unwrap();
    }

    let promoted = optimizer.ask(&mut rng, &mut idg).unwrap();
    assert_eq!(promoted.id.get(), 2);
    assert_eq!(promoted.budget.amount, 20);
    assert_eq!(promoted.budget.consumption, 0);
}
