use rand::rngs::StdRng;
use rand::SeedableRng;

use yamakan::domains::DiscreteDomain;
use yamakan::generators::SerialIdGenerator;
use yamakan::optimizers::hyperband::{HyperbandOptimizer, HyperbandOptions};
use yamakan::optimizers::random::RandomOptimizer;
use yamakan::{Budget, ErrorKind, MfObs, MultiFidelityOptimizer, ObsId, Ranked};

fn factory() -> RandomOptimizer<DiscreteDomain, Ranked<u64>> {
    RandomOptimizer::new(DiscreteDomain::new(10).unwrap())
}

#[test]
fn hyperband_asks_the_least_loaded_bracket() {
    // max budget 4, eta 2, base 1: three brackets starting at budgets
    // 1, 2 and 4; consecutive asks walk the brackets in order of their
    // tracked consumption
    let options = HyperbandOptions { r: 1, eta: 2 };
    let mut optimizer = HyperbandOptimizer::with_options(factory(), 4, options).unwrap();

    let mut rng = StdRng::seed_from_u64(0);
    let mut idg = SerialIdGenerator::new();

    let first = optimizer.ask(&mut rng, &mut idg).unwrap();
    assert_eq!(first.budget.amount, 1);

    let second = optimizer.ask(&mut rng, &mut idg).unwrap();
    assert_eq!(second.budget.amount, 2);

    let third = optimizer.ask(&mut rng, &mut idg).unwrap();
    assert_eq!(third.budget.amount, 4);

    // tracked consumptions are now 1, 2 and 4: the first bracket wins again
    let fourth = optimizer.ask(&mut rng, &mut idg).unwrap();
    assert_eq!(fourth.budget.amount, 1);
}

#[test]
fn hyperband_round_trip_accounting_stays_exact() {
    // a full run consumes exactly the granted amount: after ask and tell
    // the bracket's tracked consumption matches the true spending, so the
    // same bracket is preferred again only after the others catch up
    let options = HyperbandOptions { r: 1, eta: 2 };
    let mut optimizer = HyperbandOptimizer::with_options(factory(), 4, options).unwrap();

    let mut rng = StdRng::seed_from_u64(1);
    let mut idg = SerialIdGenerator::new();

    let obs = optimizer.ask(&mut rng, &mut idg).unwrap();
    let mut obs = obs.map_value(|_| 5u64);
    obs.budget.consumption = obs.budget.amount;
    optimizer.tell(obs).unwrap();

    // the reservation was realized, not doubled: the first bracket still
    // tracks 1, so the second bracket (budget 2, consumption 0) is next
    let next = optimizer.ask(&mut rng, &mut idg).unwrap();
    assert_eq!(next.budget.amount, 2);
}

#[test]
fn hyperband_tell_of_unknown_id_is_unknown_observation() {
    let mut optimizer = HyperbandOptimizer::new(factory(), 4).unwrap();
    let obs = MfObs {
        id: ObsId::new(99),
        budget: Budget { amount: 1, consumption: 1 },
        param: 0u64,
        value: 1u64,
    };
    assert_eq!(optimizer.tell(obs), Err(ErrorKind::UnknownObservation));
}

#[test]
fn hyperband_each_id_is_told_through_its_own_bracket() {
    let mut optimizer = HyperbandOptimizer::new(factory(), 4).unwrap();
    let mut rng = StdRng::seed_from_u64(2);
    let mut idg = SerialIdGenerator::new();

    let obs = optimizer.ask(&mut rng, &mut idg).unwrap();
    let id = obs.id;
    let mut obs = obs.map_value(|_| 3u64);
    obs.budget.consumption = obs.budget.amount;
    assert_eq!(optimizer.tell(obs), Ok(()));

    // the identifier was dispatched and forgotten: a second report of it
    // is unknown
    let again = MfObs {
        id,
        budget: Budget { amount: 1, consumption: 1 },
        param: 0u64,
        value: 3u64,
    };
    assert_eq!(optimizer.tell(again), Err(ErrorKind::UnknownObservation));
}

#[test]
fn hyperband_refuses_invalid_options() {
    assert!(matches!(
        HyperbandOptimizer::with_options(factory(), 4, HyperbandOptions { r: 0, eta: 2 }),
        Err(ErrorKind::InvalidInput)
    ));
    assert!(matches!(
        HyperbandOptimizer::with_options(factory(), 4, HyperbandOptions { r: 1, eta: 1 }),
        Err(ErrorKind::InvalidInput)
    ));
    assert!(matches!(
        HyperbandOptimizer::with_options(factory(), 0, HyperbandOptions::default()),
        Err(ErrorKind::InvalidInput)
    ));
}
