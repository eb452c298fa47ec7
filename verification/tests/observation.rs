use yamakan::generators::{ConstIdGenerator, SerialIdGenerator};
use yamakan::IdGen;
use yamakan::{Budget, MfObs, Obs, ObsId, Ranked};

#[test]
fn budget_starts_unconsumed() {
    let budget = Budget::new(10);
    assert_eq!(budget.amount, 10);
    assert_eq!(budget.consumption, 0);
    assert_eq!(budget.remaining(), Ok(10));
    assert!(!budget.is_consumed());
}

#[test]
fn budget_remaining_reports_excess() {
    let budget = Budget { amount: 10, consumption: 7 };
    assert_eq!(budget.remaining(), Ok(3));
    assert!(!budget.is_consumed());

    let exact = Budget { amount: 10, consumption: 10 };
    assert_eq!(exact.remaining(), Ok(0));
    assert!(exact.is_consumed());

    let over = Budget { amount: 10, consumption: 13 };
    assert_eq!(over.remaining(), Err(3));
    assert!(over.is_consumed());
}

#[test]
fn budget_consume_accumulates_and_set_amount_rewrites() {
    let mut budget = Budget::new(10);
    budget.consume(4);
    budget.consume(4);
    assert_eq!(budget.consumption, 8);
    assert_eq!(budget.remaining(), Ok(2));
    budget.consume(5);
    assert_eq!(budget.consumption, 13);
    assert_eq!(budget.remaining(), Err(3));
    budget.set_amount(20);
    assert_eq!(budget.amount, 20);
    assert_eq!(budget.consumption, 13);
    assert_eq!(budget.remaining(), Ok(7));
}

#[test]
fn serial_generator_counts_up() {
    let mut idg = SerialIdGenerator::new();
    assert_eq!(idg.generate().unwrap().get(), 0);
    assert_eq!(idg.generate().unwrap().get(), 1);
    assert_eq!(idg.generate().unwrap().get(), 2);
}

#[test]
fn const_generator_repeats_its_id() {
    let mut idg = ConstIdGenerator::new(ObsId::new(42));
    assert_eq!(idg.generate().unwrap(), ObsId::new(42));
    assert_eq!(idg.generate().unwrap(), ObsId::new(42));
}

#[test]
fn obs_new_takes_the_generated_id() {
    let mut idg = SerialIdGenerator::new();
    let a = Obs::new(&mut idg, 5u64).unwrap();
    let b = Obs::new(&mut idg, 6u64).unwrap();
    assert_eq!(a.id.get(), 0);
    assert_eq!(b.id.get(), 1);
    assert_eq!(a.param, 5);
    assert_eq!(b.param, 6);
}

#[test]
fn mf_obs_new_takes_the_generated_id_and_budget() {
    let mut idg = ConstIdGenerator::new(ObsId::new(7));
    let budget = Budget::new(10);
    let mf = MfObs::new(&mut idg, budget, 3u64).unwrap();
    assert_eq!(mf.id.get(), 7);
    assert_eq!(mf.budget.amount, 10);
    assert_eq!(mf.budget.consumption, 0);
    assert_eq!(mf.param, 3);
}

#[test]
fn obs_map_param_keeps_id_and_value() {
    let obs = Obs { id: ObsId::new(3), param: 10u64, value: 7u64 };
    let mapped = obs.map_param(|p| p + 1);
    assert_eq!(mapped.id.get(), 3);
    assert_eq!(mapped.param, 11);
    assert_eq!(mapped.value, 7);
}

#[test]
fn obs_try_map_value_propagates_errors() {
    let obs = Obs { id: ObsId::new(3), param: 10u64, value: 7u64 };
    let ok: Result<Obs<u64, u64>, &str> = obs.try_map_value(|v| Ok(v * 2));
    assert_eq!(ok.unwrap().value, 14);

    let obs = Obs { id: ObsId::new(3), param: 10u64, value: 7u64 };
    let err: Result<Obs<u64, u64>, &str> = obs.try_map_value(|_| Err("nope"));
    assert_eq!(err.unwrap_err(), "nope");
}

#[test]
fn obs_take_value_splits_the_observation() {
    let obs = Obs { id: ObsId::new(3), param: 10u64, value: 7u64 };
    let (rest, value) = obs.take_value();
    assert_eq!(value, 7);
    assert_eq!(rest.id.get(), 3);
    assert_eq!(rest.param, 10);
}

#[test]
fn mf_obs_conversions_keep_the_fields() {
    let obs = Obs { id: ObsId::new(8), param: 2u64, value: 9u64 };
    let budget = Budget { amount: 5, consumption: 1 };
    let mf = MfObs::from_obs(obs, budget);
    assert_eq!(mf.id.get(), 8);
    assert_eq!(mf.budget.amount, 5);
    assert_eq!(mf.budget.consumption, 1);
    assert_eq!(mf.param, 2);
    assert_eq!(mf.value, 9);

    let back: Obs<u64, u64> = Obs::from(mf);
    assert_eq!(back.id.get(), 8);
    assert_eq!(back.param, 2);
    assert_eq!(back.value, 9);
}

#[test]
fn mf_obs_map_functions_keep_the_budget() {
    let mf = MfObs {
        id: ObsId::new(1),
        budget: Budget { amount: 5, consumption: 2 },
        param: 3u64,
        value: 4u64,
    };
    let mapped = mf.map_param(|p| p * 10).map_value(|v| v + 1);
    assert_eq!(mapped.budget.amount, 5);
    assert_eq!(mapped.budget.consumption, 2);
    assert_eq!(mapped.param, 30);
    assert_eq!(mapped.value, 5);

    let (rest, value) = mapped.take_value();
    assert_eq!(value, 5);
    assert_eq!(rest.budget.amount, 5);
}

#[test]
fn ranked_orders_by_rank_before_value() {
    assert!(Ranked { rank: 0, value: 9u64 } < Ranked { rank: 1, value: 0u64 });
    assert!(Ranked { rank: 1, value: 0u64 } < Ranked { rank: 1, value: 2u64 });
    assert_eq!(Ranked { rank: 1, value: 2u64 }, Ranked { rank: 1, value: 2u64 });
}
