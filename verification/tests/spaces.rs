use rand::rngs::StdRng;
use rand::SeedableRng;

use yamakan::domains::{CategoricalDomain, DiscreteDomain, VecDomain};
use yamakan::generators::SerialIdGenerator;
use yamakan::optimizers::knn::KnnOptimizer;
use yamakan::optimizers::nsga2::{Generate, Nsga2Strategy, RandomGenerator, TournamentSelector};
use yamakan::optimizers::random::RandomOptimizer;
use yamakan::parameters::{Bool, Categorical, Discrete, PriorDistribution, U64};
use yamakan::range::Range;
use yamakan::{Domain, ErrorKind, Obs, ObsId, Optimizer};

#[test]
fn random_works() {
    let mut opt: RandomOptimizer<DiscreteDomain, ()> =
        RandomOptimizer::new(DiscreteDomain::new(10).unwrap());
    let mut rng = StdRng::seed_from_u64(0);
    let mut idg = SerialIdGenerator::new();

    let obs = opt.ask(&mut rng, &mut idg).unwrap();
    opt.tell(obs).unwrap();
}

#[test]
fn domains_refuse_a_zero_size() {
    assert_eq!(
        CategoricalDomain::new(0).unwrap_err(),
        ErrorKind::InvalidInput
    );
    assert_eq!(DiscreteDomain::new(0).unwrap_err(), ErrorKind::InvalidInput);
}

#[test]
fn domain_samples_stay_in_range() {
    let mut rng = StdRng::seed_from_u64(5);
    let categorical = CategoricalDomain::new(3).unwrap();
    assert_eq!(categorical.cardinality(), 3);
    let discrete = DiscreteDomain::new(7).unwrap();
    assert_eq!(discrete.size(), 7);
    for _ in 0..100 {
        assert!(categorical.sample(&mut rng) < 3);
        assert!(discrete.sample(&mut rng) < 7);
    }
}

#[test]
fn vec_domain_samples_one_point_per_element() {
    let mut rng = StdRng::seed_from_u64(6);
    let domain = VecDomain(vec![
        DiscreteDomain::new(2).unwrap(),
        DiscreteDomain::new(5).unwrap(),
    ]);
    let point = domain.sample(&mut rng);
    assert_eq!(point.len(), 2);
    assert!(point[0] < 2);
    assert!(point[1] < 5);
}

#[test]
fn bool_space_encodes_and_decodes() {
    let space = Bool;
    assert_eq!(Categorical::size(&space), 2);
    assert_eq!(space.encode(&false), Ok(0));
    assert_eq!(space.encode(&true), Ok(1));
    assert_eq!(space.decode(0), Ok(false));
    assert_eq!(space.decode(1), Ok(true));
    assert_eq!(space.decode(2), Err(ErrorKind::InvalidInput));
}

#[test]
fn u64_space_is_the_identity_coding() {
    let space = U64::new(9);
    assert_eq!(Discrete::size(&space), 9);
    assert_eq!(space.encode(&4), Ok(4));
    assert_eq!(space.decode(4), Ok(4));

    let mut rng = StdRng::seed_from_u64(7);
    for _ in 0..100 {
        assert!(space.sample(&mut rng) < 9);
    }
}

#[test]
fn range_checks_its_bounds() {
    assert_eq!(Range::new(3u64, 3u64).unwrap_err(), ErrorKind::InvalidInput);
    assert_eq!(Range::new(4u64, 3u64).unwrap_err(), ErrorKind::InvalidInput);
    let range = Range::new(3u64, 6u64).unwrap();
    assert!(!range.contains(&2));
    assert!(range.contains(&3));
    assert!(range.contains(&5));
    assert!(!range.contains(&6));
}

#[test]
fn knn_record_converges_and_forgets() {
    let mut knn: KnnOptimizer<U64, u64> = KnnOptimizer::new(U64::new(10));
    assert_eq!(Discrete::size(knn.param_space()), 10);

    knn.tell(Obs { id: ObsId::new(0), param: 1, value: 5 });
    knn.tell(Obs { id: ObsId::new(1), param: 2, value: 6 });
    knn.tell(Obs { id: ObsId::new(0), param: 3, value: 7 });
    assert_eq!(knn.observations().len(), 2);
    assert_eq!(knn.observations()[0].param, 3);

    knn.forget(ObsId::new(0));
    assert_eq!(knn.observations().len(), 1);
    assert_eq!(knn.observations()[0].id.get(), 1);

    knn.forget(ObsId::new(9));
    assert_eq!(knn.observations().len(), 1);
}

#[test]
fn tournament_selector_needs_at_least_two() {
    assert_eq!(
        TournamentSelector::new(1).unwrap_err(),
        ErrorKind::InvalidInput
    );
    assert!(TournamentSelector::new(2).is_ok());
}

#[test]
fn random_generator_draws_from_the_domain() {
    let mut rng = StdRng::seed_from_u64(8);
    let domain = DiscreteDomain::new(4).unwrap();
    let mut generator = RandomGenerator;
    for _ in 0..50 {
        let point = generator.generate(&mut rng, &domain).unwrap();
        assert!(point < 4);
    }
}

#[test]
fn nsga2_strategy_bundles_its_operators() {
    let _strategy: Nsga2Strategy<DiscreteDomain, _, _, _, _> = Nsga2Strategy::new(
        RandomGenerator,
        TournamentSelector::new(3).unwrap(),
        (),
        (),
    );
}
