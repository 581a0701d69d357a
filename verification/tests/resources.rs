use game_resources::resources::{ProducedResources, Resources, ResourcesError};

fn vector(counts: [u32; 8]) -> Resources {
    Resources {
        coins: counts[0],
        wood: counts[1],
        stone: counts[2],
        ore: counts[3],
        clay: counts[4],
        glass: counts[5],
        loom: counts[6],
        papyrus: counts[7],
    }
}

fn sum(a: &Resources, b: &Resources) -> Resources {
    let mut total = a.clone();
    assert_eq!(total.add_assign(b), Ok(()));
    total
}

#[test]
fn free_holds_nothing() {
    assert_eq!(Resources::free(), vector([0, 0, 0, 0, 0, 0, 0, 0]));
}

#[test]
fn default_is_free() {
    assert_eq!(Resources::default(), Resources::free());
}

#[test]
fn each_constructor_sets_its_own_kind_only() {
    assert_eq!(Resources::coins(5), vector([5, 0, 0, 0, 0, 0, 0, 0]));
    assert_eq!(Resources::wood(6), vector([0, 6, 0, 0, 0, 0, 0, 0]));
    assert_eq!(Resources::stone(7), vector([0, 0, 7, 0, 0, 0, 0, 0]));
    assert_eq!(Resources::ore(8), vector([0, 0, 0, 8, 0, 0, 0, 0]));
    assert_eq!(Resources::clay(9), vector([0, 0, 0, 0, 9, 0, 0, 0]));
    assert_eq!(Resources::glass(10), vector([0, 0, 0, 0, 0, 10, 0, 0]));
    assert_eq!(Resources::loom(11), vector([0, 0, 0, 0, 0, 0, 11, 0]));
    assert_eq!(Resources::papyrus(12), vector([0, 0, 0, 0, 0, 0, 0, 12]));
}

#[test]
fn constructors_take_the_largest_count() {
    assert_eq!(Resources::coins(u32::MAX).coins, u32::MAX);
    assert_eq!(Resources::papyrus(u32::MAX).papyrus, u32::MAX);
}

#[test]
fn constructor_of_zero_is_free() {
    assert_eq!(Resources::wood(0), Resources::free());
    assert_eq!(Resources::coins(0), Resources::free());
}

#[test]
fn clone_keeps_every_count() {
    let held = vector([1, 2, 3, 4, 5, 6, 7, 8]);
    assert_eq!(held.clone(), held);
}

#[test]
fn vectors_with_equal_counts_are_equal() {
    assert_eq!(vector([1, 2, 3, 4, 5, 6, 7, 8]), vector([1, 2, 3, 4, 5, 6, 7, 8]));
    assert_ne!(vector([1, 2, 3, 4, 5, 6, 7, 8]), vector([1, 2, 3, 4, 5, 6, 7, 9]));
}

#[test]
fn free_affords_free() {
    assert!(Resources::free().can_afford(&Resources::free()));
}

#[test]
fn every_vector_affords_free() {
    assert!(vector([1, 2, 3, 4, 5, 6, 7, 8]).can_afford(&Resources::free()));
    assert!(Resources::glass(1).can_afford(&Resources::free()));
    assert!(vector([u32::MAX; 8]).can_afford(&Resources::free()));
}

#[test]
fn a_vector_affords_itself() {
    let held = vector([3, 0, 1, 0, 2, 0, 0, 4]);
    assert!(held.can_afford(&held));
}

#[test]
fn free_affords_nothing_that_costs() {
    assert!(!Resources::free().can_afford(&Resources::coins(1)));
    assert!(!Resources::free().can_afford(&Resources::papyrus(1)));
}

#[test]
fn can_afford_scenario() {
    let available = vector([3, 2, 0, 0, 0, 1, 0, 0]);
    assert!(available.can_afford(&vector([2, 1, 0, 0, 0, 1, 0, 0])));
    assert!(!available.can_afford(&vector([2, 1, 1, 0, 0, 0, 0, 0])));
}

#[test]
fn one_missing_kind_is_enough_to_fail() {
    let available = Resources::wood(2);
    let cost = vector([0, 1, 1, 0, 0, 0, 0, 0]);
    assert!(!available.can_afford(&cost));
}

#[test]
fn each_kind_is_compared_on_its_own() {
    let available = vector([5, 5, 5, 5, 5, 5, 5, 5]);
    for kind in 0..8 {
        let mut exact = [0u32; 8];
        exact[kind] = 5;
        assert!(available.can_afford(&vector(exact)));
        let mut short = [5u32; 8];
        short[kind] = 6;
        assert!(!available.can_afford(&vector(short)));
    }
}

#[test]
fn two_vectors_may_each_fail_to_afford_the_other() {
    let wood = Resources::wood(1);
    let clay = Resources::clay(1);
    assert!(!wood.can_afford(&clay));
    assert!(!clay.can_afford(&wood));
}

#[test]
fn add_assign_sums_every_kind() {
    let mut held = vector([1, 2, 3, 4, 5, 6, 7, 8]);
    let gained = vector([10, 20, 30, 40, 50, 60, 70, 80]);
    assert_eq!(held.add_assign(&gained), Ok(()));
    assert_eq!(held, vector([11, 22, 33, 44, 55, 66, 77, 88]));
    assert_eq!(gained, vector([10, 20, 30, 40, 50, 60, 70, 80]));
}

#[test]
fn accumulation_keeps_affordability() {
    let mut held = vector([3, 2, 0, 0, 0, 1, 0, 0]);
    let cost = vector([2, 1, 0, 0, 0, 1, 0, 0]);
    assert!(held.can_afford(&cost));
    assert_eq!(held.add_assign(&vector([0, 0, 4, 0, 1, 0, 0, 9])), Ok(()));
    assert!(held.can_afford(&cost));
}

#[test]
fn accumulation_can_make_a_cost_affordable() {
    let mut held = Resources::wood(2);
    let cost = vector([0, 1, 1, 0, 0, 0, 0, 0]);
    assert!(!held.can_afford(&cost));
    assert_eq!(held.add_assign(&Resources::stone(1)), Ok(()));
    assert!(held.can_afford(&cost));
}

#[test]
fn accumulation_is_commutative() {
    let a = vector([1, 0, 3, 0, 5, 0, 7, 0]);
    let b = vector([0, 2, 9, 4, 0, 6, 1, 8]);
    assert_eq!(sum(&a, &b), sum(&b, &a));
    assert_eq!(sum(&a, &b), vector([1, 2, 12, 4, 5, 6, 8, 8]));
}

#[test]
fn accumulation_is_associative() {
    let a = vector([1, 0, 3, 0, 5, 0, 7, 0]);
    let b = vector([0, 2, 9, 4, 0, 6, 1, 8]);
    let c = vector([4, 4, 4, 4, 0, 0, 0, 1]);
    assert_eq!(sum(&sum(&a, &b), &c), sum(&a, &sum(&b, &c)));
    assert_eq!(sum(&sum(&a, &b), &c), vector([5, 6, 16, 8, 5, 6, 8, 9]));
}

#[test]
fn accumulating_free_changes_nothing() {
    let a = vector([1, 2, 3, 4, 5, 6, 7, 8]);
    assert_eq!(sum(&a, &Resources::free()), a);
    assert_eq!(sum(&Resources::free(), &a), a);
    let full = vector([u32::MAX; 8]);
    assert_eq!(sum(&full, &Resources::free()), full);
}

#[test]
fn coin_overflow_is_reported() {
    let mut held = Resources::coins(u32::MAX);
    assert_eq!(held.add_assign(&Resources::coins(1)), Err(ResourcesError::Overflow));
    assert_eq!(held, Resources::coins(u32::MAX));
}

#[test]
fn overflow_leaves_the_other_kinds_untouched() {
    let mut held = vector([u32::MAX - 1, 2, 3, 4, 5, 6, 7, 8]);
    let gained = vector([2, 1, 1, 1, 1, 1, 1, 1]);
    assert_eq!(held.add_assign(&gained), Err(ResourcesError::Overflow));
    assert_eq!(held, vector([u32::MAX - 1, 2, 3, 4, 5, 6, 7, 8]));
}

#[test]
fn overflow_of_any_kind_is_reported() {
    for kind in 0..8 {
        let mut counts = [1u32; 8];
        counts[kind] = u32::MAX;
        let mut held = vector(counts);
        let mut gained = [0u32; 8];
        gained[kind] = 1;
        assert_eq!(held.add_assign(&vector(gained)), Err(ResourcesError::Overflow));
        assert_eq!(held, vector(counts));
    }
}

#[test]
fn a_sum_of_exactly_the_largest_count_fits() {
    let mut held = vector([u32::MAX - 1; 8]);
    assert_eq!(held.add_assign(&vector([1; 8])), Ok(()));
    assert_eq!(held, vector([u32::MAX; 8]));
}

#[test]
fn produced_resources_hold_what_they_were_made_of() {
    let single = ProducedResources::Single(Resources::wood(1));
    assert!(matches!(single, ProducedResources::Single(ref only) if *only == Resources::wood(1)));
    let choice = ProducedResources::Choice(vec![Resources::wood(1), Resources::clay(1)]);
    match choice {
        ProducedResources::Choice(options) => {
            assert_eq!(options, vec![Resources::wood(1), Resources::clay(1)]);
        }
        ProducedResources::Single(_) => panic!("a choice was built"),
    }
}
