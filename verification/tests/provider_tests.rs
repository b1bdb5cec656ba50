use npc_generator::generation_base::GenerationBase;
use npc_generator::random_provider::RandomProvider;
use npc_generator::thread_based_random_provider::ThreadBasedRandomProvider;

#[test]
fn test_generate_with_zero_dices() {
    let provider = ThreadBasedRandomProvider {};
    let values = GenerationBase { base_value: 10, dices: vec![] };
    let result = provider.generate(&values);

    assert_eq!(result, 10);
}

#[test]
fn test_generate_with_single_dice() {
    let provider = ThreadBasedRandomProvider {};
    let values = GenerationBase { base_value: 5, dices: vec![6] };
    let result = provider.generate(&values);

    assert!(result >= 6 && result <= 11);
}

#[test]
fn test_generate_with_multiple_dices() {
    let provider = ThreadBasedRandomProvider {};
    let values = GenerationBase { base_value: 1, dices: vec![7, 8, 9] };
    let result = provider.generate(&values);

    assert!(result >= 4 && result <= 25);
}

#[test]
fn one_faced_die_is_deterministic() {
    let provider = ThreadBasedRandomProvider {};
    let values = GenerationBase { base_value: 0, dices: vec![1] };
    assert_eq!(provider.generate(&values), 1);
}

#[test]
fn two_faced_die_shows_both_faces() {
    let provider = ThreadBasedRandomProvider {};
    let values = GenerationBase { base_value: 0, dices: vec![2] };
    let mut seen_one = false;
    let mut seen_two = false;
    for _ in 0..200 {
        match provider.generate(&values) {
            1 => seen_one = true,
            2 => seen_two = true,
            other => panic!("a two-faced die rolled {}", other),
        }
    }
    assert!(seen_one && seen_two);
}

#[test]
fn generation_base_structural_equality() {
    let a = GenerationBase { base_value: 3, dices: vec![4, 6] };
    let b = GenerationBase { base_value: 3, dices: vec![4, 6] };
    let c = GenerationBase { base_value: 3, dices: vec![4] };
    assert!(a == b);
    assert!(a != c);
}
